//! Command-line options of the server and the API token it generates.

use vstd::prelude::*;

use crate::clock::{parse_u64, parse_u64_spec};
use crate::text::{push_char, str_eq};

verus! {

/// What the command line asks for.
#[derive(Debug, Clone, PartialEq, Eq)]
pub enum CliOutcome {
    /// Print the usage text and stop.
    Help,
    /// Run, with the bind address and port given on the command line, if
    /// any (the configuration file supplies the others).
    Run { bind: Option<String>, port: Option<u16> },
    /// Stop: this bind address does not parse.
    InvalidBind(String),
    /// Stop: this port number does not parse.
    InvalidPort(String),
}

/// The spec value of a command-line outcome.
pub enum CliView {
    Help,
    Run(Option<Seq<char>>, Option<u16>),
    InvalidBind(Seq<char>),
    InvalidPort(Seq<char>),
}

/// The view of a command-line outcome.
pub open spec fn cli_view(o: CliOutcome) -> CliView {
    match o {
        CliOutcome::Help => CliView::Help,
        CliOutcome::Run { bind, port } => CliView::Run(
            match bind {
                Some(b) => Some(b@),
                None => None,
            },
            port,
        ),
        CliOutcome::InvalidBind(b) => CliView::InvalidBind(b@),
        CliOutcome::InvalidPort(p) => CliView::InvalidPort(p@),
    }
}

/// A port number as `u16::from_str` reads it: a decimal number (optionally
/// after `+`) that fits in 16 bits.
pub open spec fn parse_port_spec(s: Seq<char>) -> Option<u16> {
    match parse_u64_spec(s) {
        Some(n) => if n <= u16::MAX {
            Some(n as u16)
        } else {
            None
        },
        None => None,
    }
}

/// Reads a port number.
pub fn parse_port(s: &str) -> (r: Option<u16>)
    ensures
        r == parse_port_spec(s@),
{
    match parse_u64(s) {
        Some(n) => if n <= 65535 {
            Some(n as u16)
        } else {
            None
        },
        None => None,
    }
}

/// The outcome of reading the arguments from position `i` on, with the
/// bind address and port read so far; `ip_ok[k]` tells whether argument `k`
/// parses as an IP address.  Options are read left to right: `--help` or
/// `-h` stops, `--bind` and `--port` take the next argument (and are
/// ignored when it is missing), the first value that does not parse stops,
/// and anything else is skipped.
pub open spec fn cli_from(
    args: Seq<Seq<char>>,
    ip_ok: Seq<bool>,
    i: int,
    bind: Option<Seq<char>>,
    port: Option<u16>,
) -> CliView
    decreases args.len() - i,
{
    if i >= args.len() || i < 0 {
        CliView::Run(bind, port)
    } else if args[i] == "--help"@ || args[i] == "-h"@ {
        CliView::Help
    } else if args[i] == "--bind"@ && i + 1 < args.len() {
        if ip_ok[i + 1] {
            cli_from(args, ip_ok, i + 2, Some(args[i + 1]), port)
        } else {
            CliView::InvalidBind(args[i + 1])
        }
    } else if args[i] == "--port"@ && i + 1 < args.len() {
        match parse_port_spec(args[i + 1]) {
            Some(p) => cli_from(args, ip_ok, i + 2, bind, Some(p)),
            None => CliView::InvalidPort(args[i + 1]),
        }
    } else {
        cli_from(args, ip_ok, i + 1, bind, port)
    }
}

/// Reads the command line (`args[0]` is the program); `ip_ok[k]` tells
/// whether `args[k]` parses as an IP address.
pub fn parse_cli(args: &Vec<String>, ip_ok: &Vec<bool>) -> (r: CliOutcome)
    requires
        ip_ok@.len() == args@.len(),
    ensures
        cli_view(r) == cli_from(args@.map_values(|a: String| a@), ip_ok@, 1, None, None),
{
    let ghost av = args@.map_values(|a: String| a@);
    let mut bind: Option<String> = None;
    let mut port: Option<u16> = None;
    let mut i: usize = 1;
    while i < args.len()
        invariant
            av == args@.map_values(|a: String| a@),
            ip_ok@.len() == args@.len(),
            1 <= i,
            cli_from(av, ip_ok@, 1, None, None) == cli_from(
                av,
                ip_ok@,
                i as int,
                match bind {
                    Some(b) => Some(b@),
                    None => None::<Seq<char>>,
                },
                port,
            ),
        decreases args@.len() - i,
    {
        let a = args[i].as_str();
        assert(av[i as int] == a@);
        if str_eq(a, "--help") || str_eq(a, "-h") {
            return CliOutcome::Help;
        } else if str_eq(a, "--bind") && i + 1 < args.len() {
            assert(av[i + 1] == args@[i + 1]@);
            if ip_ok[i + 1] {
                bind = Some(args[i + 1].clone());
                i = i + 2;
            } else {
                return CliOutcome::InvalidBind(args[i + 1].clone());
            }
        } else if str_eq(a, "--port") && i + 1 < args.len() {
            assert(av[i + 1] == args@[i + 1]@);
            match parse_port(args[i + 1].as_str()) {
                Some(p) => {
                    port = Some(p);
                    i = i + 2;
                },
                None => {
                    return CliOutcome::InvalidPort(args[i + 1].clone());
                },
            }
        } else {
            i = i + 1;
        }
    }
    CliOutcome::Run { bind, port }
}

/// The characters an API token is made of.
pub const TOKEN_CHARSET: &'static str = "abcdefghijklmnopqrstuvwxyzABCDEFGHIJKLMNOPQRSTUVWXYZ0123456789";

/// The length of an API token.
pub const TOKEN_LENGTH: usize = 32;

/// A number drawn uniformly below `n` from the thread's random generator
/// (`rand::Rng::gen_range(0..n)` on `rand::thread_rng()`).  Of the result
/// only its range is stated: it is random.
#[verifier::external_body]
fn random_below(n: usize) -> (r: usize)
    requires
        n > 0,
    ensures
        r < n,
{
    rand::Rng::gen_range(&mut rand::thread_rng(), 0..n)
}

/// A random API token: 32 letters and digits.
pub fn generate_auth_token() -> (r: String)
    ensures
        r@.len() == TOKEN_LENGTH,
        forall|i: int| 0 <= i < r@.len() ==> TOKEN_CHARSET@.contains(#[trigger] r@[i]),
{
    let charset = crate::text::chars_of(TOKEN_CHARSET);
    proof {
        reveal_strlit("abcdefghijklmnopqrstuvwxyzABCDEFGHIJKLMNOPQRSTUVWXYZ0123456789");
    }
    let mut r = String::new();
    let mut k: usize = 0;
    while k < TOKEN_LENGTH
        invariant
            charset@ == TOKEN_CHARSET@,
            charset@.len() == 62,
            k <= TOKEN_LENGTH,
            r@.len() == k,
            forall|i: int| 0 <= i < r@.len() ==> TOKEN_CHARSET@.contains(#[trigger] r@[i]),
        decreases TOKEN_LENGTH - k,
    {
        let idx = random_below(charset.len());
        let c = charset[idx];
        assert(TOKEN_CHARSET@[idx as int] == c);
        push_char(&mut r, c);
        k = k + 1;
    }
    r
}

} // verus!
