//! Events pushed to WebSocket clients, their time stamps, and the registry of
//! connected clients with the sessions each one follows.

use vstd::prelude::*;

use crate::clock::system_time_since_epoch;
use crate::table::{Keyed, Table};
use crate::text::{decimal, decimal_padded, push_char, push_decimal, push_decimal_padded};

verus! {

/// An event sent over the WebSocket.
#[derive(Debug, Clone)]
pub enum WbpEvent {
    /// A DOM mutation (`added`, `removed`, `modified`).
    DomChange { session: String, selector: Option<String>, change_type: String, timestamp: String },
    /// A navigation (`started`, `completed`, `failed`).
    Navigation { session: String, url: String, status: String, timestamp: String },
    /// A session state change (`ready`, `busy`, `error`, `closed`).
    SessionState { session: String, state: String, timestamp: String },
    /// An error.
    Error { session: String, code: String, message: String, timestamp: String },
    /// A wait condition was met or gave up.
    WaitComplete {
        session: String,
        selector: String,
        condition: String,
        success: bool,
        elapsed_ms: u64,
        timestamp: String,
    },
    /// Sent once when a client connects.
    Connected { client_id: String, timestamp: String },
    /// Heartbeat.
    Ping { timestamp: String },
}

/// An event time stamp: whole seconds since the epoch, a dot, three digits
/// of milliseconds and `Z` (`1234567890.123Z`).
pub open spec fn event_stamp_text(secs: nat, millis: nat) -> Seq<char> {
    decimal(secs) + "."@ + decimal_padded(millis, 3) + "Z"@
}

impl WbpEvent {
    /// The time stamp for a moment given as seconds and nanoseconds since
    /// the epoch.
    pub fn timestamp_at(secs: u64, nanos: u32) -> (r: String)
        requires
            nanos < 1_000_000_000,
        ensures
            r@ == event_stamp_text(secs as nat, (nanos / 1_000_000) as nat),
    {
        proof {
            reveal_strlit(".");
            reveal_strlit("Z");
        }
        let mut r = String::new();
        push_decimal(&mut r, secs);
        push_char(&mut r, '.');
        push_decimal_padded(&mut r, (nanos / 1_000_000) as u64, 3);
        push_char(&mut r, 'Z');
        assert(r@ =~= event_stamp_text(secs as nat, (nanos / 1_000_000) as nat));
        r
    }

    /// The time stamp for now; the epoch itself when the clock reads a time
    /// before it.
    pub fn timestamp() -> (r: String)
        ensures
            exists|secs: nat, millis: nat| millis < 1000 && r@ == event_stamp_text(secs, millis),
    {
        let (secs, nanos) = match system_time_since_epoch() {
            Some(t) => t,
            None => (0, 0),
        };
        let r = Self::timestamp_at(secs, nanos);
        assert(r@ == event_stamp_text(secs as nat, (nanos / 1_000_000) as nat));
        r
    }
}

/// A connected WebSocket client.
#[derive(Debug, Clone)]
pub struct ClientInfo {
    pub id: String,
    pub subscribed_sessions: Vec<String>,
    pub connected_at: String,
}

impl Keyed for ClientInfo {
    open spec fn key_view(&self) -> Seq<char> {
        self.id@
    }

    fn key_str(&self) -> (r: &str) {
        self.id.as_str()
    }
}

/// `after` is `before` with `id` registered as following `sessions`: the
/// other clients are unchanged.
pub open spec fn registered(
    before: Map<Seq<char>, ClientInfo>,
    after: Map<Seq<char>, ClientInfo>,
    id: Seq<char>,
    sessions: Seq<String>,
) -> bool {
    &&& after.dom() == before.dom().insert(id)
    &&& forall|k: Seq<char>| k != id && before.contains_key(k) ==> after[k] == before[k]
    &&& after[id].id@ == id
    &&& after[id].subscribed_sessions@ == sessions
}

/// The connected clients, by id.
pub struct ClientRegistry {
    pub clients: Table<ClientInfo>,
}

impl ClientRegistry {
    /// Well-formedness: client ids are distinct.
    pub open spec fn wf(&self) -> bool {
        self.clients.wf()
    }

    /// No clients.
    pub fn new() -> (r: Self)
        ensures
            r.wf(),
            r.clients@ == Map::<Seq<char>, ClientInfo>::empty(),
    {
        ClientRegistry { clients: Table::new() }
    }

    /// Registers `client_id` as following `sessions`, connected now; a
    /// client registered before is replaced.
    pub fn register_client(&mut self, client_id: &str, sessions: Vec<String>)
        requires
            old(self).wf(),
        ensures
            final(self).wf(),
            registered(old(self).clients@, final(self).clients@, client_id@, sessions@),
    {
        let info = ClientInfo {
            id: crate::text::owned(client_id),
            subscribed_sessions: sessions,
            connected_at: WbpEvent::timestamp(),
        };
        self.clients.insert(info);
    }

    /// Forgets `client_id`.
    pub fn unregister_client(&mut self, client_id: &str)
        requires
            old(self).wf(),
        ensures
            final(self).wf(),
            final(self).clients@ == old(self).clients@.remove(client_id@),
    {
        self.clients.remove(client_id);
    }

    /// The number of connected clients.
    pub fn client_count(&self) -> (n: usize)
        requires
            self.wf(),
        ensures
            n == self.clients@.dom().len(),
    {
        self.clients.len()
    }
}

/// Registering a client that was not connected and then unregistering it
/// gives back the registry as it was.
pub proof fn law_unregister_undoes_register(
    before: Map<Seq<char>, ClientInfo>,
    after: Map<Seq<char>, ClientInfo>,
    id: Seq<char>,
    sessions: Seq<String>,
)
    requires
        !before.contains_key(id),
        registered(before, after, id, sessions),
    ensures
        after.remove(id) == before,
{
    assert(after.remove(id) =~= before);
}

} // verus!
