//! Browser profiles: named directories that isolate cookies and cache
//! between sessions.  The library validates names and decides the outcome
//! of create and delete requests; the caller touches the filesystem.

use vstd::prelude::*;
use vstd::string::*;
use std::path::PathBuf;
use crate::text::{char_is_alphanumeric, chars_of, decimal, is_alphanumeric, owned, push_str};
use crate::paths::{is_separator, joined_after, path_joined, path_text, plain_component};
use crate::text::ends_with_seq;

verus! {

/// Name of the directory that holds the profiles.
pub const PROFILES_DIR_NAME: &'static str = "profiles";

/// The longest profile name, in bytes.
pub const MAX_PROFILE_NAME_BYTES: usize = 64;

/// An error of a profile operation: a code and a message.
#[derive(Debug, Clone)]
pub struct ProfileError {
    pub code: String,
    pub message: String,
}

impl ProfileError {
    /// An error with the given code and message.
    pub fn new(code: &str, message: &str) -> (r: Self)
        ensures
            r.code@ == code@,
            r.message@ == message@,
    {
        ProfileError { code: owned(code), message: owned(message) }
    }

    /// `PROFILE_NOT_FOUND`: the profile does not exist.
    pub fn profile_not_found(name: &str) -> (r: Self)
        ensures
            r.code@ == "PROFILE_NOT_FOUND"@,
            r.message@ == "Profile '"@ + name@ + "' does not exist"@,
    {
        let mut m = owned("Profile '");
        push_str(&mut m, name);
        push_str(&mut m, "' does not exist");
        ProfileError { code: owned("PROFILE_NOT_FOUND"), message: m }
    }

    /// `PROFILE_EXISTS`: the profile already exists.
    pub fn profile_exists(name: &str) -> (r: Self)
        ensures
            r.code@ == "PROFILE_EXISTS"@,
            r.message@ == "Profile '"@ + name@ + "' already exists"@,
    {
        let mut m = owned("Profile '");
        push_str(&mut m, name);
        push_str(&mut m, "' already exists");
        ProfileError { code: owned("PROFILE_EXISTS"), message: m }
    }

    /// `INVALID_NAME`: the profile name is not acceptable.
    pub fn invalid_name(name: &str) -> (r: Self)
        ensures
            r.code@ == "INVALID_NAME"@,
            r.message@ == "Invalid profile name: '"@ + name@ + "'"@,
    {
        let mut m = owned("Invalid profile name: '");
        push_str(&mut m, name);
        push_str(&mut m, "'");
        ProfileError { code: owned("INVALID_NAME"), message: m }
    }

    /// `[code] message`, as the error displays.
    pub fn to_display_string(&self) -> (r: String)
        ensures
            r@ == "["@ + self.code@ + "] "@ + self.message@,
    {
        let mut r = owned("[");
        push_str(&mut r, self.code.as_str());
        push_str(&mut r, "] ");
        push_str(&mut r, self.message.as_str());
        r
    }
}

/// A profile: its name, its directory, and when it was listed or created
/// (seconds since the epoch, as text).
#[derive(Debug, Clone)]
pub struct ProfileInfo {
    pub name: String,
    pub path: String,
    pub created_at: Option<String>,
}

impl ProfileInfo {
    /// A profile record stamped with the current time.
    pub fn new(name: String, path: String) -> (r: Self)
        ensures
            r.name == name,
            r.path == path,
            r.created_at matches Some(c) && exists|secs: u64| c@ == decimal(secs as nat),
    {
        let secs = match crate::clock::system_time_since_epoch() {
            Some(t) => t.0,
            None => 0,
        };
        ProfileInfo { name, path, created_at: Some(crate::text::u64_to_string(secs)) }
    }
}

/// The characters a profile name may hold: alphanumerics, `_` and `-`.
pub open spec fn profile_name_char(c: char) -> bool {
    is_alphanumeric(c) || c == '_' || c == '-'
}

/// A valid profile name: 1 to 64 bytes of name characters.
pub open spec fn valid_profile_name(name: &str) -> bool {
    &&& name@.len() > 0
    &&& name.len() <= MAX_PROFILE_NAME_BYTES
    &&& forall|i: int| 0 <= i < name@.len() ==> profile_name_char(#[trigger] name@[i])
}

/// Manages the profile directories under a base directory.
pub struct ProfileManager {
    base_dir: PathBuf,
}

impl ProfileManager {
    /// A manager for the profiles under `base_dir`.
    pub fn new(base_dir: PathBuf) -> (r: Self)
        ensures
            r.base() == base_dir,
    {
        ProfileManager { base_dir }
    }

    /// The base directory.
    pub closed spec fn base(&self) -> PathBuf {
        self.base_dir
    }

    /// The base profiles directory.
    pub fn base_dir(&self) -> (r: &PathBuf)
        ensures
            *r == self.base(),
    {
        &self.base_dir
    }

    /// The directory of profile `name`: the base directory joined with the
    /// name.
    pub fn profile_path(&self, name: &str) -> (r: PathBuf)
        ensures
            r == path_joined(self.base(), name@),
            plain_component(name@) ==> ends_with_seq(path_text(r), name@),
            plain_component(name@) ==> joined_after(path_text(r), path_text(self.base()), name@),
    {
        crate::paths::path_join(&self.base_dir, name)
    }

    /// The folder where the browser keeps the data (cookies, cache) of
    /// profile `name`: its `userdata` subdirectory, as text.  It ends with
    /// `userdata`, and for a plain name with the name, a separator and
    /// `userdata`.
    pub fn user_data_folder(&self, name: &str) -> (r: String)
        ensures
            r@ == path_text(path_joined(path_joined(self.base(), name@), "userdata"@)),
            ends_with_seq(r@, "userdata"@),
            plain_component(name@) ==> exists|sep: char| is_separator(sep) && ends_with_seq(r@, name@ + seq![sep] + "userdata"@),
    {
        proof {
            reveal_strlit("userdata");
            let u = seq!['u', 's', 'e', 'r', 'd', 'a', 't', 'a'];
            assert("userdata"@ =~= u);
            assert(u.len() == 8 && u != seq!['.'] && u != seq!['.', '.']);
            assert(plain_component("userdata"@));
        }
        let dir = self.profile_path(name);
        let data = crate::paths::path_join(&dir, "userdata");
        crate::paths::path_to_string_lossy(&data)
    }

    /// Accepts a profile name of 1 to 64 bytes made of alphanumerics, `_`
    /// and `-`.
    pub fn validate_name(name: &str) -> (r: Result<(), ProfileError>)
        ensures
            r is Ok <==> valid_profile_name(name),
            r matches Err(e) ==> e.code@ == "INVALID_NAME"@ && e.message@ == "Invalid profile name: '"@ + name@ + "'"@,
    {
        if name.is_empty() || name.len() > MAX_PROFILE_NAME_BYTES {
            return Err(ProfileError::invalid_name(name));
        }
        let cs = chars_of(name);
        let mut i: usize = 0;
        while i < cs.len()
            invariant
                cs@ == name@,
                i <= cs@.len(),
                forall|k: int| 0 <= k < i ==> profile_name_char(#[trigger] cs@[k]),
            decreases cs@.len() - i,
        {
            let c = cs[i];
            if !(char_is_alphanumeric(c) || c == '_' || c == '-') {
                return Err(ProfileError::invalid_name(name));
            }
            i = i + 1;
        }
        Ok(())
    }

    /// The outcome of creating profile `name` when a profile directory of
    /// that name does (`exists`) or does not exist: the name must be valid
    /// and not taken.
    pub fn check_create(name: &str, exists: bool) -> (r: Result<(), ProfileError>)
        ensures
            !valid_profile_name(name) ==> (r matches Err(e) && e.code@ == "INVALID_NAME"@),
            valid_profile_name(name) && exists ==> (r matches Err(e) && e.code@ == "PROFILE_EXISTS"@
                && e.message@ == "Profile '"@ + name@ + "' already exists"@),
            r is Ok <==> valid_profile_name(name) && !exists,
    {
        Self::validate_name(name)?;
        if exists {
            return Err(ProfileError::profile_exists(name));
        }
        Ok(())
    }

    /// The outcome of deleting profile `name`: it must exist.
    pub fn check_delete(name: &str, exists: bool) -> (r: Result<(), ProfileError>)
        ensures
            r is Ok <==> exists,
            !exists ==> (r matches Err(e) && e.code@ == "PROFILE_NOT_FOUND"@
                && e.message@ == "Profile '"@ + name@ + "' does not exist"@),
    {
        if !exists {
            return Err(ProfileError::profile_not_found(name));
        }
        Ok(())
    }
}

impl crate::ordering::Named for ProfileInfo {
    open spec fn name_view(&self) -> Seq<char> {
        self.name@
    }

    fn name_str(&self) -> (r: &str) {
        self.name.as_str()
    }
}

/// A directory listed as a profile: its name does not start with `.`.
pub fn is_listed_profile(name: &str) -> (b: bool)
    ensures
        b == !(name@.len() > 0 && name@[0] == '.'),
{
    let cs = chars_of(name);
    !(cs.len() > 0 && cs[0] == '.')
}

/// The profiles in order of name, as they are listed.
pub fn sort_profiles(profiles: Vec<ProfileInfo>) -> (r: Vec<ProfileInfo>)
    ensures
        r@.to_multiset() == profiles@.to_multiset(),
        crate::ordering::sorted_by_name(r@),
{
    crate::ordering::sort_by_name::<ProfileInfo, Seq<char>>(profiles, Ghost(|p: ProfileInfo| p.name@))
}

} // verus!
