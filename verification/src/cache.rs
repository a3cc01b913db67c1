//! The credential cache: what a completed login left behind, kept under the
//! login key that the caller chose, to be used again until it expires and
//! refreshed after that.

use crate::auth::{AuthState, AuthStateView, MinecraftProfile, MsaToken};
use crate::ident::Uuid;
use crate::string_map::StringMap;
use std::time::{Duration, SystemTime, SystemTimeError};
use vstd::prelude::*;
use vstd::string::StringExecFns;

verus! {

#[verifier::external_type_specification]
#[verifier::external_body]
pub struct ExSystemTime(SystemTime);

#[verifier::external_type_specification]
#[verifier::external_body]
pub struct ExSystemTimeError(SystemTimeError);

/// Calls `std::time::SystemTime::now`: the time on the system clock.
#[verifier::external_body]
fn system_now() -> SystemTime {
    SystemTime::now()
}

/// Calls `std::time::SystemTime::duration_since` with
/// `std::time::UNIX_EPOCH`: how far `time` is past the epoch, or an error
/// where it is before it.
#[verifier::external_body]
fn since_epoch(time: &SystemTime) -> Result<Duration, SystemTimeError> {
    time.duration_since(std::time::UNIX_EPOCH)
}

/// Calls `std::time::Duration::as_secs`.
#[verifier::external_body]
fn whole_secs(span: &Duration) -> u64 {
    span.as_secs()
}

/// The wall-clock time in seconds since the epoch; zero on a clock that is
/// set before it.
pub fn unix_now() -> u64 {
    let now = system_now();
    match since_epoch(&now) {
        Ok(span) => whole_secs(&span),
        Err(_) => 0,
    }
}

/// One cached login.
#[derive(Debug)]
pub struct MinecraftAuthCache {
    pub access_token: String,
    /// When the access token expires, in seconds since the epoch.
    pub expiration: u64,
    pub msa: MsaToken,
    pub profile: MinecraftProfile,
}

impl Clone for MinecraftAuthCache {
    fn clone(&self) -> (copy: Self)
        ensures
            copy == *self,
    {
        MinecraftAuthCache {
            access_token: self.access_token.clone(),
            expiration: self.expiration,
            msa: self.msa.clone(),
            profile: self.profile.clone(),
        }
    }
}

impl MinecraftAuthCache {
    /// Whether the access token has expired at the time `now`, in seconds
    /// since the epoch. At the very second of expiration it has not.
    #[verifier::when_used_as_spec(spec_is_expired)]
    pub fn is_expired(&self, now: u64) -> (expired: bool)
        ensures
            expired == (self.expiration < now),
    {
        self.expiration < now
    }

    /// Whether the access token has expired at the time `now`.
    pub open spec fn spec_is_expired(&self, now: u64) -> bool {
        self.expiration < now
    }

    /// Whether the access token has expired by the system clock.
    pub fn has_expired(&self) -> (expired: bool)
        ensures
            exists|now: u64| expired == #[trigger] self.is_expired(now),
    {
        let now = unix_now();
        let expired = self.is_expired(now);
        assert(expired == self.is_expired(now));
        expired
    }

    /// The record after a refresh: access token, expiration and refresh
    /// material are those of the new token; the profile stays.
    pub fn refreshed(&self, msa: MsaToken) -> (record: Self)
        ensures
            record == (MinecraftAuthCache {
                access_token: msa.access_token,
                expiration: msa.expires_at,
                msa,
                profile: self.profile,
            }),
    {
        MinecraftAuthCache {
            access_token: msa.access_token.clone(),
            expiration: msa.expires_at,
            msa,
            profile: self.profile.clone(),
        }
    }
}

/// A record that expired a second before `now` is expired, and one that
/// expires at `now` is not.
pub proof fn lemma_expiry_boundary(record: MinecraftAuthCache, now: u64)
    ensures
        record.is_expired(now) <==> record.expiration < now,
        record.expiration == now ==> !record.is_expired(now),
        now > 0 && record.expiration == now - 1 ==> record.is_expired(now),
{
}

/// The cached logins, each under its login key.
#[derive(Debug)]
pub struct AuthCache(pub StringMap<MinecraftAuthCache>);

impl View for AuthCache {
    type V = Map<Seq<char>, MinecraftAuthCache>;

    open spec fn view(&self) -> Map<Seq<char>, MinecraftAuthCache> {
        self.0@
    }
}

impl AuthCache {
    /// The invariant of the cache.
    pub open spec fn wf(&self) -> bool {
        self.0.wf()
    }

    /// Whether some record is of the profile `uuid`.
    pub open spec fn has_profile(&self, uuid: Uuid) -> bool {
        exists|key: Seq<char>| self@.contains_key(key) && #[trigger] self@[key].profile.uuid == uuid
    }

    /// An empty cache.
    pub fn new() -> (cache: Self)
        ensures
            cache.wf(),
            cache@ == Map::<Seq<char>, MinecraftAuthCache>::empty(),
    {
        AuthCache(StringMap::new())
    }

    /// The place of the first record of the profile `uuid`, if there is one.
    fn find(&self, uuid: &Uuid) -> (place: Option<usize>)
        requires
            self.wf(),
        ensures
            match place {
                Some(i) => i < self.0.values().len() && self.0.values()[i as int].profile.uuid
                    == *uuid && self.has_profile(*uuid) && forall|j: int|
                    0 <= j < i ==> self.0.values()[j].profile.uuid != *uuid,
                None => !self.has_profile(*uuid),
            },
    {
        proof {
            self.0.lemma_consistent();
        }
        let count = self.0.len();
        let mut i: usize = 0;
        while i < count
            invariant
                self.wf(),
                self.0.consistent(),
                count == self.0.values().len(),
                i <= count,
                forall|j: int| 0 <= j < i ==> self.0.values()[j].profile.uuid != *uuid,
            decreases count - i,
        {
            if self.0.value_at(i).profile.uuid == *uuid {
                assert(self@.contains_key(self.0.keys()[i as int]));
                return Some(i);
            }
            i = i + 1;
        }
        assert(!self.has_profile(*uuid)) by {
            if self.has_profile(*uuid) {
                let key = choose|key: Seq<char>|
                    self@.contains_key(key) && #[trigger] self@[key].profile.uuid == *uuid;
                assert(self.0.keys().contains(key));
                let j = choose|j: int| 0 <= j < self.0.keys().len() && self.0.keys()[j] == key;
                assert(self@[self.0.keys()[j]] == self.0.values()[j]);
            }
        }
        None
    }

    /// A record of the profile `uuid`, if there is one: the first in walking
    /// order.
    pub fn get_from_mc_uuid(&self, uuid: &Uuid) -> (record: Option<&MinecraftAuthCache>)
        requires
            self.wf(),
        ensures
            record is Some <==> self.has_profile(*uuid),
            match record {
                Some(r) => r.profile.uuid == *uuid && self@.contains_value(*r) && exists|i: int|
                    0 <= i < self.0.values().len() && #[trigger] self.0.values()[i] == *r
                        && forall|j: int| 0 <= j < i ==> self.0.values()[j].profile.uuid != *uuid,
                None => true,
            },
    {
        proof {
            self.0.lemma_consistent();
        }
        match self.find(uuid) {
            Some(i) => {
                let record = self.0.value_at(i);
                assert(self@.contains_key(self.0.keys()[i as int]));
                assert(self.0.values()[i as int] == *record);
                Some(record)
            },
            None => None,
        }
    }

    /// The login key of a record of the profile `uuid`, if there is one: of
    /// the first in walking order.
    pub fn get_key_from_mc_uuid(&self, uuid: &Uuid) -> (key: Option<&String>)
        requires
            self.wf(),
        ensures
            key is Some <==> self.has_profile(*uuid),
            match key {
                Some(k) => self@.contains_key(k@) && self@[k@].profile.uuid == *uuid && exists|
                    i: int,
                |
                    0 <= i < self.0.keys().len() && #[trigger] self.0.keys()[i] == k@ && forall|
                        j: int,
                    |
                        0 <= j < i ==> self.0.values()[j].profile.uuid != *uuid,
                None => true,
            },
    {
        proof {
            self.0.lemma_consistent();
        }
        match self.find(uuid) {
            Some(i) => {
                let key = self.0.key_at(i);
                assert(self@.contains_key(self.0.keys()[i as int]));
                assert(self.0.keys()[i as int] == key@);
                Some(key)
            },
            None => None,
        }
    }
}

/// A login state as it is shown: the name of its kind and its message.
#[derive(Debug)]
pub struct AuthProgress {
    pub state: String,
    pub message: String,
}

impl AuthProgress {
    /// The name of the kind of a state.
    pub open spec fn kind_name(state: AuthStateView) -> Seq<char> {
        match state {
            AuthStateView::Working(_) => "Working"@,
            AuthStateView::Success(_) => "Success"@,
            AuthStateView::Error(_) => "Error"@,
        }
    }

    /// The message that a state carries.
    pub open spec fn carried(state: AuthStateView) -> Seq<char> {
        match state {
            AuthStateView::Working(message) => message,
            AuthStateView::Success(message) => message,
            AuthStateView::Error(message) => message,
        }
    }
}

impl AuthProgress {
    /// A state as it is shown.
    pub fn from(value: &AuthState) -> (progress: Self)
        ensures
            progress.state@ == Self::kind_name(value@),
            progress.message@ == Self::carried(value@),
    {
        match value {
            AuthState::Working(message) => AuthProgress {
                state: String::from_str("Working"),
                message: message.clone(),
            },
            AuthState::Success(message) => AuthProgress {
                state: String::from_str("Success"),
                message: message.clone(),
            },
            AuthState::Error(message) => AuthProgress {
                state: String::from_str("Error"),
                message: message.clone(),
            },
        }
    }
}

/// What the user is shown to confirm a login.
#[derive(Debug)]
pub struct AuthCredentials {
    pub uri: String,
    pub code: String,
}

} // verus!
