//! The registered accounts and the connections that each has been given.

use crate::api::ApiContext;
use crate::auth::MinecraftProfile;
use crate::ident::{new_v4, parse, uuid_parsed, Uuid};
use crate::server::Server;
use crate::version::{str_eq, Version};
use std::collections::hash_map::Entry;
use std::collections::HashMap;
use vstd::prelude::*;
use vstd::string::StringExecFns;

verus! {

broadcast use vstd::std_specs::hash::group_hash_axioms;

/// One connection that an account has been given: a server and the
/// protocol version to speak to it.
#[derive(Debug)]
pub struct ClientConnection {
    pub id: Uuid,
    pub version: Version,
    pub server: Server,
}

impl Clone for ClientConnection {
    fn clone(&self) -> (copy: Self)
        ensures
            copy == *self,
    {
        ClientConnection { id: self.id, version: self.version, server: self.server.clone() }
    }
}

impl ClientConnection {
    /// A connection of these three values.
    pub fn new(id: Uuid, version: Version, target: Server) -> (connection: Self)
        ensures
            connection == (ClientConnection { id, version, server: target }),
    {
        ClientConnection { id, version, server: target }
    }
}

/// How an account proves who it is.
#[derive(Debug, Clone, Copy, PartialEq, Eq, Structural)]
pub enum AuthType {
    Offline,
    Microsoft,
}

/// A registered account.
#[derive(Debug)]
pub struct Client {
    pub id: Uuid,
    pub username: String,
    pub uuid: Uuid,
    pub auth: AuthType,
    pub connections: HashMap<Uuid, ClientConnection>,
}

impl Client {
    /// Whether this is the account made of these four values, with no
    /// connections yet.
    pub open spec fn is_new(&self, id: Uuid, username: String, uuid: Uuid, auth: AuthType) -> bool {
        &&& self.id == id
        &&& self.username == username
        &&& self.uuid == uuid
        &&& self.auth == auth
        &&& self.connections@ == Map::<Uuid, ClientConnection>::empty()
    }

    /// An account of these four values, with no connections yet.
    pub fn new(id: Uuid, username: String, uuid: Uuid, auth: AuthType) -> (client: Self)
        ensures
            client.is_new(id, username, uuid, auth),
    {
        Client { id, username, uuid, auth, connections: HashMap::new() }
    }
}

/// Why a change to the registered accounts was refused.
#[derive(Debug)]
pub enum ClientError {
    /// An account of that display name is already registered.
    AlreadyExists(String),
    /// No account has the in-game UUID that this text was to name.
    NotFound(String),
}

impl ClientError {
    /// The message of this error.
    pub open spec fn message(&self) -> Seq<char> {
        match self {
            ClientError::AlreadyExists(name) => "Client "@ + name@ + " already exists"@,
            ClientError::NotFound(uuid) => "Client "@ + uuid@ + " does not exist"@,
        }
    }

    /// The message of this error.
    pub fn to_string(&self) -> (text: String)
        ensures
            text@ == self.message(),
    {
        match self {
            ClientError::AlreadyExists(name) => String::from_str("Client ").concat(
                name.as_str(),
            ).concat(" already exists"),
            ClientError::NotFound(uuid) => String::from_str("Client ").concat(
                uuid.as_str(),
            ).concat(" does not exist"),
        }
    }
}

/// The registered accounts, each under its account id.
#[derive(Debug)]
pub struct List(pub HashMap<Uuid, Client>);

impl View for List {
    type V = Map<Uuid, Client>;

    open spec fn view(&self) -> Map<Uuid, Client> {
        self.0@
    }
}

impl Default for List {
    fn default() -> (list: Self)
        ensures
            list.wf(),
            list@ == Map::<Uuid, Client>::empty(),
    {
        List::new()
    }
}

/// Whether some account among `accounts` has the display name `username`.
pub open spec fn has_username(accounts: Map<Uuid, Client>, username: Seq<char>) -> bool {
    exists|id: Uuid| accounts.contains_key(id) && #[trigger] accounts[id].username@ == username
}

/// Whether some account among `accounts` has the in-game UUID `mc_uuid`.
pub open spec fn has_mc_uuid(accounts: Map<Uuid, Client>, mc_uuid: Uuid) -> bool {
    exists|id: Uuid| accounts.contains_key(id) && #[trigger] accounts[id].uuid == mc_uuid
}

/// How an account of this profile proves who it is.
pub open spec fn auth_type_of(profile: MinecraftProfile) -> AuthType {
    if profile.authenticated {
        AuthType::Microsoft
    } else {
        AuthType::Offline
    }
}

impl List {
    /// The invariant of the register: every account is held under its own
    /// account id.
    pub open spec fn wf(&self) -> bool {
        forall|id: Uuid| self@.contains_key(id) ==> (#[trigger] self@[id]).id == id
    }

    /// Whether some account has the display name `username`.
    pub open spec fn has_username(&self, username: Seq<char>) -> bool {
        has_username(self@, username)
    }

    /// Whether some account has the in-game UUID `mc_uuid`.
    pub open spec fn has_mc_uuid(&self, mc_uuid: Uuid) -> bool {
        has_mc_uuid(self@, mc_uuid)
    }

    /// No accounts.
    pub fn new() -> (list: Self)
        ensures
            list.wf(),
            list@ == Map::<Uuid, Client>::empty(),
    {
        List(HashMap::new())
    }

    /// Whether every account is held under its own account id.
    pub fn is_wf(&self) -> (held: bool)
        ensures
            held == self.wf(),
    {
        for (id, client) in it: self.0.iter()
            invariant
                forall|i: int| 0 <= i < it.index() ==> (*it.seq()[i].1).id == *it.seq()[i].0,
                forall|k: Uuid| #[trigger]
                    self@.contains_key(k) ==> exists|i: int|
                        0 <= i < it.seq().len() && *it.seq()[i].0 == k && *it.seq()[i].1
                            == self@[k],
        {
            if client.id != *id {
                assert(self@.contains_key(*id) && self@[*id] == *client);
                return false;
            }
        }
        true
    }

    /// Whether some account has the in-game UUID `mc_uuid`.
    pub fn contains_uuid(&self, mc_uuid: &Uuid) -> (present: bool)
        ensures
            present == self.has_mc_uuid(*mc_uuid),
    {
        self.get_by_mc_uuid(mc_uuid).is_some()
    }

    /// An account with the display name `username`, if there is one. Where
    /// several have it, which of them is given is left open.
    pub fn get_by_username(&self, username: &str) -> (client: Option<&Client>)
        ensures
            match client {
                Some(c) => self@.contains_value(*c) && c.username@ == username@,
                None => !self.has_username(username@),
            },
    {
        for (id, client) in it: self.0.iter()
            invariant
                forall|i: int| 0 <= i < it.index() ==> (*it.seq()[i].1).username@ != username@,
        {
            if str_eq(client.username.as_str(), username) {
                assert(self@.contains_key(*id) && self@[*id] == *client);
                return Some(client);
            }
        }
        None
    }

    /// An account with the in-game UUID `mc_uuid`, if there is one. Where
    /// several have it, which of them is given is left open.
    pub fn get_by_mc_uuid(&self, mc_uuid: &Uuid) -> (client: Option<&Client>)
        ensures
            match client {
                Some(c) => self@.contains_value(*c) && c.uuid == *mc_uuid,
                None => !self.has_mc_uuid(*mc_uuid),
            },
    {
        for (id, client) in it: self.0.iter()
            invariant
                forall|i: int| 0 <= i < it.index() ==> (*it.seq()[i].1).uuid != *mc_uuid,
        {
            if client.uuid == *mc_uuid {
                assert(self@.contains_key(*id) && self@[*id] == *client);
                return Some(client);
            }
        }
        None
    }

    /// The account registered under `id`, if any.
    pub fn get_by_id(&self, id: &Uuid) -> (client: Option<&Client>)
        ensures
            match client {
                Some(c) => self@.contains_key(*id) && *c == self@[*id],
                None => !self@.contains_key(*id),
            },
    {
        self.0.get(id)
    }

    /// The account registered under `id`, if any, to be changed in place.
    pub fn get_mut_by_id(&mut self, id: &Uuid) -> (client: Option<&mut Client>)
        ensures
            match client {
                Some(c) => old(self)@.contains_key(*id) && *c == old(self)@[*id] && final(self)@
                    == old(self)@.insert(*id, *final(c)),
                None => !old(self)@.contains_key(*id) && final(self)@ == old(self)@,
            },
    {
        match self.0.entry(*id) {
            Entry::Occupied(entry) => Some(entry.into_mut()),
            Entry::Vacant(_) => None,
        }
    }
}

/// What the registration of `profile` under the account id `id` makes of
/// the register and answers: an account of a name that is taken is refused
/// and nothing changes; any other is held under `id` from then on.
pub open spec fn registration_outcome(
    before: List,
    after: List,
    profile: MinecraftProfile,
    id: Uuid,
    registered: Result<Uuid, ClientError>,
) -> bool {
    if has_username(before@, profile.username@) {
        &&& registered == Err::<Uuid, ClientError>(ClientError::AlreadyExists(profile.username))
        &&& after == before
    } else {
        &&& registered == Ok::<Uuid, ClientError>(id)
        &&& after@ == before@.insert(id, after@[id])
        &&& after@[id].is_new(id, profile.username, profile.uuid, auth_type_of(profile))
    }
}

/// Registers an account for `profile` under the account id `id`, unless an
/// account of its display name is registered already, in which case nothing
/// changes.
pub fn register_as(api: &mut ApiContext, profile: &MinecraftProfile, id: Uuid) -> (registered:
    Result<Uuid, ClientError>)
    requires
        old(api).wf(),
    ensures
        final(api).wf(),
        final(api).controllers == old(api).controllers,
        final(api).servers == old(api).servers,
        final(api).ongoing_auths == old(api).ongoing_auths,
        final(api).auth_cache == old(api).auth_cache,
        registration_outcome(old(api).clients, final(api).clients, *profile, id, registered),
{
    if api.clients.get_by_username(profile.username.as_str()).is_some() {
        return Err(ClientError::AlreadyExists(profile.username.clone()));
    }
    let auth = if profile.authenticated {
        AuthType::Microsoft
    } else {
        AuthType::Offline
    };
    api.clients.0.insert(id, Client::new(id, profile.username.clone(), profile.uuid, auth));
    Ok(id)
}

/// Registers an account for `profile` under a random account id, which it
/// returns, unless an account of its display name is registered already, in
/// which case nothing changes.
pub fn register(api: &mut ApiContext, profile: &MinecraftProfile) -> (registered: Result<
    Uuid,
    ClientError,
>)
    requires
        old(api).wf(),
    ensures
        final(api).wf(),
        final(api).controllers == old(api).controllers,
        final(api).servers == old(api).servers,
        final(api).ongoing_auths == old(api).ongoing_auths,
        final(api).auth_cache == old(api).auth_cache,
        exists|id: Uuid| #[trigger]
            registration_outcome(old(api).clients, final(api).clients, *profile, id, registered),
{
    let id = new_v4();
    register_as(api, profile, id)
}

/// After an account has been registered, a second registration under the
/// same display name is refused, whatever else it brings, and leaves the
/// register as the first one left it.
pub proof fn lemma_second_registration_refused(
    start: List,
    middle: List,
    end: List,
    first: MinecraftProfile,
    second: MinecraftProfile,
    first_id: Uuid,
    second_id: Uuid,
    first_answer: Result<Uuid, ClientError>,
    second_answer: Result<Uuid, ClientError>,
)
    requires
        registration_outcome(start, middle, first, first_id, first_answer),
        registration_outcome(middle, end, second, second_id, second_answer),
        first_answer is Ok,
        second.username@ == first.username@,
    ensures
        second_answer == Err::<Uuid, ClientError>(ClientError::AlreadyExists(second.username)),
        end == middle,
{
    assert(middle@.contains_key(first_id) && middle@[first_id].username@ == first.username@);
}

/// The in-game UUID that `text` names; the nil UUID where it names none.
pub open spec fn named_uuid(text: Seq<char>) -> Uuid {
    match uuid_parsed(text) {
        Some(uuid) => uuid,
        None => 0,
    }
}

/// Takes an account with the in-game UUID that `uuid` names off the
/// register. Where no account has it, nothing changes.
pub fn unregister(api: &mut ApiContext, uuid: String) -> (done: Result<(), ClientError>)
    requires
        old(api).wf(),
    ensures
        final(api).wf(),
        final(api).controllers == old(api).controllers,
        final(api).servers == old(api).servers,
        final(api).ongoing_auths == old(api).ongoing_auths,
        final(api).auth_cache == old(api).auth_cache,
        done is Ok <==> has_mc_uuid(old(api).clients@, named_uuid(uuid@)),
        match done {
            Ok(_) => exists|key: Uuid|
                old(api).clients@.contains_key(key) && #[trigger] old(api).clients@[key].uuid
                    == named_uuid(uuid@) && final(api).clients@ == old(api).clients@.remove(key),
            Err(error) => error == ClientError::NotFound(uuid) && final(api).clients == old(api).clients,
        },
{
    let target: Uuid = match parse(uuid.as_str()) {
        Ok(id) => id,
        Err(_) => 0,
    };
    let client_id: Option<Uuid> = match api.clients.get_by_mc_uuid(&target) {
        Some(client) => Some(client.id),
        None => None,
    };
    match client_id {
        Some(id) => {
            api.clients.0.remove(&id);
            Ok(())
        },
        None => Err(ClientError::NotFound(uuid)),
    }
}

} // verus!
