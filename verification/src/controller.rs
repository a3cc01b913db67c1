//! The controllers: one per account, each holding the instances of that
//! account, and the registry that holds the controllers.

use crate::api::ApiContext;
use crate::auth::{MinecraftProfile, MsaToken};
use crate::cache::MinecraftAuthCache;
use crate::ident::{new_v4, to_text, uuid_text, Uuid};
use crate::instance::ClientInstance;
use crate::server::Server;
use crate::version::Version;
use std::collections::hash_map::Entry;
use std::collections::HashMap;
use vstd::prelude::*;
use vstd::string::StringExecFns;

verus! {

broadcast use vstd::std_specs::hash::group_hash_axioms;

/// What an account connects with.
#[derive(Debug)]
pub enum AuthProtocol {
    /// Nothing but a name.
    Offline(String),
    /// An access token, the Microsoft token behind it, and the profile.
    Microsoft(String, MsaToken, MinecraftProfile),
}

impl Clone for AuthProtocol {
    fn clone(&self) -> (copy: Self)
        ensures
            copy == *self,
    {
        match self {
            AuthProtocol::Offline(username) => AuthProtocol::Offline(username.clone()),
            AuthProtocol::Microsoft(token, msa, profile) => AuthProtocol::Microsoft(
                token.clone(),
                msa.clone(),
                profile.clone(),
            ),
        }
    }
}

/// Why a controller could not be made.
#[derive(Debug, Clone, Copy, PartialEq, Eq, Structural)]
pub enum ControllerError {
    /// No account is registered under this id.
    UnknownClient(Uuid),
}

impl ControllerError {
    /// The message of this error.
    pub open spec fn message(&self) -> Seq<char> {
        match self {
            ControllerError::UnknownClient(id) => "Could not find client "@ + uuid_text(*id)
                + " in local client register."@,
        }
    }

    /// The message of this error.
    pub fn to_string(&self) -> (text: String)
        ensures
            text@ == self.message(),
    {
        match self {
            ControllerError::UnknownClient(id) => String::from_str("Could not find client ").concat(
                to_text(*id).as_str(),
            ).concat(" in local client register."),
        }
    }
}

/// The instances of one account.
#[derive(Debug)]
pub struct ClientController {
    pub id: Uuid,
    pub username: String,
    pub uuid: Uuid,
    pub auth: AuthProtocol,
    pub instances: HashMap<Uuid, ClientInstance>,
}

impl ClientController {
    /// Whether the controller is of this account. Its instances are left
    /// open.
    pub open spec fn is_of(&self, id: Uuid, username: String, uuid: Uuid, auth: AuthProtocol) -> bool {
        &&& self.id == id
        &&& self.username == username
        &&& self.uuid == uuid
        &&& self.auth == auth
    }

    /// Whether this is the controller of the offline account named
    /// `username`, without instances.
    pub open spec fn is_offline(&self, id: Uuid, username: String) -> bool {
        &&& self.is_of(
            id,
            username,
            crate::auth::offline_uuid(username@),
            AuthProtocol::Offline(username),
        )
        &&& self.instances@ == Map::<Uuid, ClientInstance>::empty()
    }

    /// Whether all but the instances is as in `before`.
    pub open spec fn same_account(&self, before: &Self) -> bool {
        self.is_of(before.id, before.username, before.uuid, before.auth)
    }

    /// Whether `instance` is a new instance of this account, under `id`, for
    /// `server` and `version`.
    pub open spec fn owns_new(
        &self,
        instance: ClientInstance,
        id: Uuid,
        server: Server,
        version: Option<Version>,
    ) -> bool {
        instance.is_new(id, self.username, self.uuid, self.auth, server, version)
    }

    /// A controller without instances.
    pub fn new(id: Uuid, username: String, uuid: Uuid, auth: AuthProtocol) -> (controller: Self)
        ensures
            controller.is_of(id, username, uuid, auth),
            controller.instances@ == Map::<Uuid, ClientInstance>::empty(),
    {
        ClientController { id, username, uuid, auth, instances: HashMap::new() }
    }

    /// The controller of a registered account that logs in with a cached
    /// credential, with one new instance for each connection that the
    /// account has been given, under the connection's id.
    pub fn new_cached(api: &ApiContext, client_id: &Uuid, auth_cache: &MinecraftAuthCache) -> (made:
        Result<Self, ControllerError>)
        ensures
            match made {
                Ok(controller) => {
                    &&& api.clients@.contains_key(*client_id)
                    &&& controller.is_of(
                        *client_id,
                        auth_cache.profile.username,
                        auth_cache.profile.uuid,
                        AuthProtocol::Microsoft(
                            auth_cache.access_token,
                            auth_cache.msa,
                            auth_cache.profile,
                        ),
                    )
                    &&& controller.instances@.dom() == api.clients@[*client_id].connections@.dom()
                    &&& forall|key: Uuid| #[trigger]
                        controller.instances@.contains_key(key) ==> controller.owns_new(
                            controller.instances@[key],
                            key,
                            api.clients@[*client_id].connections@[key].server,
                            Some(api.clients@[*client_id].connections@[key].version),
                        )
                },
                Err(error) => !api.clients@.contains_key(*client_id) && error
                    == ControllerError::UnknownClient(*client_id),
            },
    {
        let client = match api.clients.get_by_id(client_id) {
            Some(client) => client,
            None => {
                return Err(ControllerError::UnknownClient(*client_id));
            },
        };
        let profile = &auth_cache.profile;
        let mut controller = ClientController::new(
            *client_id,
            profile.username.clone(),
            profile.uuid,
            AuthProtocol::Microsoft(
                auth_cache.access_token.clone(),
                auth_cache.msa.clone(),
                profile.clone(),
            ),
        );
        let ghost account = controller;
        let ghost connections = client.connections@;
        for (key, connection) in it: client.connections.iter()
            invariant
                connections == client.connections@,
                controller.same_account(&account),
                account.username == profile.username,
                account.uuid == profile.uuid,
                forall|k: Uuid| #[trigger]
                    connections.contains_key(k) ==> controller.instances@.contains_key(k)
                        || exists|i: int|
                        it.index() <= i < it.seq().len() && *it.seq()[i].0 == k,
                forall|k: Uuid| #[trigger]
                    controller.instances@.contains_key(k) ==> connections.contains_key(k)
                        && account.owns_new(
                        controller.instances@[k],
                        k,
                        connections[k].server,
                        Some(connections[k].version),
                    ),
        {
            let ghost before = controller.instances@;
            let ghost at = it.index();
            assert(connections.contains_key(*key) && connections[*key] == *connection);
            let instance = ClientInstance::new(
                *key,
                profile.username.clone(),
                &profile.uuid,
                controller.auth.clone(),
                connection.server.clone(),
                Some(connection.version),
            );
            controller.instances.insert(*key, instance);
            assert forall|k: Uuid| #[trigger]
                connections.contains_key(k) implies controller.instances@.contains_key(k)
                || exists|i: int| at + 1 <= i < it.seq().len() && *it.seq()[i].0 == k by {
                if k != *key && !before.contains_key(k) {
                    let i = choose|i: int| at <= i < it.seq().len() && *it.seq()[i].0 == k;
                    assert(i != at);
                }
            }
        }
        assert(controller.instances@.dom() =~= connections.dom());
        Ok(controller)
    }

    /// Adds a new instance under `id`. An instance that was held under that
    /// id is let go of and replaced.
    pub fn create_instance_as(&mut self, id: Uuid, server: Server, version: Option<Version>)
        ensures
            final(self).same_account(old(self)),
            final(self).instances@.contains_key(id),
            final(self).instances@ == old(self).instances@.insert(id, final(self).instances@[id]),
            old(self).owns_new(final(self).instances@[id], id, server, version),
    {
        let instance = ClientInstance::new(
            id,
            self.username.clone(),
            &self.uuid,
            self.auth.clone(),
            server,
            version,
        );
        self.instances.insert(id, instance);
    }

    /// Adds a new instance under a random id, which it returns. The instance
    /// is not started.
    pub fn create_instance(&mut self, server: Server, version: Option<Version>) -> (id: Uuid)
        ensures
            final(self).same_account(old(self)),
            final(self).instances@.contains_key(id),
            final(self).instances@ == old(self).instances@.insert(id, final(self).instances@[id]),
            old(self).owns_new(final(self).instances@[id], id, server, version),
    {
        let id = new_v4();
        self.create_instance_as(id, server, version);
        id
    }

    /// The instance under `uuid`, if any.
    pub fn get_instance(&self, uuid: &Uuid) -> (instance: Option<&ClientInstance>)
        ensures
            match instance {
                Some(i) => self.instances@.contains_key(*uuid) && *i == self.instances@[*uuid],
                None => !self.instances@.contains_key(*uuid),
            },
    {
        self.instances.get(uuid)
    }

    /// The instance under `uuid`, if any, to be changed in place.
    pub fn get_instance_mut(&mut self, uuid: &Uuid) -> (instance: Option<&mut ClientInstance>)
        ensures
            final(self).same_account(old(self)),
            match instance {
                Some(i) => old(self).instances@.contains_key(*uuid) && *i == old(self).instances@[*uuid] && final(self).instances@ == old(self).instances@.insert(
                    *uuid,
                    *final(i),
                ),
                None => !old(self).instances@.contains_key(*uuid) && final(self).instances@ == old(self).instances@,
            },
    {
        match self.instances.entry(*uuid) {
            Entry::Occupied(entry) => Some(entry.into_mut()),
            Entry::Vacant(_) => None,
        }
    }

    /// Lets go of the instance under `uuid`, if any.
    pub fn remove_instance(&mut self, uuid: &Uuid)
        ensures
            final(self).same_account(old(self)),
            final(self).instances@ == old(self).instances@.remove(*uuid),
    {
        self.instances.remove(uuid);
    }
}

/// The controllers, each under its account id.
#[derive(Debug)]
pub struct ControllerContainer {
    pub list: HashMap<Uuid, ClientController>,
}

impl View for ControllerContainer {
    type V = Map<Uuid, ClientController>;

    open spec fn view(&self) -> Map<Uuid, ClientController> {
        self.list@
    }
}

impl Default for ControllerContainer {
    fn default() -> (registry: Self)
        ensures
            registry@ == Map::<Uuid, ClientController>::empty(),
    {
        ControllerContainer::new()
    }
}

impl ControllerContainer {
    /// No controllers.
    pub fn new() -> (registry: Self)
        ensures
            registry@ == Map::<Uuid, ClientController>::empty(),
    {
        ControllerContainer { list: HashMap::new() }
    }

    /// Takes a controller in under its account id. A controller that was
    /// held under that id is let go of and replaced, so that no two are of
    /// one account.
    pub fn add(&mut self, controller: ClientController)
        ensures
            final(self)@ == old(self)@.insert(controller.id, controller),
    {
        self.list.insert(controller.id, controller);
    }

    /// Whether a controller is held under `uuid`.
    pub fn contains(&self, uuid: &Uuid) -> (held: bool)
        ensures
            held == self@.contains_key(*uuid),
    {
        self.list.contains_key(uuid)
    }

    /// Lets go of the controller under `uuid`, if any.
    pub fn remove(&mut self, uuid: &Uuid)
        ensures
            final(self)@ == old(self)@.remove(*uuid),
    {
        self.list.remove(uuid);
    }

    /// The controller under `uuid`, if any.
    pub fn get(&self, uuid: &Uuid) -> (controller: Option<&ClientController>)
        ensures
            match controller {
                Some(c) => self@.contains_key(*uuid) && *c == self@[*uuid],
                None => !self@.contains_key(*uuid),
            },
    {
        self.list.get(uuid)
    }

    /// The controller under `uuid`, if any, to be changed in place.
    pub fn get_mut(&mut self, uuid: &Uuid) -> (controller: Option<&mut ClientController>)
        ensures
            match controller {
                Some(c) => old(self)@.contains_key(*uuid) && *c == old(self)@[*uuid] && final(self)@
                    == old(self)@.insert(*uuid, *final(c)),
                None => !old(self)@.contains_key(*uuid) && final(self)@ == old(self)@,
            },
    {
        match self.list.entry(*uuid) {
            Entry::Occupied(entry) => Some(entry.into_mut()),
            Entry::Vacant(_) => None,
        }
    }
}

} // verus!
