//! The state of the whole application, and what each command does to it.

use crate::auth::{Authentication, MinecraftProfile};
use crate::cache::AuthCache;
use crate::client::{AuthType, Client, ClientConnection};
use crate::controller::{AuthProtocol, ClientController, ControllerContainer};
use crate::hooks::{Event, Payload};
use crate::ident::{
    new_v4, parse, to_text, uuid_parsed, uuid_rejection, uuid_text, InvalidUuid, Uuid,
};
use crate::instance::{ClientInstance, InstanceEndError, Launch, SendError};
use crate::server::Server;
use crate::string_map::StringMap;
use crate::task::AbortedTask;
use crate::version::Version;
use std::collections::HashMap;
use tokio::task::JoinHandle;
use vstd::prelude::*;
use vstd::string::StringExecFns;

verus! {

broadcast use vstd::std_specs::hash::group_hash_axioms;

/// Everything that the commands work on. It is meant to be owned by the
/// program's entry point and handed to every command behind one lock.
#[derive(Debug)]
pub struct ApiContext {
    pub controllers: ControllerContainer,
    pub clients: crate::client::List,
    pub servers: crate::server::List,
    /// The logins that have shown their code and wait to be finished, each
    /// under its login key.
    pub ongoing_auths: StringMap<Authentication>,
    pub auth_cache: AuthCache,
}

impl ApiContext {
    /// The invariant of the context.
    pub open spec fn wf(&self) -> bool {
        &&& self.clients.wf()
        &&& self.servers.wf()
        &&& self.ongoing_auths.wf()
        &&& self.auth_cache.wf()
    }

    /// Whether all but the controllers is as in `before`.
    pub open spec fn same_registers(&self, before: &Self) -> bool {
        &&& self.clients == before.clients
        &&& self.servers == before.servers
        &&& self.ongoing_auths == before.ongoing_auths
        &&& self.auth_cache == before.auth_cache
    }

    /// Whether the account `id` has a controller that holds an instance
    /// under `key`.
    pub open spec fn has_instance(&self, id: Uuid, key: Uuid) -> bool {
        self.controllers@.contains_key(id) && self.controllers@[id].instances@.contains_key(key)
    }

    /// The instance that the controller of the account `id` holds under
    /// `key`.
    pub open spec fn instance(&self, id: Uuid, key: Uuid) -> ClientInstance {
        self.controllers@[id].instances@[key]
    }

    /// Whether nothing but the instance under `key` of the account `id`
    /// differs from `before`.
    pub open spec fn differs_in_instance(&self, before: &Self, id: Uuid, key: Uuid) -> bool {
        &&& self.same_registers(before)
        &&& self.controllers@ == before.controllers@.insert(id, self.controllers@[id])
        &&& self.controllers@[id].same_account(&before.controllers@[id])
        &&& self.controllers@[id].instances@ == before.controllers@[id].instances@.insert(
            key,
            self.instance(id, key),
        )
    }

    /// Whether everything is as in `before`: the registers are the same, and
    /// every controller is of the same account and holds the same instances.
    pub open spec fn same_state(&self, before: &Self) -> bool {
        &&& self.same_registers(before)
        &&& forall|id: Uuid|
            self.controllers@.contains_key(id) <==> #[trigger] before.controllers@.contains_key(id)
        &&& forall|id: Uuid| #[trigger]
            self.controllers@.contains_key(id) ==> self.controllers@[id].same_account(
                &before.controllers@[id],
            ) && self.controllers@[id].instances@ == before.controllers@[id].instances@
    }

    /// The account that `id` names, where it has a controller with an
    /// instance under `key`.
    pub open spec fn located(&self, id: Seq<char>, key: Uuid) -> Option<Uuid> {
        match uuid_parsed(id) {
            Some(account) => if self.has_instance(account, key) {
                Some(account)
            } else {
                None
            },
            None => None,
        }
    }

    /// Whether `error` is what the search for the instance under `key` of
    /// the account that `id` names fails with.
    pub open spec fn not_located(&self, id: Seq<char>, key: Uuid, error: ApiError) -> bool {
        match uuid_parsed(id) {
            None => error.refuses(id),
            Some(account) => if !self.controllers@.contains_key(account) {
                error is NoController && error->NoController_0@ == id
            } else {
                !self.has_instance(account, key) && error == ApiError::NoInstance(key)
            },
        }
    }

    /// A context over what was loaded, with no controllers and no logins in
    /// progress.
    pub fn new(clients: crate::client::List, servers: crate::server::List, auth_cache: AuthCache) -> (api:
        Self)
        requires
            clients.wf(),
            servers.wf(),
            auth_cache.wf(),
        ensures
            api.wf(),
            api.clients == clients,
            api.servers == servers,
            api.auth_cache == auth_cache,
            api.controllers@ == Map::<Uuid, ClientController>::empty(),
            api.ongoing_auths@ == Map::<Seq<char>, Authentication>::empty(),
    {
        ApiContext {
            controllers: ControllerContainer::new(),
            clients,
            servers,
            ongoing_auths: StringMap::new(),
            auth_cache,
        }
    }
}

/// Why a command on controllers and instances failed.
#[derive(Debug)]
pub enum ApiError {
    /// A text was to name a UUID and does not; this is why.
    InvalidId(String),
    /// The account id is no UUID.
    InvalidUuid,
    /// No server is listed under this name.
    ServerNotFound(String),
    /// The account that this text names has no controller to add to.
    ControllerNotFound(String),
    /// No account is registered under the id.
    ClientNotFound,
    /// The account logs in with Microsoft and has not logged in.
    ControllerMissing,
    /// The account that this text names has no controller.
    NoController(String),
    /// The controller holds no instance under this key.
    NoInstance(Uuid),
    /// The instance takes no messages.
    Send(SendError),
    /// The instance could not be stopped.
    End(InstanceEndError),
}

impl ApiError {
    /// Whether this error says that `text` is no UUID, with the parser's
    /// words.
    pub open spec fn refuses(&self, text: Seq<char>) -> bool {
        &&& self matches ApiError::InvalidId(reason)
        &&& reason@ == uuid_rejection(text)
    }

    /// The message of this error.
    pub open spec fn message(&self) -> Seq<char> {
        match self {
            ApiError::InvalidId(reason) => reason@,
            ApiError::InvalidUuid => "Invalid UUID"@,
            ApiError::ServerNotFound(name) => "Server '"@ + name@ + "' not found"@,
            ApiError::ControllerNotFound(id) => "Controller for client '"@ + id@ + "' not found"@,
            ApiError::ClientNotFound => "Client not found"@,
            ApiError::ControllerMissing => "Controller not found"@,
            ApiError::NoController(id) => "No client controller found from id: "@ + id@,
            ApiError::NoInstance(key) => "No client instance found from key: "@ + uuid_text(*key),
            ApiError::Send(error) => error.message(),
            ApiError::End(error) => error.message(),
        }
    }

    /// The message of this error.
    pub fn to_string(&self) -> (text: String)
        ensures
            text@ == self.message(),
    {
        match self {
            ApiError::InvalidId(reason) => reason.clone(),
            ApiError::InvalidUuid => String::from_str("Invalid UUID"),
            ApiError::ServerNotFound(name) => String::from_str("Server '").concat(
                name.as_str(),
            ).concat("' not found"),
            ApiError::ControllerNotFound(id) => String::from_str("Controller for client '").concat(
                id.as_str(),
            ).concat("' not found"),
            ApiError::ClientNotFound => String::from_str("Client not found"),
            ApiError::ControllerMissing => String::from_str("Controller not found"),
            ApiError::NoController(id) => String::from_str(
                "No client controller found from id: ",
            ).concat(id.as_str()),
            ApiError::NoInstance(key) => String::from_str(
                "No client instance found from key: ",
            ).concat(to_text(*key).as_str()),
            ApiError::Send(error) => error.to_string(),
            ApiError::End(error) => error.to_string(),
        }
    }
}

/// The version that a connection is recorded with where `text` names none:
/// the newest.
pub open spec fn recorded_version(text: Seq<char>) -> Version {
    match Version::parse(text) {
        Some(version) => version,
        None => Version::V1_21_7,
    }
}

/// What the creation of a connection under `key` makes of the registers
/// and answers.
pub open spec fn connection_outcome(
    before: ApiContext,
    after: ApiContext,
    id: Seq<char>,
    server_name: String,
    version: Seq<char>,
    key: Uuid,
    created: Result<String, ApiError>,
) -> bool {
    &&& after.servers == before.servers
    &&& after.ongoing_auths == before.ongoing_auths
    &&& after.auth_cache == before.auth_cache
    &&& created is Err ==> after.clients == before.clients && after.controllers
        == before.controllers
    &&& match uuid_parsed(id) {
        None => created is Err && created->Err_0.refuses(id),
        Some(account) => if !before.servers@.contains_key(server_name@) {
            created is Err && created->Err_0 == ApiError::ServerNotFound(server_name)
        } else if !before.controllers@.contains_key(account) {
            created is Err && created->Err_0 is ControllerNotFound
                && created->Err_0->ControllerNotFound_0@ == id
        } else if !before.clients@.contains_key(account) {
            created is Err && created->Err_0 is ClientNotFound
        } else {
            let server = before.servers@[server_name@];
            &&& created matches Ok(text)
            &&& text@ == uuid_text(key)
            &&& after.controllers@ == before.controllers@.insert(
                account,
                after.controllers@[account],
            )
            &&& after.controllers@[account].same_account(&before.controllers@[account])
            &&& after.controllers@[account].instances@
                == before.controllers@[account].instances@.insert(key, after.instance(account, key))
            &&& before.controllers@[account].owns_new(
                after.instance(account, key),
                key,
                server,
                Version::parse(version),
            )
            &&& after.clients@ == before.clients@.insert(account, after.clients@[account])
            &&& after.clients@[account].id == account
            &&& after.clients@[account].username == before.clients@[account].username
            &&& after.clients@[account].uuid == before.clients@[account].uuid
            &&& after.clients@[account].auth == before.clients@[account].auth
            &&& after.clients@[account].connections@
                == before.clients@[account].connections@.insert(
                key,
                ClientConnection { id: key, version: recorded_version(version), server },
            )
        },
    }
}

/// Gives the account that `id` names an instance under `key`, pointed at
/// the server listed as `server_name`, and records the connection with the
/// account. The instance is not started. A `version` that names no version
/// leaves the choice to the instance and is recorded as the newest.
pub fn create_connection_as(
    api: &mut ApiContext,
    id: &str,
    server_name: String,
    version: &str,
    key: Uuid,
) -> (created: Result<String, ApiError>)
    requires
        old(api).wf(),
    ensures
        final(api).wf(),
        connection_outcome(*old(api), *final(api), id@, server_name, version@, key, created),
{
    let account = match parse(id) {
        Ok(account) => account,
        Err(InvalidUuid(reason)) => {
            return Err(ApiError::InvalidId(reason));
        },
    };
    let version = Version::from_string(version);
    let server = match api.servers.get_server(&server_name) {
        Some(server) => server.clone(),
        None => {
            return Err(ApiError::ServerNotFound(server_name));
        },
    };
    if !api.controllers.contains(&account) {
        return Err(ApiError::ControllerNotFound(String::from_str(id)));
    }
    if api.clients.get_by_id(&account).is_none() {
        return Err(ApiError::ClientNotFound);
    }
    match api.controllers.get_mut(&account) {
        Some(controller) => {
            controller.create_instance_as(key, server.clone(), version);
        },
        None => {},
    }
    let recorded = match version {
        Some(version) => version,
        None => Version::default(),
    };
    let connection = ClientConnection::new(key, recorded, server);
    match api.clients.get_mut_by_id(&account) {
        Some(client) => {
            client.connections.insert(connection.id, connection);
        },
        None => {},
    }
    Ok(to_text(key))
}

/// As `create_connection_as`, under a random key.
pub fn create_connection(api: &mut ApiContext, id: &str, server_name: String, version: &str) -> (created:
    Result<String, ApiError>)
    requires
        old(api).wf(),
    ensures
        final(api).wf(),
        exists|key: Uuid| #[trigger]
            connection_outcome(*old(api), *final(api), id@, server_name, version@, key, created),
{
    let key = new_v4();
    create_connection_as(api, id, server_name, version, key)
}

/// The instance under `key` of the account that `id` names, to be changed
/// in place.
pub fn locate_instance<'a>(api: &'a mut ApiContext, id: &str, key: &Uuid) -> (located: Result<
    &'a mut ClientInstance,
    ApiError,
>)
    ensures
        match old(api).located(id@, *key) {
            Some(account) => {
                &&& located matches Ok(instance)
                &&& *instance == old(api).instance(account, *key)
                &&& final(api).instance(account, *key) == *final(instance)
                &&& final(api).differs_in_instance(old(api), account, *key)
            },
            None => {
                &&& located matches Err(error)
                &&& old(api).not_located(id@, *key, error)
                &&& final(api).same_state(old(api))
            },
        },
{
    let account = match parse(id) {
        Ok(account) => account,
        Err(InvalidUuid(reason)) => {
            return Err(ApiError::InvalidId(reason));
        },
    };
    let controller = match api.controllers.get_mut(&account) {
        Some(controller) => controller,
        None => {
            return Err(ApiError::NoController(String::from_str(id)));
        },
    };
    match controller.get_instance_mut(key) {
        Some(instance) => Ok(instance),
        None => Err(ApiError::NoInstance(*key)),
    }
}

/// The notification that a command was received for the instance `key`.
pub open spec fn received(event: Event, key: Uuid, words: Seq<char>) -> bool {
    &&& event.key == key
    &&& event.payload matches Payload::Chat { message }
    &&& message@ == words
}

fn notify(relay: &mut Vec<Event>, key: Uuid, words: &str)
    ensures
        final(relay)@.len() == old(relay)@.len() + 1,
        final(relay)@.subrange(0, old(relay)@.len() as int) == old(relay)@,
        received(final(relay)@.last(), key, words@),
{
    relay.push(Event { key, payload: Payload::Chat { message: String::from_str(words) } });
    assert(relay@.subrange(0, old(relay)@.len() as int) =~= old(relay)@);
}

/// Queues `message` on the instance that `key` names, of the account that
/// `id` names, to be sent at its next tick. An instance that is not running
/// takes none.
pub fn send_chat(api: &mut ApiContext, id: &str, key: &str, message: String) -> (sent: Result<
    (),
    ApiError,
>)
    ensures
        match uuid_parsed(key@) {
            None => sent is Err && sent->Err_0.refuses(key@) && *final(api) == *old(api),
            Some(k) => match old(api).located(id@, k) {
                None => {
                    &&& sent matches Err(error)
                    &&& old(api).not_located(id@, k, error)
                    &&& final(api).same_state(old(api))
                },
                Some(account) => {
                    let before = old(api).instance(account, k);
                    let after = final(api).instance(account, k);
                    &&& final(api).differs_in_instance(old(api), account, k)
                    &&& after.same_identity(&before)
                    &&& after.running() == before.running()
                    &&& after.history() == before.history()
                    &&& after.client_thread == before.client_thread
                    &&& if before.running() {
                        sent is Ok && after.pending() == before.pending().push(message)
                    } else {
                        sent == Err::<(), ApiError>(ApiError::Send(SendError::Offline))
                            && after.pending() == before.pending()
                    }
                },
            },
        },
{
    let key = match parse(key) {
        Ok(key) => key,
        Err(InvalidUuid(reason)) => {
            return Err(ApiError::InvalidId(reason));
        },
    };
    let instance = match locate_instance(api, id, &key) {
        Ok(instance) => instance,
        Err(error) => {
            return Err(error);
        },
    };
    match instance.send_message(message) {
        Ok(_) => Ok(()),
        Err(error) => Err(ApiError::Send(error)),
    }
}

/// Connects the instance that `key` names, of the account that `id` names:
/// a task that it still holds is aborted and handed back, it is marked as
/// running, and `spawn` is called once for its new task. Then the command is
/// announced.
pub fn connect_client<F: FnOnce(Launch) -> JoinHandle<()>>(
    api: &mut ApiContext,
    id: &str,
    key: &str,
    spawn: F,
    relay: &mut Vec<Event>,
) -> (connected: Result<Option<AbortedTask>, ApiError>)
    requires
        forall|launch: Launch| spawn.requires((launch,)),
    ensures
        match uuid_parsed(key@) {
            None => connected is Err && connected->Err_0.refuses(key@) && *final(api) == *old(api)
                && final(relay)@ == old(relay)@,
            Some(k) => match old(api).located(id@, k) {
                None => {
                    &&& connected matches Err(error)
                    &&& old(api).not_located(id@, k, error)
                    &&& final(api).same_state(old(api))
                    &&& final(relay)@ == old(relay)@
                },
                Some(account) => {
                    let before = old(api).instance(account, k);
                    let after = final(api).instance(account, k);
                    &&& connected matches Ok(displaced)
                    &&& ClientInstance::displaces(&before, displaced)
                    &&& final(api).differs_in_instance(old(api), account, k)
                    &&& after.same_identity(&before)
                    &&& after.running()
                    &&& after.pending() == before.pending()
                    &&& after.history() == before.history()
                    &&& after.client_thread is Some
                    &&& spawn.ensures((before.launch(),), after.client_thread->0)
                    &&& final(relay)@.len() == old(relay)@.len() + 1
                    &&& final(relay)@.subrange(0, old(relay)@.len() as int) == old(relay)@
                    &&& received(final(relay)@.last(), k, "Received connect command..."@)
                },
            },
        },
{
    let key = match parse(key) {
        Ok(key) => key,
        Err(InvalidUuid(reason)) => {
            return Err(ApiError::InvalidId(reason));
        },
    };
    let instance = match locate_instance(api, id, &key) {
        Ok(instance) => instance,
        Err(error) => {
            return Err(error);
        },
    };
    let displaced = instance.connect(spawn);
    notify(relay, key, "Received connect command...");
    Ok(displaced)
}

/// Announces the command, then asks the instance that `key` names, of the
/// account that `id` names, to end at its next tick.
pub fn disconnect_client(api: &mut ApiContext, id: &str, key: &str, relay: &mut Vec<Event>) -> (asked:
    Result<(), ApiError>)
    ensures
        match uuid_parsed(key@) {
            None => asked is Err && asked->Err_0.refuses(key@) && *final(api) == *old(api) && final(relay)@ == old(relay)@,
            Some(k) => {
                &&& final(relay)@.len() == old(relay)@.len() + 1
                &&& final(relay)@.subrange(0, old(relay)@.len() as int) == old(relay)@
                &&& received(final(relay)@.last(), k, "Received disconnect command..."@)
                &&& match old(api).located(id@, k) {
                    None => {
                        &&& asked matches Err(error)
                        &&& old(api).not_located(id@, k, error)
                        &&& final(api).same_state(old(api))
                    },
                    Some(account) => {
                        let before = old(api).instance(account, k);
                        let after = final(api).instance(account, k);
                        &&& final(api).differs_in_instance(old(api), account, k)
                        &&& after.same_identity(&before)
                        &&& !after.running()
                        &&& after.pending() == before.pending()
                        &&& after.history() == before.history()
                        &&& after.client_thread == before.client_thread
                        &&& asked == if before.running() {
                            Ok::<(), ApiError>(())
                        } else {
                            Err::<(), ApiError>(
                                ApiError::End(InstanceEndError::NoConnect(
                                    crate::instance::StateSource::Client,
                                )),
                            )
                        }
                    },
                }
            },
        },
{
    let key = match parse(key) {
        Ok(key) => key,
        Err(InvalidUuid(reason)) => {
            return Err(ApiError::InvalidId(reason));
        },
    };
    notify(relay, key, "Received disconnect command...");
    let instance = match locate_instance(api, id, &key) {
        Ok(instance) => instance,
        Err(error) => {
            return Err(error);
        },
    };
    match instance.disconnect_notify() {
        Ok(_) => Ok(()),
        Err(error) => Err(ApiError::End(error)),
    }
}

/// Announces the command, then aborts the task of the instance that `key`
/// names, of the account that `id` names, at once, and hands it back as
/// aborted.
pub fn kill_client(api: &mut ApiContext, id: &str, key: &str, relay: &mut Vec<Event>) -> (killed:
    Result<AbortedTask, ApiError>)
    ensures
        match uuid_parsed(key@) {
            None => killed is Err && killed->Err_0.refuses(key@) && *final(api) == *old(api)
                && final(relay)@ == old(relay)@,
            Some(k) => {
                &&& final(relay)@.len() == old(relay)@.len() + 1
                &&& final(relay)@.subrange(0, old(relay)@.len() as int) == old(relay)@
                &&& received(final(relay)@.last(), k, "Received force-kill command..."@)
                &&& match old(api).located(id@, k) {
                    None => {
                        &&& killed matches Err(error)
                        &&& old(api).not_located(id@, k, error)
                        &&& final(api).same_state(old(api))
                    },
                    Some(account) => {
                        let before = old(api).instance(account, k);
                        let after = final(api).instance(account, k);
                        &&& final(api).differs_in_instance(old(api), account, k)
                        &&& after.same_identity(&before)
                        &&& after.running() == (before.running() && before.client_thread is None)
                        &&& after.pending() == before.pending()
                        &&& after.history() == before.history()
                        &&& after.client_thread is None
                        &&& match killed {
                            Ok(aborted) => before.client_thread == Some(aborted.task()),
                            Err(error) => before.client_thread is None && error == ApiError::End(
                                InstanceEndError::NoConnect(crate::instance::StateSource::Thread),
                            ),
                        }
                    },
                }
            },
        },
{
    let key = match parse(key) {
        Ok(key) => key,
        Err(InvalidUuid(reason)) => {
            return Err(ApiError::InvalidId(reason));
        },
    };
    notify(relay, key, "Received force-kill command...");
    let instance = match locate_instance(api, id, &key) {
        Ok(instance) => instance,
        Err(error) => {
            return Err(error);
        },
    };
    match instance.kill() {
        Ok(aborted) => Ok(aborted),
        Err(error) => Err(ApiError::End(error)),
    }
}

/// The instances of the account that `id` names: for each that the account
/// has a recorded connection for, whether it is running, and the
/// connection. An offline account that has no controller yet is given one
/// first; an account that logs in with Microsoft must have logged in.
pub fn get_instances(api: &mut ApiContext, id: &str) -> (listed: Result<
    HashMap<Uuid, (bool, ClientConnection)>,
    ApiError,
>)
    requires
        old(api).wf(),
    ensures
        final(api).wf(),
        final(api).same_registers(old(api)),
        match uuid_parsed(id@) {
            None => listed is Err && listed->Err_0 is InvalidUuid && final(api).controllers == old(api).controllers,
            Some(account) => if !old(api).clients@.contains_key(account) {
                listed is Err && listed->Err_0 is ClientNotFound && final(api).controllers == old(api).controllers
            } else if old(api).controllers@.contains_key(account) {
                let instances = old(api).controllers@[account].instances@;
                let connections = old(api).clients@[account].connections@;
                &&& final(api).controllers == old(api).controllers
                &&& listed matches Ok(statuses)
                &&& forall|key: Uuid|
                    statuses@.contains_key(key) <==> #[trigger] instances.contains_key(key)
                        && connections.contains_key(key)
                &&& forall|key: Uuid| #[trigger]
                    statuses@.contains_key(key) ==> statuses@[key] == (
                        instances[key].running(),
                        connections[key],
                    )
            } else if old(api).clients@[account].auth == AuthType::Microsoft {
                listed is Err && listed->Err_0 is ControllerMissing && final(api).controllers
                    == old(api).controllers
            } else {
                &&& listed matches Ok(statuses)
                &&& statuses@ == Map::<Uuid, (bool, ClientConnection)>::empty()
                &&& final(api).controllers@ == old(api).controllers@.insert(
                    account,
                    final(api).controllers@[account],
                )
                &&& final(api).controllers@[account].is_offline(
                    account,
                    old(api).clients@[account].username,
                )
            },
        },
{
    let account = match parse(id) {
        Ok(account) => account,
        Err(_) => {
            return Err(ApiError::InvalidUuid);
        },
    };
    let client = match api.clients.get_by_id(&account) {
        Some(client) => client,
        None => {
            return Err(ApiError::ClientNotFound);
        },
    };
    let mut statuses: HashMap<Uuid, (bool, ClientConnection)> = HashMap::new();
    match api.controllers.get(&account) {
        Some(controller) => {
            let ghost instances = controller.instances@;
            let ghost connections = client.connections@;
            for (key, instance) in it: controller.instances.iter()
                invariant
                    instances == controller.instances@,
                    connections == client.connections@,
                    forall|k: Uuid| #[trigger]
                        statuses@.contains_key(k) ==> instances.contains_key(k)
                            && connections.contains_key(k) && statuses@[k] == (
                            instances[k].running(),
                            connections[k],
                        ),
                    forall|k: Uuid| #[trigger]
                        instances.contains_key(k) && connections.contains_key(k)
                            ==> statuses@.contains_key(k) || exists|i: int|
                            it.index() <= i < it.seq().len() && *it.seq()[i].0 == k,
            {
                let ghost at = it.index();
                let ghost before = statuses@;
                assert(instances.contains_key(*key) && instances[*key] == *instance);
                match client.connections.get(key) {
                    Some(connection) => {
                        statuses.insert(*key, (instance.is_running(), connection.clone()));
                    },
                    None => {},
                }
                assert forall|k: Uuid| #[trigger]
                    instances.contains_key(k) && connections.contains_key(
                        k,
                    ) implies statuses@.contains_key(k) || exists|i: int|
                    at + 1 <= i < it.seq().len() && *it.seq()[i].0 == k by {
                    if k != *key && !before.contains_key(k) {
                        let i = choose|i: int| at <= i < it.seq().len() && *it.seq()[i].0 == k;
                        assert(i != at);
                    }
                }
            }
            Ok(statuses)
        },
        None => {
            if client.auth == AuthType::Microsoft {
                return Err(ApiError::ControllerMissing);
            }
            let username = client.username.clone();
            let profile = MinecraftProfile::with_username(username.clone());
            let controller = ClientController::new(
                client.id,
                username.clone(),
                profile.uuid,
                AuthProtocol::Offline(username),
            );
            api.controllers.add(controller);
            Ok(statuses)
        },
    }
}

/// Every supported protocol version, oldest first.
pub fn get_available_versions() -> (versions: Vec<Version>)
    ensures
        versions@ == Version::catalogue(),
{
    Version::all()
}

/// An account as it is listed.
#[derive(Debug)]
pub struct ClientInfo {
    pub id: String,
    pub username: String,
    /// Whether the account logs in with Microsoft.
    pub auth: bool,
    pub uuid: String,
    /// How many connections the account has been given.
    pub instance_count: usize,
}

/// A server as it is listed.
#[derive(Debug)]
pub struct ServerInfo {
    pub name: String,
    pub ip: String,
    pub port: u16,
    pub connections: u32,
}

impl ClientInfo {
    /// Whether this is how `client` is listed.
    pub open spec fn describes(&self, client: Client) -> bool {
        &&& self.id@ == uuid_text(client.id)
        &&& self.username == client.username
        &&& self.auth == (client.auth == AuthType::Microsoft)
        &&& self.uuid@ == uuid_text(client.uuid)
        &&& self.instance_count == client.connections@.len()
    }
}

impl ServerInfo {
    /// How `server` is listed. Connections are not counted.
    pub open spec fn of(server: Server) -> ServerInfo {
        ServerInfo { name: server.name, ip: server.ip, port: server.port, connections: 0 }
    }
}

/// How `client` is listed.
pub fn map_client_info(client: &Client) -> (info: ClientInfo)
    ensures
        info.describes(*client),
{
    ClientInfo {
        id: to_text(client.id),
        username: client.username.clone(),
        auth: client.auth == AuthType::Microsoft,
        uuid: to_text(client.uuid),
        instance_count: client.connections.len(),
    }
}

/// The listing of an account whose account id is spelt `id`, if there is
/// one.
pub fn get_client(api: &ApiContext, id: &str) -> (found: Option<ClientInfo>)
    ensures
        match found {
            Some(info) => exists|key: Uuid|
                api.clients@.contains_key(key) && uuid_text((#[trigger] api.clients@[key]).id)
                    == id@ && info.describes(api.clients@[key]),
            None => forall|key: Uuid|
                api.clients@.contains_key(key) ==> uuid_text((#[trigger] api.clients@[key]).id)
                    != id@,
        },
{
    for (key, client) in it: api.clients.0.iter()
        invariant
            forall|i: int| 0 <= i < it.index() ==> uuid_text((*it.seq()[i].1).id) != id@,
    {
        if crate::version::str_eq(to_text(client.id).as_str(), id) {
            assert(api.clients@.contains_key(*key) && api.clients@[*key] == *client);
            return Some(map_client_info(client));
        }
    }
    None
}

/// Whether `info` is how one of `clients` is listed.
pub open spec fn lists_one_of(info: ClientInfo, clients: Map<Uuid, Client>) -> bool {
    exists|key: Uuid| clients.contains_key(key) && info.describes(#[trigger] clients[key])
}

/// Whether one of `infos` is how `client` is listed.
pub open spec fn is_listed(client: Client, infos: Seq<ClientInfo>) -> bool {
    exists|i: int| 0 <= i < infos.len() && (#[trigger] infos[i]).describes(client)
}

/// The listing of every account, in no particular order.
pub fn get_clients(api: &ApiContext) -> (infos: Vec<ClientInfo>)
    ensures
        infos@.len() == api.clients@.len(),
        forall|i: int| 0 <= i < infos@.len() ==> lists_one_of(#[trigger] infos@[i], api.clients@),
        forall|key: Uuid|
            api.clients@.contains_key(key) ==> is_listed(#[trigger] api.clients@[key], infos@),
{
    let mut infos: Vec<ClientInfo> = Vec::new();
    for (key, client) in it: api.clients.0.iter()
        invariant
            infos@.len() == it.index(),
            it.seq().len() == api.clients@.dom().len(),
            forall|i: int|
                0 <= i < infos@.len() ==> lists_one_of(#[trigger] infos@[i], api.clients@),
            forall|k: Uuid| #[trigger]
                api.clients@.contains_key(k) ==> is_listed(api.clients@[k], infos@) || exists|
                    j: int,
                |
                    it.index() <= j < it.seq().len() && *it.seq()[j].0 == k,
    {
        let ghost at = it.index();
        let ghost before = infos@;
        assert(api.clients@.contains_key(*key) && api.clients@[*key] == *client);
        infos.push(map_client_info(client));
        assert forall|i: int| 0 <= i < infos@.len() implies lists_one_of(
            #[trigger] infos@[i],
            api.clients@,
        ) by {
            if i < before.len() {
                assert(infos@[i] == before[i]);
            } else {
                assert(infos@[i].describes(api.clients@[*key]));
            }
        }
        assert forall|k: Uuid| #[trigger] api.clients@.contains_key(k) implies is_listed(
            api.clients@[k],
            infos@,
        ) || exists|j: int| at + 1 <= j < it.seq().len() && *it.seq()[j].0 == k by {
            if k == *key {
                assert(infos@[at].describes(api.clients@[k]));
            } else if is_listed(api.clients@[k], before) {
                let i = choose|i: int|
                    0 <= i < before.len() && (#[trigger] before[i]).describes(api.clients@[k]);
                assert(infos@[i] == before[i]);
            } else {
                let j = choose|j: int| at <= j < it.seq().len() && *it.seq()[j].0 == k;
                assert(j != at);
            }
        }
    }
    infos
}

/// The listing of every server.
pub fn get_servers(api: &ApiContext) -> (infos: Vec<ServerInfo>)
    requires
        api.wf(),
    ensures
        infos@.len() == api.servers@.len(),
        infos@.len() == api.servers.0.values().len(),
        forall|i: int|
            0 <= i < infos@.len() ==> #[trigger] infos@[i] == ServerInfo::of(
                api.servers.0.values()[i],
            ),
{
    let count = api.servers.0.len();
    let mut infos: Vec<ServerInfo> = Vec::new();
    let mut i: usize = 0;
    while i < count
        invariant
            i <= count,
            count == api.servers.0.values().len(),
            infos@.len() == i,
            forall|j: int|
                0 <= j < i ==> #[trigger] infos@[j] == ServerInfo::of(api.servers.0.values()[j]),
        decreases count - i,
    {
        let server = api.servers.0.value_at(i);
        infos.push(
            ServerInfo {
                name: server.name.clone(),
                ip: server.ip.clone(),
                port: server.port,
                connections: 0,
            },
        );
        i = i + 1;
    }
    infos
}

} // verus!
