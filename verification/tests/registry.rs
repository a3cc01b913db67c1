use clientworks::api::{
    connect_client, create_connection, create_connection_as, disconnect_client,
    get_available_versions, get_client, get_clients, get_instances, get_servers, kill_client,
    locate_instance, map_client_info, send_chat, ApiContext, ApiError,
};
use clientworks::auth::{MinecraftProfile, ProfileData};
use clientworks::cache::AuthCache;
use clientworks::login::auth_offline_as;
use clientworks::client::{register, register_as, unregister, AuthType, Client, ClientError};
use clientworks::controller::{AuthProtocol, ClientController, ControllerContainer};
use clientworks::hooks::{Event, Payload};
use clientworks::instance::{InstanceEndError, SendError, StateSource};
use clientworks::server::{create, delete, Server, ServerError};
use clientworks::string_map::StringMap;
use clientworks::version::Version;
use std::sync::atomic::{AtomicBool, Ordering};
use std::sync::Arc;
use std::time::Duration;
use tokio::runtime::{Builder, Runtime};

const ACCOUNT: &str = "00000000-0000-0000-0000-000000000001";
const KEY: &str = "00000000-0000-0000-0000-00000000000a";

fn runtime() -> Runtime {
    Builder::new_current_thread().enable_time().build().unwrap()
}

fn settle(rt: &Runtime) {
    rt.block_on(async { tokio::time::sleep(Duration::from_millis(20)).await });
}

fn context() -> ApiContext {
    ApiContext::new(
        clientworks::client::List::new(),
        clientworks::server::List::new(),
        AuthCache::new(),
    )
}

/// A context with the server `hub`, the offline account Steve under the id
/// 1, and an instance under the key 10.
fn populated() -> ApiContext {
    let mut api = context();
    create(&mut api, "hub".to_string(), "hub.test".to_string(), 25565).unwrap();
    let mut progress = Vec::new();
    auth_offline_as(&mut api, "Steve".to_string(), 1, &mut progress).unwrap();
    create_connection_as(&mut api, ACCOUNT, "hub".to_string(), "1.20.1", 10).unwrap();
    api
}

fn chat(event: &Event) -> (&u128, &str) {
    match &event.payload {
        Payload::Chat { message } => (&event.key, message.as_str()),
        other => panic!("unexpected payload {:?}", other),
    }
}

#[test]
fn string_map_keeps_one_value_per_key() {
    let mut map: StringMap<u32> = StringMap::new();
    assert_eq!(map.len(), 0);
    assert_eq!(map.insert("a".to_string(), 1), None);
    assert_eq!(map.insert("b".to_string(), 2), None);
    assert_eq!(map.insert("a".to_string(), 3), Some(1));
    assert_eq!(map.len(), 2);
    assert_eq!(map.get("a"), Some(&3));
    assert_eq!(map.get("b"), Some(&2));
    assert_eq!(map.get("c"), None);
    assert!(map.contains_key("a"));
    assert!(!map.contains_key(""));
    let mut seen = Vec::new();
    for i in 0..map.len() {
        seen.push((map.key_at(i).clone(), *map.value_at(i)));
    }
    seen.sort();
    assert_eq!(seen, vec![("a".to_string(), 3), ("b".to_string(), 2)]);
    assert_eq!(map.remove("a"), Some(3));
    assert_eq!(map.remove("a"), None);
    assert_eq!(map.len(), 1);
    assert!(!map.contains_key("a"));
    assert_eq!(map.get("b"), Some(&2));
}

#[test]
fn servers_are_listed_once_per_name() {
    let mut api = context();
    assert_eq!(create(&mut api, "hub".to_string(), "hub.test".to_string(), 25565).ok(), Some(()));
    let again = create(&mut api, "hub".to_string(), "other.test".to_string(), 1).unwrap_err();
    assert!(matches!(&again, ServerError::AlreadyExists(name) if name == "hub"));
    assert_eq!(again.to_string(), "Server hub already exists");
    let server = api.servers.get_server(&"hub".to_string()).unwrap();
    assert_eq!(server.name, "hub");
    assert_eq!(server.ip, "hub.test");
    assert_eq!(server.port, 25565);
    assert!(api.servers.get_server(&"pvp".to_string()).is_none());

    let missing = delete(&mut api, "pvp".to_string()).unwrap_err();
    assert!(matches!(&missing, ServerError::NotFound(name) if name == "pvp"));
    assert_eq!(missing.to_string(), "Server pvp does not exist");
    assert_eq!(delete(&mut api, "hub".to_string()).ok(), Some(()));
    assert!(api.servers.get_server(&"hub".to_string()).is_none());
    assert!(delete(&mut api, "hub".to_string()).is_err());
}

#[test]
fn a_server_is_addressed_by_host_and_port() {
    let server = Server::new("hub".to_string(), "hub.test".to_string(), 25565);
    assert_eq!(server.to_string(), "hub.test:25565");
    assert_eq!(Server::new("a".to_string(), "h".to_string(), 0).to_string(), "h:0");
    assert_eq!(Server::new("a".to_string(), "h".to_string(), 7).to_string(), "h:7");
    assert_eq!(Server::new("a".to_string(), "h".to_string(), 10).to_string(), "h:10");
    assert_eq!(Server::new("a".to_string(), "h".to_string(), 1009).to_string(), "h:1009");
    assert_eq!(Server::new("a".to_string(), "h".to_string(), 65535).to_string(), "h:65535");
    let copy = server.clone();
    assert_eq!(copy.name, "hub");
    assert_eq!(copy.ip, "hub.test");
    assert_eq!(copy.port, 25565);
}

#[test]
fn servers_are_listed_for_display() {
    let mut api = context();
    create(&mut api, "hub".to_string(), "hub.test".to_string(), 25565).unwrap();
    create(&mut api, "pvp".to_string(), "pvp.test".to_string(), 25566).unwrap();
    let mut infos = get_servers(&api);
    infos.sort_by(|a, b| a.name.cmp(&b.name));
    assert_eq!(infos.len(), 2);
    assert_eq!(infos[0].name, "hub");
    assert_eq!(infos[0].ip, "hub.test");
    assert_eq!(infos[0].port, 25565);
    assert_eq!(infos[0].connections, 0);
    assert_eq!(infos[1].name, "pvp");
    assert_eq!(infos[1].port, 25566);
    assert!(get_servers(&context()).is_empty());
}

#[test]
fn an_account_name_can_be_registered_once() {
    let mut api = context();
    let steve = MinecraftProfile::with_username("Steve".to_string());
    let id = register(&mut api, &steve).unwrap();
    let client = api.clients.get_by_id(&id).unwrap();
    assert_eq!(client.id, id);
    assert_eq!(client.username, "Steve");
    assert_eq!(client.uuid, steve.uuid);
    assert_eq!(client.auth, AuthType::Offline);
    assert!(client.connections.is_empty());

    let again = register(&mut api, &steve).unwrap_err();
    assert!(matches!(&again, ClientError::AlreadyExists(name) if name == "Steve"));
    assert_eq!(again.to_string(), "Client Steve already exists");
    assert_eq!(api.clients.0.len(), 1);
    assert!(api.clients.get_by_id(&id).is_some());

    let same_name_other_uuid = MinecraftProfile::from_response(&ProfileData {
        id: 5,
        name: "Steve".to_string(),
        skins: "[]".to_string(),
        capes: "[]".to_string(),
    });
    assert!(register_as(&mut api, &same_name_other_uuid, 99).is_err());
    assert!(api.clients.get_by_id(&99).is_none());
    assert_eq!(api.clients.0.len(), 1);
}

#[test]
fn an_authenticated_profile_registers_as_microsoft() {
    let mut api = context();
    let notch = MinecraftProfile::from_response(&ProfileData {
        id: 5,
        name: "Notch".to_string(),
        skins: "[]".to_string(),
        capes: "[]".to_string(),
    });
    assert_eq!(register_as(&mut api, &notch, 3).ok(), Some(3));
    assert_eq!(api.clients.get_by_id(&3).unwrap().auth, AuthType::Microsoft);
}

#[test]
fn accounts_are_found_by_name_and_by_uuid() {
    let mut api = context();
    let steve = MinecraftProfile::with_username("Steve".to_string());
    let alex = MinecraftProfile::with_username("Alex".to_string());
    register_as(&mut api, &steve, 1).unwrap();
    register_as(&mut api, &alex, 2).unwrap();
    assert_eq!(api.clients.get_by_username("Alex").unwrap().id, 2);
    assert_eq!(api.clients.get_by_username("Steve").unwrap().id, 1);
    assert!(api.clients.get_by_username("steve").is_none());
    assert_eq!(api.clients.get_by_mc_uuid(&alex.uuid).unwrap().id, 2);
    assert!(api.clients.get_by_mc_uuid(&12345).is_none());
    assert!(api.clients.contains_uuid(&steve.uuid));
    assert!(!api.clients.contains_uuid(&1));
    assert!(api.clients.get_by_id(&3).is_none());
    assert!(api.clients.get_mut_by_id(&3).is_none());
    api.clients.get_mut_by_id(&2).unwrap().username = "Alexa".to_string();
    assert_eq!(api.clients.get_by_id(&2).unwrap().username, "Alexa");
}

#[test]
fn an_account_is_unregistered_by_its_in_game_uuid() {
    let mut api = context();
    let steve = MinecraftProfile::with_username("Steve".to_string());
    register_as(&mut api, &steve, 1).unwrap();
    let by_account_id = unregister(&mut api, ACCOUNT.to_string()).unwrap_err();
    assert!(matches!(&by_account_id, ClientError::NotFound(text) if text == ACCOUNT));
    assert_eq!(
        by_account_id.to_string(),
        "Client 00000000-0000-0000-0000-000000000001 does not exist"
    );
    assert!(unregister(&mut api, "nonsense".to_string()).is_err());
    assert_eq!(api.clients.0.len(), 1);
    assert_eq!(
        unregister(&mut api, "e0593eef-848d-30f8-a79f-688fded6be74".to_string()).ok(),
        Some(())
    );
    assert_eq!(api.clients.0.len(), 0);
}

#[test]
fn a_text_that_is_no_uuid_unregisters_the_nil_profile() {
    let mut api = context();
    let nil = MinecraftProfile::from_response(&ProfileData {
        id: 0,
        name: "Nobody".to_string(),
        skins: "[]".to_string(),
        capes: "[]".to_string(),
    });
    register_as(&mut api, &nil, 4).unwrap();
    assert_eq!(unregister(&mut api, "nonsense".to_string()).ok(), Some(()));
    assert!(api.clients.get_by_id(&4).is_none());
}

#[test]
fn the_registry_holds_one_controller_per_account() {
    let rt = runtime();
    let mut registry = ControllerContainer::new();
    assert!(!registry.contains(&1));
    assert!(registry.get(&1).is_none());
    assert!(registry.get_mut(&1).is_none());
    let mut first =
        ClientController::new(1, "Steve".to_string(), 50, AuthProtocol::Offline("Steve".into()));
    let key = first.create_instance(Server::new("hub".into(), "hub.test".into(), 1), None);
    let ended = Arc::new(AtomicBool::new(false));
    {
        let ended = ended.clone();
        first.get_instance_mut(&key).unwrap().connect(|_| {
            rt.spawn(async move {
                let _flag = Flag(ended);
                loop {
                    tokio::time::sleep(Duration::from_secs(3600)).await;
                }
            })
        });
    }
    settle(&rt);
    registry.add(first);
    assert!(registry.contains(&1));
    assert_eq!(registry.get(&1).unwrap().instances.len(), 1);

    let second =
        ClientController::new(1, "Steve2".to_string(), 51, AuthProtocol::Offline("Steve2".into()));
    registry.add(second);
    assert_eq!(registry.list.len(), 1);
    assert_eq!(registry.get(&1).unwrap().username, "Steve2");
    settle(&rt);
    assert!(ended.load(Ordering::SeqCst));

    registry.get_mut(&1).unwrap().username = "Renamed".to_string();
    assert_eq!(registry.get(&1).unwrap().username, "Renamed");
    registry.remove(&1);
    assert!(!registry.contains(&1));
    registry.remove(&1);
    assert!(ControllerContainer::default().list.is_empty());
}

struct Flag(Arc<AtomicBool>);

impl Drop for Flag {
    fn drop(&mut self) {
        self.0.store(true, Ordering::SeqCst);
    }
}

#[test]
fn a_controller_creates_and_removes_instances() {
    let rt = runtime();
    let mut controller =
        ClientController::new(1, "Steve".to_string(), 50, AuthProtocol::Offline("Steve".into()));
    assert_eq!(controller.id, 1);
    assert_eq!(controller.uuid, 50);
    let hub = Server::new("hub".into(), "hub.test".into(), 25565);
    let first = controller.create_instance(hub.clone(), Some(Version::V1_18_2));
    let second = controller.create_instance(hub.clone(), None);
    assert_ne!(first, second);
    assert_eq!(controller.instances.len(), 2);
    let instance = controller.get_instance(&first).unwrap();
    assert_eq!(instance.id, first);
    assert_eq!(instance.version, Version::V1_18_2);
    assert_eq!(instance.info.username, "Steve");
    assert_eq!(instance.info.uuid, "00000000-0000-0000-0000-000000000032");
    assert!(!instance.is_running());
    assert!(instance.client_thread.is_none());
    assert_eq!(controller.get_instance(&second).unwrap().version, Version::V1_21);
    assert!(controller.get_instance(&12345).is_none());
    assert!(controller.get_instance_mut(&12345).is_none());

    let ended = Arc::new(AtomicBool::new(false));
    {
        let ended = ended.clone();
        controller.get_instance_mut(&first).unwrap().connect(|_| {
            rt.spawn(async move {
                let _flag = Flag(ended);
                loop {
                    tokio::time::sleep(Duration::from_secs(3600)).await;
                }
            })
        });
    }
    settle(&rt);
    assert!(controller.get_instance(&first).unwrap().is_running());
    controller.remove_instance(&first);
    assert!(controller.get_instance(&first).is_none());
    assert_eq!(controller.instances.len(), 1);
    settle(&rt);
    assert!(ended.load(Ordering::SeqCst));

    controller.create_instance_as(second, hub, Some(Version::V1_16));
    assert_eq!(controller.instances.len(), 1);
    assert_eq!(controller.get_instance(&second).unwrap().version, Version::V1_16);
}

#[test]
fn a_connection_is_created_in_controller_and_register() {
    let api = populated();
    let instance = api.controllers.get(&1).unwrap().get_instance(&10).unwrap();
    assert_eq!(instance.id, 10);
    assert_eq!(instance.target.ip, "hub.test");
    assert_eq!(instance.version, Version::V1_20_1);
    assert!(!instance.is_running());
    let connection = api.clients.get_by_id(&1).unwrap().connections.get(&10).unwrap();
    assert_eq!(connection.id, 10);
    assert_eq!(connection.version, Version::V1_20_1);
    assert_eq!(connection.server.name, "hub");
    assert_eq!(connection.server.port, 25565);
}

#[test]
fn a_connection_without_a_version_is_recorded_as_the_newest() {
    let mut api = populated();
    let key = create_connection_as(&mut api, ACCOUNT, "hub".to_string(), "", 11).unwrap();
    assert_eq!(key, "00000000-0000-0000-0000-00000000000b");
    assert_eq!(
        api.controllers.get(&1).unwrap().get_instance(&11).unwrap().version,
        Version::V1_21
    );
    assert_eq!(
        api.clients.get_by_id(&1).unwrap().connections.get(&11).unwrap().version,
        Version::V1_21_7
    );
    let random = create_connection(&mut api, ACCOUNT, "hub".to_string(), "1.16").unwrap();
    let random = uuid::Uuid::parse_str(&random).unwrap().as_u128();
    assert!(api.controllers.get(&1).unwrap().get_instance(&random).is_some());
    assert_eq!(api.clients.get_by_id(&1).unwrap().connections.len(), 3);
}

#[test]
fn a_connection_needs_server_controller_and_account() {
    let mut api = populated();
    let invalid = create_connection(&mut api, "x", "hub".to_string(), "1.20").unwrap_err();
    assert!(matches!(invalid, ApiError::InvalidId(_)));
    let no_server = create_connection(&mut api, ACCOUNT, "pvp".to_string(), "1.20").unwrap_err();
    assert!(matches!(&no_server, ApiError::ServerNotFound(name) if name == "pvp"));
    assert_eq!(no_server.to_string(), "Server 'pvp' not found");
    let other = "00000000-0000-0000-0000-000000000002";
    let no_controller = create_connection(&mut api, other, "hub".to_string(), "1.20").unwrap_err();
    assert!(matches!(&no_controller, ApiError::ControllerNotFound(id) if id == other));
    assert_eq!(
        no_controller.to_string(),
        "Controller for client '00000000-0000-0000-0000-000000000002' not found"
    );
    api.controllers.add(ClientController::new(
        2,
        "Ghost".to_string(),
        9,
        AuthProtocol::Offline("Ghost".into()),
    ));
    let no_client = create_connection(&mut api, other, "hub".to_string(), "1.20").unwrap_err();
    assert!(matches!(no_client, ApiError::ClientNotFound));
    assert!(api.controllers.get(&2).unwrap().instances.is_empty());
    assert_eq!(api.controllers.get(&1).unwrap().instances.len(), 1);
}

#[test]
fn instances_are_listed_with_their_running_state() {
    let rt = runtime();
    let mut api = populated();
    create_connection_as(&mut api, ACCOUNT, "hub".to_string(), "1.19", 11).unwrap();
    let mut relay = Vec::new();
    connect_client(&mut api, ACCOUNT, KEY, |_| rt.spawn(async {}), &mut relay).unwrap();
    let listed = get_instances(&mut api, ACCOUNT).unwrap();
    assert_eq!(listed.len(), 2);
    let (running, connection) = listed.get(&10).unwrap();
    assert!(*running);
    assert_eq!(connection.version, Version::V1_20_1);
    let (running, connection) = listed.get(&11).unwrap();
    assert!(!*running);
    assert_eq!(connection.version, Version::V1_19);
    assert_eq!(connection.id, 11);

    api.clients.get_mut_by_id(&1).unwrap().connections.remove(&11);
    let listed = get_instances(&mut api, ACCOUNT).unwrap();
    assert_eq!(listed.len(), 1);
    assert!(listed.contains_key(&10));
}

#[test]
fn listing_gives_an_offline_account_its_controller() {
    let mut api = populated();
    api.controllers.remove(&1);
    let listed = get_instances(&mut api, ACCOUNT).unwrap();
    assert!(listed.is_empty());
    let controller = api.controllers.get(&1).unwrap();
    assert_eq!(controller.username, "Steve");
    assert_eq!(controller.uuid, 0xe0593eef848d30f8a79f688fded6be74);
    assert!(matches!(&controller.auth, AuthProtocol::Offline(name) if name == "Steve"));
    assert!(controller.instances.is_empty());
}

#[test]
fn listing_needs_a_known_account_that_has_logged_in() {
    let mut api = populated();
    let invalid = get_instances(&mut api, "x").unwrap_err();
    assert!(matches!(invalid, ApiError::InvalidUuid));
    assert_eq!(invalid.to_string(), "Invalid UUID");
    let unknown = get_instances(&mut api, "00000000-0000-0000-0000-000000000009").unwrap_err();
    assert!(matches!(unknown, ApiError::ClientNotFound));
    assert_eq!(unknown.to_string(), "Client not found");
    let notch = MinecraftProfile::from_response(&ProfileData {
        id: 5,
        name: "Notch".to_string(),
        skins: "[]".to_string(),
        capes: "[]".to_string(),
    });
    register_as(&mut api, &notch, 2).unwrap();
    let missing = get_instances(&mut api, "00000000-0000-0000-0000-000000000002").unwrap_err();
    assert!(matches!(missing, ApiError::ControllerMissing));
    assert_eq!(missing.to_string(), "Controller not found");
    assert!(!api.controllers.contains(&2));
}

#[test]
fn an_instance_is_located_by_account_and_key() {
    let mut api = populated();
    assert_eq!(locate_instance(&mut api, ACCOUNT, &10).unwrap().id, 10);
    let invalid = locate_instance(&mut api, "x", &10).unwrap_err();
    assert!(matches!(invalid, ApiError::InvalidId(_)));
    let other = "00000000-0000-0000-0000-000000000002";
    let no_controller = locate_instance(&mut api, other, &10).unwrap_err();
    assert_eq!(
        no_controller.to_string(),
        "No client controller found from id: 00000000-0000-0000-0000-000000000002"
    );
    let no_instance = locate_instance(&mut api, ACCOUNT, &11).unwrap_err();
    assert!(matches!(no_instance, ApiError::NoInstance(11)));
    assert_eq!(
        no_instance.to_string(),
        "No client instance found from key: 00000000-0000-0000-0000-00000000000b"
    );
}

#[test]
fn chat_is_refused_while_the_instance_is_offline() {
    let rt = runtime();
    let mut api = populated();
    let refused = send_chat(&mut api, ACCOUNT, KEY, "hello".to_string()).unwrap_err();
    assert!(matches!(refused, ApiError::Send(SendError::Offline)));
    assert_eq!(
        refused.to_string(),
        "Cannot send chat messages while the instance is offline [state]"
    );
    assert!(api.controllers.get(&1).unwrap().get_instance(&10).unwrap().state.chat_inputs.is_empty());

    let mut relay = Vec::new();
    connect_client(&mut api, ACCOUNT, KEY, |_| rt.spawn(async {}), &mut relay).unwrap();
    send_chat(&mut api, ACCOUNT, KEY, "hello".to_string()).unwrap();
    send_chat(&mut api, ACCOUNT, KEY, "world".to_string()).unwrap();
    let instance = api.controllers.get(&1).unwrap().get_instance(&10).unwrap();
    let queued: Vec<&str> = instance.state.chat_inputs.iter().map(|m| m.as_str()).collect();
    assert_eq!(queued, vec!["hello", "world"]);

    let invalid = send_chat(&mut api, ACCOUNT, "x", "hello".to_string()).unwrap_err();
    assert!(matches!(&invalid, ApiError::InvalidId(_)));
    assert_eq!(invalid.to_string(), uuid::Uuid::parse_str("x").unwrap_err().to_string());
    let nowhere = "00000000-0000-0000-0000-00000000000c";
    assert!(matches!(
        send_chat(&mut api, ACCOUNT, nowhere, "hello".to_string()),
        Err(ApiError::NoInstance(12))
    ));
}

#[test]
fn commands_are_announced_to_the_relay() {
    let rt = runtime();
    let mut api = populated();
    let mut relay = Vec::new();

    let early = disconnect_client(&mut api, ACCOUNT, KEY, &mut relay).unwrap_err();
    assert!(matches!(early, ApiError::End(InstanceEndError::NoConnect(StateSource::Client))));
    assert_eq!(early.to_string(), "Client is not connected [client]");
    let early = kill_client(&mut api, ACCOUNT, KEY, &mut relay).unwrap_err();
    assert!(matches!(early, ApiError::End(InstanceEndError::NoConnect(StateSource::Thread))));
    assert_eq!(early.to_string(), "Client is not connected [thread]");

    let ended = Arc::new(AtomicBool::new(false));
    {
        let ended = ended.clone();
        connect_client(
            &mut api,
            ACCOUNT,
            KEY,
            |_| {
                rt.spawn(async move {
                    let _flag = Flag(ended);
                    loop {
                        tokio::time::sleep(Duration::from_secs(3600)).await;
                    }
                })
            },
            &mut relay,
        )
        .unwrap();
    }
    assert!(api.controllers.get(&1).unwrap().get_instance(&10).unwrap().is_running());

    disconnect_client(&mut api, ACCOUNT, KEY, &mut relay).unwrap();
    settle(&rt);
    {
        let instance = api.controllers.get(&1).unwrap().get_instance(&10).unwrap();
        assert!(!instance.is_running());
        assert!(instance.client_thread.is_some());
    }
    assert!(!ended.load(Ordering::SeqCst));

    kill_client(&mut api, ACCOUNT, KEY, &mut relay).unwrap();
    settle(&rt);
    assert!(ended.load(Ordering::SeqCst));
    assert!(api.controllers.get(&1).unwrap().get_instance(&10).unwrap().client_thread.is_none());

    let announced: Vec<(&u128, &str)> = relay.iter().map(chat).collect();
    assert_eq!(
        announced,
        vec![
            (&10, "Received disconnect command..."),
            (&10, "Received force-kill command..."),
            (&10, "Received connect command..."),
            (&10, "Received disconnect command..."),
            (&10, "Received force-kill command..."),
        ]
    );
}

#[test]
fn commands_on_a_key_that_is_no_uuid_announce_nothing() {
    let rt = runtime();
    let mut api = populated();
    let mut relay = Vec::new();
    assert!(matches!(
        connect_client(&mut api, ACCOUNT, "x", |_| rt.spawn(async {}), &mut relay),
        Err(ApiError::InvalidId(_))
    ));
    assert!(matches!(
        disconnect_client(&mut api, ACCOUNT, "x", &mut relay),
        Err(ApiError::InvalidId(_))
    ));
    assert!(matches!(kill_client(&mut api, ACCOUNT, "x", &mut relay), Err(ApiError::InvalidId(_))));
    assert!(relay.is_empty());
    let nowhere = "00000000-0000-0000-0000-00000000000c";
    assert!(matches!(
        connect_client(&mut api, ACCOUNT, nowhere, |_| rt.spawn(async {}), &mut relay),
        Err(ApiError::NoInstance(12))
    ));
    assert!(relay.is_empty());
    assert!(kill_client(&mut api, ACCOUNT, nowhere, &mut relay).is_err());
    assert_eq!(relay.len(), 1);
}

#[test]
fn accounts_are_listed_for_display() {
    let mut api = populated();
    let info = get_client(&api, ACCOUNT).unwrap();
    assert_eq!(info.id, ACCOUNT);
    assert_eq!(info.username, "Steve");
    assert!(!info.auth);
    assert_eq!(info.uuid, "e0593eef-848d-30f8-a79f-688fded6be74");
    assert_eq!(info.instance_count, 1);
    assert!(get_client(&api, "00000000-0000-0000-0000-000000000002").is_none());
    assert!(get_client(&api, "00000000000000000000000000000001").is_none());
    assert!(get_client(&api, "x").is_none());

    let notch = MinecraftProfile::from_response(&ProfileData {
        id: 5,
        name: "Notch".to_string(),
        skins: "[]".to_string(),
        capes: "[]".to_string(),
    });
    register_as(&mut api, &notch, 2).unwrap();
    let mut infos = get_clients(&api);
    infos.sort_by(|a, b| a.id.cmp(&b.id));
    assert_eq!(infos.len(), 2);
    assert_eq!(infos[0].username, "Steve");
    assert_eq!(infos[1].username, "Notch");
    assert!(infos[1].auth);
    assert_eq!(infos[1].uuid, "00000000-0000-0000-0000-000000000005");
    assert_eq!(infos[1].instance_count, 0);

    let direct = map_client_info(&Client::new(3, "Jeb".to_string(), 6, AuthType::Microsoft));
    assert_eq!(direct.id, "00000000-0000-0000-0000-000000000003");
    assert!(direct.auth);
    assert!(get_clients(&context()).is_empty());
}

#[test]
fn every_version_is_available() {
    assert_eq!(get_available_versions(), Version::all());
    assert_eq!(get_available_versions().len(), 28);
}
