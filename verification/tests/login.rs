use clientworks::api::ApiContext;
use clientworks::auth::{
    AuthState, Authentication, MinecraftProfile, MinecraftToken, MsaToken, ProfileData,
    ProviderError, VerificationInfo,
};
use clientworks::cache::{unix_now, AuthCache, MinecraftAuthCache};
use clientworks::login::{
    auth_ms_finish, auth_ms_finish_as, auth_ms_init, auth_ms_take, auth_offline, auth_offline_as,
    auth_validity, cached_authentication, cached_authentication_as, cached_lookup,
    cached_lookup_at, cached_refreshed, recall_authentication, AuthError, CacheLookup, Recall,
    RecallError,
};
use clientworks::client::{AuthType, ClientConnection, ClientError};
use clientworks::controller::{AuthProtocol, ClientController, ControllerError};
use clientworks::server::Server;
use clientworks::version::Version;

const STEVE: u128 = 0xe0593eef848d30f8a79f688fded6be74;

fn msa(refresh: &str, expires_at: u64) -> MsaToken {
    MsaToken {
        expires_at,
        token_type: "bearer".to_string(),
        expires_in: 3_600,
        scope: "scope".to_string(),
        access_token: "msa-access".to_string(),
        refresh_token: refresh.to_string(),
        user_id: "user".to_string(),
    }
}

fn profile(uuid: u128, name: &str) -> MinecraftProfile {
    MinecraftProfile::from_response(&ProfileData {
        id: uuid,
        name: name.to_string(),
        skins: "[]".to_string(),
        capes: "[]".to_string(),
    })
}

fn record(uuid: u128, name: &str, expiration: u64) -> MinecraftAuthCache {
    MinecraftAuthCache {
        access_token: format!("access-{name}"),
        expiration,
        msa: msa("refresh", expiration),
        profile: profile(uuid, name),
    }
}

fn context() -> ApiContext {
    ApiContext::new(
        clientworks::client::List::new(),
        clientworks::server::List::new(),
        AuthCache::new(),
    )
}

fn working(text: &str) -> AuthState {
    AuthState::Working(text.to_string())
}

fn error(text: &str) -> AuthState {
    AuthState::Error(text.to_string())
}

#[test]
fn a_record_expires_after_its_expiration_not_at_it() {
    let record = record(1, "Notch", 1_000);
    assert!(!record.is_expired(999));
    assert!(!record.is_expired(1_000));
    assert!(record.is_expired(1_001));
    assert!(!record.is_expired(0));
    assert!(record.is_expired(u64::MAX));
    let never = self::record(1, "Notch", u64::MAX);
    assert!(!never.is_expired(u64::MAX));
}

#[test]
fn expiry_by_the_clock() {
    assert!(unix_now() > 1_600_000_000);
    assert!(record(1, "Notch", 0).has_expired());
    assert!(!record(1, "Notch", u64::MAX).has_expired());
}

#[test]
fn a_record_that_expired_a_second_ago_is_refreshed_not_reused() {
    let mut api = context();
    let now = 1_700_000_000;
    api.auth_cache.0.insert("main".to_string(), record(1, "Notch", now - 1));
    let mut progress = Vec::new();
    match cached_lookup_at(&api, "main", now, &mut progress) {
        CacheLookup::Expired(found, request) => {
            assert_eq!(found.expiration, now - 1);
            assert_eq!(found.msa.refresh_token, "refresh");
            match request {
                clientworks::auth::AuthRequest::Refresh { refresh_token } => {
                    assert_eq!(refresh_token, "refresh")
                }
                other => panic!("expected a refresh request, got {:?}", other),
            }
        }
        other => panic!("expected an expired record, got {:?}", other),
    }
    assert_eq!(
        progress,
        vec![working("Looking for cache..."), working("Cache expired, refresh is required.")]
    );
}

#[test]
fn a_record_that_has_not_expired_is_used_as_it_is() {
    let mut api = context();
    let now = 1_700_000_000;
    api.auth_cache.0.insert("main".to_string(), record(1, "Notch", now));
    let mut progress = Vec::new();
    match cached_lookup_at(&api, "main", now, &mut progress) {
        CacheLookup::Valid(found) => {
            assert_eq!(found.expiration, now);
            assert_eq!(found.access_token, "access-Notch");
            assert_eq!(found.profile.uuid, 1);
        }
        other => panic!("expected a valid record, got {:?}", other),
    }
    assert_eq!(progress, vec![working("Looking for cache..."), working("Valid cache found.")]);
}

#[test]
fn a_login_key_without_a_record_is_missing() {
    let api = context();
    let mut progress = Vec::new();
    assert!(matches!(cached_lookup_at(&api, "main", 5, &mut progress), CacheLookup::Missing));
    assert_eq!(progress, vec![working("Looking for cache..."), error("No cache found.")]);
}

#[test]
fn lookup_by_the_clock() {
    let mut api = context();
    api.auth_cache.0.insert("old".to_string(), record(1, "Notch", 10));
    api.auth_cache.0.insert("new".to_string(), record(2, "Jeb", u64::MAX));
    let mut progress = Vec::new();
    assert!(matches!(cached_lookup(&api, "old", &mut progress), CacheLookup::Expired(..)));
    assert!(matches!(cached_lookup(&api, "new", &mut progress), CacheLookup::Valid(_)));
    assert!(matches!(cached_lookup(&api, "none", &mut progress), CacheLookup::Missing));
    assert_eq!(progress.len(), 6);
}

#[test]
fn a_refresh_replaces_all_but_the_profile() {
    let old = record(1, "Notch", 10);
    let mut progress = Vec::new();
    let mut fresh = msa("refresh-2", 9_999);
    fresh.access_token = "msa-access-2".to_string();
    let new = cached_refreshed(&old, Ok(fresh), &mut progress).unwrap();
    assert_eq!(new.expiration, 9_999);
    assert_eq!(new.msa.refresh_token, "refresh-2");
    assert_eq!(new.msa.expires_at, 9_999);
    assert_eq!(new.msa.access_token, "msa-access-2");
    assert_eq!(new.access_token, "msa-access-2");
    assert_eq!(new.profile.uuid, 1);
    assert_eq!(new.profile.username, "Notch");
    assert_eq!(progress, vec![working("Successfully refreshed MSA token")]);
    let direct = old.refreshed(msa("refresh-3", 7));
    assert_eq!(direct.expiration, 7);
    assert_eq!(direct.msa.refresh_token, "refresh-3");
    assert_eq!(direct.access_token, "msa-access");
    assert_eq!(direct.profile.uuid, 1);
    assert_eq!(direct.profile.username, "Notch");
}

#[test]
fn a_failed_refresh_asks_for_a_new_login() {
    let old = record(1, "Notch", 10);
    let mut progress = Vec::new();
    let new = cached_refreshed(
        &old,
        Err(ProviderError::Failed("invalid_grant".to_string())),
        &mut progress,
    );
    assert!(new.is_none());
    assert_eq!(
        progress,
        vec![
            error("Failed to refresh MSA token. Re-authentication is required. (invalid_grant)"),
            error(
                "Failed to refresh authentication token, re-authentication is required: invalid_grant"
            ),
        ]
    );
}

#[test]
fn records_are_found_by_profile() {
    let mut cache = AuthCache::new();
    assert!(cache.get_from_mc_uuid(&1).is_none());
    assert!(cache.get_key_from_mc_uuid(&1).is_none());
    cache.0.insert("first".to_string(), record(1, "Notch", 10));
    cache.0.insert("second".to_string(), record(2, "Jeb", 20));
    cache.0.insert("third".to_string(), record(1, "Notch", 30));
    assert_eq!(cache.get_from_mc_uuid(&2).unwrap().expiration, 20);
    assert_eq!(cache.get_key_from_mc_uuid(&2).unwrap(), "second");
    assert_eq!(cache.get_from_mc_uuid(&1).unwrap().expiration, 10);
    assert_eq!(cache.get_key_from_mc_uuid(&1).unwrap(), "first");
    assert!(cache.get_from_mc_uuid(&3).is_none());
    assert!(cache.get_key_from_mc_uuid(&3).is_none());
}

#[test]
fn a_record_is_replaced_whole() {
    let mut cache = AuthCache::new();
    cache.0.insert("main".to_string(), record(1, "Notch", 10));
    let previous = cache.0.insert("main".to_string(), record(2, "Jeb", 20)).unwrap();
    assert_eq!(previous.profile.uuid, 1);
    assert_eq!(cache.0.len(), 1);
    let now = cache.0.get("main").unwrap();
    assert_eq!(now.profile.uuid, 2);
    assert_eq!(now.profile.username, "Jeb");
    assert_eq!(now.expiration, 20);
    assert_eq!(now.access_token, "access-Jeb");
}

#[test]
fn validity_is_the_expiration_of_the_cached_profile() {
    let mut api = context();
    api.auth_cache.0.insert("main".to_string(), record(STEVE, "Steve", 1_234));
    assert_eq!(auth_validity(&api, "e0593eef-848d-30f8-a79f-688fded6be74"), 1_234);
    assert_eq!(auth_validity(&api, "00000000-0000-0000-0000-000000000001"), 0);
    assert_eq!(auth_validity(&api, "nonsense"), 0);
}

#[test]
fn registering_steve_offline_and_then_again() {
    let mut api = context();
    let mut progress = Vec::new();
    let (id, profile) = auth_offline(&mut api, "Steve".to_string(), &mut progress).unwrap();
    let expected = uuid::Uuid::new_v3(&uuid::Uuid::NAMESPACE_X500, b"OfflinePlayer:Steve");
    assert_eq!(profile.uuid, expected.as_u128());
    assert_eq!(profile.username, "Steve");
    assert!(!profile.authenticated);
    let account = uuid::Uuid::parse_str(&id).unwrap().as_u128();
    assert_eq!(id, uuid::Uuid::from_u128(account).to_string());
    assert_eq!(
        progress,
        vec![working("Verifying account..."), working("Offline account created.")]
    );
    let client = api.clients.get_by_id(&account).unwrap();
    assert_eq!(client.id, account);
    assert_eq!(client.username, "Steve");
    assert_eq!(client.uuid, STEVE);
    assert_eq!(client.auth, AuthType::Offline);
    assert!(client.connections.is_empty());
    let controller = api.controllers.get(&account).unwrap();
    assert_eq!(controller.id, account);
    assert_eq!(controller.username, "Steve");
    assert_eq!(controller.uuid, STEVE);
    assert!(matches!(&controller.auth, AuthProtocol::Offline(name) if name == "Steve"));
    assert!(controller.instances.is_empty());

    let mut progress = Vec::new();
    let again = auth_offline(&mut api, "Steve".to_string(), &mut progress).unwrap_err();
    assert!(matches!(again, AuthError::AccountExists));
    assert_eq!(again.to_string(), "Account already exists.");
    assert_eq!(
        progress,
        vec![working("Verifying account..."), error("Account Steve is already registered.")]
    );
    assert_eq!(api.clients.0.len(), 1);
    assert_eq!(api.controllers.list.len(), 1);
    assert!(api.clients.get_by_id(&account).is_some());
}

#[test]
fn offline_registration_under_a_given_id() {
    let mut api = context();
    let mut progress = Vec::new();
    let (id, profile) = auth_offline_as(&mut api, "Alex".to_string(), 77, &mut progress).unwrap();
    assert_eq!(id, "00000000-0000-0000-0000-00000000004d");
    assert_eq!(profile.uuid, 0xd3fba63c5c293c87a14bdbb669460e31);
    assert!(api.clients.get_by_id(&77).is_some());
    assert!(api.controllers.contains(&77));
}

fn finished_login(with_profile: bool, with_msa: bool) -> Authentication {
    let mut auth = Authentication::new();
    let mut progress = Vec::new();
    if with_msa {
        auth.ms_token_received(Ok(msa("refresh", 3_000)), &mut progress);
    }
    let token = MinecraftToken {
        minecraft_access_token: "session".to_string(),
        access_token: "mca-access".to_string(),
        expires_at: 4_000,
    };
    let response = if with_profile {
        Ok(ProfileData {
            id: 500,
            name: "Notch".to_string(),
            skins: "[]".to_string(),
            capes: "[]".to_string(),
        })
    } else {
        Err(ProviderError::Failed("down".to_string()))
    };
    auth.profile_received(token, response, &mut progress);
    auth
}

#[test]
fn a_login_with_its_code_is_kept_until_it_is_finished() {
    let mut api = context();
    let mut auth = Authentication::new();
    let mut progress = Vec::new();
    auth.access_info_received(
        Ok(VerificationInfo {
            code: "CODE".to_string(),
            uri: "https://example.test".to_string(),
            device: "dev".to_string(),
            expiration: 900,
            interval: 5,
        }),
        &mut progress,
    );
    let shown = auth_ms_init(&mut api, "main".to_string(), auth).unwrap();
    assert_eq!(shown.uri, "https://example.test");
    assert_eq!(shown.code, "CODE");
    assert!(api.ongoing_auths.contains_key("main"));

    let taken = auth_ms_take(&mut api, &"main".to_string()).unwrap();
    assert_eq!(taken.credentials.unwrap().device, "dev");
    assert!(!api.ongoing_auths.contains_key("main"));
    let again = auth_ms_take(&mut api, &"main".to_string()).unwrap_err();
    assert!(matches!(&again, AuthError::NoOngoingAuth(key) if key == "main"));
    assert_eq!(again.to_string(), "No ongoing auth found from provided login key: main");
}

#[test]
fn a_login_without_its_code_is_not_kept() {
    let mut api = context();
    let mut auth = Authentication::new();
    let mut progress = Vec::new();
    auth.access_info_received(Err(ProviderError::Failed("refused".to_string())), &mut progress);
    let shown = auth_ms_init(&mut api, "main".to_string(), auth).unwrap_err();
    assert!(matches!(&shown, AuthError::State(text) if text == "refused"));
    assert_eq!(shown.to_string(), "refused");
    assert!(!api.ongoing_auths.contains_key("main"));
    assert_eq!(api.ongoing_auths.len(), 0);
}

#[test]
fn a_finished_login_is_cached_registered_and_given_a_controller() {
    let mut api = context();
    let (id, profile) =
        auth_ms_finish_as(&mut api, "main".to_string(), finished_login(true, true), true, 900)
            .unwrap();
    assert_eq!(id, "00000000-0000-0000-0000-000000000384");
    assert_eq!(profile.uuid, 500);
    assert_eq!(profile.username, "Notch");
    let cached = api.auth_cache.0.get("main").unwrap();
    assert_eq!(cached.access_token, "mca-access");
    assert_eq!(cached.expiration, 4_000);
    assert_eq!(cached.msa.refresh_token, "refresh");
    assert_eq!(cached.profile.uuid, 500);
    let client = api.clients.get_by_id(&900).unwrap();
    assert_eq!(client.username, "Notch");
    assert_eq!(client.uuid, 500);
    assert_eq!(client.auth, AuthType::Microsoft);
    let controller = api.controllers.get(&900).unwrap();
    assert_eq!(controller.uuid, 500);
    match &controller.auth {
        AuthProtocol::Microsoft(token, msa, profile) => {
            assert_eq!(token, "mca-access");
            assert_eq!(msa.refresh_token, "refresh");
            assert_eq!(profile.uuid, 500);
        }
        other => panic!("unexpected protocol {:?}", other),
    }
    assert!(controller.instances.is_empty());
}

#[test]
fn a_finished_login_that_is_not_registered_leaves_nothing() {
    let mut api = context();
    let (id, profile) =
        auth_ms_finish(&mut api, "main".to_string(), finished_login(true, true), false).unwrap();
    assert_eq!(id, "");
    assert_eq!(profile.uuid, 500);
    assert_eq!(api.auth_cache.0.len(), 0);
    assert_eq!(api.clients.0.len(), 0);
    assert_eq!(api.controllers.list.len(), 0);
}

#[test]
fn a_login_without_profile_or_token_cannot_be_finished() {
    let mut api = context();
    let no_profile =
        auth_ms_finish(&mut api, "main".to_string(), finished_login(false, true), true)
            .unwrap_err();
    assert!(matches!(no_profile, AuthError::NoProfile));
    assert_eq!(no_profile.to_string(), "No profile found from account.");

    let mut failed = Authentication::new();
    let mut progress = Vec::new();
    failed.ms_token_received(Err(ProviderError::Timeout), &mut progress);
    let no_token = auth_ms_finish(&mut api, "main".to_string(), failed, true).unwrap_err();
    assert!(matches!(&no_token, AuthError::State(text) if text == "Authentication timed out"));

    let no_msa = auth_ms_finish(&mut api, "main".to_string(), finished_login(true, false), true)
        .unwrap_err();
    assert!(matches!(no_msa, AuthError::NoMsaToken));
    assert_eq!(no_msa.to_string(), "No MSA credentials to authenticate with");
    assert_eq!(api.auth_cache.0.len(), 0);
    assert_eq!(api.clients.0.len(), 0);
}

#[test]
fn finishing_a_login_for_a_taken_name_caches_but_does_not_register() {
    let mut api = context();
    let mut progress = Vec::new();
    auth_offline_as(&mut api, "Notch".to_string(), 1, &mut progress).unwrap();
    let refused =
        auth_ms_finish_as(&mut api, "main".to_string(), finished_login(true, true), true, 900)
            .unwrap_err();
    assert!(
        matches!(&refused, AuthError::Client(ClientError::AlreadyExists(name)) if name == "Notch")
    );
    assert_eq!(refused.to_string(), "Client Notch already exists");
    assert!(api.auth_cache.0.contains_key("main"));
    assert_eq!(api.clients.0.len(), 1);
    assert!(!api.controllers.contains(&900));
}

#[test]
fn a_cached_login_of_a_new_profile_registers_it() {
    let mut api = context();
    let mut progress = Vec::new();
    let (id, profile) = cached_authentication_as(
        &mut api,
        &"main".to_string(),
        Some(record(500, "Notch", 10)),
        44,
        &mut progress,
    )
    .unwrap();
    assert_eq!(id, "00000000-0000-0000-0000-00000000002c");
    assert_eq!(profile.uuid, 500);
    assert_eq!(
        progress,
        vec![
            working("Validating cache..."),
            working("Registering new client from cached profile..."),
            AuthState::Success(
                "Cache successfully validated, authentication is allowed.".to_string()
            ),
        ]
    );
    assert_eq!(api.clients.get_by_id(&44).unwrap().auth, AuthType::Microsoft);
    assert_eq!(api.auth_cache.0.get("main").unwrap().expiration, 10);
    let controller = api.controllers.get(&44).unwrap();
    assert_eq!(controller.username, "Notch");
    assert!(controller.instances.is_empty());
}

#[test]
fn a_cached_login_of_a_known_profile_rebuilds_its_instances() {
    let mut api = context();
    let mut progress = Vec::new();
    cached_authentication_as(
        &mut api,
        &"main".to_string(),
        Some(record(500, "Notch", 10)),
        44,
        &mut progress,
    )
    .unwrap();
    {
        let client = api.clients.get_mut_by_id(&44).unwrap();
        let hub = Server::new("hub".to_string(), "hub.test".to_string(), 25565);
        let pvp = Server::new("pvp".to_string(), "pvp.test".to_string(), 25566);
        client.connections.insert(7, ClientConnection::new(7, Version::V1_19_2, hub));
        client.connections.insert(8, ClientConnection::new(8, Version::V1_21_4, pvp));
    }
    api.controllers.remove(&44);

    let mut progress = Vec::new();
    let (id, _) = cached_authentication(
        &mut api,
        &"main".to_string(),
        Some(record(500, "Notch", 99)),
        &mut progress,
    )
    .unwrap();
    assert_eq!(id, "00000000-0000-0000-0000-00000000002c");
    assert_eq!(
        progress,
        vec![
            working("Validating cache..."),
            AuthState::Success(
                "Cache successfully validated, authentication is allowed.".to_string()
            ),
        ]
    );
    assert_eq!(api.clients.0.len(), 1);
    assert_eq!(api.auth_cache.0.get("main").unwrap().expiration, 99);
    let controller = api.controllers.get(&44).unwrap();
    assert_eq!(controller.instances.len(), 2);
    let first = controller.get_instance(&7).unwrap();
    assert_eq!(first.id, 7);
    assert_eq!(first.target.ip, "hub.test");
    assert_eq!(first.version, Version::V1_19_2);
    assert_eq!(first.info.username, "Notch");
    assert!(!first.is_running());
    let second = controller.get_instance(&8).unwrap();
    assert_eq!(second.target.port, 25566);
    assert_eq!(second.version, Version::V1_21_4);
    assert!(matches!(&second.info.auth, AuthProtocol::Microsoft(token, _, _) if token == "access-Notch"));
}

#[test]
fn a_cached_login_without_a_record_fails() {
    let mut api = context();
    let mut progress = Vec::new();
    let failed =
        cached_authentication(&mut api, &"main".to_string(), None, &mut progress).unwrap_err();
    assert!(matches!(failed, AuthError::NotInCache));
    assert_eq!(
        failed.to_string(),
        "Account not found in cache or cached token(s) have expired."
    );
    assert_eq!(
        progress,
        vec![working("Validating cache..."), error("Account not found in cache.")]
    );
    assert_eq!(api.auth_cache.0.len(), 0);
}

#[test]
fn a_cached_login_for_a_taken_name_is_refused() {
    let mut api = context();
    let mut progress = Vec::new();
    auth_offline_as(&mut api, "Notch".to_string(), 1, &mut progress).unwrap();
    let mut progress = Vec::new();
    let refused = cached_authentication_as(
        &mut api,
        &"main".to_string(),
        Some(record(500, "Notch", 10)),
        44,
        &mut progress,
    )
    .unwrap_err();
    assert!(matches!(refused, AuthError::Client(ClientError::AlreadyExists(_))));
    assert_eq!(
        progress,
        vec![
            working("Validating cache..."),
            working("Registering new client from cached profile..."),
        ]
    );
    assert!(!api.auth_cache.0.contains_key("main"));
    assert!(!api.controllers.contains(&44));
    assert_eq!(api.clients.0.len(), 1);
}

#[test]
fn recall_decides_how_an_account_logs_in_again() {
    let mut api = context();
    let mut progress = Vec::new();
    cached_authentication_as(
        &mut api,
        &"main".to_string(),
        Some(record(500, "Notch", 10)),
        44,
        &mut progress,
    )
    .unwrap();
    let id = "00000000-0000-0000-0000-00000000002c";
    assert!(matches!(recall_authentication(&api, id), Ok(Recall::AlreadyAuthenticated)));

    api.controllers.remove(&44);
    match recall_authentication(&api, id) {
        Ok(Recall::FromCache(key)) => assert_eq!(key, "main"),
        other => panic!("unexpected recall {:?}", other),
    }

    api.auth_cache.0.remove("main");
    let no_key = recall_authentication(&api, id).unwrap_err();
    assert!(matches!(no_key, RecallError::NoCachedKey(500)));
    assert_eq!(
        no_key.to_string(),
        "<div>No authentication key found in cache for client with ID <u className=\\\"text-red-400\\\">00000000-0000-0000-0000-0000000001f4</u>.\n                    <br />Please check your account cache in <u className=\\\"text-red-400\\\">auth_cache.json</u> if allowed to.\n                    <br /> <br />\n                    <u className=\"text-red-500\">Report a bug</u> if you believe this is an error.</div>"
    );

    let unknown = recall_authentication(&api, "00000000-0000-0000-0000-000000000001").unwrap_err();
    assert!(matches!(unknown, RecallError::NotRegistered(1)));
    assert_eq!(
        unknown.to_string(),
        "<div>No client registered with ID: 00000000-0000-0000-0000-000000000001<br /><br /><u className=\"text-red-500\">Report a bug</u> if you believe this is an error.</div>"
    );

    let invalid = recall_authentication(&api, "xyz").unwrap_err();
    assert!(matches!(&invalid, RecallError::InvalidId(_)));
    assert_eq!(invalid.to_string(), uuid::Uuid::parse_str("xyz").unwrap_err().to_string());

    assert_eq!(
        RecallError::Failed("boom".to_string()).to_string(),
        "<div>boom<br /><br /><u className=\"text-red-500\">Report a bug</u> if you believe this is an error.</div>"
    );
}

#[test]
fn a_controller_cannot_be_rebuilt_for_an_unknown_account() {
    let api = context();
    let failed = ClientController::new_cached(&api, &5, &record(500, "Notch", 10)).unwrap_err();
    assert_eq!(failed, ControllerError::UnknownClient(5));
    assert_eq!(
        failed.to_string(),
        "Could not find client 00000000-0000-0000-0000-000000000005 in local client register."
    );
    assert_eq!(
        AuthError::Controller(failed).to_string(),
        "Could not find client 00000000-0000-0000-0000-000000000005 in local client register."
    );
}
