//! The login commands: offline registration, the cached login with its
//! silent refresh, and the conclusion of an interactive login. Each decides
//! on the registers what the provider's answers amount to, and says which
//! states are to be reported.

use crate::api::ApiContext;
use crate::auth::{
    refresh_ms, report, views, AuthRequest, AuthState, AuthStateView, Authentication,
    MinecraftProfile, MinecraftToken, MsaToken, ProviderError,
};
use crate::cache::{unix_now, AuthCredentials, MinecraftAuthCache};
use crate::client::{
    auth_type_of, has_mc_uuid, has_username, register_as, AuthType, ClientConnection, ClientError,
};
use crate::controller::{AuthProtocol, ClientController, ControllerError};
use crate::ident::{
    new_v4, parse, to_text, uuid_parsed, uuid_rejection, uuid_text, InvalidUuid, Uuid,
};
use crate::instance::ClientInstance;
use vstd::prelude::*;
use vstd::string::StringExecFns;

verus! {

/// Why a login command failed.
#[derive(Debug)]
pub enum AuthError {
    /// An account of that display name is registered already.
    AccountExists,
    /// The register of accounts refused.
    Client(ClientError),
    /// The controller could not be made.
    Controller(ControllerError),
    /// Nothing usable is cached under the login key.
    NotInCache,
    /// No login is in progress under this login key.
    NoOngoingAuth(String),
    /// The login gave a session token but no profile.
    NoProfile,
    /// The login gave a session token but holds no Microsoft token.
    NoMsaToken,
    /// The login did not give a session token; this is what its state shows.
    State(String),
}

impl AuthError {
    /// The message of this error.
    pub open spec fn message(&self) -> Seq<char> {
        match self {
            AuthError::AccountExists => "Account already exists."@,
            AuthError::Client(error) => error.message(),
            AuthError::Controller(error) => error.message(),
            AuthError::NotInCache => "Account not found in cache or cached token(s) have expired."@,
            AuthError::NoOngoingAuth(key) => "No ongoing auth found from provided login key: "@
                + key@,
            AuthError::NoProfile => "No profile found from account."@,
            AuthError::NoMsaToken => "No MSA credentials to authenticate with"@,
            AuthError::State(text) => text@,
        }
    }

    /// The message of this error.
    pub fn to_string(&self) -> (text: String)
        ensures
            text@ == self.message(),
    {
        match self {
            AuthError::AccountExists => String::from_str("Account already exists."),
            AuthError::Client(error) => error.to_string(),
            AuthError::Controller(error) => error.to_string(),
            AuthError::NotInCache => String::from_str(
                "Account not found in cache or cached token(s) have expired.",
            ),
            AuthError::NoOngoingAuth(key) => String::from_str(
                "No ongoing auth found from provided login key: ",
            ).concat(key.as_str()),
            AuthError::NoProfile => String::from_str("No profile found from account."),
            AuthError::NoMsaToken => String::from_str("No MSA credentials to authenticate with"),
            AuthError::State(text) => text.clone(),
        }
    }
}

/// When the access token cached for the profile that `uuid` names expires,
/// in seconds since the epoch; zero where `uuid` names no UUID or nothing is
/// cached for it.
pub fn auth_validity(api: &ApiContext, uuid: &str) -> (expiration: u64)
    requires
        api.wf(),
    ensures
        match uuid_parsed(uuid@) {
            Some(id) => if api.auth_cache.has_profile(id) {
                exists|i: int|
                    0 <= i < api.auth_cache.0.values().len() && (
                    #[trigger] api.auth_cache.0.values()[i]).profile.uuid == id && expiration
                        == api.auth_cache.0.values()[i].expiration && forall|j: int|
                        0 <= j < i ==> api.auth_cache.0.values()[j].profile.uuid != id
            } else {
                expiration == 0
            },
            None => expiration == 0,
        },
{
    match parse(uuid) {
        Ok(id) => match api.auth_cache.get_from_mc_uuid(&id) {
            Some(record) => record.expiration,
            None => 0,
        },
        Err(_) => 0,
    }
}

/// The closing words of a message that the user may take for a fault.
pub open spec fn bug_report_label() -> Seq<char> {
    "<u className=\"text-red-500\">Report a bug</u> if you believe this is an error."@
}

/// Why an account could not be logged in again without the user.
#[derive(Debug)]
pub enum RecallError {
    /// The account id is no UUID; this is why.
    InvalidId(String),
    /// No account is registered under this id.
    NotRegistered(Uuid),
    /// Nothing is cached for the account with this in-game UUID.
    NoCachedKey(Uuid),
    /// The cached login failed; this is why.
    Failed(String),
}

impl RecallError {
    /// The message of this error, as markup.
    pub open spec fn message(&self) -> Seq<char> {
        match self {
            RecallError::InvalidId(reason) => reason@,
            RecallError::NotRegistered(id) => "<div>No client registered with ID: "@ + uuid_text(
                *id,
            ) + "<br /><br />"@ + bug_report_label() + "</div>"@,
            RecallError::NoCachedKey(uuid) =>
                "<div>No authentication key found in cache for client with ID <u className=\\\"text-red-400\\\">"@
                + uuid_text(*uuid)
                + "</u>.\n                    <br />Please check your account cache in <u className=\\\"text-red-400\\\">auth_cache.json</u> if allowed to.\n                    <br /> <br />\n                    "@
                + bug_report_label() + "</div>"@,
            RecallError::Failed(reason) => "<div>"@ + reason@ + "<br /><br />"@
                + bug_report_label() + "</div>"@,
        }
    }

    /// The message of this error, as markup.
    pub fn to_string(&self) -> (text: String)
        ensures
            text@ == self.message(),
    {
        let label =
            "<u className=\"text-red-500\">Report a bug</u> if you believe this is an error.";
        match self {
            RecallError::InvalidId(reason) => reason.clone(),
            RecallError::NotRegistered(id) => String::from_str(
                "<div>No client registered with ID: ",
            ).concat(to_text(*id).as_str()).concat("<br /><br />").concat(label).concat("</div>"),
            RecallError::NoCachedKey(uuid) => String::from_str(
                "<div>No authentication key found in cache for client with ID <u className=\\\"text-red-400\\\">",
            ).concat(to_text(*uuid).as_str()).concat(
                "</u>.\n                    <br />Please check your account cache in <u className=\\\"text-red-400\\\">auth_cache.json</u> if allowed to.\n                    <br /> <br />\n                    ",
            ).concat(label).concat("</div>"),
            RecallError::Failed(reason) => String::from_str("<div>").concat(
                reason.as_str(),
            ).concat("<br /><br />").concat(label).concat("</div>"),
        }
    }
}

/// How an account is to be logged in again without the user.
#[derive(Debug)]
pub enum Recall {
    /// It has a controller already; there is nothing to do.
    AlreadyAuthenticated,
    /// Its login is cached under this login key.
    FromCache(String),
}

/// Decides how the account that `id` names is logged in again: not at all
/// where it has a controller, else from the cache, under the login key of a
/// record of its profile.
pub fn recall_authentication(api: &ApiContext, id: &str) -> (recall: Result<Recall, RecallError>)
    requires
        api.wf(),
    ensures
        match uuid_parsed(id@) {
            None => {
                &&& recall matches Err(RecallError::InvalidId(reason))
                &&& reason@ == uuid_rejection(id@)
            },
            Some(uuid) => if api.controllers@.contains_key(uuid) {
                recall is Ok && recall->Ok_0 is AlreadyAuthenticated
            } else if !api.clients@.contains_key(uuid) {
                recall is Err && recall->Err_0 == RecallError::NotRegistered(uuid)
            } else if !api.auth_cache.has_profile(api.clients@[uuid].uuid) {
                recall is Err && recall->Err_0 == RecallError::NoCachedKey(api.clients@[uuid].uuid)
            } else {
                &&& recall matches Ok(Recall::FromCache(key))
                &&& api.auth_cache@.contains_key(key@)
                &&& api.auth_cache@[key@].profile.uuid == api.clients@[uuid].uuid
            },
        },
{
    let uuid = match parse(id) {
        Ok(uuid) => uuid,
        Err(InvalidUuid(reason)) => {
            return Err(RecallError::InvalidId(reason));
        },
    };
    if api.controllers.get(&uuid).is_some() {
        return Ok(Recall::AlreadyAuthenticated);
    }
    let client_uuid = match api.clients.get_by_id(&uuid) {
        Some(client) => client.uuid,
        None => {
            return Err(RecallError::NotRegistered(uuid));
        },
    };
    match api.auth_cache.get_key_from_mc_uuid(&client_uuid) {
        Some(key) => Ok(Recall::FromCache(key.clone())),
        None => Err(RecallError::NoCachedKey(client_uuid)),
    }
}

/// What the offline registration of `username` under the account id `id`
/// makes of the registers and answers.
pub open spec fn offline_outcome(
    before: ApiContext,
    after: ApiContext,
    username: String,
    id: Uuid,
    made: Result<(String, MinecraftProfile), AuthError>,
) -> bool {
    &&& after.servers == before.servers
    &&& after.ongoing_auths == before.ongoing_auths
    &&& after.auth_cache == before.auth_cache
    &&& if has_username(before.clients@, username@) {
        &&& made is Err && made->Err_0 is AccountExists
        &&& after.clients == before.clients
        &&& after.controllers == before.controllers
    } else {
        &&& made matches Ok((text, profile))
        &&& text@ == uuid_text(id)
        &&& profile.is_offline(username@)
        &&& profile.username == username
        &&& after.clients@ == before.clients@.insert(id, after.clients@[id])
        &&& after.clients@[id].is_new(id, username, profile.uuid, AuthType::Offline)
        &&& after.controllers@ == before.controllers@.insert(id, after.controllers@[id])
        &&& after.controllers@[id].is_offline(id, username)
    }
}

/// What the offline registration of `username` reports.
pub open spec fn offline_report(before: ApiContext, username: String) -> Seq<AuthStateView> {
    seq![
        AuthStateView::Working("Verifying account..."@),
        if has_username(before.clients@, username@) {
            AuthStateView::Error("Account "@ + username@ + " is already registered."@)
        } else {
            AuthStateView::Working("Offline account created."@)
        },
    ]
}

/// Registers an offline account named `username` under the account id `id`
/// and gives it a controller, unless an account of that name is registered
/// already, in which case nothing changes.
pub fn auth_offline_as(
    api: &mut ApiContext,
    username: String,
    id: Uuid,
    progress: &mut Vec<AuthState>,
) -> (made: Result<(String, MinecraftProfile), AuthError>)
    requires
        old(api).wf(),
    ensures
        final(api).wf(),
        offline_outcome(*old(api), *final(api), username, id, made),
        views(final(progress)@) == views(old(progress)@) + offline_report(*old(api), username),
{
    report(progress, AuthState::Working(String::from_str("Verifying account...")));
    if api.clients.get_by_username(username.as_str()).is_some() {
        report(
            progress,
            AuthState::Error(
                String::from_str("Account ").concat(username.as_str()).concat(
                    " is already registered.",
                ),
            ),
        );
        assert(views(progress@) =~= views(old(progress)@) + offline_report(*old(api), username));
        return Err(AuthError::AccountExists);
    }
    report(progress, AuthState::Working(String::from_str("Offline account created.")));
    assert(views(progress@) =~= views(old(progress)@) + offline_report(*old(api), username));
    let profile = MinecraftProfile::with_username(username.clone());
    match register_as(api, &profile, id) {
        Ok(_) => {},
        Err(error) => {
            return Err(AuthError::Client(error));
        },
    }
    let controller = ClientController::new(
        id,
        username.clone(),
        profile.uuid,
        AuthProtocol::Offline(username),
    );
    api.controllers.add(controller);
    Ok((to_text(id), profile))
}

/// Registers an offline account named `username` under a random account id
/// and gives it a controller, unless an account of that name is registered
/// already, in which case nothing changes.
pub fn auth_offline(api: &mut ApiContext, username: String, progress: &mut Vec<AuthState>) -> (made:
    Result<(String, MinecraftProfile), AuthError>)
    requires
        old(api).wf(),
    ensures
        final(api).wf(),
        exists|id: Uuid| #[trigger] offline_outcome(*old(api), *final(api), username, id, made),
        views(final(progress)@) == views(old(progress)@) + offline_report(*old(api), username),
{
    let id = new_v4();
    auth_offline_as(api, username, id, progress)
}

/// What the cache holds under a login key, seen at one moment.
#[derive(Debug)]
pub enum CacheLookup {
    /// A record whose access token has not expired: it is used as it is.
    Valid(MinecraftAuthCache),
    /// A record whose access token has expired, and the request that
    /// refreshes it: the provider is to be asked with the record's refresh
    /// token.
    Expired(MinecraftAuthCache, AuthRequest),
    /// No record.
    Missing,
}

/// What `cached_lookup_at` answers and reports for a cache, a login key and
/// a time.
pub open spec fn lookup_outcome(
    cache: Map<Seq<char>, MinecraftAuthCache>,
    login_key: Seq<char>,
    now: u64,
) -> (CacheLookup, AuthStateView) {
    if !cache.contains_key(login_key) {
        (CacheLookup::Missing, AuthStateView::Error("No cache found."@))
    } else if cache[login_key].is_expired(now) {
        (
            CacheLookup::Expired(
                cache[login_key],
                AuthRequest::Refresh { refresh_token: cache[login_key].msa.refresh_token },
            ),
            AuthStateView::Working("Cache expired, refresh is required."@),
        )
    } else {
        (CacheLookup::Valid(cache[login_key]), AuthStateView::Working("Valid cache found."@))
    }
}

/// Looks a login key up in the cache at the time `now`, in seconds since the
/// epoch, and reports what was found.
pub fn cached_lookup_at(
    api: &ApiContext,
    login_key: &str,
    now: u64,
    progress: &mut Vec<AuthState>,
) -> (found: CacheLookup)
    requires
        api.wf(),
    ensures
        found == lookup_outcome(api.auth_cache@, login_key@, now).0,
        views(final(progress)@) == views(old(progress)@).push(
            AuthStateView::Working("Looking for cache..."@),
        ).push(lookup_outcome(api.auth_cache@, login_key@, now).1),
{
    report(progress, AuthState::Working(String::from_str("Looking for cache...")));
    match api.auth_cache.0.get(login_key) {
        Some(record) => {
            if record.is_expired(now) {
                report(
                    progress,
                    AuthState::Working(String::from_str("Cache expired, refresh is required.")),
                );
                let refresh_token = record.msa.refresh_token.clone();
                CacheLookup::Expired(record.clone(), AuthRequest::Refresh { refresh_token })
            } else {
                report(progress, AuthState::Working(String::from_str("Valid cache found.")));
                CacheLookup::Valid(record.clone())
            }
        },
        None => {
            report(progress, AuthState::Error(String::from_str("No cache found.")));
            CacheLookup::Missing
        },
    }
}

/// Looks a login key up in the cache by the system clock and reports what
/// was found.
pub fn cached_lookup(api: &ApiContext, login_key: &str, progress: &mut Vec<AuthState>) -> (found:
    CacheLookup)
    requires
        api.wf(),
    ensures
        exists|now: u64|
            {
                &&& found == (#[trigger] lookup_outcome(api.auth_cache@, login_key@, now)).0
                &&& views(final(progress)@) == views(old(progress)@).push(
                    AuthStateView::Working("Looking for cache..."@),
                ).push(lookup_outcome(api.auth_cache@, login_key@, now).1)
            },
{
    let now = unix_now();
    let found = cached_lookup_at(api, login_key, now, progress);
    assert(found == lookup_outcome(api.auth_cache@, login_key@, now).0);
    found
}

/// Takes the provider's answer to the refresh of an expired record. A new
/// token gives the record to go on with: access token, expiration and
/// refresh material replaced by the new token's, the profile kept. A
/// failure gives none, and is reported twice, as the refresh's and as the
/// login's.
pub fn cached_refreshed(
    record: &MinecraftAuthCache,
    response: Result<MsaToken, ProviderError>,
    progress: &mut Vec<AuthState>,
) -> (refreshed: Option<MinecraftAuthCache>)
    ensures
        match response {
            Ok(msa) => {
                &&& refreshed == Some(
                    MinecraftAuthCache {
                        access_token: msa.access_token,
                        expiration: msa.expires_at,
                        msa,
                        profile: record.profile,
                    },
                )
                &&& views(final(progress)@) == views(old(progress)@).push(
                    AuthStateView::Working("Successfully refreshed MSA token"@),
                )
            },
            Err(error) => {
                &&& refreshed is None
                &&& views(final(progress)@) == views(old(progress)@).push(
                    AuthStateView::Error(
                        "Failed to refresh MSA token. Re-authentication is required. ("@
                            + error.message() + ")"@,
                    ),
                ).push(
                    AuthStateView::Error(
                        "Failed to refresh authentication token, re-authentication is required: "@
                            + error.message(),
                    ),
                )
            },
        },
{
    match refresh_ms(response, progress) {
        Ok(msa) => Some(record.refreshed(msa)),
        Err(error) => {
            report(
                progress,
                AuthState::Error(
                    String::from_str(
                        "Failed to refresh authentication token, re-authentication is required: ",
                    ).concat(error.to_string().as_str()),
                ),
            );
            None
        },
    }
}

/// Whether `controller` is the controller that a cached login gives the
/// account `client_id`: it logs in with the record's tokens and profile, and
/// holds one new instance for each of `connections`.
pub open spec fn is_cached_controller(
    controller: ClientController,
    client_id: Uuid,
    record: MinecraftAuthCache,
    connections: Map<Uuid, ClientConnection>,
) -> bool {
    &&& controller.is_of(
        client_id,
        record.profile.username,
        record.profile.uuid,
        AuthProtocol::Microsoft(record.access_token, record.msa, record.profile),
    )
    &&& controller.instances@.dom() == connections.dom()
    &&& forall|key: Uuid| #[trigger]
        controller.instances@.contains_key(key) ==> controller.owns_new(
            controller.instances@[key],
            key,
            connections[key].server,
            Some(connections[key].version),
        )
}

/// What the end of a cached login makes of the registers and answers, where
/// an account that has to be registered gets the account id `fresh`.
pub open spec fn cached_outcome(
    before: ApiContext,
    after: ApiContext,
    login_key: String,
    cache: Option<MinecraftAuthCache>,
    fresh: Uuid,
    done: Result<(String, MinecraftProfile), AuthError>,
) -> bool {
    &&& after.servers == before.servers
    &&& after.ongoing_auths == before.ongoing_auths
    &&& match cache {
        None => {
            &&& done is Err && done->Err_0 is NotInCache
            &&& after.clients == before.clients
            &&& after.controllers == before.controllers
            &&& after.auth_cache == before.auth_cache
        },
        Some(record) => if has_mc_uuid(before.clients@, record.profile.uuid) {
            &&& done matches Ok((text, profile))
            &&& profile == record.profile
            &&& after.clients == before.clients
            &&& after.auth_cache@ == before.auth_cache@.insert(login_key@, record)
            &&& exists|id: Uuid|
                {
                    &&& before.clients@.contains_key(id)
                    &&& before.clients@[id].uuid == record.profile.uuid
                    &&& text@ == #[trigger] uuid_text(id)
                    &&& after.controllers@ == before.controllers@.insert(
                        id,
                        after.controllers@[id],
                    )
                    &&& is_cached_controller(
                        after.controllers@[id],
                        id,
                        record,
                        before.clients@[id].connections@,
                    )
                }
        } else if has_username(before.clients@, record.profile.username@) {
            &&& done is Err && done->Err_0 == AuthError::Client(
                ClientError::AlreadyExists(record.profile.username),
            )
            &&& after.clients == before.clients
            &&& after.controllers == before.controllers
            &&& after.auth_cache == before.auth_cache
        } else {
            &&& done matches Ok((text, profile))
            &&& profile == record.profile
            &&& text@ == uuid_text(fresh)
            &&& after.clients@ == before.clients@.insert(fresh, after.clients@[fresh])
            &&& after.clients@[fresh].is_new(
                fresh,
                record.profile.username,
                record.profile.uuid,
                auth_type_of(record.profile),
            )
            &&& after.auth_cache@ == before.auth_cache@.insert(login_key@, record)
            &&& after.controllers@ == before.controllers@.insert(fresh, after.controllers@[fresh])
            &&& is_cached_controller(
                after.controllers@[fresh],
                fresh,
                record,
                Map::<Uuid, ClientConnection>::empty(),
            )
        },
    }
}

/// What the end of a cached login reports.
pub open spec fn cached_report(before: ApiContext, cache: Option<MinecraftAuthCache>) -> Seq<
    AuthStateView,
> {
    let validating = AuthStateView::Working("Validating cache..."@);
    let registering = AuthStateView::Working("Registering new client from cached profile..."@);
    let validated = AuthStateView::Success(
        "Cache successfully validated, authentication is allowed."@,
    );
    match cache {
        None => seq![validating, AuthStateView::Error("Account not found in cache."@)],
        Some(record) => if has_mc_uuid(before.clients@, record.profile.uuid) {
            seq![validating, validated]
        } else if has_username(before.clients@, record.profile.username@) {
            seq![validating, registering]
        } else {
            seq![validating, registering, validated]
        },
    }
}

/// Ends a cached login under the account id `fresh` where the account is
/// not registered yet. With a record to go on with, the account of its
/// profile is found or registered, gets its controller, and the record is
/// put back into the cache under the login key; without one the login has
/// failed.
pub fn cached_authentication_as(
    api: &mut ApiContext,
    login_key: &String,
    cache: Option<MinecraftAuthCache>,
    fresh: Uuid,
    progress: &mut Vec<AuthState>,
) -> (done: Result<(String, MinecraftProfile), AuthError>)
    requires
        old(api).wf(),
    ensures
        final(api).wf(),
        cached_outcome(*old(api), *final(api), *login_key, cache, fresh, done),
        views(final(progress)@) == views(old(progress)@) + cached_report(*old(api), cache),
{
    let ghost reported = views(old(progress)@);
    report(progress, AuthState::Working(String::from_str("Validating cache...")));
    let record = match cache {
        Some(record) => record,
        None => {
            report(progress, AuthState::Error(String::from_str("Account not found in cache.")));
            assert(views(progress@) =~= reported + cached_report(*old(api), cache));
            return Err(AuthError::NotInCache);
        },
    };
    let known: Option<Uuid> = match api.clients.get_by_mc_uuid(&record.profile.uuid) {
        Some(client) => Some(client.id),
        None => None,
    };
    let client_id = match known {
        Some(id) => id,
        None => {
            report(
                progress,
                AuthState::Working(
                    String::from_str("Registering new client from cached profile..."),
                ),
            );
            match register_as(api, &record.profile, fresh) {
                Ok(id) => id,
                Err(error) => {
                    assert(views(progress@) =~= reported + cached_report(*old(api), cache));
                    return Err(AuthError::Client(error));
                },
            }
        },
    };
    report(
        progress,
        AuthState::Success(
            String::from_str("Cache successfully validated, authentication is allowed."),
        ),
    );
    assert(views(progress@) =~= reported + cached_report(*old(api), cache));
    let controller = match ClientController::new_cached(api, &client_id, &record) {
        Ok(controller) => controller,
        Err(error) => {
            return Err(AuthError::Controller(error));
        },
    };
    api.controllers.add(controller);
    let profile = record.profile.clone();
    api.auth_cache.0.insert(login_key.clone(), record);
    Ok((to_text(client_id), profile))
}

/// Ends a cached login, with a random account id for an account that is not
/// registered yet.
pub fn cached_authentication(
    api: &mut ApiContext,
    login_key: &String,
    cache: Option<MinecraftAuthCache>,
    progress: &mut Vec<AuthState>,
) -> (done: Result<(String, MinecraftProfile), AuthError>)
    requires
        old(api).wf(),
    ensures
        final(api).wf(),
        exists|fresh: Uuid| #[trigger]
            cached_outcome(*old(api), *final(api), *login_key, cache, fresh, done),
        views(final(progress)@) == views(old(progress)@) + cached_report(*old(api), cache),
{
    let fresh = new_v4();
    cached_authentication_as(api, login_key, cache, fresh, progress)
}

/// Keeps a login that has its device code under `login_key`, to be finished
/// later, and hands out what the user is to be shown. A login without a
/// device code is not kept; what its state shows is the error.
pub fn auth_ms_init(api: &mut ApiContext, login_key: String, auth: Authentication) -> (shown:
    Result<AuthCredentials, AuthError>)
    requires
        old(api).wf(),
    ensures
        final(api).wf(),
        final(api).controllers == old(api).controllers,
        final(api).clients == old(api).clients,
        final(api).servers == old(api).servers,
        final(api).auth_cache == old(api).auth_cache,
        match auth.credentials {
            Some(info) => {
                &&& shown == Ok::<AuthCredentials, AuthError>(
                    AuthCredentials { uri: info.uri, code: info.code },
                )
                &&& final(api).ongoing_auths@ == old(api).ongoing_auths@.insert(login_key@, auth)
            },
            None => {
                &&& shown matches Err(AuthError::State(text))
                &&& text@ == auth.state.text()
                &&& final(api).ongoing_auths == old(api).ongoing_auths
            },
        },
{
    let credentials = match &auth.credentials {
        Some(info) => AuthCredentials { uri: info.uri.clone(), code: info.code.clone() },
        None => {
            return Err(AuthError::State(auth.state.to_string()));
        },
    };
    api.ongoing_auths.insert(login_key, auth);
    Ok(credentials)
}

/// Takes the login kept under `login_key` out, to be finished. It can be
/// taken once.
pub fn auth_ms_take(api: &mut ApiContext, login_key: &String) -> (taken: Result<
    Authentication,
    AuthError,
>)
    requires
        old(api).wf(),
    ensures
        final(api).wf(),
        final(api).controllers == old(api).controllers,
        final(api).clients == old(api).clients,
        final(api).servers == old(api).servers,
        final(api).auth_cache == old(api).auth_cache,
        final(api).ongoing_auths@ == old(api).ongoing_auths@.remove(login_key@),
        match taken {
            Ok(auth) => old(api).ongoing_auths@.contains_key(login_key@) && auth == old(api).ongoing_auths@[login_key@],
            Err(error) => !old(api).ongoing_auths@.contains_key(login_key@) && error
                == AuthError::NoOngoingAuth(*login_key),
        },
{
    match api.ongoing_auths.remove(login_key.as_str()) {
        Some(auth) => Ok(auth),
        None => Err(AuthError::NoOngoingAuth(login_key.clone())),
    }
}

/// The record that a finished login leaves in the cache.
pub open spec fn login_record(
    token: MinecraftToken,
    msa: MsaToken,
    profile: MinecraftProfile,
) -> MinecraftAuthCache {
    MinecraftAuthCache {
        access_token: token.access_token,
        expiration: token.expires_at,
        msa,
        profile,
    }
}

/// Whether `controller` is the controller of a freshly logged-in account.
pub open spec fn is_login_controller(
    controller: ClientController,
    id: Uuid,
    record: MinecraftAuthCache,
) -> bool {
    &&& controller.is_of(
        id,
        record.profile.username,
        record.profile.uuid,
        AuthProtocol::Microsoft(record.access_token, record.msa, record.profile),
    )
    &&& controller.instances@ == Map::<Uuid, ClientInstance>::empty()
}

/// What the conclusion of an interactive login makes of the registers and
/// answers, where the account that it registers gets the account id `fresh`.
pub open spec fn finish_outcome(
    before: ApiContext,
    after: ApiContext,
    login_key: String,
    auth: Authentication,
    register: bool,
    fresh: Uuid,
    done: Result<(String, MinecraftProfile), AuthError>,
) -> bool {
    let untouched = after.clients == before.clients && after.controllers == before.controllers
        && after.auth_cache == before.auth_cache;
    &&& after.servers == before.servers
    &&& after.ongoing_auths == before.ongoing_auths
    &&& match (auth.access_token, auth.profile) {
        (None, _) => {
            &&& done matches Err(AuthError::State(text))
            &&& text@ == auth.state.text()
            &&& untouched
        },
        (Some(_), None) => done is Err && done->Err_0 is NoProfile && untouched,
        (Some(token), Some(profile)) => if !register {
            &&& done matches Ok((text, given))
            &&& text@ == Seq::<char>::empty()
            &&& given == profile
            &&& untouched
        } else if auth.msa is None {
            done is Err && done->Err_0 is NoMsaToken && untouched
        } else {
            let record = login_record(token, auth.msa->0, profile);
            &&& after.auth_cache@ == before.auth_cache@.insert(login_key@, record)
            &&& if has_username(before.clients@, profile.username@) {
                &&& done is Err && done->Err_0 == AuthError::Client(
                    ClientError::AlreadyExists(profile.username),
                )
                &&& after.clients == before.clients
                &&& after.controllers == before.controllers
            } else {
                &&& done matches Ok((text, given))
                &&& text@ == uuid_text(fresh)
                &&& given == profile
                &&& after.clients@ == before.clients@.insert(fresh, after.clients@[fresh])
                &&& after.clients@[fresh].is_new(
                    fresh,
                    profile.username,
                    profile.uuid,
                    auth_type_of(profile),
                )
                &&& after.controllers@ == before.controllers@.insert(
                    fresh,
                    after.controllers@[fresh],
                )
                &&& is_login_controller(after.controllers@[fresh], fresh, record)
            }
        },
    }
}

/// Concludes an interactive login that has run its steps. A login with a
/// session token and a profile succeeds. If `register` is set it is also
/// cached under `login_key`, and then registered under the account id
/// `fresh` and given a controller, unless an account of the profile's name
/// is registered already; if `register` is not set nothing is kept and the
/// id handed back is empty.
pub fn auth_ms_finish_as(
    api: &mut ApiContext,
    login_key: String,
    auth: Authentication,
    register: bool,
    fresh: Uuid,
) -> (done: Result<(String, MinecraftProfile), AuthError>)
    requires
        old(api).wf(),
    ensures
        final(api).wf(),
        finish_outcome(*old(api), *final(api), login_key, auth, register, fresh, done),
{
    let Authentication { credentials: _, msa, access_token, profile, state } = auth;
    let token = match access_token {
        Some(token) => token,
        None => {
            return Err(AuthError::State(state.to_string()));
        },
    };
    let profile = match profile {
        Some(profile) => profile,
        None => {
            return Err(AuthError::NoProfile);
        },
    };
    if !register {
        return Ok((String::new(), profile));
    }
    let msa = match msa {
        Some(msa) => msa,
        None => {
            return Err(AuthError::NoMsaToken);
        },
    };
    let record = MinecraftAuthCache {
        access_token: token.access_token.clone(),
        msa: msa.clone(),
        expiration: token.expires_at,
        profile: profile.clone(),
    };
    api.auth_cache.0.insert(login_key, record);
    let id = match register_as(api, &profile, fresh) {
        Ok(id) => id,
        Err(error) => {
            return Err(AuthError::Client(error));
        },
    };
    let controller = ClientController::new(
        id,
        profile.username.clone(),
        profile.uuid,
        AuthProtocol::Microsoft(token.access_token, msa, profile.clone()),
    );
    api.controllers.add(controller);
    Ok((to_text(id), profile))
}

/// Concludes an interactive login that has run its steps, with a random
/// account id for the account that it registers.
pub fn auth_ms_finish(api: &mut ApiContext, login_key: String, auth: Authentication, register: bool) -> (done:
    Result<(String, MinecraftProfile), AuthError>)
    requires
        old(api).wf(),
    ensures
        final(api).wf(),
        exists|fresh: Uuid| #[trigger]
            finish_outcome(*old(api), *final(api), login_key, auth, register, fresh, done),
{
    let fresh = new_v4();
    auth_ms_finish_as(api, login_key, auth, register, fresh)
}

} // verus!
