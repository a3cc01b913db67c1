//! The interactive login: a device code is requested, the user confirms it
//! out of band, the resulting token is exchanged for a session token, and the
//! profile is fetched. The network calls are made by the caller; this module
//! decides what is asked next, keeps what came back, and says which states
//! are to be reported, in order.

use crate::ident::{new_v3_x500, uuid_v3_x500, Uuid};
use std::time::Duration;
use vstd::prelude::*;
use vstd::string::StringExecFns;

verus! {

/// What the user needs to confirm a login, and what the provider needs to
/// recognise the confirmation.
#[derive(Debug)]
pub struct VerificationInfo {
    pub code: String,
    pub uri: String,
    pub device: String,
    pub expiration: u64,
    pub interval: u64,
}

impl Clone for VerificationInfo {
    fn clone(&self) -> (copy: Self)
        ensures
            copy == *self,
    {
        VerificationInfo {
            code: self.code.clone(),
            uri: self.uri.clone(),
            device: self.device.clone(),
            expiration: self.expiration,
            interval: self.interval,
        }
    }
}

/// What the profile service answers for an authenticated account. The skin
/// and cape lists are carried as the JSON text of each list.
#[derive(Debug)]
pub struct ProfileData {
    pub id: Uuid,
    pub name: String,
    pub skins: String,
    pub capes: String,
}

/// A stable identity: the in-game UUID and display name of an account.
#[derive(Debug)]
pub struct MinecraftProfile {
    pub uuid: Uuid,
    pub username: String,
    pub skins: Option<String>,
    pub capes: Option<String>,
    pub authenticated: bool,
}

impl Clone for MinecraftProfile {
    fn clone(&self) -> (copy: Self)
        ensures
            copy == *self,
    {
        MinecraftProfile {
            uuid: self.uuid,
            username: self.username.clone(),
            skins: clone_text(&self.skins),
            capes: clone_text(&self.capes),
            authenticated: self.authenticated,
        }
    }
}

/// A copy of a text that may be absent.
pub(crate) fn clone_text(text: &Option<String>) -> (copy: Option<String>)
    ensures
        copy == *text,
{
    match text {
        Some(t) => Some(t.clone()),
        None => None,
    }
}

/// The UUID of the offline account named `username`: the version-3 UUID, in
/// the X.500 namespace, of the UTF-8 bytes of `OfflinePlayer:` followed by
/// the name.
pub open spec fn offline_uuid(username: Seq<char>) -> Uuid {
    uuid_v3_x500(vstd::utf8::encode_utf8("OfflinePlayer:"@ + username))
}

impl MinecraftProfile {
    /// Whether this is the profile of the offline account named `username`.
    pub open spec fn is_offline(&self, username: Seq<char>) -> bool {
        &&& self.uuid == offline_uuid(username)
        &&& self.username@ == username
        &&& self.skins is None
        &&& self.capes is None
        &&& !self.authenticated
    }

    /// The profile of an offline account. Its UUID is derived from the name
    /// alone.
    pub fn with_username(username: String) -> (profile: Self)
        ensures
            profile.is_offline(username@),
            profile.username == username,
    {
        let seed = String::from_str("OfflinePlayer:").concat(username.as_str());
        let uuid = new_v3_x500(seed.as_str().as_bytes());
        MinecraftProfile { uuid, username, skins: None, capes: None, authenticated: false }
    }

    /// The profile of an authenticated account, as the profile service
    /// describes it.
    pub fn from_response(response: &ProfileData) -> (profile: Self)
        ensures
            profile == (MinecraftProfile {
                uuid: response.id,
                username: response.name,
                skins: Some(response.skins),
                capes: Some(response.capes),
                authenticated: true,
            }),
    {
        MinecraftProfile {
            uuid: response.id,
            username: response.name.clone(),
            skins: Some(response.skins.clone()),
            capes: Some(response.capes.clone()),
            authenticated: true,
        }
    }
}

/// Two offline profiles made for the same name have the same UUID, whoever
/// made them and when.
pub proof fn lemma_offline_uuid_deterministic(
    first: MinecraftProfile,
    second: MinecraftProfile,
    username: Seq<char>,
)
    requires
        first.is_offline(username),
        second.is_offline(username),
    ensures
        first.uuid == second.uuid,
        first.uuid == offline_uuid(username),
{
}

/// A Microsoft access token with its refresh material, and the time, in
/// seconds since the epoch, at which it expires.
#[derive(Debug)]
pub struct MsaToken {
    pub expires_at: u64,
    pub token_type: String,
    pub expires_in: u64,
    pub scope: String,
    pub access_token: String,
    pub refresh_token: String,
    pub user_id: String,
}

impl Clone for MsaToken {
    fn clone(&self) -> (copy: Self)
        ensures
            copy == *self,
    {
        MsaToken {
            expires_at: self.expires_at,
            token_type: self.token_type.clone(),
            expires_in: self.expires_in,
            scope: self.scope.clone(),
            access_token: self.access_token.clone(),
            refresh_token: self.refresh_token.clone(),
            user_id: self.user_id.clone(),
        }
    }
}

/// A game session token: the token the profile service accepts, the access
/// token to connect with, and the time at which that one expires.
#[derive(Debug)]
pub struct MinecraftToken {
    pub minecraft_access_token: String,
    pub access_token: String,
    pub expires_at: u64,
}

/// Why a call to the login provider failed.
#[derive(Debug)]
pub enum ProviderError {
    /// The user did not confirm in time.
    Timeout,
    /// Any other failure, with the provider's message.
    Failed(String),
}

impl ProviderError {
    /// The message of this error.
    pub open spec fn message(&self) -> Seq<char> {
        match self {
            ProviderError::Timeout => "Authentication timed out"@,
            ProviderError::Failed(message) => message@,
        }
    }

    /// The message of this error.
    pub fn to_string(&self) -> (text: String)
        ensures
            text@ == self.message(),
    {
        match self {
            ProviderError::Timeout => String::from_str("Authentication timed out"),
            ProviderError::Failed(message) => message.clone(),
        }
    }
}

/// Where a login stands.
#[derive(Debug)]
pub enum AuthState {
    /// In progress, with a message for the user.
    Working(String),
    /// Completed, with the session token.
    Success(String),
    /// Failed, with a message for the user.
    Error(String),
}

/// A login state with its text as a sequence of characters.
pub enum AuthStateView {
    Working(Seq<char>),
    Success(Seq<char>),
    Error(Seq<char>),
}

impl View for AuthState {
    type V = AuthStateView;

    open spec fn view(&self) -> AuthStateView {
        match self {
            AuthState::Working(message) => AuthStateView::Working(message@),
            AuthState::Success(token) => AuthStateView::Success(token@),
            AuthState::Error(message) => AuthStateView::Error(message@),
        }
    }
}

impl Clone for AuthState {
    fn clone(&self) -> (copy: Self)
        ensures
            copy == *self,
    {
        match self {
            AuthState::Working(message) => AuthState::Working(message.clone()),
            AuthState::Success(token) => AuthState::Success(token.clone()),
            AuthState::Error(message) => AuthState::Error(message.clone()),
        }
    }
}

impl PartialEq for AuthState {
    fn eq(&self, other: &Self) -> (same: bool) {
        match self {
            AuthState::Working(a) => match other {
                AuthState::Working(b) => a.eq(b),
                _ => false,
            },
            AuthState::Success(a) => match other {
                AuthState::Success(b) => a.eq(b),
                _ => false,
            },
            AuthState::Error(a) => match other {
                AuthState::Error(b) => a.eq(b),
                _ => false,
            },
        }
    }
}

impl vstd::std_specs::cmp::PartialEqSpecImpl for AuthState {
    open spec fn obeys_eq_spec() -> bool {
        true
    }

    open spec fn eq_spec(&self, other: &Self) -> bool {
        self@ == other@
    }
}

/// The states of a progress log, each by its view.
pub open spec fn views(log: Seq<AuthState>) -> Seq<AuthStateView> {
    log.map_values(|state: AuthState| state@)
}

impl AuthState {
    /// Whether the login has ended, well or badly.
    pub open spec fn is_final(&self) -> bool {
        self is Success || self is Error
    }

    /// What is shown for this state.
    pub open spec fn text(&self) -> Seq<char> {
        match self {
            AuthState::Working(message) => message@,
            AuthState::Success(token) => "Got Minecraft session token: ["@ + token@ + "]"@,
            AuthState::Error(message) => message@,
        }
    }

    /// What is shown for this state.
    pub fn to_string(&self) -> (text: String)
        ensures
            text@ == self.text(),
    {
        match self {
            AuthState::Working(message) => message.clone(),
            AuthState::Success(token) => String::from_str("Got Minecraft session token: [").concat(
                token.as_str(),
            ).concat("]"),
            AuthState::Error(message) => message.clone(),
        }
    }
}

/// Adds `state` to the end of a progress log.
pub fn report(progress: &mut Vec<AuthState>, state: AuthState)
    ensures
        final(progress)@ == old(progress)@.push(state),
        views(final(progress)@) == views(old(progress)@).push(state@),
{
    progress.push(state);
    assert(views(progress@) =~= views(old(progress)@).push(state@));
}

/// The span of time that lasts `millis` milliseconds.
pub uninterp spec fn duration_of_millis(millis: u64) -> Duration;

/// Calls `std::time::Duration::from_millis`, which makes the span of that
/// many milliseconds. The result depends on `millis` alone.
#[verifier::external_body]
fn duration_from_millis(millis: u64) -> (span: Duration)
    ensures
        span == duration_of_millis(millis),
{
    Duration::from_millis(millis)
}

/// Calls `std::time::Duration::as_millis`: the whole milliseconds that a
/// span lasts. Of the span of a number of milliseconds it is that number.
#[verifier::external_body]
fn duration_as_millis(span: &Duration) -> (millis: u128)
    ensures
        forall|made_of: u64| *span == duration_of_millis(made_of) ==> millis == made_of,
{
    span.as_millis()
}

/// How long the user is given to confirm a login, in milliseconds.
#[derive(Debug, Clone, Copy)]
pub struct AuthTimeout(pub u64);

impl Default for AuthTimeout {
    /// Ninety seconds.
    fn default() -> (timeout: Self)
        ensures
            timeout.0 == 90_000,
    {
        AuthTimeout(90_000)
    }
}

impl From<Duration> for AuthTimeout {
    /// The timeout of the whole milliseconds of `duration`, as far as they
    /// fit into 64 bits.
    fn from(duration: Duration) -> (timeout: Self)
        ensures
            forall|millis: u64| duration == duration_of_millis(millis) ==> timeout.0 == millis,
    {
        let millis = duration_as_millis(&duration);
        AuthTimeout(#[verifier::truncate] (millis as u64))
    }
}

impl vstd::std_specs::convert::FromSpecImpl<Duration> for AuthTimeout {
    /// Not of every span: only of one that is made of whole milliseconds
    /// that fit into 64 bits is the timeout known, as `from` states.
    open spec fn obeys_from_spec() -> bool {
        false
    }

    open spec fn from_spec(duration: Duration) -> AuthTimeout {
        AuthTimeout(choose|millis: u64| duration == duration_of_millis(millis))
    }
}

impl AuthTimeout {
    /// A timeout of `timeout` milliseconds.
    pub fn new(timeout: u64) -> (made: Self)
        ensures
            made.0 == timeout,
    {
        AuthTimeout(timeout)
    }

    /// The timeout in whole seconds.
    pub fn secs(&self) -> (secs: u64)
        ensures
            secs == self.0 / 1000,
    {
        self.0 / 1000
    }

    /// The timeout as a `Duration`: the span of as many milliseconds as the
    /// timeout holds.
    pub fn duration(&self) -> (span: Duration)
        ensures
            span == duration_of_millis(self.0),
    {
        duration_from_millis(self.0)
    }
}

/// A call that the caller is to make to the login provider.
#[derive(Debug)]
pub enum AuthRequest {
    /// Ask for a device code.
    LinkCode,
    /// Wait for the user to confirm `device`, no longer than its expiration.
    MsToken { device: VerificationInfo },
    /// Exchange the Microsoft access token for a session token.
    MinecraftToken { msa_access_token: String },
    /// Fetch the profile that belongs to the session token.
    Profile { minecraft_access_token: String },
    /// Refresh a Microsoft token with its refresh token.
    Refresh { refresh_token: String },
}

/// One login in progress.
#[derive(Debug)]
pub struct Authentication {
    pub credentials: Option<VerificationInfo>,
    pub msa: Option<MsaToken>,
    pub access_token: Option<MinecraftToken>,
    pub profile: Option<MinecraftProfile>,
    pub state: AuthState,
}

impl Default for Authentication {
    fn default() -> (auth: Self)
        ensures
            auth.is_fresh(),
    {
        Authentication::new()
    }
}

impl Authentication {
    /// A login that has not asked for anything yet.
    pub open spec fn is_fresh(&self) -> bool {
        &&& self.credentials is None
        &&& self.msa is None
        &&& self.access_token is None
        &&& self.profile is None
        &&& self.state@ == AuthStateView::Working(
            "Authentication started, waiting for requests"@,
        )
    }

    /// A login that has not asked for anything yet.
    pub fn new() -> (auth: Self)
        ensures
            auth.is_fresh(),
    {
        Authentication {
            credentials: None,
            msa: None,
            profile: None,
            access_token: None,
            state: AuthState::Working(
                String::from_str("Authentication started, waiting for requests"),
            ),
        }
    }

    /// Whether the login has ended, well or badly.
    pub fn state_is_final(&self) -> (ended: bool)
        ensures
            ended == self.state.is_final(),
    {
        match self.state {
            AuthState::Working(_) => false,
            _ => true,
        }
    }

    /// Enters `state` and reports it.
    fn enter(&mut self, state: AuthState, progress: &mut Vec<AuthState>)
        ensures
            final(self).state == state,
            final(self).credentials == old(self).credentials,
            final(self).msa == old(self).msa,
            final(self).access_token == old(self).access_token,
            final(self).profile == old(self).profile,
            final(progress)@ == old(progress)@.push(state),
            views(final(progress)@) == views(old(progress)@).push(state@),
    {
        progress.push(state.clone());
        self.state = state;
        assert(views(progress@) =~= views(old(progress)@).push(state@));
    }

    /// Whether all but the state is as in `before`.
    pub open spec fn keeps_material(&self, before: &Self) -> bool {
        &&& self.credentials == before.credentials
        &&& self.msa == before.msa
        &&& self.access_token == before.access_token
        &&& self.profile == before.profile
    }

    /// Starts the first step: reports that access info is being fetched and
    /// asks for a device code.
    pub fn get_access_info(&mut self, progress: &mut Vec<AuthState>) -> (request: AuthRequest)
        ensures
            request is LinkCode,
            final(self).keeps_material(old(self)),
            final(self).state@ == AuthStateView::Working("Getting access info..."@),
            views(final(progress)@) == views(old(progress)@).push(final(self).state@),
    {
        self.enter(AuthState::Working(String::from_str("Getting access info...")), progress);
        AuthRequest::LinkCode
    }

    /// Ends the first step with the provider's answer. A device code is kept
    /// and the login goes on; a failure ends the login with its message.
    pub fn access_info_received(
        &mut self,
        response: Result<VerificationInfo, ProviderError>,
        progress: &mut Vec<AuthState>,
    )
        ensures
            final(self).msa == old(self).msa,
            final(self).access_token == old(self).access_token,
            final(self).profile == old(self).profile,
            match response {
                Ok(info) => final(self).credentials == Some(info) && final(self).state@
                    == AuthStateView::Working("Got MS access credentials."@),
                Err(error) => final(self).credentials == old(self).credentials && final(self).state@ == AuthStateView::Error(error.message()),
            },
            views(final(progress)@) == views(old(progress)@).push(final(self).state@),
    {
        match response {
            Ok(info) => {
                self.credentials = Some(info);
                self.enter(
                    AuthState::Working(String::from_str("Got MS access credentials.")),
                    progress,
                );
            },
            Err(error) => {
                self.enter(AuthState::Error(error.to_string()), progress);
            },
        }
    }

    /// Starts the second step. With a device code at hand it asks the caller
    /// to wait for the user's confirmation, for no longer than `timeout`;
    /// without one the login fails.
    pub fn authenticate_ms(&mut self, timeout: AuthTimeout, progress: &mut Vec<AuthState>) -> (request:
        Option<AuthRequest>)
        ensures
            final(self).keeps_material(old(self)),
            match old(self).credentials {
                Some(info) => {
                    &&& request == Some(
                        AuthRequest::MsToken {
                            device: VerificationInfo { expiration: timeout.0 / 1000, ..info },
                        },
                    )
                    &&& final(self).state@ == AuthStateView::Working(
                        "Authenticating Microsoft account..."@,
                    )
                },
                None => {
                    &&& request is None
                    &&& final(self).state@ == AuthStateView::Error(
                        "No access info to authenticate with"@,
                    )
                },
            },
            views(final(progress)@) == views(old(progress)@).push(
                AuthStateView::Working("Waiting for User authentication..."@),
            ).push(final(self).state@),
    {
        self.enter(
            AuthState::Working(String::from_str("Waiting for User authentication...")),
            progress,
        );
        match &self.credentials {
            Some(info) => {
                let mut device = info.clone();
                device.expiration = timeout.secs();
                self.enter(
                    AuthState::Working(String::from_str("Authenticating Microsoft account...")),
                    progress,
                );
                Some(AuthRequest::MsToken { device })
            },
            None => {
                self.enter(
                    AuthState::Error(String::from_str("No access info to authenticate with")),
                    progress,
                );
                None
            },
        }
    }

    /// Ends the second step with the provider's answer. A token is kept and
    /// the login goes on; a failure, a timeout among them, ends the login
    /// with its message.
    pub fn ms_token_received(
        &mut self,
        response: Result<MsaToken, ProviderError>,
        progress: &mut Vec<AuthState>,
    )
        ensures
            final(self).credentials == old(self).credentials,
            final(self).access_token == old(self).access_token,
            final(self).profile == old(self).profile,
            match response {
                Ok(msa) => final(self).msa == Some(msa) && final(self).state@
                    == AuthStateView::Working(
                    "Got Microsoft access token, successfully authenticated!"@,
                ),
                Err(error) => final(self).msa == old(self).msa && final(self).state@
                    == AuthStateView::Error(error.message()),
            },
            views(final(progress)@) == views(old(progress)@).push(final(self).state@),
    {
        match response {
            Ok(msa) => {
                self.msa = Some(msa);
                self.enter(
                    AuthState::Working(
                        String::from_str("Got Microsoft access token, successfully authenticated!"),
                    ),
                    progress,
                );
            },
            Err(error) => {
                self.enter(AuthState::Error(error.to_string()), progress);
            },
        }
    }

    /// Starts the last step. With a Microsoft token at hand it asks the
    /// caller to exchange it for a session token; without one the login
    /// fails.
    pub fn authenticate_minecraft(&mut self, progress: &mut Vec<AuthState>) -> (request: Option<
        AuthRequest,
    >)
        ensures
            final(self).keeps_material(old(self)),
            match old(self).msa {
                Some(msa) => {
                    &&& request == Some(
                        AuthRequest::MinecraftToken { msa_access_token: msa.access_token },
                    )
                    &&& final(self).state@ == AuthStateView::Working(
                        "Authenticating Minecraft session..."@,
                    )
                },
                None => {
                    &&& request is None
                    &&& final(self).state@ == AuthStateView::Error(
                        "No MSA credentials to authenticate with"@,
                    )
                },
            },
            views(final(progress)@) == views(old(progress)@).push(
                AuthStateView::Working("Waiting for Microsoft authentication..."@),
            ).push(final(self).state@),
    {
        self.enter(
            AuthState::Working(String::from_str("Waiting for Microsoft authentication...")),
            progress,
        );
        match &self.msa {
            Some(msa) => {
                let msa_access_token = msa.access_token.clone();
                self.enter(
                    AuthState::Working(String::from_str("Authenticating Minecraft session...")),
                    progress,
                );
                Some(AuthRequest::MinecraftToken { msa_access_token })
            },
            None => {
                self.enter(
                    AuthState::Error(String::from_str("No MSA credentials to authenticate with")),
                    progress,
                );
                None
            },
        }
    }

    /// Takes the provider's answer to the token exchange. A session token is
    /// handed back together with the request for its profile, and the login
    /// goes on; a failure ends the login with its message.
    pub fn minecraft_token_received(
        &mut self,
        response: Result<MinecraftToken, ProviderError>,
        progress: &mut Vec<AuthState>,
    ) -> (next: Option<(MinecraftToken, AuthRequest)>)
        ensures
            final(self).keeps_material(old(self)),
            match response {
                Ok(token) => {
                    &&& next == Some(
                        (
                            token,
                            AuthRequest::Profile {
                                minecraft_access_token: token.minecraft_access_token,
                            },
                        ),
                    )
                    &&& final(self).state@ == AuthStateView::Working(
                        "Got session token, retrieving profile..."@,
                    )
                },
                Err(error) => {
                    &&& next is None
                    &&& final(self).state@ == AuthStateView::Error(error.message())
                },
            },
            views(final(progress)@) == views(old(progress)@).push(final(self).state@),
    {
        match response {
            Ok(token) => {
                self.enter(
                    AuthState::Working(
                        String::from_str("Got session token, retrieving profile..."),
                    ),
                    progress,
                );
                let minecraft_access_token = token.minecraft_access_token.clone();
                Some((token, AuthRequest::Profile { minecraft_access_token }))
            },
            Err(error) => {
                self.enter(AuthState::Error(error.to_string()), progress);
                None
            },
        }
    }

    /// Ends the last step. The session token is kept and the login succeeds
    /// with it whether or not the profile could be fetched; the profile is
    /// kept only where it could.
    pub fn profile_received(
        &mut self,
        token: MinecraftToken,
        response: Result<ProfileData, ProviderError>,
        progress: &mut Vec<AuthState>,
    )
        ensures
            final(self).credentials == old(self).credentials,
            final(self).msa == old(self).msa,
            final(self).access_token == Some(token),
            match response {
                Ok(data) => final(self).profile == Some(
                    MinecraftProfile {
                        uuid: data.id,
                        username: data.name,
                        skins: Some(data.skins),
                        capes: Some(data.capes),
                        authenticated: true,
                    },
                ),
                Err(_) => final(self).profile == old(self).profile,
            },
            final(self).state@ == AuthStateView::Success(token.minecraft_access_token@),
            views(final(progress)@) == views(old(progress)@).push(final(self).state@),
    {
        match response {
            Ok(data) => {
                self.profile = Some(MinecraftProfile::from_response(&data));
            },
            Err(_) => {},
        }
        let success = AuthState::Success(token.minecraft_access_token.clone());
        self.access_token = Some(token);
        self.enter(success, progress);
    }
}

/// What a silent refresh of a Microsoft token amounts to: the state to
/// report, and the new token where there is one.
pub fn refresh_ms(response: Result<MsaToken, ProviderError>, progress: &mut Vec<AuthState>) -> (refreshed:
    Result<MsaToken, ProviderError>)
    ensures
        refreshed == response,
        views(final(progress)@) == views(old(progress)@).push(
            match response {
                Ok(_) => AuthStateView::Working("Successfully refreshed MSA token"@),
                Err(error) => AuthStateView::Error(
                    "Failed to refresh MSA token. Re-authentication is required. ("@
                        + error.message() + ")"@,
                ),
            },
        ),
{
    let state = match &response {
        Ok(_) => AuthState::Working(String::from_str("Successfully refreshed MSA token")),
        Err(error) => AuthState::Error(
            String::from_str(
                "Failed to refresh MSA token. Re-authentication is required. (",
            ).concat(error.to_string().as_str()).concat(")"),
        ),
    };
    progress.push(state);
    assert(views(progress@) =~= views(old(progress)@).push(state@));
    response
}

} // verus!
