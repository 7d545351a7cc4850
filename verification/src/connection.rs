//! Setting up the connection to Discord: the order of the RPC calls, the
//! error text of each failure, and the authorization flow for a missing
//! access token.  The caller performs each action and reports the outcome.

use vstd::prelude::*;
use vstd::string::*;
use crate::settings::{DiscordSettings, DiscordSettingsView};

verus! {

/// Where a connection flow stands: the outcome it waits for, or how it ended.
#[derive(Clone, Copy, Debug, PartialEq, Eq)]
pub enum ConnectPhase {
    /// Waits for the IPC connection to open.
    Connecting,
    /// Waits for Discord to accept the access token.
    Authenticating,
    /// Waits for the handler that forwards RPC events to be installed.
    InstallingForwarder,
    /// Waits for the subscription to voice settings updates.
    Subscribing,
    /// Waits for the request of the current voice settings to be sent.
    RequestingVoiceSettings,
    /// Waits for the stored error to be cleared.
    ClearingError,
    /// Waits for the handler that catches the authorization code.
    InstallingAuthorizer,
    /// Waits for the authorization request to be sent.
    RequestingAuthorization,
    /// Ended: the client is authenticated and subscribed.
    Ready,
    /// Ended: the client waits for the user to authorize the application.
    AwaitingUser,
    /// Ended with an error.
    Failed,
}

/// The outcome of an action, as the caller reports it; an error is the
/// text of the outside error.
#[derive(Debug, PartialEq, Eq)]
pub enum ConnectEvent {
    Connected(Result<(), String>),
    Authenticated(Result<(), String>),
    HandlerInstalled,
    Subscribed(Result<(), String>),
    VoiceSettingsRequested(Result<(), String>),
    ErrorCleared,
    AuthorizationRequested(Result<(), String>),
}

pub enum ConnectEventView {
    Connected(Result<(), Seq<char>>),
    Authenticated(Result<(), Seq<char>>),
    HandlerInstalled,
    Subscribed(Result<(), Seq<char>>),
    VoiceSettingsRequested(Result<(), Seq<char>>),
    ErrorCleared,
    AuthorizationRequested(Result<(), Seq<char>>),
}

pub open spec fn outcome_view(r: Result<(), String>) -> Result<(), Seq<char>> {
    match r {
        Ok(_) => Ok(()),
        Err(e) => Err(e@),
    }
}

impl View for ConnectEvent {
    type V = ConnectEventView;

    open spec fn view(&self) -> ConnectEventView {
        match self {
            ConnectEvent::Connected(r) => ConnectEventView::Connected(outcome_view(*r)),
            ConnectEvent::Authenticated(r) => ConnectEventView::Authenticated(outcome_view(*r)),
            ConnectEvent::HandlerInstalled => ConnectEventView::HandlerInstalled,
            ConnectEvent::Subscribed(r) => ConnectEventView::Subscribed(outcome_view(*r)),
            ConnectEvent::VoiceSettingsRequested(r) => ConnectEventView::VoiceSettingsRequested(
                outcome_view(*r),
            ),
            ConnectEvent::ErrorCleared => ConnectEventView::ErrorCleared,
            ConnectEvent::AuthorizationRequested(r) => ConnectEventView::AuthorizationRequested(
                outcome_view(*r),
            ),
        }
    }
}

/// What the authorization handler needs: the application's credentials,
/// with which an authorization code is exchanged for an access token.
#[derive(Debug, PartialEq, Eq)]
pub struct AuthorizationHandler {
    pub client_id: String,
    pub client_secret: String,
}

/// The `AUTHORIZE` command: the application and the scopes it asks for.
#[derive(Debug, PartialEq, Eq)]
pub struct AuthorizeRequest {
    pub client_id: String,
    pub scopes: Vec<String>,
}

/// The next thing to do with the Discord client.
#[derive(Debug, PartialEq, Eq)]
pub enum ConnectAction {
    /// Open the IPC connection for this application id.
    Connect(String),
    /// Authenticate with this access token.
    Authenticate(String),
    /// Install the handler that forwards every RPC event.
    InstallEventForwarding,
    /// Subscribe to voice settings updates.
    SubscribeVoiceSettings,
    /// Ask for the current voice settings, so buttons show them at once.
    RequestVoiceSettings,
    /// Clear the stored error and save the settings.
    ClearError,
    /// Install the handler that catches the authorization code.
    InstallAuthorizationHandler(AuthorizationHandler),
    /// Send the `AUTHORIZE` command.
    RequestAuthorization(AuthorizeRequest),
    /// Done: hand out the client.
    Finish,
    /// Give up with this error message.
    Fail(String),
}

pub enum ConnectActionView {
    Connect(Seq<char>),
    Authenticate(Seq<char>),
    InstallEventForwarding,
    SubscribeVoiceSettings,
    RequestVoiceSettings,
    ClearError,
    InstallAuthorizationHandler { client_id: Seq<char>, client_secret: Seq<char> },
    RequestAuthorization { client_id: Seq<char>, scopes: Seq<Seq<char>> },
    Finish,
    Fail(Seq<char>),
}

impl View for ConnectAction {
    type V = ConnectActionView;

    open spec fn view(&self) -> ConnectActionView {
        match self {
            ConnectAction::Connect(id) => ConnectActionView::Connect(id@),
            ConnectAction::Authenticate(t) => ConnectActionView::Authenticate(t@),
            ConnectAction::InstallEventForwarding => ConnectActionView::InstallEventForwarding,
            ConnectAction::SubscribeVoiceSettings => ConnectActionView::SubscribeVoiceSettings,
            ConnectAction::RequestVoiceSettings => ConnectActionView::RequestVoiceSettings,
            ConnectAction::ClearError => ConnectActionView::ClearError,
            ConnectAction::InstallAuthorizationHandler(h) => ConnectActionView::InstallAuthorizationHandler {
                client_id: h.client_id@,
                client_secret: h.client_secret@,
            },
            ConnectAction::RequestAuthorization(r) => ConnectActionView::RequestAuthorization {
                client_id: r.client_id@,
                scopes: r.scopes@.map_values(|s: String| s@),
            },
            ConnectAction::Finish => ConnectActionView::Finish,
            ConnectAction::Fail(m) => ConnectActionView::Fail(m@),
        }
    }
}

/// A connection flow: its phase and the credentials it works with.
pub struct ConnectFlow {
    phase: ConnectPhase,
    client_id: String,
    client_secret: String,
    access_token: String,
}

pub struct ConnectFlowView {
    pub phase: ConnectPhase,
    pub client_id: Seq<char>,
    pub client_secret: Seq<char>,
    pub access_token: Seq<char>,
}

impl View for ConnectFlow {
    type V = ConnectFlowView;

    closed spec fn view(&self) -> ConnectFlowView {
        ConnectFlowView {
            phase: self.phase,
            client_id: self.client_id@,
            client_secret: self.client_secret@,
            access_token: self.access_token@,
        }
    }
}

impl ConnectFlowView {
    pub open spec fn in_phase(self, phase: ConnectPhase) -> ConnectFlowView {
        ConnectFlowView { phase, ..self }
    }
}

/// The scopes the plugin asks for.
pub open spec fn authorization_scopes() -> Seq<Seq<char>> {
    seq![
        "rpc"@,
        "rpc.voice.write"@,
        "rpc.video.write"@,
        "rpc.screenshare.write"@,
        "identify"@,
    ]
}

pub open spec fn missing_credentials_message() -> Seq<char> {
    "Client ID or Client Secret not configured"@
}

/// How a connection flow starts from the stored settings.
pub open spec fn start(settings: DiscordSettingsView) -> (ConnectFlowView, ConnectActionView) {
    let flow = ConnectFlowView {
        phase: ConnectPhase::Connecting,
        client_id: settings.client_id,
        client_secret: settings.client_secret,
        access_token: settings.access_token,
    };
    if !settings.has_app_credentials() {
        (flow.in_phase(ConnectPhase::Failed), ConnectActionView::Fail(missing_credentials_message()))
    } else {
        (flow, ConnectActionView::Connect(settings.client_id))
    }
}

/// How a flow that only sets up an opened client with a token starts.
pub open spec fn start_setup(access_token: Seq<char>) -> (ConnectFlowView, ConnectActionView) {
    (
        ConnectFlowView {
            phase: ConnectPhase::Authenticating,
            client_id: Seq::empty(),
            client_secret: Seq::empty(),
            access_token,
        },
        ConnectActionView::Authenticate(access_token),
    )
}

/// The event a phase waits for.
pub open spec fn expects(phase: ConnectPhase, event: ConnectEventView) -> bool {
    match phase {
        ConnectPhase::Connecting => event is Connected,
        ConnectPhase::Authenticating => event is Authenticated,
        ConnectPhase::InstallingForwarder => event is HandlerInstalled,
        ConnectPhase::Subscribing => event is Subscribed,
        ConnectPhase::RequestingVoiceSettings => event is VoiceSettingsRequested,
        ConnectPhase::ClearingError => event is ErrorCleared,
        ConnectPhase::InstallingAuthorizer => event is HandlerInstalled,
        ConnectPhase::RequestingAuthorization => event is AuthorizationRequested,
        _ => false,
    }
}

/// A flow that has ended waits for nothing.
pub open spec fn is_finished(phase: ConnectPhase) -> bool {
    phase is Ready || phase is AwaitingUser || phase is Failed
}

/// Moves to `phase` with `action`, or fails with `prefix` and the error.
pub open spec fn on_outcome(
    s: ConnectFlowView,
    r: Result<(), Seq<char>>,
    prefix: Seq<char>,
    phase: ConnectPhase,
    action: ConnectActionView,
) -> (ConnectFlowView, ConnectActionView) {
    match r {
        Ok(_) => (s.in_phase(phase), action),
        Err(e) => (s.in_phase(ConnectPhase::Failed), ConnectActionView::Fail(prefix + e)),
    }
}

/// One step of a flow: from the phase and the event it waited for, the next
/// phase and action.
pub open spec fn next(s: ConnectFlowView, e: ConnectEventView) -> (ConnectFlowView, ConnectActionView) {
    match e {
        ConnectEventView::Connected(r) => match r {
            Err(err) => (
                s.in_phase(ConnectPhase::Failed),
                ConnectActionView::Fail("Failed to connect to Discord: "@ + err),
            ),
            Ok(_) => if s.access_token.len() != 0 {
                (s.in_phase(ConnectPhase::Authenticating), ConnectActionView::Authenticate(s.access_token))
            } else {
                (
                    s.in_phase(ConnectPhase::InstallingAuthorizer),
                    ConnectActionView::InstallAuthorizationHandler {
                        client_id: s.client_id,
                        client_secret: s.client_secret,
                    },
                )
            },
        },
        ConnectEventView::Authenticated(r) => on_outcome(
            s,
            r,
            "Failed to authenticate: "@,
            ConnectPhase::InstallingForwarder,
            ConnectActionView::InstallEventForwarding,
        ),
        ConnectEventView::HandlerInstalled => if s.phase is InstallingAuthorizer {
            (
                s.in_phase(ConnectPhase::RequestingAuthorization),
                ConnectActionView::RequestAuthorization {
                    client_id: s.client_id,
                    scopes: authorization_scopes(),
                },
            )
        } else {
            (s.in_phase(ConnectPhase::Subscribing), ConnectActionView::SubscribeVoiceSettings)
        },
        ConnectEventView::Subscribed(r) => on_outcome(
            s,
            r,
            "Failed to subscribe to voice updates: "@,
            ConnectPhase::RequestingVoiceSettings,
            ConnectActionView::RequestVoiceSettings,
        ),
        ConnectEventView::VoiceSettingsRequested(r) => on_outcome(
            s,
            r,
            "Failed to fetch initial voice settings: "@,
            ConnectPhase::ClearingError,
            ConnectActionView::ClearError,
        ),
        ConnectEventView::ErrorCleared => (s.in_phase(ConnectPhase::Ready), ConnectActionView::Finish),
        ConnectEventView::AuthorizationRequested(r) => on_outcome(
            s,
            r,
            "Failed to start authorization: "@,
            ConnectPhase::AwaitingUser,
            ConnectActionView::Finish,
        ),
    }
}

fn prefixed(prefix: &str, error: String) -> (r: String)
    ensures
        r@ == prefix@ + error@,
{
    let mut message = String::from_str(prefix);
    message.append(error.as_str());
    message
}

fn scopes() -> (r: Vec<String>)
    ensures
        r@.map_values(|s: String| s@) == authorization_scopes(),
{
    let mut r: Vec<String> = Vec::new();
    r.push(String::from_str("rpc"));
    r.push(String::from_str("rpc.voice.write"));
    r.push(String::from_str("rpc.video.write"));
    r.push(String::from_str("rpc.screenshare.write"));
    r.push(String::from_str("identify"));
    assert(r@.map_values(|s: String| s@) =~= authorization_scopes());
    r
}

/// Starts connecting with the stored settings.  Without both application
/// credentials the flow fails at once, before any connection is opened;
/// otherwise the first action opens the connection.
pub fn create_discord_client(settings: &DiscordSettings) -> (r: (ConnectFlow, ConnectAction))
    ensures
        (r.0@, r.1@) == start(settings@),
{
    let mut flow = ConnectFlow {
        phase: ConnectPhase::Connecting,
        client_id: settings.client_id.clone(),
        client_secret: settings.client_secret.clone(),
        access_token: settings.access_token.clone(),
    };
    if settings.client_id.as_str().is_empty() || settings.client_secret.as_str().is_empty() {
        flow.phase = ConnectPhase::Failed;
        return (flow, ConnectAction::Fail(String::from_str("Client ID or Client Secret not configured")));
    }
    let id = settings.client_id.clone();
    (flow, ConnectAction::Connect(id))
}

/// Starts setting up an opened client with an access token: authenticate,
/// forward events, subscribe to voice updates, ask for the voice settings,
/// clear the stored error.
pub fn setup_discord_client(access_token: String) -> (r: (ConnectFlow, ConnectAction))
    ensures
        (r.0@, r.1@) == start_setup(access_token@),
{
    let flow = ConnectFlow {
        phase: ConnectPhase::Authenticating,
        client_id: String::new(),
        client_secret: String::new(),
        access_token: access_token.clone(),
    };
    (flow, ConnectAction::Authenticate(access_token))
}

impl ConnectFlow {
    /// The phase the flow is in.
    pub fn phase(&self) -> (p: ConnectPhase)
        ensures
            p == self@.phase,
    {
        self.phase
    }

    /// Whether the flow has ended.
    pub fn is_finished(&self) -> (b: bool)
        ensures
            b == is_finished(self@.phase),
    {
        match self.phase {
            ConnectPhase::Ready | ConnectPhase::AwaitingUser | ConnectPhase::Failed => true,
            _ => false,
        }
    }

    /// Whether the flow waits for this outcome (the condition of `step`).
    pub fn accepts(&self, event: &ConnectEvent) -> (b: bool)
        ensures
            b == expects(self@.phase, event@),
    {
        match self.phase {
            ConnectPhase::Connecting => matches!(event, ConnectEvent::Connected(_)),
            ConnectPhase::Authenticating => matches!(event, ConnectEvent::Authenticated(_)),
            ConnectPhase::InstallingForwarder => matches!(event, ConnectEvent::HandlerInstalled),
            ConnectPhase::Subscribing => matches!(event, ConnectEvent::Subscribed(_)),
            ConnectPhase::RequestingVoiceSettings => matches!(event, ConnectEvent::VoiceSettingsRequested(_)),
            ConnectPhase::ClearingError => matches!(event, ConnectEvent::ErrorCleared),
            ConnectPhase::InstallingAuthorizer => matches!(event, ConnectEvent::HandlerInstalled),
            ConnectPhase::RequestingAuthorization => matches!(event, ConnectEvent::AuthorizationRequested(_)),
            _ => false,
        }
    }

    /// Takes the outcome of the last action and gives the next one.
    pub fn step(&mut self, event: ConnectEvent) -> (a: ConnectAction)
        requires
            expects(old(self)@.phase, event@),
        ensures
            (final(self)@, a@) == next(old(self)@, event@),
    {
        match event {
            ConnectEvent::Connected(r) => match r {
                Err(e) => {
                    self.phase = ConnectPhase::Failed;
                    ConnectAction::Fail(prefixed("Failed to connect to Discord: ", e))
                },
                Ok(()) => {
                    if !self.access_token.as_str().is_empty() {
                        self.phase = ConnectPhase::Authenticating;
                        ConnectAction::Authenticate(self.access_token.clone())
                    } else {
                        self.phase = ConnectPhase::InstallingAuthorizer;
                        ConnectAction::InstallAuthorizationHandler(
                            AuthorizationHandler {
                                client_id: self.client_id.clone(),
                                client_secret: self.client_secret.clone(),
                            },
                        )
                    }
                },
            },
            ConnectEvent::Authenticated(r) => match r {
                Err(e) => {
                    self.phase = ConnectPhase::Failed;
                    ConnectAction::Fail(prefixed("Failed to authenticate: ", e))
                },
                Ok(()) => {
                    self.phase = ConnectPhase::InstallingForwarder;
                    ConnectAction::InstallEventForwarding
                },
            },
            ConnectEvent::HandlerInstalled => match self.phase {
                ConnectPhase::InstallingAuthorizer => {
                    self.phase = ConnectPhase::RequestingAuthorization;
                    ConnectAction::RequestAuthorization(
                        AuthorizeRequest { client_id: self.client_id.clone(), scopes: scopes() },
                    )
                },
                _ => {
                    self.phase = ConnectPhase::Subscribing;
                    ConnectAction::SubscribeVoiceSettings
                },
            },
            ConnectEvent::Subscribed(r) => match r {
                Err(e) => {
                    self.phase = ConnectPhase::Failed;
                    ConnectAction::Fail(prefixed("Failed to subscribe to voice updates: ", e))
                },
                Ok(()) => {
                    self.phase = ConnectPhase::RequestingVoiceSettings;
                    ConnectAction::RequestVoiceSettings
                },
            },
            ConnectEvent::VoiceSettingsRequested(r) => match r {
                Err(e) => {
                    self.phase = ConnectPhase::Failed;
                    ConnectAction::Fail(prefixed("Failed to fetch initial voice settings: ", e))
                },
                Ok(()) => {
                    self.phase = ConnectPhase::ClearingError;
                    ConnectAction::ClearError
                },
            },
            ConnectEvent::ErrorCleared => {
                self.phase = ConnectPhase::Ready;
                ConnectAction::Finish
            },
            ConnectEvent::AuthorizationRequested(r) => match r {
                Err(e) => {
                    self.phase = ConnectPhase::Failed;
                    ConnectAction::Fail(prefixed("Failed to start authorization: ", e))
                },
                Ok(()) => {
                    self.phase = ConnectPhase::AwaitingUser;
                    ConnectAction::Finish
                },
            },
        }
    }
}


/// An item Discord sends over the RPC channel, as the authorization
/// handler tells them apart.
#[derive(Debug, PartialEq, Eq)]
pub enum RpcItem {
    /// The reply to `AUTHORIZE`, with the code the user granted.
    AuthorizationCode(String),
    /// Anything else.
    Other,
}

/// The exchange of an authorization code for an access token.
#[derive(Debug, PartialEq, Eq)]
pub struct TokenExchange {
    pub code: String,
    pub client_id: String,
    pub client_secret: String,
}

/// Where the authorization handler sends an item.
#[derive(Debug, PartialEq, Eq)]
pub enum ItemRoute {
    /// Exchange the code for a token.
    Exchange(TokenExchange),
    /// Hand the item to the ordinary event handling.
    Forward,
}

/// What follows a token exchange.
#[derive(Debug, PartialEq, Eq)]
pub enum TokenStep {
    /// Save the settings (now holding this token), then set up the open
    /// client with it.
    SetUp(String),
    /// Record this error message.
    ReportError(String),
}

pub open spec fn exchange_failed_message(error: Seq<char>) -> Seq<char> {
    "Failed to exchange code for token: "@ + error
}

pub open spec fn setup_failed_message(error: Seq<char>) -> Seq<char> {
    "Failed to set up authenticated client: "@ + error
}

impl AuthorizationHandler {
    /// An authorization code goes to the token exchange, with the
    /// application's credentials; every other item is forwarded.
    pub fn route(&self, item: RpcItem) -> (r: ItemRoute)
        ensures
            match item {
                RpcItem::AuthorizationCode(code) => r matches ItemRoute::Exchange(x) && x.code@ == code@
                    && x.client_id@ == self.client_id@ && x.client_secret@ == self.client_secret@,
                RpcItem::Other => r is Forward,
            },
    {
        match item {
            RpcItem::AuthorizationCode(code) => ItemRoute::Exchange(
                TokenExchange {
                    code,
                    client_id: self.client_id.clone(),
                    client_secret: self.client_secret.clone(),
                },
            ),
            RpcItem::Other => ItemRoute::Forward,
        }
    }

    /// Takes the outcome of the token exchange.  A token is stored in the
    /// settings and the open client is then set up with it; a failure is
    /// reported and the settings stay as they were.
    pub fn token_exchanged(&self, settings: &mut DiscordSettings, outcome: Result<String, String>) -> (r: TokenStep)
        ensures
            match outcome {
                Ok(token) => {
                    &&& final(settings)@ == old(settings)@.with_access_token(token@)
                    &&& r matches TokenStep::SetUp(t) && t@ == token@
                },
                Err(e) => {
                    &&& final(settings)@ == old(settings)@
                    &&& r matches TokenStep::ReportError(m) && m@ == exchange_failed_message(e@)
                },
            },
    {
        match outcome {
            Ok(token) => {
                settings.set_access_token(token.clone());
                TokenStep::SetUp(token)
            },
            Err(e) => TokenStep::ReportError(prefixed("Failed to exchange code for token: ", e)),
        }
    }
}

/// The message recorded when setting up the client with a freshly obtained
/// token fails with `error`.
pub fn authenticated_setup_failed(error: String) -> (m: String)
    ensures
        m@ == setup_failed_message(error@),
{
    prefixed("Failed to set up authenticated client: ", error)
}

/// The actions a flow gives for a run of outcomes, each the one its phase
/// waits for; the run stops at the first outcome the flow does not wait for.
pub open spec fn run(s: ConnectFlowView, events: Seq<ConnectEventView>) -> (ConnectFlowView, Seq<ConnectActionView>)
    decreases events.len(),
{
    if events.len() == 0 || !expects(s.phase, events[0]) {
        (s, Seq::empty())
    } else {
        let (s1, a) = next(s, events[0]);
        let (s2, rest) = run(s1, events.drop_first());
        (s2, seq![a] + rest)
    }
}

/// How many more actions a phase can give at most.
pub open spec fn rank(phase: ConnectPhase) -> nat {
    match phase {
        ConnectPhase::Connecting => 7,
        ConnectPhase::Authenticating => 6,
        ConnectPhase::InstallingForwarder => 5,
        ConnectPhase::Subscribing => 4,
        ConnectPhase::RequestingVoiceSettings => 3,
        ConnectPhase::ClearingError => 2,
        ConnectPhase::InstallingAuthorizer => 3,
        ConnectPhase::RequestingAuthorization => 2,
        _ => 1,
    }
}

/// Phases of a flow that holds an access token.
pub open spec fn on_token_path(s: ConnectFlowView) -> bool {
    &&& s.access_token.len() != 0
    &&& !(s.phase is InstallingAuthorizer || s.phase is RequestingAuthorization || s.phase is AwaitingUser)
}

/// Phases of a flow that has no access token.
pub open spec fn on_authorization_path(s: ConnectFlowView) -> bool {
    &&& s.access_token.len() == 0
    &&& (s.phase is Connecting || s.phase is InstallingAuthorizer || s.phase is RequestingAuthorization
        || s.phase is AwaitingUser || s.phase is Failed)
}

/// Every step moves a flow forward: the phase it leaves for has a lower
/// rank, and an ended flow waits for nothing.
pub proof fn lemma_step_progresses(s: ConnectFlowView, e: ConnectEventView)
    ensures
        is_finished(s.phase) ==> !expects(s.phase, e),
        expects(s.phase, e) ==> rank(next(s, e).0.phase) < rank(s.phase),
        rank(s.phase) >= 1,
{
}

/// A flow always ends: whatever the outcomes, it gives fewer actions than
/// the rank of its phase.
pub proof fn lemma_flow_ends(s: ConnectFlowView, events: Seq<ConnectEventView>)
    ensures
        run(s, events).1.len() < rank(s.phase),
    decreases events.len(),
{
    if events.len() != 0 && expects(s.phase, events[0]) {
        lemma_step_progresses(s, events[0]);
        lemma_flow_ends(next(s, events[0]).0, events.drop_first());
    }
}

/// A flow that holds an access token authenticates with it and never asks
/// the user to authorize the application.
pub proof fn lemma_token_flow_never_authorizes(s: ConnectFlowView, events: Seq<ConnectEventView>)
    requires
        on_token_path(s),
    ensures
        forall|i: int|
            0 <= i < run(s, events).1.len() ==> !(#[trigger] run(s, events).1[i] is RequestAuthorization)
                && !(run(s, events).1[i] is InstallAuthorizationHandler),
    decreases events.len(),
{
    if events.len() != 0 && expects(s.phase, events[0]) {
        let s1 = next(s, events[0]).0;
        lemma_token_flow_never_authorizes(s1, events.drop_first());
        let all = run(s, events).1;
        let rest = run(s1, events.drop_first()).1;
        assert(all == seq![next(s, events[0]).1] + rest);
        assert forall|i: int| 0 <= i < all.len() implies !(#[trigger] all[i] is RequestAuthorization)
            && !(all[i] is InstallAuthorizationHandler) by {
            if i > 0 {
                assert(all[i] == rest[i - 1]);
            }
        }
    }
}

/// A flow without an access token never authenticates, subscribes or
/// clears the stored error: it only asks the user to authorize.
pub proof fn lemma_authorization_flow_never_authenticates(s: ConnectFlowView, events: Seq<ConnectEventView>)
    requires
        on_authorization_path(s),
    ensures
        forall|i: int|
            0 <= i < run(s, events).1.len() ==> !(#[trigger] run(s, events).1[i] is Authenticate)
                && !(run(s, events).1[i] is SubscribeVoiceSettings) && !(run(s, events).1[i] is ClearError),
    decreases events.len(),
{
    if events.len() != 0 && expects(s.phase, events[0]) {
        let s1 = next(s, events[0]).0;
        lemma_authorization_flow_never_authenticates(s1, events.drop_first());
        let all = run(s, events).1;
        let rest = run(s1, events.drop_first()).1;
        assert(all == seq![next(s, events[0]).1] + rest);
        assert forall|i: int| 0 <= i < all.len() implies !(#[trigger] all[i] is Authenticate)
            && !(all[i] is SubscribeVoiceSettings) && !(all[i] is ClearError) by {
            if i > 0 {
                assert(all[i] == rest[i - 1]);
            }
        }
    }
}

/// The stored error is cleared only right after the voice settings were
/// requested, and they are requested only right after the subscription
/// succeeded.
pub proof fn lemma_error_cleared_only_when_set_up(s: ConnectFlowView, e: ConnectEventView)
    requires
        expects(s.phase, e),
    ensures
        next(s, e).1 is ClearError ==> e matches ConnectEventView::VoiceSettingsRequested(Ok(_)),
        next(s, e).1 is RequestVoiceSettings ==> e matches ConnectEventView::Subscribed(Ok(_)),
        next(s, e).1 is SubscribeVoiceSettings ==> e is HandlerInstalled && s.phase is InstallingForwarder,
{
}

/// Starting from complete settings, when every call succeeds the flow
/// authenticates with the stored token, forwards events, subscribes to voice
/// updates, requests the voice settings, clears the error and ends ready.
pub proof fn lemma_token_flow_succeeds(settings: DiscordSettingsView)
    requires
        settings.is_complete(),
    ensures
        ({
            let (s0, a0) = start(settings);
            let events = seq![
                ConnectEventView::Connected(Ok(())),
                ConnectEventView::Authenticated(Ok(())),
                ConnectEventView::HandlerInstalled,
                ConnectEventView::Subscribed(Ok(())),
                ConnectEventView::VoiceSettingsRequested(Ok(())),
                ConnectEventView::ErrorCleared,
            ];
            &&& a0 == ConnectActionView::Connect(settings.client_id)
            &&& run(s0, events).0.phase == ConnectPhase::Ready
            &&& run(s0, events).1 == seq![
                ConnectActionView::Authenticate(settings.access_token),
                ConnectActionView::InstallEventForwarding,
                ConnectActionView::SubscribeVoiceSettings,
                ConnectActionView::RequestVoiceSettings,
                ConnectActionView::ClearError,
                ConnectActionView::Finish,
            ]
        }),
{
    let (s0, a0) = start(settings);
    let events = seq![
        ConnectEventView::Connected(Ok(())),
        ConnectEventView::Authenticated(Ok(())),
        ConnectEventView::HandlerInstalled,
        ConnectEventView::Subscribed(Ok(())),
        ConnectEventView::VoiceSettingsRequested(Ok(())),
        ConnectEventView::ErrorCleared,
    ];
    reveal_with_fuel(run, 7);
    assert(events.drop_first() =~= events.subrange(1, 6));
    assert(events.drop_first().drop_first() =~= events.subrange(2, 6));
    assert(events.subrange(2, 6).drop_first() =~= events.subrange(3, 6));
    assert(events.subrange(3, 6).drop_first() =~= events.subrange(4, 6));
    assert(events.subrange(4, 6).drop_first() =~= events.subrange(5, 6));
    assert(events.subrange(5, 6).drop_first() =~= Seq::<ConnectEventView>::empty());
    assert(run(s0, events).1 =~= seq![
        ConnectActionView::Authenticate(settings.access_token),
        ConnectActionView::InstallEventForwarding,
        ConnectActionView::SubscribeVoiceSettings,
        ConnectActionView::RequestVoiceSettings,
        ConnectActionView::ClearError,
        ConnectActionView::Finish,
    ]);
}

/// Starting from settings with both application credentials but no access
/// token, when every call succeeds the flow installs the authorization
/// handler, sends the authorization request and ends waiting for the user.
pub proof fn lemma_authorization_flow_succeeds(settings: DiscordSettingsView)
    requires
        settings.has_app_credentials(),
        settings.access_token.len() == 0,
    ensures
        ({
            let (s0, a0) = start(settings);
            let events = seq![
                ConnectEventView::Connected(Ok(())),
                ConnectEventView::HandlerInstalled,
                ConnectEventView::AuthorizationRequested(Ok(())),
            ];
            &&& a0 == ConnectActionView::Connect(settings.client_id)
            &&& run(s0, events).0.phase == ConnectPhase::AwaitingUser
            &&& run(s0, events).1 == seq![
                ConnectActionView::InstallAuthorizationHandler {
                    client_id: settings.client_id,
                    client_secret: settings.client_secret,
                },
                ConnectActionView::RequestAuthorization {
                    client_id: settings.client_id,
                    scopes: authorization_scopes(),
                },
                ConnectActionView::Finish,
            ]
        }),
{
    let (s0, a0) = start(settings);
    let events = seq![
        ConnectEventView::Connected(Ok(())),
        ConnectEventView::HandlerInstalled,
        ConnectEventView::AuthorizationRequested(Ok(())),
    ];
    reveal_with_fuel(run, 4);
    assert(events.drop_first() =~= events.subrange(1, 3));
    assert(events.subrange(1, 3).drop_first() =~= events.subrange(2, 3));
    assert(events.subrange(2, 3).drop_first() =~= Seq::<ConnectEventView>::empty());
    assert(run(s0, events).1 =~= seq![
        ConnectActionView::InstallAuthorizationHandler {
            client_id: settings.client_id,
            client_secret: settings.client_secret,
        },
        ConnectActionView::RequestAuthorization {
            client_id: settings.client_id,
            scopes: authorization_scopes(),
        },
        ConnectActionView::Finish,
    ]);
}

/// Without both application credentials no connection is attempted: the
/// flow has ended with the configuration error before any call.
pub proof fn lemma_missing_credentials_fail_first(settings: DiscordSettingsView, events: Seq<ConnectEventView>)
    requires
        !settings.has_app_credentials(),
    ensures
        start(settings).1 == ConnectActionView::Fail(missing_credentials_message()),
        is_finished(start(settings).0.phase),
        run(start(settings).0, events).1.len() == 0,
{
    reveal_with_fuel(run, 1);
}

/// A flow started from settings takes the path its access token selects.
pub proof fn lemma_start_selects_path(settings: DiscordSettingsView)
    requires
        settings.has_app_credentials(),
    ensures
        settings.access_token.len() != 0 ==> on_token_path(start(settings).0),
        settings.access_token.len() == 0 ==> on_authorization_path(start(settings).0),
{
}

/// Once a token has been obtained, both the set-up of the open client and
/// any later connection from the saved settings take the token path, so the
/// user is not asked to authorize again.
pub proof fn lemma_obtained_token_is_used(settings: DiscordSettingsView, token: Seq<char>)
    requires
        settings.has_app_credentials(),
        token.len() != 0,
    ensures
        on_token_path(start_setup(token).0),
        start_setup(token).1 == ConnectActionView::Authenticate(token),
        on_token_path(start(settings.with_access_token(token)).0),
        settings.with_access_token(token).is_complete(),
{
}

/// A step keeps the flow's credentials.
pub open spec fn same_credentials(a: ConnectFlowView, b: ConnectFlowView) -> bool {
    a.client_id == b.client_id && a.client_secret == b.client_secret && a.access_token == b.access_token
}

/// What each successful outcome leads to, from any flow waiting for it:
/// after connecting, authentication with the stored token, or the
/// authorization handler without one; after authentication, the event
/// forwarder; once a handler is in, the subscription (or, on the
/// authorization path, the authorization request); then the voice
/// settings request, clearing the error, and the end.  The credentials are
/// kept throughout.
pub proof fn lemma_successful_steps(s: ConnectFlowView)
    ensures
        ({
            let (t, a) = next(s, ConnectEventView::Connected(Ok(())));
            &&& same_credentials(t, s)
            &&& s.access_token.len() != 0 ==> t.phase == ConnectPhase::Authenticating
                && a == ConnectActionView::Authenticate(s.access_token)
            &&& s.access_token.len() == 0 ==> t.phase == ConnectPhase::InstallingAuthorizer
                && a == (ConnectActionView::InstallAuthorizationHandler {
                client_id: s.client_id,
                client_secret: s.client_secret,
            })
        }),
        ({
            let (t, a) = next(s, ConnectEventView::Authenticated(Ok(())));
            same_credentials(t, s) && t.phase == ConnectPhase::InstallingForwarder
                && a == ConnectActionView::InstallEventForwarding
        }),
        s.phase == ConnectPhase::InstallingForwarder ==> ({
            let (t, a) = next(s, ConnectEventView::HandlerInstalled);
            same_credentials(t, s) && t.phase == ConnectPhase::Subscribing
                && a == ConnectActionView::SubscribeVoiceSettings
        }),
        s.phase == ConnectPhase::InstallingAuthorizer ==> ({
            let (t, a) = next(s, ConnectEventView::HandlerInstalled);
            same_credentials(t, s) && t.phase == ConnectPhase::RequestingAuthorization && a
                == (ConnectActionView::RequestAuthorization {
                client_id: s.client_id,
                scopes: seq![
                    "rpc"@,
                    "rpc.voice.write"@,
                    "rpc.video.write"@,
                    "rpc.screenshare.write"@,
                    "identify"@,
                ],
            })
        }),
        ({
            let (t, a) = next(s, ConnectEventView::Subscribed(Ok(())));
            same_credentials(t, s) && t.phase == ConnectPhase::RequestingVoiceSettings
                && a == ConnectActionView::RequestVoiceSettings
        }),
        ({
            let (t, a) = next(s, ConnectEventView::VoiceSettingsRequested(Ok(())));
            same_credentials(t, s) && t.phase == ConnectPhase::ClearingError && a == ConnectActionView::ClearError
        }),
        ({
            let (t, a) = next(s, ConnectEventView::ErrorCleared);
            same_credentials(t, s) && t.phase == ConnectPhase::Ready && a == ConnectActionView::Finish
        }),
        ({
            let (t, a) = next(s, ConnectEventView::AuthorizationRequested(Ok(())));
            same_credentials(t, s) && t.phase == ConnectPhase::AwaitingUser && a == ConnectActionView::Finish
        }),
{
}

/// Every failed call ends the flow with a message made of a fixed text
/// naming the call and the outside error after it.
pub proof fn lemma_failed_steps(s: ConnectFlowView, e: Seq<char>)
    ensures
        next(s, ConnectEventView::Connected(Err(e))).0.phase == ConnectPhase::Failed,
        next(s, ConnectEventView::Connected(Err(e))).1 == ConnectActionView::Fail(
            "Failed to connect to Discord: "@ + e,
        ),
        next(s, ConnectEventView::Authenticated(Err(e))).0.phase == ConnectPhase::Failed,
        next(s, ConnectEventView::Authenticated(Err(e))).1 == ConnectActionView::Fail(
            "Failed to authenticate: "@ + e,
        ),
        next(s, ConnectEventView::Subscribed(Err(e))).0.phase == ConnectPhase::Failed,
        next(s, ConnectEventView::Subscribed(Err(e))).1 == ConnectActionView::Fail(
            "Failed to subscribe to voice updates: "@ + e,
        ),
        next(s, ConnectEventView::VoiceSettingsRequested(Err(e))).0.phase == ConnectPhase::Failed,
        next(s, ConnectEventView::VoiceSettingsRequested(Err(e))).1 == ConnectActionView::Fail(
            "Failed to fetch initial voice settings: "@ + e,
        ),
        next(s, ConnectEventView::AuthorizationRequested(Err(e))).0.phase == ConnectPhase::Failed,
        next(s, ConnectEventView::AuthorizationRequested(Err(e))).1 == ConnectActionView::Fail(
            "Failed to start authorization: "@ + e,
        ),
        exchange_failed_message(e) == "Failed to exchange code for token: "@ + e,
        setup_failed_message(e) == "Failed to set up authenticated client: "@ + e,
{
}

/// A flow from stored settings with both application credentials starts by
/// connecting with the application id and carries the stored credentials;
/// without them it has already failed with the configuration message.  A
/// set-up flow starts by authenticating with its token.
pub proof fn lemma_flow_starts(settings: DiscordSettingsView, token: Seq<char>)
    ensures
        settings.client_id.len() != 0 && settings.client_secret.len() != 0 ==> {
            &&& start(settings).0.phase == ConnectPhase::Connecting
            &&& start(settings).1 == ConnectActionView::Connect(settings.client_id)
        },
        start(settings).0.client_id == settings.client_id,
        start(settings).0.client_secret == settings.client_secret,
        start(settings).0.access_token == settings.access_token,
        settings.client_id.len() == 0 || settings.client_secret.len() == 0 ==> {
            &&& start(settings).0.phase == ConnectPhase::Failed
            &&& start(settings).1 == ConnectActionView::Fail("Client ID or Client Secret not configured"@)
        },
        start_setup(token).0.phase == ConnectPhase::Authenticating,
        start_setup(token).0.access_token == token,
        start_setup(token).1 == ConnectActionView::Authenticate(token),
{
}

/// Setting up an opened client with a token: when every call succeeds, the
/// flow authenticates, then installs the event forwarder, subscribes to
/// voice updates, requests the voice settings, clears the error and ends
/// ready.
pub proof fn lemma_setup_flow_succeeds(token: Seq<char>)
    ensures
        ({
            let (s0, a0) = start_setup(token);
            let events = seq![
                ConnectEventView::Authenticated(Ok(())),
                ConnectEventView::HandlerInstalled,
                ConnectEventView::Subscribed(Ok(())),
                ConnectEventView::VoiceSettingsRequested(Ok(())),
                ConnectEventView::ErrorCleared,
            ];
            &&& a0 == ConnectActionView::Authenticate(token)
            &&& run(s0, events).0.phase == ConnectPhase::Ready
            &&& run(s0, events).1 == seq![
                ConnectActionView::InstallEventForwarding,
                ConnectActionView::SubscribeVoiceSettings,
                ConnectActionView::RequestVoiceSettings,
                ConnectActionView::ClearError,
                ConnectActionView::Finish,
            ]
        }),
{
    let (s0, a0) = start_setup(token);
    let events = seq![
        ConnectEventView::Authenticated(Ok(())),
        ConnectEventView::HandlerInstalled,
        ConnectEventView::Subscribed(Ok(())),
        ConnectEventView::VoiceSettingsRequested(Ok(())),
        ConnectEventView::ErrorCleared,
    ];
    reveal_with_fuel(run, 6);
    assert(events.drop_first() =~= events.subrange(1, 5));
    assert(events.subrange(1, 5).drop_first() =~= events.subrange(2, 5));
    assert(events.subrange(2, 5).drop_first() =~= events.subrange(3, 5));
    assert(events.subrange(3, 5).drop_first() =~= events.subrange(4, 5));
    assert(events.subrange(4, 5).drop_first() =~= Seq::<ConnectEventView>::empty());
    assert(run(s0, events).1 =~= seq![
        ConnectActionView::InstallEventForwarding,
        ConnectActionView::SubscribeVoiceSettings,
        ConnectActionView::RequestVoiceSettings,
        ConnectActionView::ClearError,
        ConnectActionView::Finish,
    ]);
}

/// Each phase that waits takes the outcome of the call it made, successful
/// or not; the ended phases take nothing.  The outcome of a call keeps its
/// error text.
pub proof fn lemma_awaited_outcomes(r: Result<(), Seq<char>>, phase: ConnectPhase, e: ConnectEventView, t: String)
    ensures
        expects(ConnectPhase::Connecting, ConnectEventView::Connected(r)),
        expects(ConnectPhase::Authenticating, ConnectEventView::Authenticated(r)),
        expects(ConnectPhase::InstallingForwarder, ConnectEventView::HandlerInstalled),
        expects(ConnectPhase::Subscribing, ConnectEventView::Subscribed(r)),
        expects(ConnectPhase::RequestingVoiceSettings, ConnectEventView::VoiceSettingsRequested(r)),
        expects(ConnectPhase::ClearingError, ConnectEventView::ErrorCleared),
        expects(ConnectPhase::InstallingAuthorizer, ConnectEventView::HandlerInstalled),
        expects(ConnectPhase::RequestingAuthorization, ConnectEventView::AuthorizationRequested(r)),
        (phase == ConnectPhase::Ready || phase == ConnectPhase::AwaitingUser || phase == ConnectPhase::Failed)
            <==> is_finished(phase),
        is_finished(phase) ==> !expects(phase, e),
        outcome_view(Ok(())) == Ok::<(), Seq<char>>(()),
        outcome_view(Err(t)) == Err::<(), Seq<char>>(t@),
{
}

} // verus!
