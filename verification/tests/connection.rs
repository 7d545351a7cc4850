use oadiscord::connection::{
    authenticated_setup_failed, create_discord_client, setup_discord_client, AuthorizationHandler,
    AuthorizeRequest, ConnectAction, ConnectEvent, ConnectPhase, ItemRoute, RpcItem, TokenExchange,
    TokenStep,
};
use oadiscord::settings::DiscordSettings;

fn config(id: &str, secret: &str, token: &str) -> DiscordSettings {
    DiscordSettings {
        client_id: id.to_string(),
        client_secret: secret.to_string(),
        access_token: token.to_string(),
        error: None,
    }
}

fn scopes() -> Vec<String> {
    ["rpc", "rpc.voice.write", "rpc.video.write", "rpc.screenshare.write", "identify"]
        .iter()
        .map(|s| s.to_string())
        .collect()
}

#[test]
fn missing_credentials_fail_before_connecting() {
    for s in [config("", "secret", "t"), config("id", "", "t"), config("", "", "")] {
        let (flow, action) = create_discord_client(&s);
        assert_eq!(action, ConnectAction::Fail("Client ID or Client Secret not configured".to_string()));
        assert_eq!(flow.phase(), ConnectPhase::Failed);
        assert!(flow.is_finished());
    }
}

#[test]
fn token_flow_runs_the_setup_sequence() {
    let (mut flow, action) = create_discord_client(&config("id", "secret", "tok"));
    assert_eq!(action, ConnectAction::Connect("id".to_string()));
    assert_eq!(flow.step(ConnectEvent::Connected(Ok(()))), ConnectAction::Authenticate("tok".to_string()));
    assert_eq!(flow.step(ConnectEvent::Authenticated(Ok(()))), ConnectAction::InstallEventForwarding);
    assert_eq!(flow.step(ConnectEvent::HandlerInstalled), ConnectAction::SubscribeVoiceSettings);
    assert_eq!(flow.step(ConnectEvent::Subscribed(Ok(()))), ConnectAction::RequestVoiceSettings);
    assert_eq!(flow.step(ConnectEvent::VoiceSettingsRequested(Ok(()))), ConnectAction::ClearError);
    assert!(!flow.is_finished());
    assert_eq!(flow.step(ConnectEvent::ErrorCleared), ConnectAction::Finish);
    assert_eq!(flow.phase(), ConnectPhase::Ready);
    assert!(flow.is_finished());
}

#[test]
fn authorization_flow_asks_the_user() {
    let (mut flow, action) = create_discord_client(&config("id", "secret", ""));
    assert_eq!(action, ConnectAction::Connect("id".to_string()));
    assert_eq!(
        flow.step(ConnectEvent::Connected(Ok(()))),
        ConnectAction::InstallAuthorizationHandler(AuthorizationHandler {
            client_id: "id".to_string(),
            client_secret: "secret".to_string(),
        })
    );
    assert_eq!(
        flow.step(ConnectEvent::HandlerInstalled),
        ConnectAction::RequestAuthorization(AuthorizeRequest { client_id: "id".to_string(), scopes: scopes() })
    );
    assert_eq!(flow.step(ConnectEvent::AuthorizationRequested(Ok(()))), ConnectAction::Finish);
    assert_eq!(flow.phase(), ConnectPhase::AwaitingUser);
}

fn failed(action: ConnectAction, flow_phase: ConnectPhase, expected: &str) {
    assert_eq!(action, ConnectAction::Fail(expected.to_string()));
    assert_eq!(flow_phase, ConnectPhase::Failed);
}

#[test]
fn each_failure_has_its_message() {
    let (mut flow, _) = create_discord_client(&config("id", "secret", "tok"));
    let a = flow.step(ConnectEvent::Connected(Err("no pipe".to_string())));
    failed(a, flow.phase(), "Failed to connect to Discord: no pipe");

    let (mut flow, _) = setup_discord_client("tok".to_string());
    let a = flow.step(ConnectEvent::Authenticated(Err("bad token".to_string())));
    failed(a, flow.phase(), "Failed to authenticate: bad token");

    let (mut flow, _) = setup_discord_client("tok".to_string());
    flow.step(ConnectEvent::Authenticated(Ok(())));
    flow.step(ConnectEvent::HandlerInstalled);
    let a = flow.step(ConnectEvent::Subscribed(Err("e1".to_string())));
    failed(a, flow.phase(), "Failed to subscribe to voice updates: e1");

    let (mut flow, _) = setup_discord_client("tok".to_string());
    flow.step(ConnectEvent::Authenticated(Ok(())));
    flow.step(ConnectEvent::HandlerInstalled);
    flow.step(ConnectEvent::Subscribed(Ok(())));
    let a = flow.step(ConnectEvent::VoiceSettingsRequested(Err("e2".to_string())));
    failed(a, flow.phase(), "Failed to fetch initial voice settings: e2");

    let (mut flow, _) = create_discord_client(&config("id", "secret", ""));
    flow.step(ConnectEvent::Connected(Ok(())));
    flow.step(ConnectEvent::HandlerInstalled);
    let a = flow.step(ConnectEvent::AuthorizationRequested(Err("e3".to_string())));
    failed(a, flow.phase(), "Failed to start authorization: e3");
}

#[test]
fn flow_accepts_only_the_awaited_outcome() {
    let (mut flow, _) = create_discord_client(&config("id", "secret", "tok"));
    assert!(flow.accepts(&ConnectEvent::Connected(Ok(()))));
    assert!(!flow.accepts(&ConnectEvent::HandlerInstalled));
    assert!(!flow.accepts(&ConnectEvent::Authenticated(Ok(()))));
    flow.step(ConnectEvent::Connected(Err("x".to_string())));
    assert!(!flow.accepts(&ConnectEvent::Connected(Ok(()))));
    assert!(!flow.accepts(&ConnectEvent::ErrorCleared));
}

#[test]
fn setup_flow_starts_with_authentication() {
    let (mut flow, action) = setup_discord_client("abc".to_string());
    assert_eq!(action, ConnectAction::Authenticate("abc".to_string()));
    assert_eq!(flow.phase(), ConnectPhase::Authenticating);
    flow.step(ConnectEvent::Authenticated(Ok(())));
    assert_eq!(flow.step(ConnectEvent::HandlerInstalled), ConnectAction::SubscribeVoiceSettings);
}

#[test]
fn authorization_code_goes_to_token_exchange() {
    let handler = AuthorizationHandler { client_id: "id".to_string(), client_secret: "sec".to_string() };
    assert_eq!(
        handler.route(RpcItem::AuthorizationCode("code1".to_string())),
        ItemRoute::Exchange(TokenExchange {
            code: "code1".to_string(),
            client_id: "id".to_string(),
            client_secret: "sec".to_string(),
        })
    );
    assert_eq!(handler.route(RpcItem::Other), ItemRoute::Forward);
}

#[test]
fn obtained_token_is_stored_then_used() {
    let handler = AuthorizationHandler { client_id: "id".to_string(), client_secret: "sec".to_string() };
    let mut s = config("id", "sec", "");
    let step = handler.token_exchanged(&mut s, Ok("newtok".to_string()));
    assert_eq!(step, TokenStep::SetUp("newtok".to_string()));
    assert_eq!(s, config("id", "sec", "newtok"));
    let (_, action) = create_discord_client(&s);
    let (mut flow, _) = create_discord_client(&s);
    assert_eq!(action, ConnectAction::Connect("id".to_string()));
    assert_eq!(flow.step(ConnectEvent::Connected(Ok(()))), ConnectAction::Authenticate("newtok".to_string()));
}

#[test]
fn failed_token_exchange_is_reported() {
    let handler = AuthorizationHandler { client_id: "id".to_string(), client_secret: "sec".to_string() };
    let mut s = config("id", "sec", "");
    let step = handler.token_exchanged(&mut s, Err("denied".to_string()));
    assert_eq!(step, TokenStep::ReportError("Failed to exchange code for token: denied".to_string()));
    assert_eq!(s, config("id", "sec", ""));
    assert_eq!(
        authenticated_setup_failed("Failed to authenticate: x".to_string()),
        "Failed to set up authenticated client: Failed to authenticate: x"
    );
}
