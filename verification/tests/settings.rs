use oadiscord::settings::{has_settings_changed, update_error, DiscordSettings, GlobalEventHandler};

fn config(id: &str, secret: &str, token: &str) -> DiscordSettings {
    DiscordSettings {
        client_id: id.to_string(),
        client_secret: secret.to_string(),
        access_token: token.to_string(),
        error: None,
    }
}

#[test]
fn default_settings_are_empty() {
    let d = DiscordSettings::default();
    assert_eq!(d, config("", "", ""));
}

#[test]
fn same_complete_settings_do_not_reconnect() {
    let current = config("id", "secret", "token");
    assert!(!has_settings_changed(&current, &config("id", "secret", "token")));
}

#[test]
fn changed_credentials_reconnect() {
    let current = config("id", "secret", "token");
    assert!(has_settings_changed(&current, &config("id2", "secret", "token")));
    assert!(has_settings_changed(&current, &config("id", "other", "token")));
    assert!(has_settings_changed(&current, &config("id", "secret", "")));
}

#[test]
fn incomplete_stored_settings_always_reconnect() {
    for current in [config("", "s", "t"), config("i", "", "t"), config("i", "s", "")] {
        let incoming = current.clone();
        assert!(has_settings_changed(&current, &incoming));
    }
}

#[test]
fn receiving_settings_twice_reconnects_once() {
    let handler = GlobalEventHandler;
    let mut current = DiscordSettings::default();
    let incoming = config("id", "secret", "token");
    assert!(handler.did_receive_global_settings(&mut current, incoming.clone()));
    assert_eq!(current, incoming);
    assert!(!handler.did_receive_global_settings(&mut current, incoming.clone()));
    assert_eq!(current, incoming);
}

#[test]
fn unchanged_settings_keep_stored_error() {
    let handler = GlobalEventHandler;
    let mut current = config("id", "secret", "token");
    current.error = Some("old".to_string());
    let mut incoming = config("id", "secret", "token");
    incoming.error = Some("new".to_string());
    assert!(!handler.did_receive_global_settings(&mut current, incoming));
    assert_eq!(current.error.as_deref(), Some("old"));
}

#[test]
fn update_error_saves_only_new_errors() {
    let mut s = config("id", "secret", "");
    assert!(update_error(&mut s, "boom"));
    assert_eq!(s.error.as_deref(), Some("boom"));
    assert!(!update_error(&mut s, "boom"));
    assert_eq!(s.error.as_deref(), Some("boom"));
    assert!(update_error(&mut s, "other"));
    assert_eq!(s.error.as_deref(), Some("other"));
    assert_eq!(s.client_id, "id");
}

#[test]
fn clear_error_and_set_token() {
    let mut s = config("id", "secret", "");
    s.error = Some("x".to_string());
    s.clear_error();
    assert_eq!(s.error, None);
    s.set_access_token("tok".to_string());
    assert_eq!(s, config("id", "secret", "tok"));
    assert_eq!(s.duplicate(), s);
}
