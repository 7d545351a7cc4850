use oadiscord::actions::{
    emit_feedback, ActionSettings, ButtonFeedback, PlaySoundboardSoundAction, SendOutcome,
    ToggleCameraAction, ToggleScreenshareAction,
};
use oadiscord::json::{
    append_decimal, frame_camera, frame_screenshare, frame_soundboard, json_string,
    screenshare_nonce_text,
};
use serde_json::Value;

fn settings(pairs: &[(&str, &str)]) -> ActionSettings {
    let mut s = ActionSettings::new();
    for (k, v) in pairs {
        s.insert(k.to_string(), v.to_string());
    }
    s
}

fn object(entries: Vec<(&str, Value)>) -> Value {
    let mut m = serde_json::Map::new();
    for (k, v) in entries {
        m.insert(k.to_string(), v);
    }
    Value::Object(m)
}

fn serde_text(v: &Value) -> String {
    serde_json::to_string(v).unwrap()
}

fn soundboard_reference(sound: &str, guild: &str) -> String {
    let args = object(vec![
        ("sound_id", Value::String(sound.to_string())),
        ("guild_id", Value::String(guild.to_string())),
    ]);
    serde_text(&object(vec![
        ("cmd", Value::String("PLAY_SOUNDBOARD_SOUND".to_string())),
        ("args", args),
        ("nonce", Value::String(format!("play-soundboard-{}-{}", sound, guild))),
    ]))
}

fn screenshare_reference(pid: Option<u32>) -> String {
    let pid_value = match pid {
        Some(p) => Value::from(p),
        None => Value::Null,
    };
    let nonce = match pid {
        Some(p) => format!("toggle-screenshare-{p}"),
        None => String::from("toggle-screenshare"),
    };
    serde_text(&object(vec![
        ("cmd", Value::String("TOGGLE_SCREENSHARE".to_string())),
        ("args", object(vec![("pid", pid_value)])),
        ("nonce", Value::String(nonce)),
    ]))
}

#[test]
fn soundboard_request_matches_serde_json() {
    let s = settings(&[("soundId", "1234"), ("guildId", "5678")]);
    let text = PlaySoundboardSoundAction.key_up(&s).unwrap();
    assert_eq!(text, soundboard_reference("1234", "5678"));
    assert_eq!(
        text,
        r#"{"args":{"guild_id":"5678","sound_id":"1234"},"cmd":"PLAY_SOUNDBOARD_SOUND","nonce":"play-soundboard-1234-5678"}"#
    );
}

#[test]
fn soundboard_request_escapes_strings() {
    let sound = "a\"b\\c\nd\u{1}";
    let guild = "é/€";
    let s = settings(&[("soundId", sound), ("guildId", guild)]);
    let text = PlaySoundboardSoundAction.key_up(&s).unwrap();
    assert_eq!(text, soundboard_reference(sound, guild));
}

#[test]
fn soundboard_ignores_other_settings() {
    let s = settings(&[("soundId", "1"), ("guildId", "2"), ("other", "x")]);
    assert_eq!(PlaySoundboardSoundAction.key_up(&s).unwrap(), soundboard_reference("1", "2"));
}

#[test]
fn soundboard_without_sound_alerts() {
    let s = settings(&[("guildId", "5678")]);
    assert_eq!(PlaySoundboardSoundAction.key_up(&s), None);
}

#[test]
fn soundboard_without_guild_alerts() {
    let s = settings(&[("soundId", "1234")]);
    assert_eq!(PlaySoundboardSoundAction.key_up(&s), None);
    assert_eq!(PlaySoundboardSoundAction.key_up(&ActionSettings::new()), None);
}

#[test]
fn screenshare_of_focused_window_names_process() {
    let s = settings(&[("streamFocusedWindow", "true")]);
    assert!(ToggleScreenshareAction.streams_focused_window(&s));
    let text = ToggleScreenshareAction.key_up(&s, Some(4242));
    assert_eq!(text, screenshare_reference(Some(4242)));
    assert_eq!(
        text,
        r#"{"args":{"pid":4242},"cmd":"TOGGLE_SCREENSHARE","nonce":"toggle-screenshare-4242"}"#
    );
}

#[test]
fn screenshare_without_focus_setting_names_no_process() {
    for s in [
        settings(&[]),
        settings(&[("streamFocusedWindow", "false")]),
        settings(&[("streamFocusedWindow", "TRUE")]),
    ] {
        assert!(!ToggleScreenshareAction.streams_focused_window(&s));
        let text = ToggleScreenshareAction.key_up(&s, Some(99));
        assert_eq!(text, screenshare_reference(None));
        assert_eq!(
            text,
            r#"{"args":{"pid":null},"cmd":"TOGGLE_SCREENSHARE","nonce":"toggle-screenshare"}"#
        );
    }
}

#[test]
fn screenshare_with_no_focused_window() {
    let s = settings(&[("streamFocusedWindow", "true")]);
    assert_eq!(ToggleScreenshareAction.key_up(&s, None), screenshare_reference(None));
}

#[test]
fn screenshare_pid_edges() {
    let s = settings(&[("streamFocusedWindow", "true")]);
    for pid in [0u32, 7, 10, 100, 65535, u32::MAX] {
        assert_eq!(ToggleScreenshareAction.key_up(&s, Some(pid)), screenshare_reference(Some(pid)));
    }
}

#[test]
fn camera_request_text() {
    let text = ToggleCameraAction.key_up();
    assert_eq!(text, r#"{"cmd":"TOGGLE_VIDEO","nonce":"toggle-video"}"#);
    let reference = serde_text(&object(vec![
        ("cmd", Value::String("TOGGLE_VIDEO".to_string())),
        ("nonce", Value::String("toggle-video".to_string())),
    ]));
    assert_eq!(text, reference);
}

#[test]
fn json_string_uses_serde_json_escapes() {
    assert_eq!(json_string("plain"), "\"plain\"");
    assert_eq!(json_string("a\"b"), "\"a\\\"b\"");
    assert_eq!(json_string("tab\there"), "\"tab\\there\"");
    assert_eq!(json_string(""), "\"\"");
    assert_ne!(json_string("x"), "x");
}

#[test]
fn decimal_digits() {
    for n in [0u32, 9, 10, 42, 1000, 4294967295] {
        let mut s = String::from("n=");
        append_decimal(&mut s, n);
        assert_eq!(s, format!("n={}", n));
    }
}

#[test]
fn frames_wrap_encoded_parts() {
    assert_eq!(
        frame_soundboard("G", "S", "N"),
        r#"{"args":{"guild_id":G,"sound_id":S},"cmd":"PLAY_SOUNDBOARD_SOUND","nonce":N}"#
    );
    assert_eq!(frame_screenshare(Some(12), "N"), r#"{"args":{"pid":12},"cmd":"TOGGLE_SCREENSHARE","nonce":N}"#);
    assert_eq!(frame_screenshare(None, "N"), r#"{"args":{"pid":null},"cmd":"TOGGLE_SCREENSHARE","nonce":N}"#);
    assert_eq!(frame_camera("N"), r#"{"cmd":"TOGGLE_VIDEO","nonce":N}"#);
    assert_eq!(screenshare_nonce_text(Some(5)), "toggle-screenshare-5");
    assert_eq!(screenshare_nonce_text(None), "toggle-screenshare");
}

#[test]
fn payload_feedback() {
    assert_eq!(emit_feedback(SendOutcome::Delivered), ButtonFeedback::Unchanged);
    assert_eq!(emit_feedback(SendOutcome::Failed), ButtonFeedback::ShowAlert);
    assert_eq!(emit_feedback(SendOutcome::NoClient), ButtonFeedback::ShowAlert);
}

#[test]
fn action_settings_lookup() {
    let mut s = ActionSettings::new();
    assert!(s.get("k").is_none());
    s.insert("k".to_string(), "v1".to_string());
    s.insert("k".to_string(), "v2".to_string());
    assert_eq!(s.get("k").map(|v| v.as_str()), Some("v2"));
}

// The escape rules that the library states, written out independently.
fn expected_escape(c: char) -> String {
    match c {
        '"' => "\\\"".to_string(),
        '\\' => "\\\\".to_string(),
        '\u{8}' => "\\b".to_string(),
        '\t' => "\\t".to_string(),
        '\n' => "\\n".to_string(),
        '\u{c}' => "\\f".to_string(),
        '\r' => "\\r".to_string(),
        c if (c as u32) < 0x20 => format!("\\u00{:02x}", c as u32),
        c => c.to_string(),
    }
}

#[test]
fn escape_table_matches_serde_json() {
    let mut chars: Vec<char> = (0u32..0x80).filter_map(char::from_u32).collect();
    chars.extend(['\u{7f}', '\u{80}', 'é', '\u{2028}', '€', '😀']);
    for c in chars {
        let s = c.to_string();
        let expected = format!("\"{}\"", expected_escape(c));
        assert_eq!(json_string(&s), expected, "char {:?}", c);
        assert_eq!(serde_json::to_string(&s).unwrap(), expected, "char {:?}", c);
    }
    let text = "a\"b\u{1f}c";
    let expected: String = text.chars().map(expected_escape).collect();
    assert_eq!(json_string(text), format!("\"{}\"", expected));
}
