use oadiscord::actions::{
    update_voice_setting, ButtonFeedback, PushToMuteAction, PushToTalkAction, SendOutcome,
    ToggleDeafenAction, ToggleMuteAction, VoiceSettingsChange, VoiceUpdate,
};

fn mute(m: bool, next_state: usize) -> VoiceUpdate {
    VoiceUpdate { change: VoiceSettingsChange { mute: Some(m), deaf: None }, next_state }
}

fn deaf(d: bool, next_state: usize) -> VoiceUpdate {
    VoiceUpdate { change: VoiceSettingsChange { mute: None, deaf: Some(d) }, next_state }
}

#[test]
fn toggle_mute_from_each_state() {
    assert_eq!(ToggleMuteAction.key_up(0), mute(true, 1));
    assert_eq!(ToggleMuteAction.key_up(1), mute(false, 0));
    assert_eq!(ToggleMuteAction.key_up(2), mute(false, 0));
    assert_eq!(ToggleMuteAction.key_up(u16::MAX), mute(false, 0));
}

#[test]
fn toggle_deafen_from_each_state() {
    assert_eq!(ToggleDeafenAction.key_up(0), deaf(true, 1));
    assert_eq!(ToggleDeafenAction.key_up(1), deaf(false, 0));
    assert_eq!(ToggleDeafenAction.key_up(3), deaf(false, 0));
}

#[test]
fn toggle_twice_returns_to_start() {
    for start in [0u16, 1] {
        let first = ToggleMuteAction.key_up(start);
        let second = ToggleMuteAction.key_up(first.next_state as u16);
        assert_eq!(second.next_state as u16, start);
        assert_eq!(first.change.mute.map(|m| !m), second.change.mute);
    }
}

#[test]
fn push_to_mute_press_and_release() {
    assert_eq!(PushToMuteAction.key_down(), mute(true, 1));
    assert_eq!(PushToMuteAction.key_up(), mute(false, 0));
}

#[test]
fn push_to_talk_press_and_release() {
    assert_eq!(PushToTalkAction.key_down(), mute(false, 1));
    assert_eq!(PushToTalkAction.key_up(), mute(true, 0));
}

#[test]
fn voice_feedback() {
    assert_eq!(update_voice_setting(SendOutcome::Delivered, 1), ButtonFeedback::SetState(1));
    assert_eq!(update_voice_setting(SendOutcome::Delivered, 0), ButtonFeedback::SetState(0));
    assert_eq!(update_voice_setting(SendOutcome::Failed, 1), ButtonFeedback::ShowAlert);
    assert_eq!(update_voice_setting(SendOutcome::NoClient, 1), ButtonFeedback::ShowAlert);
    assert_eq!(update_voice_setting(SendOutcome::Delivered, 65537), ButtonFeedback::SetState(1));
}
