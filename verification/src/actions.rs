//! What each button of the plugin asks Discord to do, and what the button
//! shows afterwards.

use vstd::prelude::*;
use vstd::string::*;
use vstd::hash_map::StringHashMap;
use crate::json::{
    camera_payload, camera_request, screenshare_payload, screenshare_request,
    soundboard_payload, soundboard_request,
};

verus! {

/// The per-button settings that the host stores: text values by name.
pub struct ActionSettings {
    entries: StringHashMap<String>,
}

impl View for ActionSettings {
    type V = Map<Seq<char>, Seq<char>>;

    closed spec fn view(&self) -> Map<Seq<char>, Seq<char>> {
        self.entries@.map_values(|v: String| v@)
    }
}

impl ActionSettings {
    /// No settings.
    pub fn new() -> (r: ActionSettings)
        ensures
            r@ == Map::<Seq<char>, Seq<char>>::empty(),
    {
        let r = ActionSettings { entries: StringHashMap::new() };
        assert(r@ =~= Map::<Seq<char>, Seq<char>>::empty());
        r
    }

    /// Sets the value of a setting.
    pub fn insert(&mut self, key: String, value: String)
        ensures
            final(self)@ == old(self)@.insert(key@, value@),
    {
        self.entries.insert(key, value);
        assert(self@ =~= old(self)@.insert(key@, value@));
    }

    /// The value of a setting, if it is set.
    pub fn get(&self, key: &str) -> (r: Option<&String>)
        ensures
            match r {
                Some(v) => self@.contains_key(key@) && v@ == self@[key@],
                None => !self@.contains_key(key@),
            },
    {
        self.entries.get(key)
    }
}

/// The voice settings that a button changes; a field left `None` is not touched.
#[derive(Clone, Copy, Debug, PartialEq, Eq)]
pub struct VoiceSettingsChange {
    pub mute: Option<bool>,
    pub deaf: Option<bool>,
}

/// A voice settings command and the button state to show once Discord accepts it.
#[derive(Clone, Copy, Debug, PartialEq, Eq)]
pub struct VoiceUpdate {
    pub change: VoiceSettingsChange,
    pub next_state: usize,
}

/// Changes only the microphone.
pub open spec fn set_mute(mute: bool, next_state: usize) -> VoiceUpdate {
    VoiceUpdate { change: VoiceSettingsChange { mute: Some(mute), deaf: None }, next_state }
}

/// Changes only the audio output.
pub open spec fn set_deaf(deaf: bool, next_state: usize) -> VoiceUpdate {
    VoiceUpdate { change: VoiceSettingsChange { mute: None, deaf: Some(deaf) }, next_state }
}

/// A two-state toggle turns the setting on from state 0 and off from any other.
pub open spec fn turns_on(current_state: u16) -> bool {
    current_state == 0
}

/// The state a toggle moves to: 1 when it turns the setting on, else 0.
pub open spec fn toggled_state(current_state: u16) -> usize {
    if turns_on(current_state) {
        1
    } else {
        0
    }
}

/// How a send to Discord went.
#[derive(Clone, Copy, Debug, PartialEq, Eq)]
pub enum SendOutcome {
    /// No Discord connection is open, so nothing was sent.
    NoClient,
    /// Discord did not take the command.
    Failed,
    /// Discord took the command.
    Delivered,
}

/// What the button shows afterwards.
#[derive(Clone, Copy, Debug, PartialEq, Eq)]
pub enum ButtonFeedback {
    Unchanged,
    SetState(u16),
    ShowAlert,
}

/// After a voice settings command: the new state when Discord took it, an alert otherwise.
pub fn update_voice_setting(outcome: SendOutcome, next_state: usize) -> (f: ButtonFeedback)
    ensures
        f == update_state_shown(outcome, next_state),
{
    match outcome {
        SendOutcome::Delivered => ButtonFeedback::SetState(next_state as u16),
        _ => ButtonFeedback::ShowAlert,
    }
}

/// After a raw request: nothing when Discord took it, an alert otherwise.
pub fn emit_feedback(outcome: SendOutcome) -> (f: ButtonFeedback)
    ensures
        f == (match outcome {
            SendOutcome::Delivered => ButtonFeedback::Unchanged,
            _ => ButtonFeedback::ShowAlert,
        }),
{
    match outcome {
        SendOutcome::Delivered => ButtonFeedback::Unchanged,
        _ => ButtonFeedback::ShowAlert,
    }
}

/// Toggles the microphone.
pub struct ToggleMuteAction;

impl ToggleMuteAction {
    /// From state 0 it mutes and moves to state 1; from any other it unmutes
    /// and moves to state 0.
    pub fn key_up(&self, current_state: u16) -> (u: VoiceUpdate)
        ensures
            u == set_mute(turns_on(current_state), toggled_state(current_state)),
    {
        let new_mute = current_state == 0;
        VoiceUpdate {
            change: VoiceSettingsChange { mute: Some(new_mute), deaf: None },
            next_state: if new_mute { 1 } else { 0 },
        }
    }
}

/// Toggles the audio output.
pub struct ToggleDeafenAction;

impl ToggleDeafenAction {
    /// From state 0 it deafens and moves to state 1; from any other it
    /// undeafens and moves to state 0.
    pub fn key_up(&self, current_state: u16) -> (u: VoiceUpdate)
        ensures
            u == set_deaf(turns_on(current_state), toggled_state(current_state)),
    {
        let new_deaf = current_state == 0;
        VoiceUpdate {
            change: VoiceSettingsChange { mute: None, deaf: Some(new_deaf) },
            next_state: if new_deaf { 1 } else { 0 },
        }
    }
}

/// Mutes while the key is held.
pub struct PushToMuteAction;

impl PushToMuteAction {
    /// Pressing mutes and shows state 1.
    pub fn key_down(&self) -> (u: VoiceUpdate)
        ensures
            u == set_mute(true, 1),
    {
        VoiceUpdate { change: VoiceSettingsChange { mute: Some(true), deaf: None }, next_state: 1 }
    }

    /// Releasing unmutes and shows state 0.
    pub fn key_up(&self) -> (u: VoiceUpdate)
        ensures
            u == set_mute(false, 0),
    {
        VoiceUpdate { change: VoiceSettingsChange { mute: Some(false), deaf: None }, next_state: 0 }
    }
}

/// Unmutes while the key is held.
pub struct PushToTalkAction;

impl PushToTalkAction {
    /// Pressing unmutes and shows state 1.
    pub fn key_down(&self) -> (u: VoiceUpdate)
        ensures
            u == set_mute(false, 1),
    {
        VoiceUpdate { change: VoiceSettingsChange { mute: Some(false), deaf: None }, next_state: 1 }
    }

    /// Releasing mutes and shows state 0.
    pub fn key_up(&self) -> (u: VoiceUpdate)
        ensures
            u == set_mute(true, 0),
    {
        VoiceUpdate { change: VoiceSettingsChange { mute: Some(true), deaf: None }, next_state: 0 }
    }
}

/// Plays a sound of a guild's soundboard.
pub struct PlaySoundboardSoundAction;

/// Both settings that name the sound are present.
pub open spec fn names_sound(settings: Map<Seq<char>, Seq<char>>) -> bool {
    settings.contains_key("soundId"@) && settings.contains_key("guildId"@)
}

impl PlaySoundboardSoundAction {
    /// The request for the sound named by the `soundId` and `guildId`
    /// settings; `None` (the button shows an alert) when one is missing.
    pub fn key_up(&self, settings: &ActionSettings) -> (r: Option<String>)
        ensures
            match r {
                Some(t) => names_sound(settings@) && t@ == soundboard_payload(
                    settings@["soundId"@],
                    settings@["guildId"@],
                ),
                None => !names_sound(settings@),
            },
    {
        let sound_id = match settings.get("soundId") {
            Some(v) => v,
            None => {
                return None;
            },
        };
        let guild_id = match settings.get("guildId") {
            Some(v) => v,
            None => {
                return None;
            },
        };
        Some(soundboard_request(sound_id.as_str(), guild_id.as_str()))
    }
}

/// Starts or stops sharing the screen.
pub struct ToggleScreenshareAction;

/// The `streamFocusedWindow` setting is the text `true`.
pub open spec fn streams_focused_window(settings: Map<Seq<char>, Seq<char>>) -> bool {
    settings.contains_key("streamFocusedWindow"@) && settings["streamFocusedWindow"@] == "true"@
}

impl ToggleScreenshareAction {
    /// Whether the button shares the window in the foreground (so the caller
    /// looks up its process).
    pub fn streams_focused_window(&self, settings: &ActionSettings) -> (r: bool)
        ensures
            r == streams_focused_window(settings@),
    {
        match settings.get("streamFocusedWindow") {
            Some(v) => {
                let wanted = String::from_str("true");
                *v == wanted
            },
            None => false,
        }
    }

    /// The request; it names the process `focused_pid` only when the button
    /// shares the focused window.
    pub fn key_up(&self, settings: &ActionSettings, focused_pid: Option<u32>) -> (r: String)
        ensures
            r@ == screenshare_payload(
                if streams_focused_window(settings@) {
                    focused_pid
                } else {
                    None
                },
            ),
    {
        let pid = if self.streams_focused_window(settings) {
            focused_pid
        } else {
            None
        };
        screenshare_request(pid)
    }
}

/// Turns the camera on or off.
pub struct ToggleCameraAction;

impl ToggleCameraAction {
    /// The request.
    pub fn key_up(&self) -> (r: String)
        ensures
            r@ == camera_payload(),
    {
        camera_request()
    }
}

/// Pressing a toggle twice, each time taken by Discord, brings a two-state
/// button back to where it started and sends opposite values.
pub proof fn lemma_toggle_twice_restores(current_state: u16)
    requires
        current_state <= 1,
    ensures
        toggled_state(toggled_state(current_state) as u16) == current_state,
        turns_on(toggled_state(current_state) as u16) == !turns_on(current_state),
{
}

/// A toggle's new state says whether the setting is on: 1 exactly when it
/// turns the setting on.
pub proof fn lemma_toggle_state_matches_setting(current_state: u16)
    ensures
        (toggled_state(current_state) == 1) == turns_on(current_state),
        update_state_shown(SendOutcome::Delivered, toggled_state(current_state)) == ButtonFeedback::SetState(
            toggled_state(current_state) as u16,
        ),
{
}

/// The feedback of a voice command, as `update_voice_setting` computes it.
pub open spec fn update_state_shown(outcome: SendOutcome, next_state: usize) -> ButtonFeedback {
    match outcome {
        SendOutcome::Delivered => ButtonFeedback::SetState(next_state as u16),
        _ => ButtonFeedback::ShowAlert,
    }
}

/// A voice command is taken by Discord or not: when it is, the button shows
/// the command's new state; when it is not (no connection, or a refusal),
/// the button shows an alert, whatever the state was to be.
pub proof fn lemma_voice_feedback(outcome: SendOutcome, next_state: usize)
    ensures
        outcome == SendOutcome::Delivered ==> update_state_shown(outcome, next_state) == ButtonFeedback::SetState(
            next_state as u16,
        ),
        outcome != SendOutcome::Delivered ==> update_state_shown(outcome, next_state) == ButtonFeedback::ShowAlert,
{
}

/// A two-state toggle turns its setting on exactly from state 0, and the
/// state it shows next is 1 exactly when the setting is on.
pub proof fn lemma_toggle_rules(current_state: u16)
    ensures
        turns_on(current_state) <==> current_state == 0,
        toggled_state(current_state) == (if current_state == 0 { 1usize } else { 0usize }),
{
}

/// A mute command changes the microphone only, a deafen command the audio
/// output only, each to the value given, and carries the state given.
pub proof fn lemma_voice_commands(value: bool, next_state: usize)
    ensures
        set_mute(value, next_state).change.mute == Some(value),
        set_mute(value, next_state).change.deaf is None,
        set_mute(value, next_state).next_state == next_state,
        set_deaf(value, next_state).change.deaf == Some(value),
        set_deaf(value, next_state).change.mute is None,
        set_deaf(value, next_state).next_state == next_state,
{
}

/// The soundboard button needs both of its settings, whatever else is set;
/// the screen share button shares the focused window exactly when its
/// setting holds the text `true`.
pub proof fn lemma_button_settings(settings: Map<Seq<char>, Seq<char>>)
    ensures
        names_sound(settings) <==> (settings.contains_key(
            seq!['s', 'o', 'u', 'n', 'd', 'I', 'd'],
        ) && settings.contains_key(seq!['g', 'u', 'i', 'l', 'd', 'I', 'd'])),
        streams_focused_window(settings) <==> ({
            let key = seq![
                's', 't', 'r', 'e', 'a', 'm', 'F', 'o', 'c', 'u', 's', 'e', 'd', 'W', 'i', 'n', 'd', 'o', 'w'
            ];
            settings.contains_key(key) && settings[key] == seq!['t', 'r', 'u', 'e']
        }),
{
    reveal_strlit("soundId");
    reveal_strlit("guildId");
    reveal_strlit("streamFocusedWindow");
    reveal_strlit("true");
    assert("soundId"@ =~= seq!['s', 'o', 'u', 'n', 'd', 'I', 'd']);
    assert("guildId"@ =~= seq!['g', 'u', 'i', 'l', 'd', 'I', 'd']);
    assert("streamFocusedWindow"@ =~= seq![
        's', 't', 'r', 'e', 'a', 'm', 'F', 'o', 'c', 'u', 's', 'e', 'd', 'W', 'i', 'n', 'd', 'o', 'w'
    ]);
    assert("true"@ =~= seq!['t', 'r', 'u', 'e']);
}

} // verus!
