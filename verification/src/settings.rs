//! The plugin's persisted Discord configuration and the rules that decide
//! when a change of it calls for a new connection.

use vstd::prelude::*;
use vstd::string::*;

verus! {

/// The Discord configuration that the host stores for the plugin.
#[derive(Clone, Debug, PartialEq, Eq)]
pub struct DiscordSettings {
    pub client_id: String,
    pub client_secret: String,
    pub access_token: String,
    /// The last error shown to the user, if any.
    pub error: Option<String>,
}

/// The configuration as plain text values.
pub struct DiscordSettingsView {
    pub client_id: Seq<char>,
    pub client_secret: Seq<char>,
    pub access_token: Seq<char>,
    pub error: Option<Seq<char>>,
}

impl View for DiscordSettings {
    type V = DiscordSettingsView;

    open spec fn view(&self) -> DiscordSettingsView {
        DiscordSettingsView {
            client_id: self.client_id@,
            client_secret: self.client_secret@,
            access_token: self.access_token@,
            error: match &self.error {
                Some(e) => Some(e@),
                None => None,
            },
        }
    }
}

impl DiscordSettingsView {
    /// No credentials and no error.
    pub open spec fn empty() -> DiscordSettingsView {
        DiscordSettingsView {
            client_id: Seq::empty(),
            client_secret: Seq::empty(),
            access_token: Seq::empty(),
            error: None,
        }
    }

    /// Both halves of the application's credentials are filled in.
    pub open spec fn has_app_credentials(self) -> bool {
        self.client_id.len() != 0 && self.client_secret.len() != 0
    }

    /// The application credentials and the access token are all filled in.
    pub open spec fn is_complete(self) -> bool {
        self.has_app_credentials() && self.access_token.len() != 0
    }

    /// The configuration with `error` recorded in it.
    pub open spec fn with_error(self, error: Seq<char>) -> DiscordSettingsView {
        DiscordSettingsView { error: Some(error), ..self }
    }

    /// The configuration with no error recorded.
    pub open spec fn without_error(self) -> DiscordSettingsView {
        DiscordSettingsView { error: None, ..self }
    }

    /// The configuration with a new access token.
    pub open spec fn with_access_token(self, token: Seq<char>) -> DiscordSettingsView {
        DiscordSettingsView { access_token: token, ..self }
    }
}

impl Default for DiscordSettings {
    fn default() -> (r: DiscordSettings)
        ensures
            r@ == DiscordSettingsView::empty(),
    {
        DiscordSettings {
            client_id: String::new(),
            client_secret: String::new(),
            access_token: String::new(),
            error: None,
        }
    }
}

impl DiscordSettings {
    /// A copy of the configuration.
    pub fn duplicate(&self) -> (r: DiscordSettings)
        ensures
            r@ == self@,
    {
        DiscordSettings {
            client_id: self.client_id.clone(),
            client_secret: self.client_secret.clone(),
            access_token: self.access_token.clone(),
            error: match &self.error {
                Some(e) => Some(e.clone()),
                None => None,
            },
        }
    }

    /// Forgets the recorded error (done once a connection is set up).
    pub fn clear_error(&mut self)
        ensures
            final(self)@ == old(self)@.without_error(),
    {
        self.error = None;
    }

    /// Stores the access token obtained by the authorization flow.
    pub fn set_access_token(&mut self, token: String)
        ensures
            final(self)@ == old(self)@.with_access_token(token@),
    {
        self.access_token = token;
    }
}

/// A received configuration calls for a new connection when a credential
/// differs from the stored one, or when the stored configuration lacks one.
pub open spec fn settings_changed(current: DiscordSettingsView, incoming: DiscordSettingsView) -> bool {
    ||| current.client_id != incoming.client_id
    ||| current.client_secret != incoming.client_secret
    ||| current.access_token != incoming.access_token
    ||| !current.is_complete()
}

fn text_eq(a: &String, b: &String) -> (r: bool)
    ensures
        r == (a@ == b@),
{
    *a == *b
}

/// Whether a received configuration differs from the stored one in a way
/// that calls for reconnecting.
pub fn has_settings_changed(current: &DiscordSettings, incoming: &DiscordSettings) -> (r: bool)
    ensures
        r == settings_changed(current@, incoming@),
{
    !text_eq(&current.client_id, &incoming.client_id)
        || !text_eq(&current.client_secret, &incoming.client_secret)
        || !text_eq(&current.access_token, &incoming.access_token)
        || current.client_id.as_str().is_empty()
        || current.client_secret.as_str().is_empty()
        || current.access_token.as_str().is_empty()
}

/// The stored configuration after a received one has been handled.
pub open spec fn after_receiving(current: DiscordSettingsView, incoming: DiscordSettingsView) -> DiscordSettingsView {
    if settings_changed(current, incoming) {
        incoming
    } else {
        current
    }
}

/// Whether recording `error` changes the stored configuration (and so must be saved).
pub open spec fn error_is_new(current: DiscordSettingsView, error: Seq<char>) -> bool {
    current.error != Some(error)
}

/// Records the latest error message so that the user interface can show it.
/// Returns whether the configuration changed and has to be saved; recording
/// the error that is already stored changes nothing.
pub fn update_error(current: &mut DiscordSettings, error: &str) -> (save: bool)
    ensures
        save == error_is_new(old(current)@, error@),
        final(current)@ == old(current)@.with_error(error@),
{
    let already = match &current.error {
        Some(e) => text_eq(e, &error.to_owned()),
        None => false,
    };
    if already {
        return false;
    }
    current.error = Some(error.to_owned());
    true
}

/// Handles global settings pushed by the host.
pub struct GlobalEventHandler;

impl GlobalEventHandler {
    /// Takes a configuration received from the host.  When it calls for a
    /// new connection it replaces the stored one and the result is `true`
    /// (the caller then schedules a reconnect); otherwise nothing changes.
    pub fn did_receive_global_settings(&self, current: &mut DiscordSettings, incoming: DiscordSettings) -> (reconnect: bool)
        ensures
            reconnect == settings_changed(old(current)@, incoming@),
            final(current)@ == after_receiving(old(current)@, incoming@),
    {
        let changed = has_settings_changed(current, &incoming);
        if changed {
            *current = incoming;
        }
        changed
    }
}

/// Receiving a complete configuration a second time does not reconnect again.
pub proof fn lemma_redelivery_is_quiet(current: DiscordSettingsView, incoming: DiscordSettingsView)
    requires
        incoming.is_complete(),
    ensures
        !settings_changed(after_receiving(current, incoming), incoming),
{
}

/// While a credential is missing from the stored configuration, every
/// received configuration leads to a reconnect attempt.
pub proof fn lemma_incomplete_always_reconnects(current: DiscordSettingsView, incoming: DiscordSettingsView)
    requires
        !current.is_complete(),
    ensures
        settings_changed(current, incoming),
        after_receiving(current, incoming) == incoming,
{
}

/// Recording the same error twice saves once: the second time is a no-op.
pub proof fn lemma_update_error_idempotent(current: DiscordSettingsView, error: Seq<char>)
    ensures
        !error_is_new(current.with_error(error), error),
        current.with_error(error).with_error(error) == current.with_error(error),
{
}

/// A received configuration that differs from the stored one in the
/// application id, the secret or the access token (as text) always calls
/// for a reconnect; when the stored configuration is complete, nothing else
/// does.
pub proof fn lemma_changed_credentials_reconnect(current: DiscordSettingsView, incoming: DiscordSettingsView)
    ensures
        current.client_id != incoming.client_id ==> settings_changed(current, incoming),
        current.client_secret != incoming.client_secret ==> settings_changed(current, incoming),
        current.access_token != incoming.access_token ==> settings_changed(current, incoming),
        (current.client_id.len() != 0 && current.client_secret.len() != 0 && current.access_token.len() != 0
            && current.client_id == incoming.client_id && current.client_secret == incoming.client_secret
            && current.access_token == incoming.access_token) ==> !settings_changed(current, incoming),
        (current.client_id.len() == 0 || current.client_secret.len() == 0 || current.access_token.len() == 0)
            ==> settings_changed(current, incoming),
{
}

/// A received configuration that calls for a reconnect is stored as it is,
/// whatever it holds; one that does not leaves the stored one untouched.
pub proof fn lemma_received_settings_replace_stored(current: DiscordSettingsView, incoming: DiscordSettingsView)
    ensures
        settings_changed(current, incoming) ==> after_receiving(current, incoming) == incoming,
        !settings_changed(current, incoming) ==> after_receiving(current, incoming) == current,
        after_receiving(current, incoming).client_id == incoming.client_id,
        after_receiving(current, incoming).client_secret == incoming.client_secret,
        after_receiving(current, incoming).access_token == incoming.access_token,
{
}

/// Recording an error sets it and keeps the credentials; it has to be saved
/// exactly when the stored error is a different one (or none).  Clearing the
/// error and storing a token touch only their own field.
pub proof fn lemma_settings_updates(s: DiscordSettingsView, error: Seq<char>, token: Seq<char>)
    ensures
        s.with_error(error).error == Some(error),
        s.with_error(error).client_id == s.client_id,
        s.with_error(error).client_secret == s.client_secret,
        s.with_error(error).access_token == s.access_token,
        error_is_new(s, error) <==> s.error != Some(error),
        s.without_error().error is None,
        s.without_error().client_id == s.client_id,
        s.without_error().client_secret == s.client_secret,
        s.without_error().access_token == s.access_token,
        s.with_access_token(token).access_token == token,
        s.with_access_token(token).client_id == s.client_id,
        s.with_access_token(token).client_secret == s.client_secret,
        s.with_access_token(token).error == s.error,
{
}

/// What the credential checks mean, and the default configuration.
pub proof fn lemma_credential_checks(s: DiscordSettingsView)
    ensures
        s.has_app_credentials() <==> (s.client_id.len() != 0 && s.client_secret.len() != 0),
        s.is_complete() <==> (s.client_id.len() != 0 && s.client_secret.len() != 0 && s.access_token.len() != 0),
        DiscordSettingsView::empty().client_id.len() == 0,
        DiscordSettingsView::empty().client_secret.len() == 0,
        DiscordSettingsView::empty().access_token.len() == 0,
        DiscordSettingsView::empty().error is None,
{
}

} // verus!
