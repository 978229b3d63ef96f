//! The modal that sets up the bank connection proxy: its address, and an
//! account on it.

use vstd::prelude::*;

use crate::input::KeyCode;
use crate::json;
use crate::text;
use crate::tui::paint;
use crate::tui::paint::{Line, LineView, Listing};
use crate::tui::theme;
use crate::tui::theme::Theme;
use crate::tui::widgets;
use crate::tui::widgets::{FieldPainting, FieldView};

verus! {

/// What the modal was closed with.
#[derive(Debug, Clone, Copy, PartialEq, Eq, Structural)]
pub enum PlaidConfigResult {
    Nothing,
    Cancel,
    Saved,
}

/// Whether an account is made or used.
#[derive(Debug, Clone, Copy, PartialEq, Eq, Structural)]
pub enum AuthMode {
    Register,
    Login,
}

/// The fields of the modal.
#[derive(Debug, Clone, Copy, PartialEq, Eq, Structural)]
pub enum ConfigField {
    ProxyUrl,
    Email,
    Password,
}

impl ConfigField {
    pub open spec fn following(self) -> ConfigField {
        match self {
            ConfigField::ProxyUrl => ConfigField::Email,
            ConfigField::Email => ConfigField::Password,
            ConfigField::Password => ConfigField::ProxyUrl,
        }
    }

    pub open spec fn preceding(self) -> ConfigField {
        match self {
            ConfigField::ProxyUrl => ConfigField::Password,
            ConfigField::Email => ConfigField::ProxyUrl,
            ConfigField::Password => ConfigField::Email,
        }
    }

    pub fn next(&self) -> (r: Self)
        ensures
            r == self.following(),
    {
        match self {
            ConfigField::ProxyUrl => ConfigField::Email,
            ConfigField::Email => ConfigField::Password,
            ConfigField::Password => ConfigField::ProxyUrl,
        }
    }

    pub fn prev(&self) -> (r: Self)
        ensures
            r == self.preceding(),
    {
        match self {
            ConfigField::ProxyUrl => ConfigField::Password,
            ConfigField::Email => ConfigField::ProxyUrl,
            ConfigField::Password => ConfigField::Email,
        }
    }
}

/// Tab and Shift-Tab undo each other and go through all three fields.
pub proof fn fields_form_a_cycle(f: ConfigField)
    ensures
        f.following().preceding() == f,
        f.preceding().following() == f,
        f.following().following().following() == f,
        f.following() != f,
{
}

/// What the program is to do for the modal.
pub enum ConfigRequest {
    Nothing,
    /// Store the address, and the key if there is one.
    Save { proxy_url: String, api_key: Option<String> },
    /// Send the email address and the password to an address.
    Authenticate { endpoint: String, email: String, password: String },
}

/// The meaning of what the program is to do.
#[verifier::ext_equal]
pub ghost enum Request {
    Nothing,
    Save { proxy_url: Seq<char>, api_key: Option<Seq<char>> },
    Authenticate { endpoint: Seq<char>, email: Seq<char>, password: Seq<char> },
}

impl View for ConfigRequest {
    type V = Request;

    open spec fn view(&self) -> Request {
        match self {
            ConfigRequest::Nothing => Request::Nothing,
            ConfigRequest::Save { proxy_url, api_key } => Request::Save {
                proxy_url: proxy_url@,
                api_key: text::opt_text(*api_key),
            },
            ConfigRequest::Authenticate { endpoint, email, password } => Request::Authenticate {
                endpoint: endpoint@,
                email: email@,
                password: password@,
            },
        }
    }
}

/// What the proxy answered.
pub enum AuthReply {
    /// There was no answer, for a reason.
    Unreachable(String),
    /// The request was refused with a status and a body.
    Refused { status: String, body: String },
    /// The answer was no JSON, for a reason.
    Unreadable(String),
    /// The answer as JSON text.
    Accepted(String),
    /// The request broke off.
    Aborted,
}

/// The reason given in a refusal: the error field of its body, or the body.
pub open spec fn refusal(body: Seq<char>) -> Seq<char> {
    match json::text_in_field(body, "error"@) {
        Some(e) => e,
        None => body,
    }
}

/// The key that an answer holds, or a message and whether the address has an
/// account already.
pub open spec fn auth_result(reply: AuthReply, mode: AuthMode) -> Result<
    Seq<char>,
    (Seq<char>, bool),
> {
    match reply {
        AuthReply::Unreachable(e) => Err(("Connection failed: "@ + e@, false)),
        AuthReply::Refused { status, body } => Err(
            (
                refusal(body@) + " ("@ + status@ + ")"@,
                mode == AuthMode::Register && text::has_text(
                    text::lowercase(refusal(body@)),
                    "already registered"@,
                ),
            ),
        ),
        AuthReply::Unreadable(e) => Err(("Invalid response: "@ + e@, false)),
        AuthReply::Accepted(body) => match json::text_in_field(body@, "api_key"@) {
            Some(k) => Ok(k),
            None => Err(("No API key in response"@, false)),
        },
        AuthReply::Aborted => Err(("Request thread panicked"@, false)),
    }
}

/// Reads what the proxy answered.
pub fn read_reply(reply: &AuthReply, mode: AuthMode) -> (r: Result<String, (String, bool)>)
    ensures
        match r {
            Ok(k) => auth_result(*reply, mode) == Ok::<Seq<char>, (Seq<char>, bool)>(k@),
            Err((m, b)) => auth_result(*reply, mode) == Err::<Seq<char>, (Seq<char>, bool)>(
                (m@, b),
            ),
        },
{
    match reply {
        AuthReply::Unreachable(e) => Err((text::cat2("Connection failed: ", e.as_str()), false)),
        AuthReply::Refused { status, body } => {
            let reason = match json::text_field(body.as_str(), "error") {
                Some(e) => e,
                None => body.clone(),
            };
            let lower = reason.as_str().to_lowercase();
            let known: bool = mode == AuthMode::Register && text::contains(
                lower.as_str(),
                "already registered",
            );
            Err((text::cat4(reason.as_str(), " (", status.as_str(), ")"), known))
        },
        AuthReply::Unreadable(e) => Err((text::cat2("Invalid response: ", e.as_str()), false)),
        AuthReply::Accepted(body) => match json::text_field(body.as_str(), "api_key") {
            Some(k) => Ok(k),
            None => Err((text::owned("No API key in response"), false)),
        },
        AuthReply::Aborted => Err((text::owned("Request thread panicked"), false)),
    }
}

/// The modal.
pub struct PlaidConfigModal {
    pub visible: bool,
    pub result: PlaidConfigResult,
    pub active_field: ConfigField,
    pub proxy_url: String,
    pub email: String,
    pub password: String,
    pub already_registered: bool,
    pub auth_mode: AuthMode,
    pub error_message: Option<String>,
}

/// The meaning of the modal.
#[verifier::ext_equal]
pub ghost struct ConfigState {
    pub visible: bool,
    pub result: PlaidConfigResult,
    pub active_field: ConfigField,
    pub proxy_url: Seq<char>,
    pub email: Seq<char>,
    pub password: Seq<char>,
    pub already_registered: bool,
    pub auth_mode: AuthMode,
    pub error: Option<Seq<char>>,
}

impl ConfigState {
    /// The state of a new screen.
    pub open spec fn fresh() -> ConfigState {
        ConfigState {
            visible: false,
            result: PlaidConfigResult::Nothing,
            active_field: ConfigField::ProxyUrl,
            proxy_url: Seq::empty(),
            email: Seq::empty(),
            password: Seq::empty(),
            already_registered: false,
            auth_mode: AuthMode::Register,
            error: None,
        }
    }
}

impl View for PlaidConfigModal {
    type V = ConfigState;

    open spec fn view(&self) -> ConfigState {
        ConfigState {
            visible: self.visible,
            result: self.result,
            active_field: self.active_field,
            proxy_url: self.proxy_url@,
            email: self.email@,
            password: self.password@,
            already_registered: self.already_registered,
            auth_mode: self.auth_mode,
            error: text::opt_text(self.error_message),
        }
    }
}

/// An address with a scheme and without slashes at its end.
pub open spec fn normalized(s: Seq<char>) -> Seq<char> {
    let t = text::trimmed(s);
    let url = if t.len() > 0 && !text::begins_with(t, "http://"@) && !text::begins_with(
        t,
        "https://"@,
    ) {
        "https://"@ + t
    } else {
        t
    };
    text::trim_end_char(url, '/')
}

/// Gives an address a scheme and takes the slashes from its end.
pub fn normalize(s: &str) -> (r: String)
    ensures
        r@ == normalized(s@),
{
    let t = text::trim(s);
    let url = if t.as_str().unicode_len() > 0 && !text::starts_with(t.as_str(), "http://")
        && !text::starts_with(t.as_str(), "https://") {
        text::cat2("https://", t.as_str())
    } else {
        t
    };
    text::trim_end_of(url.as_str(), '/')
}

/// A normalized address does not end with a slash.
pub proof fn normalized_addresses_have_no_slash(s: Seq<char>)
    ensures
        !text::ends_with_char(normalized(s), '/'),
{
    let t = text::trimmed(s);
    let url = if t.len() > 0 && !text::begins_with(t, "http://"@) && !text::begins_with(
        t,
        "https://"@,
    ) {
        "https://"@ + t
    } else {
        t
    };
    trimming_leaves_no_end(url, '/');
}

proof fn trimming_leaves_no_end(s: Seq<char>, c: char)
    ensures
        !text::ends_with_char(text::trim_end_char(s, c), c),
    decreases s.len(),
{
    if s.len() > 0 && s.last() == c {
        trimming_leaves_no_end(s.drop_last(), c);
    }
}

impl ConfigState {
    pub open spec fn opened(self, proxy_url: Seq<char>, registered: bool) -> ConfigState {
        ConfigState {
            visible: true,
            result: PlaidConfigResult::Nothing,
            active_field: ConfigField::ProxyUrl,
            proxy_url,
            email: Seq::empty(),
            password: Seq::empty(),
            already_registered: registered,
            auth_mode: AuthMode::Register,
            error: None,
        }
    }

    pub open spec fn failed(self, message: Seq<char>, field: ConfigField) -> ConfigState {
        ConfigState { error: Some(message), active_field: field, ..self }
    }

    pub open spec fn endpoint(self) -> Seq<char> {
        normalized(self.proxy_url) + match self.auth_mode {
            AuthMode::Register => "/auth/register"@,
            AuthMode::Login => "/auth/login"@,
        }
    }

    pub open spec fn submitted(self) -> (ConfigState, Request) {
        let url = normalized(self.proxy_url);
        let email = text::trimmed(self.email);
        if url.len() == 0 {
            (self.failed("Proxy URL is required"@, ConfigField::ProxyUrl), Request::Nothing)
        } else if self.already_registered {
            (
                ConfigState { proxy_url: url, ..self },
                Request::Save { proxy_url: url, api_key: None },
            )
        } else if email.len() == 0 || !text::has_text(email, "@"@) {
            (self.failed("Valid email is required"@, ConfigField::Email), Request::Nothing)
        } else if text::byte_len(self.password) < 8 {
            (
                self.failed(
                    "Password must be at least 8 characters"@,
                    ConfigField::Password,
                ),
                Request::Nothing,
            )
        } else {
            (
                self,
                Request::Authenticate {
                    endpoint: self.endpoint(),
                    email,
                    password: self.password,
                },
            )
        }
    }

    /// The modal after the proxy answered, and what is to be stored.
    pub open spec fn authenticated(self, outcome: Result<Seq<char>, (Seq<char>, bool)>) -> (
        ConfigState,
        Request,
    ) {
        match outcome {
            Ok(key) => (
                ConfigState { proxy_url: normalized(self.proxy_url), ..self },
                Request::Save {
                    proxy_url: normalized(self.proxy_url),
                    api_key: Some(key),
                },
            ),
            Err((message, known)) => (
                if known {
                    ConfigState {
                        auth_mode: AuthMode::Login,
                        error: Some(
                            "Email already registered — enter your password to log in"@,
                        ),
                        ..self
                    }
                } else {
                    ConfigState { error: Some(message), ..self }
                },
                Request::Nothing,
            ),
        }
    }

    pub open spec fn saved(self, failure: Option<Seq<char>>) -> ConfigState {
        match failure {
            None => ConfigState { result: PlaidConfigResult::Saved, ..self },
            Some(e) => ConfigState { error: Some("Failed to save: "@ + e), ..self },
        }
    }

    pub open spec fn field_text(self) -> Seq<char> {
        match self.active_field {
            ConfigField::ProxyUrl => self.proxy_url,
            ConfigField::Email => self.email,
            ConfigField::Password => self.password,
        }
    }

    pub open spec fn with_field(self, s: Seq<char>) -> ConfigState {
        match self.active_field {
            ConfigField::ProxyUrl => ConfigState { proxy_url: s, error: None, ..self },
            ConfigField::Email => ConfigState { email: s, error: None, ..self },
            ConfigField::Password => ConfigState { password: s, error: None, ..self },
        }
    }

    pub open spec fn after_key(self, key: KeyCode) -> (ConfigState, Request) {
        match key {
            KeyCode::Esc => (
                ConfigState { result: PlaidConfigResult::Cancel, ..self },
                Request::Nothing,
            ),
            KeyCode::Tab | KeyCode::Down => (
                if self.already_registered {
                    self
                } else {
                    ConfigState { active_field: self.active_field.following(), ..self }
                },
                Request::Nothing,
            ),
            KeyCode::BackTab | KeyCode::Up => (
                if self.already_registered {
                    self
                } else {
                    ConfigState { active_field: self.active_field.preceding(), ..self }
                },
                Request::Nothing,
            ),
            KeyCode::Enter => self.submitted(),
            KeyCode::Char(c) => (self.with_field(self.field_text().push(c)), Request::Nothing),
            KeyCode::Backspace => (
                self.with_field(text::without_last(self.field_text())),
                Request::Nothing,
            ),
            _ => (self, Request::Nothing),
        }
    }
}

/// Passwords that are sent have at least eight bytes, and email addresses an
/// at sign.
pub proof fn sent_credentials_are_checked(s: ConfigState, key: KeyCode)
    requires
        s.after_key(key).1 is Authenticate,
    ensures
        text::byte_len(s.password) >= 8,
        text::has_text(text::trimmed(s.email), "@"@),
        s.after_key(key).1->password == s.password,
        s.after_key(key).1->email == text::trimmed(s.email),
        !s.already_registered,
{
}

impl PlaidConfigModal {
    pub fn new() -> (r: Self)
        ensures
            r@ == ConfigState::fresh(),
    {
        PlaidConfigModal {
            visible: false,
            result: PlaidConfigResult::Nothing,
            active_field: ConfigField::ProxyUrl,
            proxy_url: String::new(),
            email: String::new(),
            password: String::new(),
            already_registered: false,
            auth_mode: AuthMode::Register,
            error_message: None,
        }
    }

    /// Opens the modal with the stored address, if any.
    pub fn show(&mut self, proxy_url: Option<String>, already_registered: bool)
        ensures
            final(self)@ == old(self)@.opened(text::text_or_empty(proxy_url), already_registered),
    {
        self.proxy_url = match proxy_url {
            Some(u) => u,
            None => String::new(),
        };
        self.already_registered = already_registered;
        self.email.clear();
        self.password.clear();
        self.visible = true;
        self.result = PlaidConfigResult::Nothing;
        self.active_field = ConfigField::ProxyUrl;
        self.auth_mode = AuthMode::Register;
        self.error_message = None;
    }

    /// Closes the modal.
    pub fn close(&mut self)
        ensures
            final(self)@ == (ConfigState { visible: false, ..old(self)@ }),
    {
        self.visible = false;
    }

    pub fn handle_key(&mut self, key: KeyCode) -> (r: ConfigRequest)
        ensures
            (final(self)@, r@) == old(self)@.after_key(key),
    {
        match key {
            KeyCode::Esc => {
                self.result = PlaidConfigResult::Cancel;
                ConfigRequest::Nothing
            },
            KeyCode::Tab | KeyCode::Down => {
                if !self.already_registered {
                    self.active_field = self.active_field.next();
                }
                ConfigRequest::Nothing
            },
            KeyCode::BackTab | KeyCode::Up => {
                if !self.already_registered {
                    self.active_field = self.active_field.prev();
                }
                ConfigRequest::Nothing
            },
            KeyCode::Enter => self.submit(),
            KeyCode::Char(c) => {
                self.error_message = None;
                match self.active_field {
                    ConfigField::ProxyUrl => {
                        self.proxy_url.push(c);
                    },
                    ConfigField::Email => {
                        self.email.push(c);
                    },
                    ConfigField::Password => {
                        self.password.push(c);
                    },
                }
                ConfigRequest::Nothing
            },
            KeyCode::Backspace => {
                self.error_message = None;
                match self.active_field {
                    ConfigField::ProxyUrl => {
                        self.proxy_url.pop();
                    },
                    ConfigField::Email => {
                        self.email.pop();
                    },
                    ConfigField::Password => {
                        self.password.pop();
                    },
                }
                ConfigRequest::Nothing
            },
            _ => ConfigRequest::Nothing,
        }
    }

    /// The address with a scheme and without slashes at its end.
    pub fn normalize_url(&self) -> (r: String)
        ensures
            r@ == normalized(self.proxy_url@),
    {
        normalize(self.proxy_url.as_str())
    }

    fn submit(&mut self) -> (r: ConfigRequest)
        ensures
            (final(self)@, r@) == old(self)@.submitted(),
    {
        let url = self.normalize_url();
        if url.as_str().unicode_len() == 0 {
            self.error_message = Some(text::owned("Proxy URL is required"));
            self.active_field = ConfigField::ProxyUrl;
            return ConfigRequest::Nothing;
        }
        if self.already_registered {
            self.proxy_url = url.clone();
            return ConfigRequest::Save { proxy_url: url, api_key: None };
        }
        let email = text::trim(self.email.as_str());
        if email.as_str().unicode_len() == 0 || !text::contains(email.as_str(), "@") {
            self.error_message = Some(text::owned("Valid email is required"));
            self.active_field = ConfigField::Email;
            return ConfigRequest::Nothing;
        }
        if !text::longer_than(self.password.as_str(), 7) {
            self.error_message = Some(text::owned("Password must be at least 8 characters"));
            self.active_field = ConfigField::Password;
            return ConfigRequest::Nothing;
        }
        let endpoint = match self.auth_mode {
            AuthMode::Register => text::cat2(url.as_str(), "/auth/register"),
            AuthMode::Login => text::cat2(url.as_str(), "/auth/login"),
        };
        ConfigRequest::Authenticate { endpoint, email, password: self.password.clone() }
    }

    /// Goes on after the proxy answered.
    pub fn authenticated(&mut self, reply: &AuthReply) -> (r: ConfigRequest)
        ensures
            (final(self)@, r@) == old(self)@.authenticated(
                auth_result(*reply, old(self).auth_mode),
            ),
    {
        match read_reply(reply, self.auth_mode) {
            Ok(key) => {
                let url = self.normalize_url();
                self.proxy_url = url.clone();
                ConfigRequest::Save { proxy_url: url, api_key: Some(key) }
            },
            Err((message, known)) => {
                if known {
                    self.auth_mode = AuthMode::Login;
                    self.error_message = Some(
                        text::owned("Email already registered — enter your password to log in"),
                    );
                } else {
                    self.error_message = Some(message);
                }
                ConfigRequest::Nothing
            },
        }
    }

    /// Goes on after the settings were stored, or could not be.
    pub fn saved(&mut self, failure: Option<String>)
        ensures
            final(self)@ == old(self)@.saved(text::opt_text(failure)),
    {
        match failure {
            None => {
                self.result = PlaidConfigResult::Saved;
            },
            Some(e) => {
                self.error_message = Some(text::cat2("Failed to save: ", e.as_str()));
            },
        }
    }
}

impl Default for PlaidConfigModal {
    fn default() -> (r: Self)
        ensures
            r@ == ConfigState::fresh(),
    {
        Self::new()
    }
}

// ---- drawing ----

/// The modal as it is drawn. Email address and password are asked for only
/// before an account was made.
pub struct ConfigPainting {
    pub title: &'static str,
    pub proxy_url: FieldPainting,
    pub credentials: Option<(FieldPainting, FieldPainting)>,
    /// The line below the address of a proxy with an account.
    pub registered: Option<Line>,
    pub help: Line,
}

/// What is said below the address of a proxy with an account.
pub const REGISTERED: &'static str = "  Registered (API key saved)";

impl ConfigState {
    pub open spec fn password_field(self, theme: &Theme) -> FieldView {
        let active = self.active_field == ConfigField::Password;
        widgets::framed(
            "Password"@,
            widgets::field_text(self.password, true, active, '█'),
            active,
            theme,
        )
    }

    pub open spec fn help_line(self, theme: &Theme) -> LineView {
        match self.error {
            Some(e) => seq![(e, theme::colored(theme.error))],
            None => {
                let a = paint::hint(Seq::empty(), "Tab"@, ": next  "@, theme.header);
                let b = paint::hint(a, "Enter"@, ": save  "@, theme.header);
                paint::hint(b, "Esc"@, ": cancel"@, theme.header)
            },
        }
    }
}

impl PlaidConfigModal {
    fn draw_help(&self, theme: &Theme) -> (r: Line)
        ensures
            r@ == self@.help_line(theme),
    {
        match &self.error_message {
            Some(e) => paint::styled_line(e.as_str(), theme::colored(theme.error)),
            None => {
                let mut line: Line = Listing::new();
                paint::push_hint(&mut line, "Tab", ": next  ", theme.header);
                paint::push_hint(&mut line, "Enter", ": save  ", theme.header);
                paint::push_hint(&mut line, "Esc", ": cancel", theme.header);
                line
            },
        }
    }

    /// Draws the modal.
    pub fn draw(&self, theme: &Theme) -> (r: ConfigPainting)
        ensures
            r.title@ == (match self.auth_mode {
                AuthMode::Register => " Plaid Configuration "@,
                AuthMode::Login => " Plaid Login "@,
            }),
            r.proxy_url@ == widgets::input_field(
                "Proxy URL"@,
                self.proxy_url@,
                self.already_registered || self.active_field == ConfigField::ProxyUrl,
                '█',
                theme,
            ),
            match r.credentials {
                None => self.already_registered,
                Some((email, password)) => {
                    &&& !self.already_registered
                    &&& email@ == widgets::input_field(
                        "Email"@,
                        self.email@,
                        self.active_field == ConfigField::Email,
                        '█',
                        theme,
                    )
                    &&& password@ == self@.password_field(theme)
                },
            },
            paint::opt_line(r.registered) == (if self.already_registered {
                Some(seq![(REGISTERED@, theme::colored(theme.success))])
            } else {
                None::<LineView>
            }),
            r.help@ == self@.help_line(theme),
    {
        let proxy_url = widgets::draw_input(
            "Proxy URL",
            self.proxy_url.as_str(),
            self.already_registered || self.active_field == ConfigField::ProxyUrl,
            '█',
            theme,
        );
        let credentials = if self.already_registered {
            None
        } else {
            let email = widgets::draw_input(
                "Email",
                self.email.as_str(),
                self.active_field == ConfigField::Email,
                '█',
                theme,
            );
            let active: bool = self.active_field == ConfigField::Password;
            let mut content = text::mask(self.password.as_str(), '*');
            if active {
                content.push('█');
            }
            Some((email, widgets::frame_field("Password", content, active, theme)))
        };
        let registered = if self.already_registered {
            Some(paint::styled_line(REGISTERED, theme::colored(theme.success)))
        } else {
            None
        };
        ConfigPainting {
            registered,
            title: match self.auth_mode {
                AuthMode::Register => " Plaid Configuration ",
                AuthMode::Login => " Plaid Login ",
            },
            proxy_url,
            credentials,
            help: self.draw_help(theme),
        }
    }
}

} // verus!
