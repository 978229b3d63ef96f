//! The modal that registers an event service.

use vstd::prelude::*;

use crate::input::KeyCode;
use crate::text;
use crate::tui::paint;
use crate::tui::paint::{Line, LineView, Listing};
use crate::tui::theme;
use crate::tui::theme::Theme;
use crate::tui::views::plaid_config;
use crate::tui::widgets;
use crate::tui::widgets::FieldPainting;

verus! {

/// What the modal was closed with.
pub enum ServiceFormResult {
    Nothing,
    Cancel,
    Saved { name: String, root_url: String, api_key: String },
}

/// The meaning of what the modal was closed with.
#[verifier::ext_equal]
pub ghost enum FormOutcome {
    Nothing,
    Cancel,
    Saved { name: Seq<char>, root_url: Seq<char>, api_key: Seq<char> },
}

impl View for ServiceFormResult {
    type V = FormOutcome;

    open spec fn view(&self) -> FormOutcome {
        match self {
            ServiceFormResult::Nothing => FormOutcome::Nothing,
            ServiceFormResult::Cancel => FormOutcome::Cancel,
            ServiceFormResult::Saved { name, root_url, api_key } => FormOutcome::Saved {
                name: name@,
                root_url: root_url@,
                api_key: api_key@,
            },
        }
    }
}

/// The fields of the modal.
#[derive(Debug, Clone, Copy, PartialEq, Eq, Structural)]
pub enum FormField {
    Name,
    RootUrl,
    ApiKey,
}

impl FormField {
    pub open spec fn following(self) -> FormField {
        match self {
            FormField::Name => FormField::RootUrl,
            FormField::RootUrl => FormField::ApiKey,
            FormField::ApiKey => FormField::Name,
        }
    }

    pub open spec fn preceding(self) -> FormField {
        match self {
            FormField::Name => FormField::ApiKey,
            FormField::RootUrl => FormField::Name,
            FormField::ApiKey => FormField::RootUrl,
        }
    }

    pub fn next(&self) -> (r: Self)
        ensures
            r == self.following(),
    {
        match self {
            FormField::Name => FormField::RootUrl,
            FormField::RootUrl => FormField::ApiKey,
            FormField::ApiKey => FormField::Name,
        }
    }

    pub fn prev(&self) -> (r: Self)
        ensures
            r == self.preceding(),
    {
        match self {
            FormField::Name => FormField::ApiKey,
            FormField::RootUrl => FormField::Name,
            FormField::ApiKey => FormField::RootUrl,
        }
    }
}

/// Tab and Shift-Tab undo each other and go through all three fields.
pub proof fn fields_form_a_cycle(f: FormField)
    ensures
        f.following().preceding() == f,
        f.preceding().following() == f,
        f.following().following().following() == f,
        f.following() != f,
{
}

/// The modal.
pub struct ServiceFormModal {
    pub visible: bool,
    pub result: ServiceFormResult,
    pub active_field: FormField,
    pub name: String,
    pub root_url: String,
    pub api_key: String,
    pub error_message: Option<String>,
}

/// The meaning of the modal.
#[verifier::ext_equal]
pub ghost struct FormState {
    pub visible: bool,
    pub result: FormOutcome,
    pub active_field: FormField,
    pub name: Seq<char>,
    pub root_url: Seq<char>,
    pub api_key: Seq<char>,
    pub error: Option<Seq<char>>,
}

impl View for ServiceFormModal {
    type V = FormState;

    open spec fn view(&self) -> FormState {
        FormState {
            visible: self.visible,
            result: self.result@,
            active_field: self.active_field,
            name: self.name@,
            root_url: self.root_url@,
            api_key: self.api_key@,
            error: text::opt_text(self.error_message),
        }
    }
}

impl FormState {
    pub open spec fn empty(visible: bool) -> FormState {
        FormState {
            visible,
            result: FormOutcome::Nothing,
            active_field: FormField::Name,
            name: Seq::empty(),
            root_url: Seq::empty(),
            api_key: Seq::empty(),
            error: None,
        }
    }

    pub open spec fn failed(self, message: Seq<char>, field: FormField) -> FormState {
        FormState { error: Some(message), active_field: field, ..self }
    }

    pub open spec fn submitted(self) -> FormState {
        let name = text::trimmed(self.name);
        let api_key = text::trimmed(self.api_key);
        if name.len() == 0 {
            self.failed("Name is required"@, FormField::Name)
        } else if text::trimmed(self.root_url).len() == 0 {
            self.failed("Root URL is required"@, FormField::RootUrl)
        } else if api_key.len() == 0 {
            self.failed("API key is required"@, FormField::ApiKey)
        } else {
            FormState {
                result: FormOutcome::Saved {
                    name,
                    root_url: plaid_config::normalized(self.root_url),
                    api_key,
                },
                ..self
            }
        }
    }

    pub open spec fn field_text(self) -> Seq<char> {
        match self.active_field {
            FormField::Name => self.name,
            FormField::RootUrl => self.root_url,
            FormField::ApiKey => self.api_key,
        }
    }

    pub open spec fn with_field(self, s: Seq<char>) -> FormState {
        match self.active_field {
            FormField::Name => FormState { name: s, error: None, ..self },
            FormField::RootUrl => FormState { root_url: s, error: None, ..self },
            FormField::ApiKey => FormState { api_key: s, error: None, ..self },
        }
    }

    pub open spec fn after_key(self, key: KeyCode) -> FormState {
        match key {
            KeyCode::Esc => FormState { result: FormOutcome::Cancel, ..self },
            KeyCode::Tab | KeyCode::Down => FormState {
                active_field: self.active_field.following(),
                ..self
            },
            KeyCode::BackTab | KeyCode::Up => FormState {
                active_field: self.active_field.preceding(),
                ..self
            },
            KeyCode::Enter => self.submitted(),
            KeyCode::Char(c) => self.with_field(self.field_text().push(c)),
            KeyCode::Backspace => self.with_field(text::without_last(self.field_text())),
            _ => self,
        }
    }
}

/// A registered service has a name and a key, and an address that does not end
/// with a slash.
pub proof fn registered_services_are_complete(s: FormState, key: KeyCode)
    requires
        !(s.result is Saved),
        s.after_key(key).result is Saved,
    ensures
        s.after_key(key).result->name.len() > 0,
        s.after_key(key).result->api_key.len() > 0,
        !text::ends_with_char(s.after_key(key).result->root_url, '/'),
{
    plaid_config::normalized_addresses_have_no_slash(s.root_url);
}

impl ServiceFormModal {
    pub fn new() -> (r: Self)
        ensures
            r@ == FormState::empty(false),
    {
        ServiceFormModal {
            visible: false,
            result: ServiceFormResult::Nothing,
            active_field: FormField::Name,
            name: String::new(),
            root_url: String::new(),
            api_key: String::new(),
            error_message: None,
        }
    }

    /// Opens the modal with empty fields.
    pub fn show(&mut self)
        ensures
            final(self)@ == FormState::empty(true),
    {
        self.visible = true;
        self.result = ServiceFormResult::Nothing;
        self.active_field = FormField::Name;
        self.name.clear();
        self.root_url.clear();
        self.api_key.clear();
        self.error_message = None;
    }

    /// Closes the modal.
    pub fn close(&mut self)
        ensures
            final(self)@ == (FormState { visible: false, ..old(self)@ }),
    {
        self.visible = false;
    }

    pub fn handle_key(&mut self, key: KeyCode)
        ensures
            final(self)@ == old(self)@.after_key(key),
    {
        match key {
            KeyCode::Esc => {
                self.result = ServiceFormResult::Cancel;
            },
            KeyCode::Tab | KeyCode::Down => {
                self.active_field = self.active_field.next();
            },
            KeyCode::BackTab | KeyCode::Up => {
                self.active_field = self.active_field.prev();
            },
            KeyCode::Enter => {
                self.submit();
            },
            KeyCode::Char(c) => {
                self.error_message = None;
                match self.active_field {
                    FormField::Name => {
                        self.name.push(c);
                    },
                    FormField::RootUrl => {
                        self.root_url.push(c);
                    },
                    FormField::ApiKey => {
                        self.api_key.push(c);
                    },
                }
            },
            KeyCode::Backspace => {
                self.error_message = None;
                match self.active_field {
                    FormField::Name => {
                        self.name.pop();
                    },
                    FormField::RootUrl => {
                        self.root_url.pop();
                    },
                    FormField::ApiKey => {
                        self.api_key.pop();
                    },
                }
            },
            _ => {},
        }
    }

    /// Closes the modal with the service, or says which field is missing.
    pub fn submit(&mut self)
        ensures
            final(self)@ == old(self)@.submitted(),
    {
        let name = text::trim(self.name.as_str());
        if name.as_str().unicode_len() == 0 {
            self.error_message = Some(text::owned("Name is required"));
            self.active_field = FormField::Name;
            return ;
        }
        let typed = text::trim(self.root_url.as_str());
        if typed.as_str().unicode_len() == 0 {
            self.error_message = Some(text::owned("Root URL is required"));
            self.active_field = FormField::RootUrl;
            return ;
        }
        let root_url = plaid_config::normalize(self.root_url.as_str());
        let api_key = text::trim(self.api_key.as_str());
        if api_key.as_str().unicode_len() == 0 {
            self.error_message = Some(text::owned("API key is required"));
            self.active_field = FormField::ApiKey;
            return ;
        }
        self.result = ServiceFormResult::Saved { name, root_url, api_key };
    }
}

impl Default for ServiceFormModal {
    fn default() -> (r: Self)
        ensures
            r@ == FormState::empty(false),
    {
        Self::new()
    }
}

// ---- drawing ----

/// The modal as it is drawn.
pub struct FormPainting {
    pub name: FieldPainting,
    pub root_url: FieldPainting,
    pub api_key: FieldPainting,
    pub help: Line,
}

impl FormState {
    pub open spec fn help_line(self, theme: &Theme) -> LineView {
        match self.error {
            Some(e) => seq![(e, theme::colored(theme.error))],
            None => {
                let a = paint::hint(Seq::empty(), "Tab"@, ": next  "@, theme.header);
                let b = paint::hint(a, "Enter"@, ": save  "@, theme.header);
                paint::hint(b, "Esc"@, ": cancel"@, theme.header)
            },
        }
    }
}

impl ServiceFormModal {
    fn draw_help(&self, theme: &Theme) -> (r: Line)
        ensures
            r@ == self@.help_line(theme),
    {
        match &self.error_message {
            Some(e) => paint::styled_line(e.as_str(), theme::colored(theme.error)),
            None => {
                let mut line: Line = Listing::new();
                paint::push_hint(&mut line, "Tab", ": next  ", theme.header);
                paint::push_hint(&mut line, "Enter", ": save  ", theme.header);
                paint::push_hint(&mut line, "Esc", ": cancel", theme.header);
                line
            },
        }
    }

    /// Draws the modal, if it is open.
    pub fn draw(&self, theme: &Theme) -> (r: Option<FormPainting>)
        ensures
            r is Some <==> self.visible,
            r is Some ==> {
                &&& r->0.name@ == widgets::input_field(
                    "Name"@,
                    self.name@,
                    self.active_field == FormField::Name,
                    '█',
                    theme,
                )
                &&& r->0.root_url@ == widgets::input_field(
                    "Root URL"@,
                    self.root_url@,
                    self.active_field == FormField::RootUrl,
                    '█',
                    theme,
                )
                &&& r->0.api_key@ == widgets::framed(
                    "API Key"@,
                    widgets::field_text(
                        self.api_key@,
                        true,
                        self.active_field == FormField::ApiKey,
                        '█',
                    ),
                    self.active_field == FormField::ApiKey,
                    theme,
                )
                &&& r->0.help@ == self@.help_line(theme)
            },
    {
        if !self.visible {
            return None;
        }
        let active: bool = self.active_field == FormField::ApiKey;
        let mut secret = text::mask(self.api_key.as_str(), '*');
        if active {
            secret.push('█');
        }
        Some(FormPainting {
            name: widgets::draw_input(
                "Name",
                self.name.as_str(),
                self.active_field == FormField::Name,
                '█',
                theme,
            ),
            root_url: widgets::draw_input(
                "Root URL",
                self.root_url.as_str(),
                self.active_field == FormField::RootUrl,
                '█',
                theme,
            ),
            api_key: widgets::frame_field("API Key", secret, active, theme),
            help: self.draw_help(theme),
        })
    }
}

} // verus!
