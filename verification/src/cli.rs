//! The commands of the client and their arguments, as plain values.
use vstd::prelude::*;

verus! {

/// The whole command line: global options and one command.
#[derive(Debug)]
pub struct Cli {
    /// The base URL of the service.
    pub base_url: String,
    /// The config file given on the command line, if any.
    pub config: Option<String>,
    pub command: Command,
}

#[allow(inconsistent_fields)]
#[derive(Debug)]
pub enum Command {
    Auth { command: AuthCommand },
    Account { command: AccountCommand },
    Watch { command: WatchCommand },
    Qa { command: QaCommand },
}

#[derive(Debug)]
pub enum AuthCommand {
    ImportKey(ImportKeyArgs),
    Show,
    Clear,
}

#[derive(Debug)]
pub struct ImportKeyArgs {
    pub token: String,
    pub account_id: Option<String>,
}

#[derive(Debug)]
pub enum AccountCommand {
    Status,
}

#[derive(Debug)]
pub enum WatchCommand {
    Request(WatchRequestArgs),
}

#[derive(Debug)]
pub struct WatchRequestArgs {
    pub url: String,
    pub mode: WatchMode,
    pub interval_seconds: u64,
    pub expect: Option<String>,
    pub webhook: Option<String>,
    pub name: Option<String>,
    pub email: Option<String>,
    pub auth_mode: WatchAuthMode,
}

#[derive(Clone, Copy, PartialEq, Eq, Structural, Debug)]
pub enum WatchMode {
    Http,
    Html,
    AiHtml,
    AiImage,
}

/// The name by which the service knows a watch mode.
pub open spec fn watch_mode_name(m: WatchMode) -> Seq<char> {
    match m {
        WatchMode::Http => "http"@,
        WatchMode::Html => "html"@,
        WatchMode::AiHtml => "ai_html"@,
        WatchMode::AiImage => "ai_image"@,
    }
}

impl WatchMode {
    pub fn as_api_value(&self) -> (r: &'static str)
        ensures
            r@ == watch_mode_name(*self),
    {
        match self {
            Self::Http => "http",
            Self::Html => "html",
            Self::AiHtml => "ai_html",
            Self::AiImage => "ai_image",
        }
    }
}

#[derive(Clone, Copy, PartialEq, Eq, Structural, Debug)]
pub enum WatchAuthMode {
    ApiKeyOnly,
    ApiKeyPlusEmail,
}

/// The name by which the service knows a way of authenticating a watch.
pub open spec fn watch_auth_mode_name(m: WatchAuthMode) -> Seq<char> {
    match m {
        WatchAuthMode::ApiKeyOnly => "api_key_only"@,
        WatchAuthMode::ApiKeyPlusEmail => "api_key_plus_email"@,
    }
}

impl WatchAuthMode {
    pub fn as_api_value(&self) -> (r: &'static str)
        ensures
            r@ == watch_auth_mode_name(*self),
    {
        match self {
            Self::ApiKeyOnly => "api_key_only",
            Self::ApiKeyPlusEmail => "api_key_plus_email",
        }
    }
}

#[derive(Debug)]
pub enum QaCommand {
    Request(QaRequestArgs),
}

#[derive(Debug)]
pub struct QaRequestArgs {
    pub site: String,
    pub focus: QaFocus,
    pub cadence: QaCadence,
    pub paths: Vec<String>,
    pub repo: Option<String>,
    pub concern: Option<String>,
    pub email: Option<String>,
}

#[derive(Clone, Copy, PartialEq, Eq, Structural, Debug)]
pub enum QaFocus {
    Visual,
    Copy,
    VisualCopy,
    Recurring,
}

/// The name by which the service knows a QA focus.
pub open spec fn qa_focus_name(f: QaFocus) -> Seq<char> {
    match f {
        QaFocus::Visual => "visual"@,
        QaFocus::Copy => "copy"@,
        QaFocus::VisualCopy => "visual_copy"@,
        QaFocus::Recurring => "recurring"@,
    }
}

impl QaFocus {
    pub fn as_api_value(&self) -> (r: &'static str)
        ensures
            r@ == qa_focus_name(*self),
    {
        match self {
            Self::Visual => "visual",
            Self::Copy => "copy",
            Self::VisualCopy => "visual_copy",
            Self::Recurring => "recurring",
        }
    }
}

#[derive(Clone, Copy, PartialEq, Eq, Structural, Debug)]
pub enum QaCadence {
    OneTime,
    OnDeploy,
    Daily,
}

/// The name by which the service knows a QA cadence.
pub open spec fn qa_cadence_name(c: QaCadence) -> Seq<char> {
    match c {
        QaCadence::OneTime => "one_time"@,
        QaCadence::OnDeploy => "on_deploy"@,
        QaCadence::Daily => "daily"@,
    }
}

impl QaCadence {
    pub fn as_api_value(&self) -> (r: &'static str)
        ensures
            r@ == qa_cadence_name(*self),
    {
        match self {
            Self::OneTime => "one_time",
            Self::OnDeploy => "on_deploy",
            Self::Daily => "daily",
        }
    }
}

} // verus!
