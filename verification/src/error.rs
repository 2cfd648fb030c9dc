//! The library's error type. Outside error values (HTTP, JSON, TOML, I/O)
//! are carried as their rendered messages, and an HTTP status as its code.

use vstd::prelude::*;

use crate::text::{concat_text, decimal_i64, decimal_nat, decimal_u64};

verus! {

broadcast use vstd::string::group_string_axioms;

/// Everything that can go wrong in the library.
#[derive(Debug)]
pub enum AgentPlanError {
    MissingApiKey,
    MissingHome,
    Io(String),
    Http(String),
    Json(String),
    TomlDeserialize(String),
    TomlSerialize(String),
    ApiStatus { status: u16, body: String },
    ApiCode { code: i64, message: String },
    TtsCode { code: i64, message: String },
    EmptyAudio,
    InvalidAudioHex,
    InvalidTtsResourceId,
}

/// An error as the contracts see it: the same variants, with text as
/// character sequences.
pub enum ErrorView {
    MissingApiKey,
    MissingHome,
    Io(Seq<char>),
    Http(Seq<char>),
    Json(Seq<char>),
    TomlDeserialize(Seq<char>),
    TomlSerialize(Seq<char>),
    ApiStatus { status: u16, body: Seq<char> },
    ApiCode { code: i64, message: Seq<char> },
    TtsCode { code: i64, message: Seq<char> },
    EmptyAudio,
    InvalidAudioHex,
    InvalidTtsResourceId,
}

impl View for AgentPlanError {
    type V = ErrorView;

    open spec fn view(&self) -> ErrorView {
        match self {
            AgentPlanError::MissingApiKey => ErrorView::MissingApiKey,
            AgentPlanError::MissingHome => ErrorView::MissingHome,
            AgentPlanError::Io(m) => ErrorView::Io(m@),
            AgentPlanError::Http(m) => ErrorView::Http(m@),
            AgentPlanError::Json(m) => ErrorView::Json(m@),
            AgentPlanError::TomlDeserialize(m) => ErrorView::TomlDeserialize(m@),
            AgentPlanError::TomlSerialize(m) => ErrorView::TomlSerialize(m@),
            AgentPlanError::ApiStatus { status, body } => ErrorView::ApiStatus {
                status: *status,
                body: body@,
            },
            AgentPlanError::ApiCode { code, message } => ErrorView::ApiCode {
                code: *code,
                message: message@,
            },
            AgentPlanError::TtsCode { code, message } => ErrorView::TtsCode {
                code: *code,
                message: message@,
            },
            AgentPlanError::EmptyAudio => ErrorView::EmptyAudio,
            AgentPlanError::InvalidAudioHex => ErrorView::InvalidAudioHex,
            AgentPlanError::InvalidTtsResourceId => ErrorView::InvalidTtsResourceId,
        }
    }
}

/// A fallible result as the contracts see it: the value's view or the
/// error's view.
pub open spec fn result_view<T: View>(r: Result<T, AgentPlanError>) -> Result<T::V, ErrorView> {
    match r {
        Ok(v) => Ok(v@),
        Err(e) => Err(e@),
    }
}

/// The reason phrase that `http` knows for a status code, if it knows one.
pub uninterp spec fn canonical_reason_of(status: u16) -> Option<Seq<char>>;

/// `StatusCode::from_u16(status)` then `canonical_reason()`: the standard
/// reason phrase of the code. Which phrase belongs to which code is `http`'s
/// table and is named, not stated; codes outside 100 to 999 are no status
/// code at all and have none.
#[verifier::external_body]
fn canonical_reason(status: u16) -> (r: Option<String>)
    ensures
        match r {
            Some(t) => canonical_reason_of(status) == Some(t@),
            None => canonical_reason_of(status) is None,
        },
        !(100 <= status && status <= 999) ==> r is None,
{
    match reqwest::StatusCode::from_u16(status) {
        Ok(code) => code.canonical_reason().map(|t| t.to_string()),
        Err(_) => None,
    }
}

/// A status code as `StatusCode`'s `Display` writes it: the number, a
/// space, and the reason phrase or `<unknown status code>`.
pub open spec fn status_text(status: u16) -> Seq<char> {
    decimal_nat(status as nat) + " "@ + match canonical_reason_of(status) {
        Some(t) => t,
        None => "<unknown status code>"@,
    }
}

/// The text of an error.
pub open spec fn error_text(e: ErrorView) -> Seq<char> {
    match e {
        ErrorView::MissingApiKey => "missing API key"@,
        ErrorView::MissingHome => "could not determine home directory for ~/.arkcli"@,
        ErrorView::Io(m) => "I/O error: "@ + m,
        ErrorView::Http(m) => "http request failed: "@ + m,
        ErrorView::Json(m) => "failed to decode response JSON: "@ + m,
        ErrorView::TomlDeserialize(m) => "failed to parse Ark CLI config: "@ + m,
        ErrorView::TomlSerialize(m) => "failed to serialize Ark CLI config: "@ + m,
        ErrorView::ApiStatus { status, body } => "API returned status "@ + status_text(status)
            + ": "@ + body,
        ErrorView::ApiCode { code, message } => "API returned code "@ + crate::text::decimal_int(
            code as int,
        ) + ": "@ + message,
        ErrorView::TtsCode { code, message } => "TTS returned code "@ + crate::text::decimal_int(
            code as int,
        ) + ": "@ + message,
        ErrorView::EmptyAudio => "TTS response contained no audio chunks"@,
        ErrorView::InvalidAudioHex => "invalid audio hex payload"@,
        ErrorView::InvalidTtsResourceId => "invalid TTS resource id"@,
    }
}

/// `head`, the decimal text of `code`, `: `, and `message`.
fn code_text(head: &str, code: i64, message: &String) -> (r: String)
    ensures
        r@ == head@ + crate::text::decimal_int(code as int) + ": "@ + message@,
{
    let mut out = concat_text(head, decimal_i64(code).as_str());
    out.append(": ");
    out.append(message.as_str());
    out
}

impl AgentPlanError {
    /// The error's text, the code of a failing reply included.
    pub fn message(&self) -> (r: String)
        ensures
            r@ == error_text(self@),
    {
        match self {
            AgentPlanError::MissingApiKey => "missing API key".to_string(),
            AgentPlanError::MissingHome => "could not determine home directory for ~/.arkcli".to_string(),
            AgentPlanError::Io(m) => concat_text("I/O error: ", m.as_str()),
            AgentPlanError::Http(m) => concat_text("http request failed: ", m.as_str()),
            AgentPlanError::Json(m) => concat_text("failed to decode response JSON: ", m.as_str()),
            AgentPlanError::TomlDeserialize(m) => concat_text(
                "failed to parse Ark CLI config: ",
                m.as_str(),
            ),
            AgentPlanError::TomlSerialize(m) => concat_text(
                "failed to serialize Ark CLI config: ",
                m.as_str(),
            ),
            AgentPlanError::ApiStatus { status, body } => {
                let mut out = concat_text("API returned status ", decimal_u64(*status as u64).as_str());
                out.append(" ");
                match canonical_reason(*status) {
                    Some(reason) => out.append(reason.as_str()),
                    None => out.append("<unknown status code>"),
                }
                out.append(": ");
                out.append(body.as_str());
                out
            },
            AgentPlanError::ApiCode { code, message } => code_text("API returned code ", *code, message),
            AgentPlanError::TtsCode { code, message } => code_text("TTS returned code ", *code, message),
            AgentPlanError::EmptyAudio => "TTS response contained no audio chunks".to_string(),
            AgentPlanError::InvalidAudioHex => "invalid audio hex payload".to_string(),
            AgentPlanError::InvalidTtsResourceId => "invalid TTS resource id".to_string(),
        }
    }
}

} // verus!
