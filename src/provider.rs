use vstd::prelude::*;
use crate::errors::VoxputError;

verus! {

/// Model used when none is configured.
pub open spec fn default_model() -> Seq<char> {
    "whisper-large-v3-turbo"@
}

/// How a failed HTTP answer of the transcription service is classified.
#[derive(Debug, Clone, Copy, PartialEq, Eq, Structural)]
pub enum ProviderErrorKind {
    /// The API key was refused.
    Unauthorized,
    /// The audio was too large.
    PayloadTooLarge,
    /// Too many requests.
    RateLimited,
    /// Any other failure status.
    Other,
}

pub open spec fn kind_of_status(code: u16) -> ProviderErrorKind {
    if code == 401 {
        ProviderErrorKind::Unauthorized
    } else if code == 413 {
        ProviderErrorKind::PayloadTooLarge
    } else if code == 429 {
        ProviderErrorKind::RateLimited
    } else {
        ProviderErrorKind::Other
    }
}

/// The hint appended to the status of a failed answer.
pub open spec fn hint_text(kind: ProviderErrorKind) -> Seq<char> {
    match kind {
        ProviderErrorKind::Unauthorized => " (invalid API key)"@,
        ProviderErrorKind::PayloadTooLarge => " (audio file too large; max 25 MB)"@,
        ProviderErrorKind::RateLimited => " (rate limited; wait and retry)"@,
        ProviderErrorKind::Other => Seq::empty(),
    }
}

/// Text of the error for a failed answer: the status line, the hint of its
/// kind, and the service's own message.
pub open spec fn http_failure_text(status_line: Seq<char>, code: u16, message: Seq<char>) -> Seq<
    char,
> {
    "HTTP "@ + status_line + hint_text(kind_of_status(code)) + ": "@ + message
}

/// Classifies a failure status of the transcription service.
pub fn classify_status(code: u16) -> (r: ProviderErrorKind)
    ensures
        r == kind_of_status(code),
{
    if code == 401 {
        ProviderErrorKind::Unauthorized
    } else if code == 413 {
        ProviderErrorKind::PayloadTooLarge
    } else if code == 429 {
        ProviderErrorKind::RateLimited
    } else {
        ProviderErrorKind::Other
    }
}

/// The hint that tells a user what a failure status means.
pub fn status_hint(code: u16) -> (r: &'static str)
    ensures
        r@ == hint_text(kind_of_status(code)),
{
    proof {
        reveal_strlit("");
    }
    match classify_status(code) {
        ProviderErrorKind::Unauthorized => " (invalid API key)",
        ProviderErrorKind::PayloadTooLarge => " (audio file too large; max 25 MB)",
        ProviderErrorKind::RateLimited => " (rate limited; wait and retry)",
        ProviderErrorKind::Other => "",
    }
}

/// The error for a failed answer with status `code`, shown as `status_line`.
/// The message is the one that the service's error body carries, or the
/// raw body when it carries none.
pub fn http_failure(
    status_line: &str,
    code: u16,
    api_message: Option<String>,
    body: String,
) -> (r: VoxputError)
    ensures
        r matches VoxputError::Provider(m) && m@ == http_failure_text(
            status_line@,
            code,
            match api_message {
                Some(a) => a@,
                None => body@,
            },
        ),
{
    let message = match api_message {
        Some(a) => a,
        None => body,
    };
    let text = String::from_str("HTTP ").concat(status_line).concat(status_hint(code)).concat(
        ": ",
    ).concat(message.as_str());
    VoxputError::Provider(text)
}

/// The configured model, or the default one.
pub fn model_or_default(model: Option<String>) -> (r: String)
    ensures
        r@ == match model {
            Some(m) => m@,
            None => default_model(),
        },
{
    match model {
        Some(m) => m,
        None => String::from_str("whisper-large-v3-turbo"),
    }
}

} // verus!
