//! What the caller reports back after a network request: the plain values
//! on which the reporter decides.

use crate::text::join;
use vstd::prelude::*;

verus! {

/// Whether a status code lies in the success range, 200 to 299.
pub open spec fn is_success_code(code: u16) -> bool {
    200 <= code <= 299
}

/// The text that `reqwest::StatusCode` displays for the status code `code`:
/// the number, a space, and the standard reason phrase or, for a code that
/// has none, a placeholder. Meaningful for codes from 100 to 999, the codes
/// for which a `StatusCode` exists.
pub uninterp spec fn status_display(code: u16) -> Seq<char>;

/// The display text of an HTTP status code.
///
/// Trusted: builds a `reqwest::StatusCode` with `StatusCode::from_u16`, which
/// succeeds exactly for codes from 100 to 999, and renders it with its
/// `Display` impl. The contract names the rendered text `status_display` and
/// says nothing more about it.
#[verifier::external_body]
fn status_line(code: u16) -> (line: Option<String>)
    ensures
        match line {
            Some(text) => 100 <= code <= 999 && text@ == status_display(code),
            None => !(100 <= code <= 999),
        },
{
    match reqwest::StatusCode::from_u16(code) {
        Ok(status) => Some(status.to_string()),
        Err(_) => None,
    }
}

/// An HTTP status code, always between 100 and 999.
#[derive(Clone, Copy, Debug, PartialEq, Eq)]
pub struct HttpStatus {
    code: u16,
}

impl View for HttpStatus {
    type V = u16;

    closed spec fn view(&self) -> u16 {
        self.code
    }
}

impl HttpStatus {
    #[verifier::type_invariant]
    spec fn in_range(&self) -> bool {
        100 <= self.code <= 999
    }

    /// The status with the given code, where the code is between 100 and 999.
    pub fn new(code: u16) -> (status: Option<HttpStatus>)
        ensures
            match status {
                Some(made) => 100 <= code <= 999 && made@ == code,
                None => !(100 <= code <= 999),
            },
    {
        if 100 <= code && code <= 999 {
            Some(HttpStatus { code })
        } else {
            None
        }
    }

    /// The numeric code.
    pub fn code(&self) -> (code: u16)
        ensures
            code == self@,
            100 <= code <= 999,
    {
        proof {
            use_type_invariant(self);
        }
        self.code
    }

    /// Whether the status reports success: any code from 200 to 299.
    pub fn is_success(&self) -> (success: bool)
        ensures
            success == is_success_code(self@),
    {
        200 <= self.code && self.code <= 299
    }

    /// The status as text: the code and its standard reason phrase.
    pub fn line(&self) -> (line: String)
        ensures
            line@ == status_display(self@),
    {
        proof {
            use_type_invariant(self);
        }
        match status_line(self.code) {
            Some(text) => text,
            None => String::new(),
        }
    }
}

/// How a request to the local service ended.
#[derive(Debug)]
pub enum FetchOutcome {
    /// No response arrived; the text says why.
    Failed(String),
    /// A response arrived with this status; its body was read in full, or
    /// reading it failed for the reason given.
    Reply { status: HttpStatus, body: Result<Vec<u8>, String> },
}

/// How the delivery of an event to the collector ended.
#[derive(Debug)]
pub enum TransportReply {
    /// The request could not be carried out; the text says why.
    Failed(String),
    /// The collector answered with this status.
    Responded(HttpStatus),
}

/// Why an event was not delivered.
#[derive(Debug, PartialEq, Eq)]
pub enum DeliveryError {
    /// The request could not be carried out.
    Transport(String),
    /// The collector answered with a status outside the success range.
    RemoteRejected(HttpStatus),
}

/// The mathematical value of a [`DeliveryError`].
pub enum DeliveryErrorView {
    Transport(Seq<char>),
    RemoteRejected(u16),
}

impl View for DeliveryError {
    type V = DeliveryErrorView;

    open spec fn view(&self) -> DeliveryErrorView {
        match self {
            DeliveryError::Transport(reason) => DeliveryErrorView::Transport(reason@),
            DeliveryError::RemoteRejected(status) => DeliveryErrorView::RemoteRejected(status@),
        }
    }
}

/// The text that describes a delivery error.
pub open spec fn delivery_error_text(error: DeliveryErrorView) -> Seq<char> {
    match error {
        DeliveryErrorView::Transport(reason) => reason,
        DeliveryErrorView::RemoteRejected(code) => "PostHog API error: "@ + status_display(code),
    }
}

impl DeliveryError {
    /// The error as text.
    pub fn message(&self) -> (text: String)
        ensures
            text@ == delivery_error_text(self@),
    {
        match self {
            DeliveryError::Transport(reason) => reason.clone(),
            DeliveryError::RemoteRejected(status) => {
                let line = status.line();
                join("PostHog API error: ", line.as_str())
            },
        }
    }
}

/// What a delivery attempt amounts to: success for a response in the
/// success range, otherwise the error that says what went wrong.
pub open spec fn delivery_outcome(reply: TransportReply) -> Result<(), DeliveryErrorView> {
    match reply {
        TransportReply::Failed(reason) => Err(DeliveryErrorView::Transport(reason@)),
        TransportReply::Responded(status) => if is_success_code(status@) {
            Ok(())
        } else {
            Err(DeliveryErrorView::RemoteRejected(status@))
        },
    }
}

/// The view of a delivery result.
pub open spec fn delivery_view(result: Result<(), DeliveryError>) -> Result<(), DeliveryErrorView> {
    match result {
        Ok(()) => Ok(()),
        Err(error) => Err(error@),
    }
}

/// Judges the reply to a delivery attempt.
pub fn delivery_result(reply: TransportReply) -> (result: Result<(), DeliveryError>)
    ensures
        delivery_view(result) == delivery_outcome(reply),
{
    match reply {
        TransportReply::Failed(reason) => Err(DeliveryError::Transport(reason)),
        TransportReply::Responded(status) => if status.is_success() {
            Ok(())
        } else {
            Err(DeliveryError::RemoteRejected(status))
        },
    }
}

} // verus!
