//! The health of the local service: three subsystem statuses and the overall
//! flag that they add up to.

use crate::document::{decode_document, json_decoding, member, text_member, text_view};
use crate::properties::{PropMap, PropValue, PropValueView, Properties};
use crate::text::{join, same_text};
use crate::transport::{is_success_code, status_display, FetchOutcome, HttpStatus};
use vstd::prelude::*;
use vstd::string::*;

verus! {

/// A subsystem counts as sound when it reports "ok" or "disabled".
pub open spec fn acceptable(status: Seq<char>) -> bool {
    status == "ok"@ || status == "disabled"@
}

/// The service is healthy when each of its three subsystems is sound.
pub open spec fn healthy(frame: Seq<char>, audio: Seq<char>, ui: Seq<char>) -> bool {
    acceptable(frame) && acceptable(audio) && acceptable(ui)
}

/// The status given by a health report's member, "unknown" where the member is missing.
pub open spec fn status_or_unknown(found: Option<Seq<char>>) -> Seq<char> {
    match found {
        Some(status) => status,
        None => "unknown"@,
    }
}

/// The mathematical value of a [`HealthStatus`].
pub struct HealthView {
    pub is_healthy: bool,
    pub frame_status: Seq<char>,
    pub audio_status: Seq<char>,
    pub ui_status: Seq<char>,
    pub error: Option<Seq<char>>,
}

impl HealthView {
    /// The overall flag agrees with the three statuses.
    pub open spec fn consistent(self) -> bool {
        self.is_healthy == healthy(self.frame_status, self.audio_status, self.ui_status)
    }
}

/// The health derived from three subsystem statuses, without an error text.
pub open spec fn health_of_statuses(frame: Seq<char>, audio: Seq<char>, ui: Seq<char>) -> HealthView {
    HealthView {
        is_healthy: healthy(frame, audio, ui),
        frame_status: frame,
        audio_status: audio,
        ui_status: ui,
        error: None,
    }
}

/// The health reported when the service could not be examined: unhealthy,
/// every subsystem in "error", and the reason attached.
pub open spec fn degraded_health(reason: Seq<char>) -> HealthView {
    HealthView {
        is_healthy: false,
        frame_status: "error"@,
        audio_status: "error"@,
        ui_status: "error"@,
        error: Some(reason),
    }
}

/// Neither "error" nor "unknown" counts as sound.
pub proof fn lemma_error_and_unknown_not_acceptable()
    ensures
        !acceptable("error"@),
        !acceptable("unknown"@),
        acceptable("ok"@),
        acceptable("disabled"@),
{
    reveal_strlit("ok");
    reveal_strlit("disabled");
    reveal_strlit("error");
    reveal_strlit("unknown");
    assert("ok"@.len() == 2);
    assert("disabled"@.len() == 8);
    assert("error"@.len() == 5);
    assert("unknown"@.len() == 7);
}

/// The service counts as healthy exactly when each of the three statuses is "ok" or
/// "disabled"; a single status that is "error", "unknown" or anything else
/// makes it unhealthy.
pub proof fn lemma_healthy_iff_all_acceptable(frame: Seq<char>, audio: Seq<char>, ui: Seq<char>)
    ensures
        health_of_statuses(frame, audio, ui).is_healthy <==> (frame == "ok"@ || frame
            == "disabled"@) && (audio == "ok"@ || audio == "disabled"@) && (ui == "ok"@ || ui
            == "disabled"@),
        (frame == "error"@ || frame == "unknown"@ || audio == "error"@ || audio == "unknown"@ || ui
            == "error"@ || ui == "unknown"@) ==> !health_of_statuses(frame, audio, ui).is_healthy,
        health_of_statuses(frame, audio, ui).consistent(),
        forall|reason: Seq<char>| #[trigger] degraded_health(reason).consistent(),
{
    lemma_error_and_unknown_not_acceptable();
}

/// The health of the local service.
#[derive(Debug)]
pub struct HealthStatus {
    is_healthy: bool,
    frame_status: String,
    audio_status: String,
    ui_status: String,
    error: Option<String>,
}

impl View for HealthStatus {
    type V = HealthView;

    closed spec fn view(&self) -> HealthView {
        HealthView {
            is_healthy: self.is_healthy,
            frame_status: self.frame_status@,
            audio_status: self.audio_status@,
            ui_status: self.ui_status@,
            error: text_view(self.error),
        }
    }
}

/// Whether a status is "ok" or "disabled".
fn is_acceptable(status: &str) -> (sound: bool)
    ensures
        sound == acceptable(status@),
{
    same_text(status, "ok") || same_text(status, "disabled")
}

impl HealthStatus {
    #[verifier::type_invariant]
    spec fn flag_agrees(&self) -> bool {
        self@.consistent()
    }

    /// The health that three subsystem statuses add up to.
    pub fn from_statuses(
        frame_status: String,
        audio_status: String,
        ui_status: String,
    ) -> (health: HealthStatus)
        ensures
            health@ == health_of_statuses(frame_status@, audio_status@, ui_status@),
    {
        let is_healthy = is_acceptable(frame_status.as_str()) && is_acceptable(
            audio_status.as_str(),
        ) && is_acceptable(ui_status.as_str());
        HealthStatus { is_healthy, frame_status, audio_status, ui_status, error: None }
    }

    /// The health that a decoded report adds up to, given the three members
    /// that were found in it; a missing member counts as "unknown".
    pub fn from_members(
        frame_status: Option<String>,
        audio_status: Option<String>,
        ui_status: Option<String>,
    ) -> (health: HealthStatus)
        ensures
            health@ == health_of_statuses(
                status_or_unknown(text_view(frame_status)),
                status_or_unknown(text_view(audio_status)),
                status_or_unknown(text_view(ui_status)),
            ),
    {
        let frame = match frame_status {
            Some(status) => status,
            None => String::from_str("unknown"),
        };
        let audio = match audio_status {
            Some(status) => status,
            None => String::from_str("unknown"),
        };
        let ui = match ui_status {
            Some(status) => status,
            None => String::from_str("unknown"),
        };
        HealthStatus::from_statuses(frame, audio, ui)
    }

    /// The health reported when the service could not be examined.
    pub fn degraded(reason: String) -> (health: HealthStatus)
        ensures
            health@ == degraded_health(reason@),
    {
        proof {
            lemma_error_and_unknown_not_acceptable();
        }
        HealthStatus {
            is_healthy: false,
            frame_status: String::from_str("error"),
            audio_status: String::from_str("error"),
            ui_status: String::from_str("error"),
            error: Some(reason),
        }
    }

    /// Whether the service is healthy: true exactly when every subsystem is
    /// "ok" or "disabled".
    pub fn is_healthy(&self) -> (sound: bool)
        ensures
            sound == self@.is_healthy,
            sound == healthy(self@.frame_status, self@.audio_status, self@.ui_status),
    {
        proof {
            use_type_invariant(self);
        }
        self.is_healthy
    }

    /// The status of the frame subsystem.
    pub fn frame_status(&self) -> (status: &String)
        ensures
            status@ == self@.frame_status,
    {
        &self.frame_status
    }

    /// The status of the audio subsystem.
    pub fn audio_status(&self) -> (status: &String)
        ensures
            status@ == self@.audio_status,
    {
        &self.audio_status
    }

    /// The status of the user-interface subsystem.
    pub fn ui_status(&self) -> (status: &String)
        ensures
            status@ == self@.ui_status,
    {
        &self.ui_status
    }

    /// Why the service could not be examined, where that was the case.
    pub fn error(&self) -> (reason: &Option<String>)
        ensures
            text_view(*reason) == self@.error,
    {
        &self.error
    }
}

/// The properties by which an event reports a health: the overall flag, the three
/// statuses and, where there is one, the error text.
pub open spec fn health_properties(health: HealthView) -> PropMap {
    let statuses = PropMap::empty().insert(
        "is_healthy"@,
        PropValueView::Flag(health.is_healthy),
    ).insert("frame_status"@, PropValueView::Text(health.frame_status)).insert(
        "audio_status"@,
        PropValueView::Text(health.audio_status),
    ).insert("ui_status"@, PropValueView::Text(health.ui_status));
    match health.error {
        Some(reason) => statuses.insert("error"@, PropValueView::Text(reason)),
        None => statuses,
    }
}

impl HealthStatus {
    /// The health as event properties.
    pub fn to_properties(&self) -> (props: Properties)
        ensures
            props@ == health_properties(self@),
    {
        let mut props = Properties::new();
        props.insert(String::from_str("is_healthy"), PropValue::Flag(self.is_healthy));
        props.insert(String::from_str("frame_status"), PropValue::Text(self.frame_status.clone()));
        props.insert(String::from_str("audio_status"), PropValue::Text(self.audio_status.clone()));
        props.insert(String::from_str("ui_status"), PropValue::Text(self.ui_status.clone()));
        match &self.error {
            Some(reason) => {
                props.insert(String::from_str("error"), PropValue::Text(reason.clone()));
            },
            None => {},
        }
        props
    }
}

/// Why the health of the local service could not be established.
#[derive(Debug, PartialEq, Eq)]
pub enum HealthCheckError {
    /// The request to the service could not be carried out.
    Transport(String),
    /// The service answered, but its report is not a JSON document.
    Undecodable(String),
}

/// The mathematical value of a [`HealthCheckError`].
pub enum HealthCheckErrorView {
    Transport(Seq<char>),
    Undecodable(Seq<char>),
}

impl View for HealthCheckError {
    type V = HealthCheckErrorView;

    open spec fn view(&self) -> HealthCheckErrorView {
        match self {
            HealthCheckError::Transport(reason) => HealthCheckErrorView::Transport(reason@),
            HealthCheckError::Undecodable(reason) => HealthCheckErrorView::Undecodable(reason@),
        }
    }
}

/// The text that describes a health-check error.
pub open spec fn health_error_text(error: HealthCheckErrorView) -> Seq<char> {
    match error {
        HealthCheckErrorView::Transport(reason) => reason,
        HealthCheckErrorView::Undecodable(reason) => "error decoding response body: "@ + reason,
    }
}

impl HealthCheckError {
    /// The error as text.
    pub fn message(&self) -> (text: String)
        ensures
            text@ == health_error_text(self@),
    {
        match self {
            HealthCheckError::Transport(reason) => reason.clone(),
            HealthCheckError::Undecodable(reason) => join(
                "error decoding response body: ",
                reason.as_str(),
            ),
        }
    }
}

/// The view of a health-check result.
pub open spec fn health_result_view(result: Result<HealthStatus, HealthCheckError>) -> Result<
    HealthView,
    HealthCheckErrorView,
> {
    match result {
        Ok(health) => Ok(health@),
        Err(error) => Err(error@),
    }
}

/// The health that a decoded report describes.
pub open spec fn health_of_report(members: Map<Seq<char>, Seq<char>>) -> HealthView {
    health_of_statuses(
        status_or_unknown(member(members, "frame_status"@)),
        status_or_unknown(member(members, "audio_status"@)),
        status_or_unknown(member(members, "ui_status"@)),
    )
}

/// What a request to the health endpoint amounts to.
///
/// - No response: a transport error.
/// - A response outside the success range: a degraded health whose error
///   text embeds the status. This is a result, not an error.
/// - A successful response: the health that its body describes, or an error
///   where the body could not be read or is not a JSON document.
pub open spec fn health_check_outcome(outcome: FetchOutcome) -> Result<
    HealthView,
    HealthCheckErrorView,
> {
    match outcome {
        FetchOutcome::Failed(reason) => Err(HealthCheckErrorView::Transport(reason@)),
        FetchOutcome::Reply { status, body } => if !is_success_code(status@) {
            Ok(degraded_health("Health check failed with status: "@ + status_display(status@)))
        } else {
            match body {
                Ok(bytes) => match json_decoding(bytes@) {
                    Ok(members) => Ok(health_of_report(members)),
                    Err(reason) => Err(HealthCheckErrorView::Undecodable(reason)),
                },
                Err(reason) => Err(HealthCheckErrorView::Transport(reason@)),
            }
        },
    }
}

/// Establishes the health of the local service from the outcome of a request
/// to its health endpoint.
pub fn check_recording_health(outcome: FetchOutcome) -> (result: Result<
    HealthStatus,
    HealthCheckError,
>)
    ensures
        health_result_view(result) == health_check_outcome(outcome),
{
    match outcome {
        FetchOutcome::Failed(reason) => Err(HealthCheckError::Transport(reason)),
        FetchOutcome::Reply { status, body } => {
            if !status.is_success() {
                let line = status.line();
                Ok(HealthStatus::degraded(join("Health check failed with status: ", line.as_str())))
            } else {
                match body {
                    Ok(bytes) => match decode_document(bytes.as_slice()) {
                        Ok(doc) => {
                            let frame = text_member(&doc, "frame_status");
                            let audio = text_member(&doc, "audio_status");
                            let ui = text_member(&doc, "ui_status");
                            Ok(HealthStatus::from_members(frame, audio, ui))
                        },
                        Err(reason) => Err(HealthCheckError::Undecodable(reason)),
                    },
                    Err(reason) => Err(HealthCheckError::Transport(reason)),
                }
            }
        },
    }
}

/// An answer of the health endpoint outside the success range is no error:
/// it gives an unhealthy result with every subsystem in "error" and an error
/// text that embeds the status, whatever became of the body.
pub proof fn lemma_unsuccessful_reply_degrades(status: HttpStatus, body: Result<Vec<u8>, String>)
    requires
        !is_success_code(status@),
    ensures
        health_check_outcome(FetchOutcome::Reply { status, body }) matches Ok(health)
            && !health.is_healthy && health.frame_status == "error"@ && health.audio_status
            == "error"@ && health.ui_status == "error"@ && health.error == Some(
            "Health check failed with status: "@ + status_display(status@),
        ),
{
}

} // verus!
