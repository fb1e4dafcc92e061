//! Starting the reporter: development or production, and what runs in the background.

use crate::host::HostInfo;
use crate::manager::{
    request_view, send_event_of, AnalyticsManager, CaptureRequest, ManagerView, SECONDS_PER_HOUR,
};
use crate::periodic::{Notice, NoticeView, Severity};
use crate::text::{join, same_text};
use crate::transport::{delivery_error_text, delivery_view, DeliveryError, DeliveryErrorView};
use vstd::prelude::*;

verus! {

/// A task that the caller runs in the background once the reporter has started.
#[derive(Clone, Copy, PartialEq, Eq, Structural, Debug)]
pub enum StartupTask {
    /// Send the start-up event, once.
    SendStartupEvent,
    /// Run the periodic reporting for as long as the process lives.
    RunPeriodicEvents,
}

/// A started reporter and the background tasks that go with it.
#[derive(Debug)]
pub struct Startup {
    pub manager: AnalyticsManager,
    pub tasks: Vec<StartupTask>,
}

/// Development mode holds in a debug build, and wherever the debug flag of
/// the environment is set to "true".
pub open spec fn development_mode(debug_build: bool, debug_flag: Option<Seq<char>>) -> bool {
    debug_build || debug_flag == Some("true"@)
}

/// The background tasks of a reporter: none in development mode; in
/// production the start-up event and the periodic reporting.
pub open spec fn startup_tasks(development: bool) -> Seq<StartupTask> {
    if development {
        Seq::empty()
    } else {
        seq![StartupTask::SendStartupEvent, StartupTask::RunPeriodicEvents]
    }
}

/// Whether the process runs in development mode, given whether it is a debug
/// build and what the environment's debug flag holds.
pub fn is_development(debug_build: bool, debug_flag: Option<&str>) -> (development: bool)
    ensures
        development == development_mode(
            debug_build,
            match debug_flag {
                Some(flag) => Some(flag@),
                None => None,
            },
        ),
{
    if debug_build {
        return true;
    }
    match debug_flag {
        Some(flag) => same_text(flag, "true"),
        None => false,
    }
}

/// Starts the reporter. In development mode it is disabled and comes without
/// background tasks; in production it is enabled, and the caller is to send
/// the start-up event and to run the periodic reporting, both in the
/// background and on the one reporter handed back.
pub fn start_analytics(
    unique_id: String,
    posthog_api_key: String,
    interval_hours: u64,
    local_api_base_url: String,
    development: bool,
) -> (started: Startup)
    requires
        interval_hours * SECONDS_PER_HOUR <= u64::MAX,
    ensures
        started.manager@ == (ManagerView {
            posthog_api_key: posthog_api_key@,
            distinct_id: unique_id@,
            interval_secs: (interval_hours * SECONDS_PER_HOUR) as u64,
            enabled: !development,
            api_host: "https://eu.i.posthog.com"@,
            local_api_base_url: local_api_base_url@,
        }),
        started.tasks@ == startup_tasks(development),
        development ==> !started.manager@.enabled && started.tasks@.len() == 0,
        !development ==> started.manager@.enabled && started.tasks@.len() == 2,
{
    let manager = AnalyticsManager::new(
        posthog_api_key,
        unique_id,
        interval_hours,
        local_api_base_url,
        !development,
    );
    let mut tasks: Vec<StartupTask> = Vec::new();
    if !development {
        tasks.push(StartupTask::SendStartupEvent);
        tasks.push(StartupTask::RunPeriodicEvents);
    }
    Startup { manager, tasks }
}

/// What is logged after the delivery of the start-up event: an error where it failed.
pub open spec fn startup_notice_of(delivered: Result<(), DeliveryErrorView>) -> Option<NoticeView> {
    match delivered {
        Ok(_) => None,
        Err(error) => Some(
            NoticeView {
                severity: Severity::Error,
                message: "Failed to send initial PostHog event: "@ + delivery_error_text(error),
            },
        ),
    }
}

/// What to log after the delivery of the start-up event.
pub fn startup_notice(delivered: &Result<(), DeliveryError>) -> (notice: Option<Notice>)
    ensures
        match notice {
            Some(logged) => Some(logged@),
            None => None,
        } == startup_notice_of(delivery_view(*delivered)),
{
    match delivered {
        Ok(_) => None,
        Err(error) => {
            let reason = error.message();
            Some(
                Notice {
                    severity: Severity::Error,
                    message: join("Failed to send initial PostHog event: ", reason.as_str()),
                },
            )
        },
    }
}

impl AnalyticsManager {
    /// Decides how the start-up event is sent: as `send_event` does for the
    /// event "app_started" without extra properties.
    pub fn startup_event(&self) -> (request: Option<CaptureRequest>)
        ensures
            !self@.enabled ==> request is None,
            exists|host: HostInfo|
                request_view(request) == #[trigger] send_event_of(
                    self@,
                    "app_started"@,
                    None,
                    host,
                ),
    {
        self.send_event("app_started", None)
    }
}

} // verus!
