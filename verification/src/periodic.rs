//! The periodic reporting cycle as a state machine.
//!
//! One cycle runs from a tick of the interval timer through the health
//! report and the pipe census back to waiting. The caller waits, fetches and
//! posts; after each of these it hands the outcome to the reporter, which
//! answers with the next phase, something to log where something went
//! wrong, and the next thing to do. Between two cycles the caller waits for
//! the interval timer, whose period the reporter names. No outcome ends the
//! cycle early for good: every step names a next action.

use crate::health::{
    check_recording_health, degraded_health, health_check_outcome, health_error_text,
    health_properties, health_result_view, HealthCheckError, HealthCheckErrorView, HealthStatus,
    HealthView,
};
use crate::host::HostInfo;
use crate::manager::{
    capture_request_of, request_view, send_event_of, AnalyticsManager, CaptureRequest, ManagerView,
    RequestView,
};
use crate::pipes::{
    census_error_text, census_of, census_properties, PipeCensus, PipeCensusError,
    PipeCensusErrorView, PipeInfo,
};
use crate::text::join;
use crate::transport::{
    delivery_error_text, delivery_outcome, delivery_result, delivery_view, DeliveryError,
    DeliveryErrorView, FetchOutcome, TransportReply,
};
use vstd::prelude::*;

verus! {

/// Where a cycle stands: what the reporter is waiting for.
#[derive(Clone, Copy, PartialEq, Eq, Structural, Debug)]
pub enum Phase {
    /// For the next tick of the interval timer.
    Waiting,
    /// For the answer of the health endpoint.
    CheckingHealth,
    /// For the delivery of the health event.
    ReportingHealth,
    /// For the listing of the pipes.
    ListingPipes,
    /// For the delivery of the census event.
    ReportingPipes,
}

/// How grave a logged failure is.
#[derive(Clone, Copy, PartialEq, Eq, Structural, Debug)]
pub enum Severity {
    /// A failure of the reporter's own work.
    Error,
    /// A sign that the local service may not be running.
    Warning,
}

/// Something for the caller to log.
#[derive(Debug)]
pub struct Notice {
    pub severity: Severity,
    pub message: String,
}

/// The mathematical value of a [`Notice`].
pub struct NoticeView {
    pub severity: Severity,
    pub message: Seq<char>,
}

impl View for Notice {
    type V = NoticeView;

    open spec fn view(&self) -> NoticeView {
        NoticeView { severity: self.severity, message: self.message@ }
    }
}

/// What the caller does next.
#[derive(Debug)]
pub enum PeriodicAction {
    /// Wait for the next tick of the interval timer, which ticks once in
    /// this many seconds, however long the work between two ticks takes.
    AwaitTick(u64),
    /// Request the health report from this address.
    FetchHealth(String),
    /// Post this event to the collector.
    Post(CaptureRequest),
    /// Request the listing of the pipes from this address.
    FetchPipes(String),
}

/// The mathematical value of a [`PeriodicAction`].
pub enum ActionView {
    AwaitTick(u64),
    FetchHealth(Seq<char>),
    Post(RequestView),
    FetchPipes(Seq<char>),
}

impl View for PeriodicAction {
    type V = ActionView;

    open spec fn view(&self) -> ActionView {
        match self {
            PeriodicAction::AwaitTick(period) => ActionView::AwaitTick(*period),
            PeriodicAction::FetchHealth(url) => ActionView::FetchHealth(url@),
            PeriodicAction::Post(request) => ActionView::Post(request@),
            PeriodicAction::FetchPipes(url) => ActionView::FetchPipes(url@),
        }
    }
}

/// One step of the cycle: the phase entered, what to log, what to do.
#[derive(Debug)]
pub struct PeriodicStep {
    pub phase: Phase,
    pub notice: Option<Notice>,
    pub action: PeriodicAction,
}

/// The mathematical value of a [`PeriodicStep`].
pub struct StepView {
    pub phase: Phase,
    pub notice: Option<NoticeView>,
    pub action: ActionView,
}

impl View for PeriodicStep {
    type V = StepView;

    open spec fn view(&self) -> StepView {
        StepView {
            phase: self.phase,
            notice: match self.notice {
                Some(notice) => Some(notice@),
                None => None,
            },
            action: self.action@,
        }
    }
}

/// The view of an optional step.
pub open spec fn step_view(step: Option<PeriodicStep>) -> Option<StepView> {
    match step {
        Some(taken) => Some(taken@),
        None => None,
    }
}

/// What has happened since the last step, already judged.
#[derive(Debug)]
pub enum CycleEvent {
    /// The interval timer ticked.
    Tick,
    /// The health check ended with this result.
    HealthChecked(Result<HealthStatus, HealthCheckError>),
    /// The posted event was delivered, or not.
    Delivered(Result<(), DeliveryError>),
    /// The pipes were listed, or not.
    PipesListed(Result<Vec<PipeInfo>, PipeCensusError>),
}

/// The mathematical value of a [`CycleEvent`].
pub enum CycleEventView {
    Tick,
    HealthChecked(Result<HealthView, HealthCheckErrorView>),
    Delivered(Result<(), DeliveryErrorView>),
    PipesListed(Result<Seq<PipeInfo>, PipeCensusErrorView>),
}

/// The view of a pipe listing's result.
pub open spec fn listing_view(listed: Result<Vec<PipeInfo>, PipeCensusError>) -> Result<
    Seq<PipeInfo>,
    PipeCensusErrorView,
> {
    match listed {
        Ok(pipes) => Ok(pipes@),
        Err(error) => Err(error@),
    }
}

impl View for CycleEvent {
    type V = CycleEventView;

    open spec fn view(&self) -> CycleEventView {
        match self {
            CycleEvent::Tick => CycleEventView::Tick,
            CycleEvent::HealthChecked(result) => CycleEventView::HealthChecked(
                health_result_view(*result),
            ),
            CycleEvent::Delivered(result) => CycleEventView::Delivered(delivery_view(*result)),
            CycleEvent::PipesListed(listed) => CycleEventView::PipesListed(listing_view(*listed)),
        }
    }
}

/// The action between two cycles: wait for the timer that ticks once in the
/// reporter's interval.
pub open spec fn await_tick(manager: ManagerView) -> ActionView {
    ActionView::AwaitTick(manager.interval_secs)
}

/// The step that ends a cycle, and the one that reporting starts with: back
/// to waiting for the reporter's interval, nothing to log.
pub open spec fn resting(manager: ManagerView) -> StepView {
    StepView { phase: Phase::Waiting, notice: None, action: await_tick(manager) }
}

/// The step that turns to the pipe census.
pub open spec fn turn_to_pipes(manager: ManagerView, notice: Option<NoticeView>) -> StepView {
    StepView {
        phase: Phase::ListingPipes,
        notice,
        action: ActionView::FetchPipes(manager.local_api_base_url + "/pipes/list"@),
    }
}

/// A tick starts a cycle where the reporter is enabled and is passed over where it is not.
pub open spec fn after_tick(manager: ManagerView) -> StepView {
    if manager.enabled {
        StepView {
            phase: Phase::CheckingHealth,
            notice: None,
            action: ActionView::FetchHealth(manager.local_api_base_url + "/health"@),
        }
    } else {
        resting(manager)
    }
}

/// The health that is reported after a health check: the one established, or
/// a degraded one that carries the error's text.
pub open spec fn reported_health(result: Result<HealthView, HealthCheckErrorView>) -> HealthView {
    match result {
        Ok(health) => health,
        Err(error) => degraded_health(health_error_text(error)),
    }
}

/// What is logged after a health check: an error where the check failed.
pub open spec fn health_check_notice(result: Result<HealthView, HealthCheckErrorView>) -> Option<
    NoticeView,
> {
    match result {
        Ok(_) => None,
        Err(error) => Some(
            NoticeView {
                severity: Severity::Error,
                message: "failed to check recording health: "@ + health_error_text(error),
            },
        ),
    }
}

/// The step after the health check, given what is logged and the request
/// that sends the health event: post the request where there is one, else
/// turn to the pipes.
pub open spec fn health_check_step(
    manager: ManagerView,
    notice: Option<NoticeView>,
    request: Option<RequestView>,
) -> StepView {
    match request {
        Some(posted) => StepView {
            phase: Phase::ReportingHealth,
            notice,
            action: ActionView::Post(posted),
        },
        None => turn_to_pipes(manager, notice),
    }
}

/// After the health check the health event is sent, whether the check
/// succeeded or not; a disabled reporter sends nothing and turns to the pipes.
pub open spec fn after_health_check(
    manager: ManagerView,
    result: Result<HealthView, HealthCheckErrorView>,
    host: HostInfo,
) -> StepView {
    health_check_step(
        manager,
        health_check_notice(result),
        send_event_of(
            manager,
            "app_still_running"@,
            Some(health_properties(reported_health(result))),
            host,
        ),
    )
}

/// What is logged after the delivery of the health event: an error where it failed.
pub open spec fn health_report_notice(delivered: Result<(), DeliveryErrorView>) -> Option<
    NoticeView,
> {
    match delivered {
        Ok(_) => None,
        Err(error) => Some(
            NoticeView {
                severity: Severity::Error,
                message: "failed to send periodic posthog event: "@ + delivery_error_text(error),
            },
        ),
    }
}

/// The warning that the pipe census failed for the reason `reason`.
pub open spec fn census_warning(reason: Seq<char>) -> NoticeView {
    NoticeView {
        severity: Severity::Warning,
        message: "failed to track enabled pipes: "@ + reason + ", is screenpipe up?"@,
    }
}

/// The step after a successful listing, given the request that sends the
/// census event: post the request where there is one, else end the cycle.
pub open spec fn census_step(manager: ManagerView, request: Option<RequestView>) -> StepView {
    match request {
        Some(posted) => StepView {
            phase: Phase::ReportingPipes,
            notice: None,
            action: ActionView::Post(posted),
        },
        None => resting(manager),
    }
}

/// The step after a failed listing: a warning, and the cycle ends.
pub open spec fn listing_failed_step(manager: ManagerView, error: PipeCensusErrorView) -> StepView {
    StepView {
        phase: Phase::Waiting,
        notice: Some(census_warning(census_error_text(error))),
        action: await_tick(manager),
    }
}

/// After the listing of the pipes the census event is sent. A failed listing
/// is logged as a warning and ends the cycle; so does a disabled reporter,
/// without a warning.
pub open spec fn after_pipes_listing(
    manager: ManagerView,
    listed: Result<Seq<PipeInfo>, PipeCensusErrorView>,
    host: HostInfo,
) -> StepView {
    match listed {
        Ok(pipes) => census_step(
            manager,
            send_event_of(
                manager,
                "enabled_pipes_hourly"@,
                Some(census_properties(census_of(pipes))),
                host,
            ),
        ),
        Err(error) => listing_failed_step(manager, error),
    }
}

/// The delivery of the census event ends the cycle; a failure is logged as a warning.
pub open spec fn after_pipes_report(
    manager: ManagerView,
    delivered: Result<(), DeliveryErrorView>,
) -> StepView {
    StepView {
        phase: Phase::Waiting,
        notice: match delivered {
            Ok(_) => None,
            Err(error) => Some(census_warning(delivery_error_text(error))),
        },
        action: await_tick(manager),
    }
}

/// The step that the reporter `manager` takes in the phase `phase` when
/// `event` has happened; none where the event is not what the phase waits for.
pub open spec fn cycle_step(
    manager: ManagerView,
    phase: Phase,
    event: CycleEventView,
    host: HostInfo,
) -> Option<StepView> {
    match (phase, event) {
        (Phase::Waiting, CycleEventView::Tick) => Some(after_tick(manager)),
        (Phase::CheckingHealth, CycleEventView::HealthChecked(result)) => Some(
            after_health_check(manager, result, host),
        ),
        (Phase::ReportingHealth, CycleEventView::Delivered(delivered)) => Some(
            turn_to_pipes(manager, health_report_notice(delivered)),
        ),
        (Phase::ListingPipes, CycleEventView::PipesListed(listed)) => Some(
            after_pipes_listing(manager, listed, host),
        ),
        (Phase::ReportingPipes, CycleEventView::Delivered(delivered)) => Some(
            after_pipes_report(manager, delivered),
        ),
        _ => None,
    }
}

/// The event that a phase waits for.
pub open spec fn expected(phase: Phase, event: CycleEventView) -> bool {
    match phase {
        Phase::Waiting => event is Tick,
        Phase::CheckingHealth => event is HealthChecked,
        Phase::ReportingHealth => event is Delivered,
        Phase::ListingPipes => event is PipesListed,
        Phase::ReportingPipes => event is Delivered,
    }
}

/// The action by which a phase is entered.
pub open spec fn enters(action: ActionView, phase: Phase) -> bool {
    match phase {
        Phase::Waiting => action is AwaitTick,
        Phase::CheckingHealth => action is FetchHealth,
        Phase::ReportingHealth => action is Post,
        Phase::ListingPipes => action is FetchPipes,
        Phase::ReportingPipes => action is Post,
    }
}

/// What the caller reports after carrying out an action.
#[derive(Debug)]
pub enum PeriodicInput {
    /// The interval timer ticked.
    Tick,
    /// The request to the health endpoint ended like this.
    Health(FetchOutcome),
    /// The posting of an event ended like this.
    Delivery(TransportReply),
    /// The pipes were listed, or not.
    Pipes(Result<Vec<PipeInfo>, PipeCensusError>),
}

/// The event that a caller's report amounts to.
pub open spec fn judged(input: PeriodicInput) -> CycleEventView {
    match input {
        PeriodicInput::Tick => CycleEventView::Tick,
        PeriodicInput::Health(outcome) => CycleEventView::HealthChecked(
            health_check_outcome(outcome),
        ),
        PeriodicInput::Delivery(reply) => CycleEventView::Delivered(delivery_outcome(reply)),
        PeriodicInput::Pipes(listed) => CycleEventView::PipesListed(listing_view(listed)),
    }
}

/// The warning that the pipe census failed for the reason `reason`.
fn warn_census_failed(reason: &str) -> (notice: Notice)
    ensures
        notice@ == census_warning(reason@),
{
    let head = join("failed to track enabled pipes: ", reason);
    Notice { severity: Severity::Warning, message: join(head.as_str(), ", is screenpipe up?") }
}

/// What is reported and logged after a health check.
fn health_to_report(result: Result<HealthStatus, HealthCheckError>) -> (reported: (
    HealthStatus,
    Option<Notice>,
))
    ensures
        reported.0@ == reported_health(health_result_view(result)),
        match reported.1 {
            Some(notice) => Some(notice@),
            None => None,
        } == health_check_notice(health_result_view(result)),
{
    match result {
        Ok(health) => (health, None),
        Err(error) => {
            let reason = error.message();
            let notice = Notice {
                severity: Severity::Error,
                message: join("failed to check recording health: ", reason.as_str()),
            };
            (HealthStatus::degraded(reason), Some(notice))
        },
    }
}

/// What is logged after the delivery of the health event.
fn health_report_log(delivered: &Result<(), DeliveryError>) -> (notice: Option<Notice>)
    ensures
        match notice {
            Some(logged) => Some(logged@),
            None => None,
        } == health_report_notice(delivery_view(*delivered)),
{
    match delivered {
        Ok(_) => None,
        Err(error) => {
            let reason = error.message();
            Some(
                Notice {
                    severity: Severity::Error,
                    message: join("failed to send periodic posthog event: ", reason.as_str()),
                },
            )
        },
    }
}

impl AnalyticsManager {
    /// The step that ends a cycle.
    fn rest(&self) -> (step: PeriodicStep)
        ensures
            step@ == resting(self@),
    {
        PeriodicStep {
            phase: Phase::Waiting,
            notice: None,
            action: PeriodicAction::AwaitTick(self.interval_secs()),
        }
    }

    /// The step that ends a cycle with the warning that the census failed.
    fn rest_warned(&self, reason: &str) -> (step: PeriodicStep)
        ensures
            step@ == (StepView {
                phase: Phase::Waiting,
                notice: Some(census_warning(reason@)),
                action: await_tick(self@),
            }),
    {
        PeriodicStep {
            phase: Phase::Waiting,
            notice: Some(warn_census_failed(reason)),
            action: PeriodicAction::AwaitTick(self.interval_secs()),
        }
    }

    /// The step that ends a cycle after the delivery of the census event.
    fn pipes_reported(&self, delivered: &Result<(), DeliveryError>) -> (step: PeriodicStep)
        ensures
            step@ == after_pipes_report(self@, delivery_view(*delivered)),
    {
        match delivered {
            Ok(_) => self.rest(),
            Err(error) => {
                let reason = error.message();
                self.rest_warned(reason.as_str())
            },
        }
    }

    /// The step that ends a cycle after a failed listing.
    fn listing_failed(&self, error: &PipeCensusError) -> (step: PeriodicStep)
        ensures
            step@ == listing_failed_step(self@, error@),
    {
        let reason = error.message();
        self.rest_warned(reason.as_str())
    }

    /// The step after a successful listing.
    fn census_posted(&self, request: Option<CaptureRequest>) -> (step: PeriodicStep)
        ensures
            step@ == census_step(self@, request_view(request)),
    {
        match request {
            Some(posted) => PeriodicStep {
                phase: Phase::ReportingPipes,
                notice: None,
                action: PeriodicAction::Post(posted),
            },
            None => self.rest(),
        }
    }

    /// The step that turns to the pipe census.
    fn to_pipes(&self, notice: Option<Notice>) -> (step: PeriodicStep)
        ensures
            step@ == turn_to_pipes(
                self@,
                match notice {
                    Some(logged) => Some(logged@),
                    None => None,
                },
            ),
    {
        PeriodicStep {
            phase: Phase::ListingPipes,
            notice,
            action: PeriodicAction::FetchPipes(self.pipes_url()),
        }
    }

    /// The step after a tick.
    fn ticked(&self) -> (step: PeriodicStep)
        ensures
            step@ == after_tick(self@),
    {
        if self.is_enabled() {
            PeriodicStep {
                phase: Phase::CheckingHealth,
                notice: None,
                action: PeriodicAction::FetchHealth(self.health_url()),
            }
        } else {
            self.rest()
        }
    }

    /// The step after the health check.
    fn health_checked(
        &self,
        notice: Option<Notice>,
        request: Option<CaptureRequest>,
    ) -> (step: PeriodicStep)
        ensures
            step@ == health_check_step(
                self@,
                match notice {
                    Some(logged) => Some(logged@),
                    None => None,
                },
                request_view(request),
            ),
    {
        match request {
            Some(posted) => PeriodicStep {
                phase: Phase::ReportingHealth,
                notice,
                action: PeriodicAction::Post(posted),
            },
            None => self.to_pipes(notice),
        }
    }

    /// Starts the periodic reporting: the reporter waits for the first tick
    /// of the interval timer, which ticks once in the reporter's interval.
    /// From here on the caller carries out each step's action and reports
    /// its outcome to `periodic_step`, for as long as the process lives;
    /// between two cycles it waits on that same timer.
    pub fn start_periodic_event(&self) -> (step: PeriodicStep)
        ensures
            step@ == resting(self@),
            step@.phase == Phase::Waiting,
            step@.notice is None,
            step@.action == ActionView::AwaitTick(self@.interval_secs),
    {
        self.rest()
    }

    /// Takes one step of the cycle on the host `host`: from the phase
    /// `phase`, on the event `event`. Nothing is handed back where the event
    /// is not the one that the phase waits for.
    pub fn advance(&self, phase: Phase, event: CycleEvent, host: &HostInfo) -> (step: Option<
        PeriodicStep,
    >)
        ensures
            step_view(step) == cycle_step(self@, phase, event@, *host),
    {
        match (phase, event) {
            (Phase::Waiting, CycleEvent::Tick) => Some(self.ticked()),
            (Phase::CheckingHealth, CycleEvent::HealthChecked(result)) => {
                let (health, notice) = health_to_report(result);
                let request = self.send_event_from(
                    "app_still_running",
                    Some(health.to_properties()),
                    host,
                );
                Some(self.health_checked(notice, request))
            },
            (Phase::ReportingHealth, CycleEvent::Delivered(delivered)) => Some(
                self.to_pipes(health_report_log(&delivered)),
            ),
            (Phase::ListingPipes, CycleEvent::PipesListed(listed)) => match listed {
                Ok(pipes) => {
                    let census = PipeCensus::of(&pipes);
                    let request = self.send_event_from(
                        "enabled_pipes_hourly",
                        Some(census.to_properties()),
                        host,
                    );
                    Some(self.census_posted(request))
                },
                Err(error) => Some(self.listing_failed(&error)),
            },
            (Phase::ReportingPipes, CycleEvent::Delivered(delivered)) => Some(
                self.pipes_reported(&delivered),
            ),
            _ => None,
        }
    }

    /// Takes one step of the cycle: from the phase `phase`, on what the
    /// caller reports in `input`. The report is judged first: the answer of
    /// the health endpoint becomes a health or an error, the collector's
    /// reply a delivery or an error. Where an event is to be sent, the
    /// host's facts are read. Nothing is handed back where the report is not
    /// the one that the phase waits for.
    pub fn periodic_step(&self, phase: Phase, input: PeriodicInput) -> (step: Option<PeriodicStep>)
        ensures
            exists|host: HostInfo|
                step_view(step) == #[trigger] cycle_step(self@, phase, judged(input), host),
            step is Some <==> expected(phase, judged(input)),
            step matches Some(taken) ==> enters(taken@.action, taken@.phase),
            !self@.enabled ==> (step matches Some(taken) ==> !(taken@.action is Post)),
    {
        let ghost any: HostInfo = arbitrary();
        match (phase, input) {
            (Phase::Waiting, PeriodicInput::Tick) => {
                let step = Some(self.ticked());
                assert(step_view(step) == cycle_step(self@, phase, judged(input), any));
                step
            },
            (Phase::CheckingHealth, PeriodicInput::Health(outcome)) => {
                let (health, notice) = health_to_report(check_recording_health(outcome));
                let props = health.to_properties();
                let ghost extra = Some(props@);
                let request = self.send_event("app_still_running", Some(props));
                let step = Some(self.health_checked(notice, request));
                proof {
                    let host = choose|host: HostInfo|
                        request_view(request) == #[trigger] send_event_of(
                            self@,
                            "app_still_running"@,
                            extra,
                            host,
                        );
                    assert(step_view(step) == cycle_step(self@, phase, judged(input), host));
                }
                step
            },
            (Phase::ReportingHealth, PeriodicInput::Delivery(reply)) => {
                let delivered = delivery_result(reply);
                let step = Some(self.to_pipes(health_report_log(&delivered)));
                assert(step_view(step) == cycle_step(self@, phase, judged(input), any));
                step
            },
            (Phase::ListingPipes, PeriodicInput::Pipes(listed)) => match listed {
                Ok(pipes) => {
                    let census = PipeCensus::of(&pipes);
                    let props = census.to_properties();
                    let ghost extra = Some(props@);
                    let request = self.send_event("enabled_pipes_hourly", Some(props));
                    let step = Some(self.census_posted(request));
                    proof {
                        let host = choose|host: HostInfo|
                            request_view(request) == #[trigger] send_event_of(
                                self@,
                                "enabled_pipes_hourly"@,
                                extra,
                                host,
                            );
                        assert(step_view(step) == cycle_step(self@, phase, judged(input), host));
                    }
                    step
                },
                Err(error) => {
                    let step = Some(self.listing_failed(&error));
                    assert(step_view(step) == cycle_step(self@, phase, judged(input), any));
                    step
                },
            },
            (Phase::ReportingPipes, PeriodicInput::Delivery(reply)) => {
                let delivered = delivery_result(reply);
                let step = Some(self.pipes_reported(&delivered));
                assert(step_view(step) == cycle_step(self@, phase, judged(input), any));
                step
            },
            _ => {
                assert(step_view(None) == cycle_step(self@, phase, judged(input), any));
                None
            },
        }
    }
}

/// The cycle never ends: in every phase the event that the phase waits for
/// leads to a step, whatever the event reports, and every step names the
/// action that belongs to the phase it enters. Only an event that the phase
/// does not wait for is turned away.
pub proof fn lemma_cycle_goes_on(
    manager: ManagerView,
    phase: Phase,
    event: CycleEventView,
    host: HostInfo,
)
    ensures
        cycle_step(manager, phase, event, host) is Some <==> expected(phase, event),
        cycle_step(manager, phase, event, host) matches Some(step) ==> enters(
            step.action,
            step.phase,
        ),
{
}

/// A failed listing of the pipes is logged as a warning and ends the cycle
/// in the ordinary way: the reporter waits for the next tick. The phase in
/// which the pipes are listed is entered only from the two phases of the
/// health report, so that report has been dealt with by then.
pub proof fn lemma_failed_listing_only_warns(
    manager: ManagerView,
    error: PipeCensusErrorView,
    host: HostInfo,
)
    ensures
        cycle_step(manager, Phase::ListingPipes, CycleEventView::PipesListed(Err(error)), host)
            == Some(
            StepView {
                phase: Phase::Waiting,
                notice: Some(census_warning(census_error_text(error))),
                action: ActionView::AwaitTick(manager.interval_secs),
            },
        ),
        census_warning(census_error_text(error)).severity == Severity::Warning,
        forall|from: Phase, event: CycleEventView|
            (#[trigger] cycle_step(manager, from, event, host) matches Some(step) && step.phase
                == Phase::ListingPipes) ==> from == Phase::CheckingHealth || from
                == Phase::ReportingHealth,
{
}

/// A failed health check does not end the cycle: an enabled reporter logs
/// the error and still posts the health event, with a degraded health that
/// carries the error's text.
pub proof fn lemma_failed_health_check_still_reported(
    manager: ManagerView,
    error: HealthCheckErrorView,
    host: HostInfo,
)
    requires
        manager.enabled,
    ensures
        cycle_step(manager, Phase::CheckingHealth, CycleEventView::HealthChecked(Err(error)), host)
            == Some(
            StepView {
                phase: Phase::ReportingHealth,
                notice: Some(
                    NoticeView {
                        severity: Severity::Error,
                        message: "failed to check recording health: "@ + health_error_text(error),
                    },
                ),
                action: ActionView::Post(
                    capture_request_of(
                        manager,
                        "app_still_running"@,
                        Some(health_properties(degraded_health(health_error_text(error)))),
                        host,
                    ),
                ),
            },
        ),
{
}

/// A failed delivery is logged and nothing more: after the health event the
/// reporter turns to the pipes, after the census event it waits for the next tick.
pub proof fn lemma_failed_delivery_only_logged(
    manager: ManagerView,
    error: DeliveryErrorView,
    host: HostInfo,
)
    ensures
        cycle_step(manager, Phase::ReportingHealth, CycleEventView::Delivered(Err(error)), host)
            matches Some(step) && step.phase == Phase::ListingPipes && step.notice is Some
            && step.notice->0.severity == Severity::Error,
        cycle_step(manager, Phase::ReportingPipes, CycleEventView::Delivered(Err(error)), host)
            matches Some(step) && step.phase == Phase::Waiting && step.notice is Some
            && step.notice->0.severity == Severity::Warning,
{
}

/// A disabled reporter posts nothing: no step of the cycle asks for a
/// delivery, and a tick is passed over without a request to the local service.
pub proof fn lemma_disabled_reporter_posts_nothing(
    manager: ManagerView,
    phase: Phase,
    event: CycleEventView,
    host: HostInfo,
)
    requires
        !manager.enabled,
    ensures
        cycle_step(manager, phase, event, host) matches Some(step) ==> !(step.action is Post),
        cycle_step(manager, Phase::Waiting, CycleEventView::Tick, host) == Some(
            resting(manager),
        ),
{
}

/// An enabled reporter runs a whole cycle whatever happens on the way: a
/// tick leads to the health check; its result, good or bad, to the post of
/// the event "app_still_running" with the health in its properties; the
/// reply to that post to the listing of the pipes; a listing to the post of
/// the event "enabled_pipes_hourly" with the census in its properties; and
/// the reply to that post back to waiting.
pub proof fn lemma_enabled_cycle_runs_through(
    manager: ManagerView,
    checked: Result<HealthView, HealthCheckErrorView>,
    first_reply: Result<(), DeliveryErrorView>,
    pipes: Seq<PipeInfo>,
    second_reply: Result<(), DeliveryErrorView>,
    host: HostInfo,
)
    requires
        manager.enabled,
    ensures
        cycle_step(manager, Phase::Waiting, CycleEventView::Tick, host) matches Some(step)
            && step.phase == Phase::CheckingHealth && step.action == ActionView::FetchHealth(
            manager.local_api_base_url + "/health"@,
        ),
        cycle_step(manager, Phase::CheckingHealth, CycleEventView::HealthChecked(checked), host)
            matches Some(step) && step.phase == Phase::ReportingHealth && step.action
            == ActionView::Post(
            capture_request_of(
                manager,
                "app_still_running"@,
                Some(health_properties(reported_health(checked))),
                host,
            ),
        ),
        cycle_step(manager, Phase::ReportingHealth, CycleEventView::Delivered(first_reply), host)
            matches Some(step) && step.phase == Phase::ListingPipes && step.action
            == ActionView::FetchPipes(manager.local_api_base_url + "/pipes/list"@),
        cycle_step(manager, Phase::ListingPipes, CycleEventView::PipesListed(Ok(pipes)), host)
            matches Some(step) && step.phase == Phase::ReportingPipes && step.action
            == ActionView::Post(
            capture_request_of(
                manager,
                "enabled_pipes_hourly"@,
                Some(census_properties(census_of(pipes))),
                host,
            ),
        ),
        cycle_step(manager, Phase::ReportingPipes, CycleEventView::Delivered(second_reply), host)
            == Some(
            StepView {
                phase: Phase::Waiting,
                notice: after_pipes_report(manager, second_reply).notice,
                action: ActionView::AwaitTick(manager.interval_secs),
            },
        ),
{
}

} // verus!
