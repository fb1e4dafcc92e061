//! The reporter: its configuration, its enabled flag and the events it builds.

use crate::host::{read_host, HostInfo};
use crate::properties::{PropMap, PropValue, PropValueView, Properties};
use crate::text::{join, or_empty, text_or_empty};
use vstd::prelude::*;
use vstd::string::*;

verus! {

/// The number of seconds in an hour.
pub const SECONDS_PER_HOUR: u64 = 3600;

/// The mathematical value of an [`AnalyticsManager`].
pub struct ManagerView {
    pub posthog_api_key: Seq<char>,
    pub distinct_id: Seq<char>,
    pub interval_secs: u64,
    pub enabled: bool,
    pub api_host: Seq<char>,
    pub local_api_base_url: Seq<char>,
}

/// The mathematical value of an [`EventPayload`].
pub struct PayloadView {
    pub api_key: Seq<char>,
    pub event: Seq<char>,
    pub properties: PropMap,
}

/// The mathematical value of a [`CaptureRequest`].
pub struct RequestView {
    pub url: Seq<char>,
    pub payload: PayloadView,
}

/// What the collector receives for one event.
#[derive(Debug)]
pub struct EventPayload {
    /// The key that identifies the sender to the collector.
    pub api_key: String,
    /// The event's name.
    pub event: String,
    /// The event's properties.
    pub properties: Properties,
}

impl View for EventPayload {
    type V = PayloadView;

    open spec fn view(&self) -> PayloadView {
        PayloadView { api_key: self.api_key@, event: self.event@, properties: self.properties@ }
    }
}

/// A payload and the address to post it to.
#[derive(Debug)]
pub struct CaptureRequest {
    /// The collector's capture endpoint.
    pub url: String,
    /// The body, to be sent as JSON.
    pub payload: EventPayload,
}

impl View for CaptureRequest {
    type V = RequestView;

    open spec fn view(&self) -> RequestView {
        RequestView { url: self.url@, payload: self.payload@ }
    }
}

/// The view of an optional property map.
pub open spec fn extra_view(extra: Option<Properties>) -> Option<PropMap> {
    match extra {
        Some(props) => Some(props@),
        None => None,
    }
}

/// The view of an optional request.
pub open spec fn request_view(request: Option<CaptureRequest>) -> Option<RequestView> {
    match request {
        Some(made) => Some(made@),
        None => None,
    }
}

/// The properties that every event carries: who sends it, with which
/// library, and from what kind of machine.
pub open spec fn base_properties(distinct_id: Seq<char>, host: HostInfo) -> PropMap {
    PropMap::empty().insert("distinct_id"@, PropValueView::Text(distinct_id)).insert(
        "$lib"@,
        PropValueView::Text("rust-reqwest"@),
    ).insert("os_name"@, PropValueView::Text(text_or_empty(host.os_name))).insert(
        "os_version"@,
        PropValueView::Text(text_or_empty(host.os_version)),
    ).insert("kernel_version"@, PropValueView::Text(text_or_empty(host.kernel_version))).insert(
        "host_name"@,
        PropValueView::Text(text_or_empty(host.host_name)),
    ).insert("cpu_count"@, PropValueView::Count(host.cpu_count as u64)).insert(
        "total_memory"@,
        PropValueView::Count(host.total_memory),
    )
}

/// The properties of an event: the base properties, with the extra ones
/// merged over them. An extra property replaces a base property of the same name.
pub open spec fn event_properties(
    distinct_id: Seq<char>,
    extra: Option<PropMap>,
    host: HostInfo,
) -> PropMap {
    match extra {
        Some(props) => base_properties(distinct_id, host).union_prefer_right(props),
        None => base_properties(distinct_id, host),
    }
}

/// The request by which the reporter `manager` delivers the event `event`.
pub open spec fn capture_request_of(
    manager: ManagerView,
    event: Seq<char>,
    extra: Option<PropMap>,
    host: HostInfo,
) -> RequestView {
    RequestView {
        url: manager.api_host + "/capture/"@,
        payload: PayloadView {
            api_key: manager.posthog_api_key,
            event,
            properties: event_properties(manager.distinct_id, extra, host),
        },
    }
}

/// What `send_event` hands back for the event `event`: nothing while the
/// reporter is disabled, else the request that delivers the event.
pub open spec fn send_event_of(
    manager: ManagerView,
    event: Seq<char>,
    extra: Option<PropMap>,
    host: HostInfo,
) -> Option<RequestView> {
    if manager.enabled {
        Some(capture_request_of(manager, event, extra, host))
    } else {
        None
    }
}

/// The base properties as a property map.
fn build_base_properties(distinct_id: &String, host: &HostInfo) -> (props: Properties)
    ensures
        props@ == base_properties(distinct_id@, *host),
{
    let mut props = Properties::new();
    props.insert(String::from_str("distinct_id"), PropValue::Text(distinct_id.clone()));
    props.insert(String::from_str("$lib"), PropValue::Text(String::from_str("rust-reqwest")));
    props.insert(String::from_str("os_name"), PropValue::Text(or_empty(&host.os_name)));
    props.insert(String::from_str("os_version"), PropValue::Text(or_empty(&host.os_version)));
    props.insert(
        String::from_str("kernel_version"),
        PropValue::Text(or_empty(&host.kernel_version)),
    );
    props.insert(String::from_str("host_name"), PropValue::Text(or_empty(&host.host_name)));
    props.insert(String::from_str("cpu_count"), PropValue::Count(host.cpu_count as u64));
    props.insert(String::from_str("total_memory"), PropValue::Count(host.total_memory));
    props
}

/// The reporter. It owns the enabled flag and the identity under which
/// events are sent; it builds requests and leaves sending them to the caller.
#[derive(Debug)]
pub struct AnalyticsManager {
    posthog_api_key: String,
    distinct_id: String,
    interval_secs: u64,
    enabled: bool,
    api_host: String,
    local_api_base_url: String,
}

impl View for AnalyticsManager {
    type V = ManagerView;

    closed spec fn view(&self) -> ManagerView {
        ManagerView {
            posthog_api_key: self.posthog_api_key@,
            distinct_id: self.distinct_id@,
            interval_secs: self.interval_secs,
            enabled: self.enabled,
            api_host: self.api_host@,
            local_api_base_url: self.local_api_base_url@,
        }
    }
}

impl AnalyticsManager {
    /// A reporter for the given identity. It reports every `interval_hours`
    /// hours, reaches the local service under `local_api_base_url`, and
    /// starts out enabled or disabled as `enabled` says.
    pub fn new(
        posthog_api_key: String,
        distinct_id: String,
        interval_hours: u64,
        local_api_base_url: String,
        enabled: bool,
    ) -> (manager: AnalyticsManager)
        requires
            interval_hours * SECONDS_PER_HOUR <= u64::MAX,
        ensures
            manager@ == (ManagerView {
                posthog_api_key: posthog_api_key@,
                distinct_id: distinct_id@,
                interval_secs: (interval_hours * SECONDS_PER_HOUR) as u64,
                enabled,
                api_host: "https://eu.i.posthog.com"@,
                local_api_base_url: local_api_base_url@,
            }),
    {
        AnalyticsManager {
            posthog_api_key,
            distinct_id,
            interval_secs: interval_hours * SECONDS_PER_HOUR,
            enabled,
            api_host: String::from_str("https://eu.i.posthog.com"),
            local_api_base_url,
        }
    }

    /// The request that delivers the event `event` from the host `host`,
    /// whatever the enabled flag says.
    pub fn capture_request(
        &self,
        event: &str,
        properties: Option<Properties>,
        host: &HostInfo,
    ) -> (request: CaptureRequest)
        ensures
            request@ == capture_request_of(self@, event@, extra_view(properties), *host),
    {
        let mut merged = build_base_properties(&self.distinct_id, host);
        match &properties {
            Some(extra) => {
                merged.extend(extra);
            },
            None => {},
        }
        CaptureRequest {
            url: join(self.api_host.as_str(), "/capture/"),
            payload: EventPayload {
                api_key: self.posthog_api_key.clone(),
                event: String::from_str(event),
                properties: merged,
            },
        }
    }

    /// Decides how the event `event` is sent from the host `host`: not at
    /// all while the reporter is disabled, which counts as success; else by
    /// the request handed back.
    pub fn send_event_from(
        &self,
        event: &str,
        properties: Option<Properties>,
        host: &HostInfo,
    ) -> (request: Option<CaptureRequest>)
        ensures
            request_view(request) == send_event_of(self@, event@, extra_view(properties), *host),
    {
        if !self.enabled {
            return None;
        }
        Some(self.capture_request(event, properties, host))
    }

    /// Decides how the event `event` is sent. While the reporter is disabled
    /// nothing is handed back: the event counts as sent and no request may
    /// be made. Else the host's facts are read and the request that delivers
    /// the event is handed back; the caller posts it and passes the reply to
    /// `delivery_result`.
    pub fn send_event(&self, event: &str, properties: Option<Properties>) -> (request: Option<
        CaptureRequest,
    >)
        ensures
            !self@.enabled ==> request is None,
            exists|host: HostInfo|
                request_view(request) == #[trigger] send_event_of(
                    self@,
                    event@,
                    extra_view(properties),
                    host,
                ),
    {
        if !self.enabled {
            assert(request_view(None) == send_event_of(
                self@,
                event@,
                extra_view(properties),
                arbitrary(),
            ));
            return None;
        }
        let host = read_host();
        let request = self.send_event_from(event, properties, &host);
        assert(request_view(request) == send_event_of(
            self@,
            event@,
            extra_view(properties),
            host,
        ));
        request
    }

    /// Whether the reporter is enabled.
    pub fn is_enabled(&self) -> (enabled: bool)
        ensures
            enabled == self@.enabled,
    {
        self.enabled
    }

    /// Switches the reporter on or off; nothing else changes.
    pub fn set_enabled(&mut self, enabled: bool)
        ensures
            final(self)@ == (ManagerView { enabled, ..old(self)@ }),
    {
        self.enabled = enabled;
    }

    /// The time between two reports, in seconds.
    pub fn interval_secs(&self) -> (seconds: u64)
        ensures
            seconds == self@.interval_secs,
    {
        self.interval_secs
    }

    /// The identity under which events are sent.
    pub fn distinct_id(&self) -> (id: &String)
        ensures
            id@ == self@.distinct_id,
    {
        &self.distinct_id
    }

    /// The address of the local service's health endpoint.
    pub fn health_url(&self) -> (url: String)
        ensures
            url@ == self@.local_api_base_url + "/health"@,
    {
        join(self.local_api_base_url.as_str(), "/health")
    }

    /// The address of the local service's pipe listing.
    pub fn pipes_url(&self) -> (url: String)
        ensures
            url@ == self@.local_api_base_url + "/pipes/list"@,
    {
        join(self.local_api_base_url.as_str(), "/pipes/list")
    }
}

/// The names of the base properties differ from one another.
proof fn lemma_base_names_differ()
    ensures
        "distinct_id"@ != "$lib"@,
        "distinct_id"@ != "os_name"@,
        "distinct_id"@ != "os_version"@,
        "distinct_id"@ != "kernel_version"@,
        "distinct_id"@ != "host_name"@,
        "distinct_id"@ != "cpu_count"@,
        "distinct_id"@ != "total_memory"@,
{
    reveal_strlit("distinct_id");
    reveal_strlit("$lib");
    reveal_strlit("os_name");
    reveal_strlit("os_version");
    reveal_strlit("kernel_version");
    reveal_strlit("host_name");
    reveal_strlit("cpu_count");
    reveal_strlit("total_memory");
    assert("distinct_id"@.len() == 11);
    assert("$lib"@.len() == 4);
    assert("os_name"@.len() == 7);
    assert("os_version"@.len() == 10);
    assert("kernel_version"@.len() == 14);
    assert("host_name"@.len() == 9);
    assert("cpu_count"@.len() == 9);
    assert("total_memory"@.len() == 12);
}

/// Every request carries the reporter's key and an identity: the payload's
/// key is the reporter's, and the property "distinct_id" is bound, to the
/// reporter's identity unless the extra properties bind that name
/// themselves. So a reporter with a non-empty key and a non-empty identity
/// sends neither of them empty.
pub proof fn lemma_payload_carries_identity(
    manager: ManagerView,
    event: Seq<char>,
    extra: Option<PropMap>,
    host: HostInfo,
)
    ensures
        capture_request_of(manager, event, extra, host).payload.api_key == manager.posthog_api_key,
        capture_request_of(manager, event, extra, host).payload.event == event,
        capture_request_of(manager, event, extra, host).payload.properties.contains_key(
            "distinct_id"@,
        ),
        !(extra matches Some(props) && props.contains_key("distinct_id"@)) ==> capture_request_of(
            manager,
            event,
            extra,
            host,
        ).payload.properties["distinct_id"@] == PropValueView::Text(manager.distinct_id),
{
    lemma_base_names_differ();
}

/// The extra properties of an event overwrite the base properties of the
/// same name, and every base property that they do not name is kept.
pub proof fn lemma_extra_properties_overwrite(
    distinct_id: Seq<char>,
    extra: PropMap,
    host: HostInfo,
    key: Seq<char>,
)
    ensures
        extra.contains_key(key) ==> event_properties(distinct_id, Some(extra), host).contains_key(
            key,
        ) && event_properties(distinct_id, Some(extra), host)[key] == extra[key],
        !extra.contains_key(key) && base_properties(distinct_id, host).contains_key(key)
            ==> event_properties(distinct_id, Some(extra), host).contains_key(key)
            && event_properties(distinct_id, Some(extra), host)[key] == base_properties(
            distinct_id,
            host,
        )[key],
        event_properties(distinct_id, Some(extra), host).contains_key(key) ==> extra.contains_key(
            key,
        ) || base_properties(distinct_id, host).contains_key(key),
{
}

} // verus!
