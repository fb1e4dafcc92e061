use analytics::pipes::{PipeCensus, PipeCensusError, PipeInfo};
use analytics::properties::PropValue;

fn pipe(id: &str, enabled: bool) -> PipeInfo {
    PipeInfo { id: id.to_string(), enabled }
}

#[test]
fn census_keeps_enabled_pipes_in_order() {
    let listing = vec![
        pipe("zeta", true),
        pipe("alpha", false),
        pipe("beta", true),
        pipe("zeta", true),
        pipe("gamma", false),
    ];
    let census = PipeCensus::of(&listing);
    assert_eq!(
        census.enabled_pipes(),
        &vec!["zeta".to_string(), "beta".to_string(), "zeta".to_string()]
    );
    assert_eq!(census.enabled_pipe_count(), 3);
}

#[test]
fn census_of_an_empty_listing_is_empty() {
    let census = PipeCensus::of(&Vec::new());
    assert!(census.enabled_pipes().is_empty());
    assert_eq!(census.enabled_pipe_count(), 0);
}

#[test]
fn census_without_enabled_pipes_is_empty() {
    let census = PipeCensus::of(&vec![pipe("a", false), pipe("b", false)]);
    assert!(census.enabled_pipes().is_empty());
    assert_eq!(census.enabled_pipe_count(), 0);
}

#[test]
fn census_of_one_enabled_and_one_disabled_pipe() {
    let census = PipeCensus::of(&vec![pipe("a", true), pipe("b", false)]);
    assert_eq!(census.enabled_pipes(), &vec!["a".to_string()]);
    assert_eq!(census.enabled_pipe_count(), 1);
}

#[test]
fn census_properties_hold_ids_and_count() {
    let props = PipeCensus::of(&vec![pipe("a", true), pipe("b", false), pipe("c", true)])
        .to_properties();
    assert_eq!(props.len(), 2);
    assert_eq!(
        props.get("enabled_pipes"),
        Some(&PropValue::TextList(vec!["a".to_string(), "c".to_string()]))
    );
    assert_eq!(props.get("enabled_pipe_count"), Some(&PropValue::Count(2)));
}

#[test]
fn census_error_messages() {
    assert_eq!(
        PipeCensusError::Transport("error sending request".to_string()).message(),
        "error sending request"
    );
    assert_eq!(
        PipeCensusError::Undecodable("missing field `data`".to_string()).message(),
        "error decoding response body: missing field `data`"
    );
}
