use ugs_metadata::errors::DataError;
use ugs_metadata::models::{BuildResult, EventType, ReviewVerdict, TelemetryErrorType};

#[test]
fn build_result_names_round_trip() {
    let all = [
        BuildResult::Starting,
        BuildResult::Failure,
        BuildResult::Warning,
        BuildResult::Success,
        BuildResult::Skipped,
    ];
    for v in all {
        assert_eq!(BuildResult::decode(v.name()), Ok(v));
    }
    assert_eq!(BuildResult::Success.name(), "Success");
}

#[test]
fn build_result_rejects_unknown_names() {
    assert_eq!(BuildResult::decode("Succeeded"), Err(DataError::UnknownEnumValue));
    assert_eq!(BuildResult::decode(""), Err(DataError::UnknownEnumValue));
    assert_eq!(BuildResult::decode("success"), Err(DataError::UnknownEnumValue));
}

#[test]
fn event_type_names_round_trip() {
    let all = [
        EventType::Syncing,
        EventType::Compiles,
        EventType::DoesNotCompile,
        EventType::Good,
        EventType::Bad,
        EventType::Unknown,
        EventType::Starred,
        EventType::Unstarred,
        EventType::Investigating,
        EventType::Resolved,
    ];
    for v in all {
        assert_eq!(EventType::decode(v.name()), Ok(v));
    }
    assert_eq!(EventType::DoesNotCompile.name(), "DoesNotCompile");
}

#[test]
fn event_type_rejects_unknown_names() {
    assert_eq!(EventType::decode("Paused"), Err(DataError::UnknownEnumValue));
}

#[test]
fn review_verdict_names_round_trip() {
    let all =
        [ReviewVerdict::Unknown, ReviewVerdict::Good, ReviewVerdict::Bad, ReviewVerdict::Mixed];
    for v in all {
        assert_eq!(ReviewVerdict::decode(v.name()), Ok(v));
    }
}

#[test]
fn review_verdict_rejects_unknown_names() {
    assert_eq!(ReviewVerdict::decode("Meh"), Err(DataError::UnknownEnumValue));
}

#[test]
fn telemetry_error_type_names_round_trip() {
    assert_eq!(TelemetryErrorType::decode("Crash"), Ok(TelemetryErrorType::Crash));
    assert_eq!(TelemetryErrorType::Crash.name(), "Crash");
    assert_eq!(TelemetryErrorType::decode("Hang"), Err(DataError::UnknownEnumValue));
}
