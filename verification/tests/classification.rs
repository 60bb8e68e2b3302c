use std::collections::BTreeMap;
use std::time::{Duration, SystemTime};

use sentry::protocol::Value;
use sentry::Level;
use vleue_sentry::classify::{classify, Disposition};
use vleue_sentry::record::{Breadcrumb, Incident};
use vleue_sentry::severity::Severity;

fn moment() -> SystemTime {
    SystemTime::UNIX_EPOCH + Duration::from_secs(1_700_000_000)
}

fn crumb(level: Level, message: &str) -> Breadcrumb {
    let mut data = BTreeMap::new();
    data.insert("code".to_string(), Value::from(28));
    Breadcrumb {
        timestamp: moment(),
        ty: "log".to_string(),
        category: Some("storage".to_string()),
        level,
        message: Some(message.to_string()),
        data,
    }
}

#[test]
fn only_error_is_an_error() {
    assert!(Severity::Error.is_error());
    assert!(!Severity::Warn.is_error());
    assert!(!Severity::Info.is_error());
    assert!(!Severity::Debug.is_error());
    assert!(!Severity::Trace.is_error());
}

#[test]
fn incident_keeps_level_message_and_timestamp() {
    let incident = crumb(Level::Error, "disk full").into_incident();
    assert_eq!(
        incident,
        Incident {
            level: Level::Error,
            message: Some("disk full".to_string()),
            timestamp: moment(),
        }
    );
}

#[test]
fn incident_without_message() {
    let mut breadcrumb = crumb(Level::Warning, "");
    breadcrumb.message = None;
    let incident = breadcrumb.into_incident();
    assert_eq!(incident.level, Level::Warning);
    assert_eq!(incident.message, None);
    assert_eq!(incident.timestamp, moment());
}

#[test]
fn below_error_is_a_breadcrumb_under_either_policy() {
    let cases = [
        (Severity::Trace, Level::Debug),
        (Severity::Debug, Level::Debug),
        (Severity::Info, Level::Info),
        (Severity::Warn, Level::Warning),
    ];
    for (severity, level) in cases {
        for policy in [true, false] {
            let d = classify(policy, severity, crumb(level, "cache miss"));
            assert_eq!(d, Disposition::Breadcrumb(crumb(level, "cache miss")));
        }
    }
}

#[test]
fn error_is_an_incident_when_errors_are_reported() {
    let d = classify(false, Severity::Error, crumb(Level::Error, "disk full"));
    assert_eq!(
        d,
        Disposition::Incident(Incident {
            level: Level::Error,
            message: Some("disk full".to_string()),
            timestamp: moment(),
        })
    );
}

#[test]
fn error_is_a_breadcrumb_when_only_panics_are_reported() {
    let d = classify(true, Severity::Error, crumb(Level::Error, "disk full"));
    assert_eq!(d, Disposition::Breadcrumb(crumb(Level::Error, "disk full")));
}

#[test]
fn classifying_twice_gives_the_same_answer_twice() {
    let first = classify(false, Severity::Error, crumb(Level::Error, "disk full"));
    let second = classify(false, Severity::Error, crumb(Level::Error, "disk full"));
    assert_eq!(first, second);
    assert!(matches!(second, Disposition::Incident(_)));
}

#[test]
fn the_incident_takes_the_level_of_the_breadcrumb_not_of_the_event() {
    let d = classify(false, Severity::Error, crumb(Level::Fatal, "out of memory"));
    match d {
        Disposition::Incident(incident) => assert_eq!(incident.level, Level::Fatal),
        Disposition::Breadcrumb(_) => panic!("an error was left as a breadcrumb"),
    }
}
