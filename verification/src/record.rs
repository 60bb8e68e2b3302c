//! What is known of one log event once the reporting client's converter has
//! looked at it, in the two forms in which it can be handed on.

use std::collections::BTreeMap;
use std::time::SystemTime;
use vstd::prelude::*;

verus! {

/// `sentry::Level`, the severity that the reporting service files a record
/// under. The library never looks into it: it is moved from the breadcrumb
/// into the incident.
#[verifier::external_type_specification]
#[verifier::external_body]
pub struct ExLevel(sentry::Level);

/// `sentry::protocol::Value`, a JSON value among the data of a breadcrumb.
#[verifier::external_type_specification]
#[verifier::external_body]
pub struct ExValue(sentry::protocol::Value);

/// `std::time::SystemTime`, the moment at which an event was seen.
#[verifier::external_type_specification]
#[verifier::external_body]
pub struct ExSystemTime(std::time::SystemTime);

/// A context entry: it raises no alert of its own, the reporting client keeps
/// it and attaches it to the next incident.
#[derive(Debug, PartialEq)]
pub struct Breadcrumb {
    /// When the event was seen.
    pub timestamp: SystemTime,
    /// The kind of entry, `"log"` for a log event.
    pub ty: String,
    /// Where the event came from, if that is known.
    pub category: Option<String>,
    /// The severity in the reporting service's terms.
    pub level: sentry::Level,
    /// The event's message, if it has one.
    pub message: Option<String>,
    /// The event's structured fields.
    pub data: BTreeMap<String, sentry::protocol::Value>,
}

/// An error occurrence that is reported as an issue of its own.
#[derive(Debug, PartialEq)]
pub struct Incident {
    /// The severity in the reporting service's terms.
    pub level: sentry::Level,
    /// The event's message, if it has one.
    pub message: Option<String>,
    /// When the event was seen.
    pub timestamp: SystemTime,
}

/// The incident that reports what a breadcrumb describes: its level, its
/// message and its timestamp, and nothing else of it.
pub open spec fn incident_of(breadcrumb: Breadcrumb) -> Incident {
    Incident {
        level: breadcrumb.level,
        message: breadcrumb.message,
        timestamp: breadcrumb.timestamp,
    }
}

impl Breadcrumb {
    /// Turns the breadcrumb into the incident that reports it.
    pub fn into_incident(self) -> (incident: Incident)
        ensures
            incident == incident_of(self),
    {
        Incident { level: self.level, message: self.message, timestamp: self.timestamp }
    }
}

} // verus!
