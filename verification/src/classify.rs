//! The rule that decides what becomes of a log event.

use crate::record::{incident_of, Breadcrumb, Incident};
use crate::severity::Severity;
use vstd::prelude::*;

verus! {

/// What is done with one log event.
#[derive(Debug, PartialEq)]
pub enum Disposition {
    /// The event is reported at once, as an incident.
    Incident(Incident),
    /// The event is kept as context for a later incident.
    Breadcrumb(Breadcrumb),
}

/// Whether an event of the given severity is reported as an incident: only an
/// error is, and only where the policy is not to report panics alone.
pub open spec fn escalates(report_only_panic: bool, severity: Severity) -> bool {
    severity == Severity::Error && !report_only_panic
}

/// What becomes of an event of the given severity that the reporting client
/// describes by `breadcrumb`.
pub open spec fn disposition(
    report_only_panic: bool,
    severity: Severity,
    breadcrumb: Breadcrumb,
) -> Disposition {
    if escalates(report_only_panic, severity) {
        Disposition::Incident(incident_of(breadcrumb))
    } else {
        Disposition::Breadcrumb(breadcrumb)
    }
}

/// Decides what becomes of one event. Nothing is submitted here.
pub fn classify(report_only_panic: bool, severity: Severity, breadcrumb: Breadcrumb) -> (d:
    Disposition)
    ensures
        d == disposition(report_only_panic, severity, breadcrumb),
        severity.rank() < Severity::Error.rank() ==> d == Disposition::Breadcrumb(breadcrumb),
        severity == Severity::Error && report_only_panic ==> d == Disposition::Breadcrumb(
            breadcrumb,
        ),
        severity == Severity::Error && !report_only_panic ==> d == Disposition::Incident(
            incident_of(breadcrumb),
        ),
{
    if severity.is_error() && !report_only_panic {
        Disposition::Incident(breadcrumb.into_incident())
    } else {
        Disposition::Breadcrumb(breadcrumb)
    }
}

/// What becomes of each event of a run, in the order of delivery: every
/// event is answered on its own, by the rule alone.
pub open spec fn dispositions(
    report_only_panic: bool,
    events: Seq<(Severity, Breadcrumb)>,
) -> Seq<Disposition> {
    Seq::new(
        events.len(),
        |i: int| disposition(report_only_panic, events[i].0, events[i].1),
    )
}

/// Nothing is deduplicated. A run of events is answered by as many
/// submissions, and an event that is delivered a second time is submitted a
/// second time, in the same way as the first.
pub proof fn repeated_event_is_submitted_again(
    report_only_panic: bool,
    events: Seq<(Severity, Breadcrumb)>,
    first: int,
    second: int,
)
    requires
        0 <= first < second < events.len(),
        events[first] == events[second],
    ensures
        dispositions(report_only_panic, events).len() == events.len(),
        dispositions(report_only_panic, events)[second] == disposition(
            report_only_panic,
            events[second].0,
            events[second].1,
        ),
        dispositions(report_only_panic, events)[second] == dispositions(
            report_only_panic,
            events,
        )[first],
{
}

} // verus!
