//! The layer that the logging façade calls once for every event.

use crate::classify::{classify, disposition, Disposition};
use crate::client::{add_breadcrumb, capture_event};
use crate::record::{incident_of, Breadcrumb};
use crate::severity::Severity;
use sentry::ClientInitGuard;
use vstd::prelude::*;

verus! {

/// A layer that reports events to Sentry. It owns the session with the
/// reporting service, which ends when the layer is dropped, and the policy
/// that was chosen when it was installed. Neither changes afterwards.
pub struct SentryLayer {
    guard: ClientInitGuard,
    report_only_panic: bool,
}

impl SentryLayer {
    /// The session that the layer keeps alive.
    pub closed spec fn guard(&self) -> ClientInitGuard {
        self.guard
    }

    /// The policy of the layer, as contracts speak of it.
    pub closed spec fn policy(&self) -> bool {
        self.report_only_panic
    }

    /// Create the layer.
    pub fn new(guard: ClientInitGuard, report_only_panic: bool) -> (layer: Self)
        ensures
            layer.guard() == guard,
            layer.policy() == report_only_panic,
    {
        Self { guard, report_only_panic }
    }

    /// Whether the layer leaves error events as breadcrumbs, so that only a
    /// panic is reported as an incident.
    #[verifier::when_used_as_spec(policy)]
    pub fn report_only_panic(&self) -> (only_panic: bool)
        ensures
            only_panic == self.policy(),
    {
        self.report_only_panic
    }

    /// Handles one event: submits it to the reporting client as an incident
    /// or adds it as a breadcrumb, and returns what it handed over. The client
    /// is not asked whether it took the record, and the layer remembers
    /// nothing of the event.
    pub fn on_event(&self, severity: Severity, breadcrumb: Breadcrumb) -> (d: Disposition)
        ensures
            d == disposition(self.policy(), severity, breadcrumb),
            severity.rank() < Severity::Error.rank() ==> d == Disposition::Breadcrumb(breadcrumb),
            severity == Severity::Error && self.policy() ==> d == Disposition::Breadcrumb(
                breadcrumb,
            ),
            severity == Severity::Error && !self.policy() ==> d == Disposition::Incident(
                incident_of(breadcrumb),
            ),
    {
        let d = classify(self.report_only_panic, severity, breadcrumb);
        match &d {
            Disposition::Incident(incident) => capture_event(incident),
            Disposition::Breadcrumb(breadcrumb) => add_breadcrumb(breadcrumb),
        }
        d
    }
}

} // verus!
