//! The calls into the Sentry client. Verus does not read the client: what the
//! contracts in this file say of it is taken on trust, and everything else in
//! the library is proved from them.

use crate::record::{Breadcrumb, Incident};
use sentry::types::{Dsn, ParseDsnError};
use sentry::ClientInitGuard;
use vstd::prelude::*;

verus! {

/// `sentry::ClientInitGuard`, the handle of the session with the reporting
/// service. Dropping it flushes what the client still holds.
#[verifier::external_type_specification]
#[verifier::external_body]
pub struct ExClientInitGuard(sentry::ClientInitGuard);

/// `sentry::types::Dsn`, a destination address that the client has parsed.
#[verifier::external_type_specification]
#[verifier::external_body]
pub struct ExDsn(sentry::types::Dsn);

/// `sentry::types::ParseDsnError`, the client's reason for refusing an
/// address.
#[verifier::external_type_specification]
#[verifier::external_body]
pub struct ExParseDsnError(sentry::types::ParseDsnError);

/// Whether `sentry::IntoDsn::into_dsn` accepts the address. The client's
/// parser decides this from the text alone.
pub uninterp spec fn dsn_is_valid(dsn: Seq<char>) -> bool;

/// Calls `sentry::IntoDsn::into_dsn` on the address. The trait's
/// implementation for `&str` answers the empty text with `Ok(None)` and hands
/// any other text to the parser of `Dsn`, so that `Ok(None)` comes back for
/// the empty text only; when the answer is `Ok` is given the name
/// `dsn_is_valid`.
#[verifier::external_body]
pub(crate) fn parse_dsn(dsn: &str) -> (parsed: Result<Option<Dsn>, ParseDsnError>)
    ensures
        parsed is Ok <==> dsn_is_valid(dsn@),
        dsn@.len() == 0 ==> parsed is Ok,
        parsed matches Ok(address) ==> (address is None <==> dsn@.len() == 0),
{
    sentry::IntoDsn::into_dsn(dsn)
}

/// Calls `sentry::init` with the address and the release name, every other
/// option at its default. Nothing is claimed of the guard that comes back. An
/// address that is already parsed cannot make `init` panic.
#[verifier::external_body]
pub(crate) fn init(dsn: Option<Dsn>, release: String) -> (guard: ClientInitGuard) {
    sentry::init((dsn, sentry::ClientOptions::new().release(release)))
}

/// Calls `sentry::configure_scope` and, in it, `sentry::Scope::set_tag` with
/// the key and the value. The scope is the client's own: nothing is claimed.
#[verifier::external_body]
pub(crate) fn set_tag(key: &str, value: &str) {
    sentry::configure_scope(|scope| scope.set_tag(key, value));
}

/// Calls `sentry::capture_event` with an event that has the incident's level,
/// message and timestamp, every other field at its default. The client sends
/// it or drops it on its own terms: nothing is claimed.
#[verifier::external_body]
pub(crate) fn capture_event(incident: &Incident) {
    sentry::capture_event(
        sentry::protocol::Event {
            level: incident.level,
            message: incident.message.clone(),
            timestamp: incident.timestamp,
            ..Default::default()
        },
    );
}

/// Calls `sentry::add_breadcrumb` with a breadcrumb that has the same six
/// fields. The client keeps it in a buffer of its own: nothing is claimed.
#[verifier::external_body]
pub(crate) fn add_breadcrumb(breadcrumb: &Breadcrumb) {
    sentry::add_breadcrumb(
        sentry::Breadcrumb {
            timestamp: breadcrumb.timestamp,
            ty: breadcrumb.ty.clone(),
            category: breadcrumb.category.clone(),
            level: breadcrumb.level,
            message: breadcrumb.message.clone(),
            data: breadcrumb.data.clone(),
        },
    );
}

} // verus!
