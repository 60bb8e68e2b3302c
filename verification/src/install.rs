//! Installation: from the process's configuration to a layer, or to nothing
//! where reporting is switched off.

use crate::client::{dsn_is_valid, init, parse_dsn};
use crate::executable::tag_executable;
use crate::layer::SentryLayer;
use sentry::types::{Dsn, ParseDsnError};
use vstd::prelude::*;
use vstd::string::StringExecFns;

verus! {

/// The name of this package, under which the two plain installers file their
/// reports.
pub const PACKAGE_NAME: &'static str = "vleue_sentry";

/// The version of this package.
pub const PACKAGE_VERSION: &'static str = "0.1.0";

/// The destination address was refused by the reporting client.
#[derive(Debug)]
pub struct InvalidDsn {
    /// The client's reason.
    pub source: ParseDsnError,
}

/// The release name of a program: its name, `@`, its version.
pub open spec fn release_of(name: Seq<char>, version: Seq<char>) -> Seq<char> {
    name + seq!['@'] + version
}

/// The release name under which a program's reports are filed.
pub fn release_name(name: &str, version: &str) -> (release: String)
    ensures
        release@ == release_of(name@, version@),
{
    proof {
        reveal_strlit("@");
    }
    let mut release = String::from_str(name);
    release.append("@");
    release.append(version);
    assert("@"@ =~= seq!['@']);
    release
}

/// What an installer owes for a destination address and a policy: nothing
/// where there is no address, a layer with that policy where the address is
/// empty or the reporting client accepts it, and the client's refusal in any
/// other case. (To the empty address the client's answer is a session that
/// sends nothing.)
pub open spec fn installed(
    dsn: Option<String>,
    report_only_panic: bool,
    outcome: Result<Option<SentryLayer>, InvalidDsn>,
) -> bool {
    match dsn {
        None => outcome matches Ok(None),
        Some(address) => if address@.len() == 0 || dsn_is_valid(address@) {
            outcome matches Ok(Some(layer)) && layer.policy() == report_only_panic
        } else {
            outcome is Err
        },
    }
}

/// Opens the session for an address that the reporting client has looked at,
/// tags it with the name of the running program and builds the layer that
/// owns it. A refused address opens nothing.
pub fn install_with_dsn(
    parsed: Result<Option<Dsn>, ParseDsnError>,
    program: Option<String>,
    release: String,
    report_only_panic: bool,
) -> (outcome: Result<SentryLayer, InvalidDsn>)
    ensures
        match parsed {
            Ok(_) => outcome matches Ok(layer) && layer.policy() == report_only_panic,
            Err(reason) => outcome matches Err(refusal) && refusal.source == reason,
        },
{
    match parsed {
        Err(reason) => Err(InvalidDsn { source: reason }),
        Ok(address) => {
            let guard = init(address, release);
            let _ = tag_executable(program);
            Ok(SentryLayer::new(guard, report_only_panic))
        },
    }
}

/// Installs reporting for a program of the given name and version. `dsn` is
/// the destination address from the process's configuration and `program`
/// the path that the process was started by.
///
/// Without an address reporting stays off: nothing is opened and there is no
/// layer. With an address that the reporting client accepts, the session is
/// opened under the program's release name and the layer comes back.
pub fn sentry_reporter(
    report_only_panic: bool,
    name: &str,
    version: &str,
    dsn: Option<String>,
    program: Option<String>,
) -> (outcome: Result<Option<SentryLayer>, InvalidDsn>)
    ensures
        installed(dsn, report_only_panic, outcome),
        dsn is None ==> outcome matches Ok(None),
{
    match dsn {
        None => Ok(None),
        Some(address) => {
            let parsed = parse_dsn(address.as_str());
            let release = release_name(name, version);
            match install_with_dsn(parsed, program, release, report_only_panic) {
                Ok(layer) => Ok(Some(layer)),
                Err(refusal) => Err(refusal),
            }
        },
    }
}

/// Reports panics to Sentry; logs will be added as breadcrumbs.
pub fn sentry_panic_reporter(dsn: Option<String>, program: Option<String>) -> (outcome: Result<
    Option<SentryLayer>,
    InvalidDsn,
>)
    ensures
        installed(dsn, true, outcome),
        dsn is None ==> outcome matches Ok(None),
{
    sentry_reporter(true, PACKAGE_NAME, PACKAGE_VERSION, dsn, program)
}

/// Reports panics and errors to Sentry; logs will be added as breadcrumbs.
pub fn sentry_error_reporter(dsn: Option<String>, program: Option<String>) -> (outcome: Result<
    Option<SentryLayer>,
    InvalidDsn,
>)
    ensures
        installed(dsn, false, outcome),
        dsn is None ==> outcome matches Ok(None),
{
    sentry_reporter(false, PACKAGE_NAME, PACKAGE_VERSION, dsn, program)
}

} // verus!
