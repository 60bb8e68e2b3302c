//! Forwards the log events of an application to Sentry: error events become
//! incidents or breadcrumbs according to the policy chosen at installation,
//! every other event becomes a breadcrumb.
//!
//! The rule is in [`classify`], the layer that applies it in [`layer`], and
//! the installers that build the layer in [`install`]. The calls into the
//! Sentry client are gathered in [`client`].

pub mod classify;
pub mod client;
pub mod executable;
pub mod install;
pub mod layer;
pub mod record;
pub mod severity;

pub use install::{sentry_error_reporter, sentry_panic_reporter, sentry_reporter};
pub use layer::SentryLayer;
