//! User-facing notices the resolution can ask the host to show.
//!
//! The pipeline emits at most one notice per step: an error when the
//! dependency tool is missing or the install fails, an info message after a
//! successful install, and one generic error wrapper for any other failure
//! of the resolution.

use vstd::prelude::*;
use vstd::string::StringExecFns;

verus! {

/// Severity of a notice.
#[derive(Clone, Copy, PartialEq, Eq, Structural, Debug)]
pub enum Level {
    Info,
    Error,
}

/// One message for the host to surface to the user.
pub struct Notice {
    pub level: Level,
    pub text: String,
}

/// The error text shown when the package-manager tool cannot be run.
pub open spec fn spec_tool_missing_text() -> Seq<char> {
    "Could not find npm. Npm must be available to download emmet-ls."@
}

/// The error text shown when the install command fails.
pub open spec fn spec_install_failed_text() -> Seq<char> {
    "Emmet-ls failed to install."@
}

/// The info text shown after a successful install.
pub open spec fn spec_installed_text() -> Seq<char> {
    "Emmet-ls installed successfully!"@
}

/// The prefix of the generic wrapper for any other resolution failure.
pub open spec fn spec_failure_prefix() -> Seq<char> {
    "plugin returned with error: "@
}

/// The generic failure text that wraps a failure's description.
pub open spec fn spec_failure_text(description: Seq<char>) -> Seq<char> {
    spec_failure_prefix() + description
}

pub fn tool_missing_notice() -> (r: Notice)
    ensures
        r.level is Error,
        r.text@ == spec_tool_missing_text(),
{
    Notice {
        level: Level::Error,
        text: "Could not find npm. Npm must be available to download emmet-ls.".to_owned(),
    }
}

pub fn install_failed_notice() -> (r: Notice)
    ensures
        r.level is Error,
        r.text@ == spec_install_failed_text(),
{
    Notice { level: Level::Error, text: "Emmet-ls failed to install.".to_owned() }
}

pub fn installed_notice() -> (r: Notice)
    ensures
        r.level is Info,
        r.text@ == spec_installed_text(),
{
    Notice { level: Level::Info, text: "Emmet-ls installed successfully!".to_owned() }
}

/// The one generic error notice every otherwise-unhandled failure funnels
/// into, wrapping the failure's own description.
pub fn failure_notice(description: &str) -> (r: Notice)
    ensures
        r.level is Error,
        r.text@ == spec_failure_text(description@),
{
    let mut text: String = "plugin returned with error: ".to_owned();
    text.append(description);
    Notice { level: Level::Error, text }
}

} // verus!
