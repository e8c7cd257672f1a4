//! Command-line arguments of the MESHH terminal client and the decisions of its commands.
use vstd::prelude::*;

use crate::text::{concat2, str_eq, trim, trim_text};
use crate::update::UpdateCheck;

verus! {

/// Command-line arguments for the MESHH terminal client.
#[derive(Debug, PartialEq, Eq)]
pub struct Cli {
    /// Override the MESHH API base URL for this invocation.
    pub api_base_url: Option<String>,
    pub command: Command,
}

/// Supported top-level commands.
#[derive(Debug, Clone, Copy, PartialEq, Eq)]
pub enum Command {
    /// Authenticate this terminal with MESHH.
    Login,
    /// Open the route delivery terminal UI.
    Tui,
    /// Check for or install the latest release.
    Update {
        /// Only check for a newer release; do not install it.
        check: bool,
        /// Install without prompting for confirmation.
        yes: bool,
    },
}

/// Whether an answer to the install prompt confirms it: after trimming, one of `y`, `Y`,
/// `yes`, `YES` or `Yes`.
pub open spec fn confirms_install(answer: Seq<char>) -> bool {
    let a = trim(answer);
    a == "y"@ || a == "Y"@ || a == "yes"@ || a == "YES"@ || a == "Yes"@
}

/// Returns whether an answer to the install prompt confirms it (see `confirms_install`).
pub fn is_install_confirmation(answer: &str) -> (r: bool)
    ensures
        r == confirms_install(answer@),
{
    let a = trim_text(answer);
    let a = a.as_str();
    str_eq(a, "y") || str_eq(a, "Y") || str_eq(a, "yes") || str_eq(a, "YES") || str_eq(a, "Yes")
}

/// Whether `meshh update` goes on to install after its report: not when only checking, and
/// only when a newer release exists.
pub fn should_install(check_only: bool, check: &UpdateCheck) -> (r: bool)
    ensures
        r == (!check_only && check.is_update()),
{
    !check_only && check.update_available()
}

/// Line naming the directory an update is installed into.
pub fn install_directory_text(dir: &str) -> (r: String)
    ensures
        r@ == "Install directory: "@ + dir@,
{
    concat2("Install directory: ", dir)
}

} // verus!
