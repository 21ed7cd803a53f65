//! When to open the installer of the browser bridge's extension.

use vstd::prelude::*;

verus! {

/// A snapshot of the browser bridge.
#[derive(Debug, Clone)]
pub struct BrowserStatus {
    pub backend: &'static str,
    pub browser: &'static str,
    /// The marker of a completed setup is there.
    pub setup_complete: bool,
    pub binary_installed: bool,
    /// The bridge answers.
    pub responding: bool,
    pub compatible: bool,
    pub missing_actions: Vec<String>,
    pub ready: bool,
}

/// The installer is called for.
pub open spec fn calls_for_installer(status: BrowserStatus) -> bool {
    !status.setup_complete || (status.binary_installed && !status.responding)
}

/// Before the marker is written the installer is always called for. With it, a responding bridge
/// stays inert, a missing binary leaves nothing to reconnect to, and a dead bridge with its binary
/// in place is recovered, however long the marker has been there.
pub proof fn law_stale_marker_does_not_suppress_the_installer(status: BrowserStatus)
    ensures
        !status.setup_complete ==> calls_for_installer(status),
        status.setup_complete && status.responding ==> !calls_for_installer(status),
        status.setup_complete && !status.binary_installed ==> !calls_for_installer(status),
        status.setup_complete && status.binary_installed && !status.responding
            ==> calls_for_installer(status),
{
}

/// Whether setup should open the extension installer.
///
/// Before the marker is written it always should. Afterwards only a dead bridge with the binary
/// still there calls for it: a stale marker must not suppress the installer for good, a responding
/// bridge stays inert, and without the binary there is nothing to reconnect to.
pub fn should_prompt_extension_install(status: &BrowserStatus) -> (prompt: bool)
    ensures
        prompt <==> !status.setup_complete || (status.binary_installed && !status.responding),
        prompt == calls_for_installer(*status),
{
    if !status.setup_complete {
        return true;
    }
    status.binary_installed && !status.responding
}

} // verus!
