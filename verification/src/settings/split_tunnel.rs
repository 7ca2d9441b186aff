//! The applications that are kept out of the tunnel.

use std::collections::HashSet;
use std::path::PathBuf;
use vstd::prelude::*;

verus! {

/// `std::path::PathBuf`, the path of a file. It is only kept and handed on:
/// nothing is claimed of what a path holds.
#[verifier::external_type_specification]
#[verifier::external_body]
pub struct ExPathBuf(std::path::PathBuf);

/// `HashSet::clone`: the copy holds the same paths as the set it was made from.
#[verifier::external_body]
fn clone_paths(paths: &HashSet<PathBuf>) -> (copy: HashSet<PathBuf>)
    ensures
        copy@ == paths@,
{
    paths.clone()
}

/// Which applications are kept out of the tunnel, on a platform that can do so.
#[derive(Debug, PartialEq, Eq)]
pub struct SplitTunnelSettings {
    /// Whether the applications listed are in fact kept out.
    pub enable_exclusions: bool,
    /// The applications to keep out of the tunnel, each by the path of its program.
    pub apps: HashSet<PathBuf>,
}

/// A `SplitTunnelSettings` as a value.
pub ghost struct SplitTunnelSettingsView {
    pub enable_exclusions: bool,
    pub apps: Set<PathBuf>,
}

impl View for SplitTunnelSettings {
    type V = SplitTunnelSettingsView;

    open spec fn view(&self) -> SplitTunnelSettingsView {
        SplitTunnelSettingsView { enable_exclusions: self.enable_exclusions, apps: self.apps@ }
    }
}

impl SplitTunnelSettingsView {
    /// Nothing is kept out of the tunnel.
    pub open spec fn nothing_excluded() -> SplitTunnelSettingsView {
        SplitTunnelSettingsView { enable_exclusions: false, apps: Set::empty() }
    }
}

impl Clone for SplitTunnelSettings {
    fn clone(&self) -> (copy: SplitTunnelSettings)
        ensures
            copy@ == self@,
    {
        SplitTunnelSettings {
            enable_exclusions: self.enable_exclusions,
            apps: clone_paths(&self.apps),
        }
    }
}

impl Default for SplitTunnelSettings {
    /// No application is listed, and the list is not in force.
    fn default() -> (settings: SplitTunnelSettings)
        ensures
            settings@ == SplitTunnelSettingsView::nothing_excluded(),
    {
        SplitTunnelSettings { enable_exclusions: false, apps: HashSet::new() }
    }
}

} // verus!
