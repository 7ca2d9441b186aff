//! What depends on the platform that the client runs on.

use vstd::prelude::*;

verus! {

/// The two things about a platform that the settings depend on.
#[derive(Debug, Clone, Copy, PartialEq, Eq, Structural)]
pub struct Platform {
    /// Whether this is a mobile platform. There, tunnels carry IPv6 unless
    /// the user turns it off; elsewhere they do not unless the user turns it on.
    pub mobile: bool,
    /// Whether the platform can keep chosen applications out of the tunnel.
    /// Only then do the settings hold a list of such applications.
    pub split_tunneling: bool,
}

} // verus!
