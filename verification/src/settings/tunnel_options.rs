//! Options that apply to tunnels of one kind, wherever the relay is.

use crate::opaque::Opaque;
use crate::settings::document::TunnelOptionsDocument;
use crate::settings::platform::Platform;
use vstd::prelude::*;

verus! {

/// Options of OpenVPN tunnels. The OpenVPN layer owns them.
pub type OpenVpnOptions = Opaque;

/// The options of WireGuard tunnels that the WireGuard layer owns.
pub type WireguardBaseOptions = Opaque;

/// Options for name resolution. The DNS layer owns and checks them.
pub type DnsOptions = Opaque;

/// The time after which a WireGuard key is replaced by a new one.
#[derive(Debug, Clone, Copy, PartialEq, Eq, Structural)]
pub struct RotationInterval {
    pub seconds: u64,
}

/// Options of WireGuard tunnels.
#[derive(Debug, PartialEq, Eq)]
pub struct WireguardOptions {
    /// What the WireGuard layer reads.
    pub options: WireguardBaseOptions,
    /// How often the key is rotated; `None` leaves the choice to the client.
    pub rotation_interval: Option<RotationInterval>,
}

/// A `WireguardOptions` as a value.
pub ghost struct WireguardOptionsView {
    pub options: Seq<u8>,
    pub rotation_interval: Option<RotationInterval>,
}

impl View for WireguardOptions {
    type V = WireguardOptionsView;

    open spec fn view(&self) -> WireguardOptionsView {
        WireguardOptionsView {
            options: self.options@,
            rotation_interval: self.rotation_interval,
        }
    }
}

impl Clone for WireguardOptions {
    fn clone(&self) -> (copy: WireguardOptions)
        ensures
            copy@ == self@,
    {
        WireguardOptions {
            options: self.options.clone(),
            rotation_interval: self.rotation_interval,
        }
    }
}

impl WireguardOptionsView {
    /// Default options, and no rotation interval.
    pub open spec fn default_options() -> WireguardOptionsView {
        WireguardOptionsView { options: Seq::empty(), rotation_interval: None }
    }
}

/// Options that apply to tunnels of every kind.
#[derive(Debug, Clone, Copy, PartialEq, Eq, Structural)]
pub struct GenericTunnelOptions {
    /// Whether the tunnel carries IPv6.
    pub enable_ipv6: bool,
}

/// The options for tunnels, one block for each kind of tunnel, one for all
/// kinds, and one for name resolution. The blocks are independent of each other.
#[derive(Debug, PartialEq, Eq)]
pub struct TunnelOptions {
    /// Options of OpenVPN tunnels.
    pub openvpn: OpenVpnOptions,
    /// Options of WireGuard tunnels.
    pub wireguard: WireguardOptions,
    /// Options that may apply to more than one kind of tunnel.
    pub generic: GenericTunnelOptions,
    /// Options for name resolution.
    pub dns_options: DnsOptions,
}

/// A `TunnelOptions` as a value.
pub ghost struct TunnelOptionsView {
    pub openvpn: Seq<u8>,
    pub wireguard: WireguardOptionsView,
    pub generic: GenericTunnelOptions,
    pub dns_options: Seq<u8>,
}

impl View for TunnelOptions {
    type V = TunnelOptionsView;

    open spec fn view(&self) -> TunnelOptionsView {
        TunnelOptionsView {
            openvpn: self.openvpn@,
            wireguard: self.wireguard@,
            generic: self.generic,
            dns_options: self.dns_options@,
        }
    }
}

impl Clone for TunnelOptions {
    fn clone(&self) -> (copy: TunnelOptions)
        ensures
            copy@ == self@,
    {
        TunnelOptions {
            openvpn: self.openvpn.clone(),
            wireguard: self.wireguard.clone(),
            generic: self.generic,
            dns_options: self.dns_options.clone(),
        }
    }
}

impl TunnelOptionsView {
    /// The options of a fresh installation on `platform`: every block at its
    /// default, and IPv6 in the tunnel on mobile platforms only.
    pub open spec fn default_for(platform: Platform) -> TunnelOptionsView {
        TunnelOptionsView {
            openvpn: Seq::empty(),
            wireguard: WireguardOptionsView::default_options(),
            generic: GenericTunnelOptions { enable_ipv6: platform.mobile },
            dns_options: Seq::empty(),
        }
    }
}

impl TunnelOptions {
    /// The options of a fresh installation on `platform`.
    pub fn default(platform: Platform) -> (options: TunnelOptions)
        ensures
            options@ == TunnelOptionsView::default_for(platform),
            options@.generic.enable_ipv6 == platform.mobile,
    {
        TunnelOptions {
            openvpn: Opaque::default(),
            wireguard: WireguardOptions { options: Opaque::default(), rotation_interval: None },
            generic: GenericTunnelOptions { enable_ipv6: platform.mobile },
            dns_options: Opaque::default(),
        }
    }

    /// Reads the options from a document, on `platform`: each block that the
    /// document holds is taken as it stands, and each block that it leaves
    /// out is the default of that block.
    pub fn from_document(document: TunnelOptionsDocument, platform: Platform) -> (options:
        TunnelOptions)
        ensures
            options@ == document@.decoded(platform),
    {
        let defaults = TunnelOptions::default(platform);
        TunnelOptions {
            openvpn: match document.openvpn {
                Some(openvpn) => openvpn,
                None => defaults.openvpn,
            },
            wireguard: match document.wireguard {
                Some(wireguard) => wireguard,
                None => defaults.wireguard,
            },
            generic: match document.generic {
                Some(generic) => generic,
                None => defaults.generic,
            },
            dns_options: match document.dns_options {
                Some(dns_options) => dns_options,
                None => defaults.dns_options,
            },
        }
    }

    /// Writes the options out as a document that holds every block.
    pub fn into_document(self) -> (document: TunnelOptionsDocument)
        ensures
            document@ == self@.document(),
    {
        TunnelOptionsDocument {
            openvpn: Some(self.openvpn),
            wireguard: Some(self.wireguard),
            generic: Some(self.generic),
            dns_options: Some(self.dns_options),
        }
    }
}

} // verus!
