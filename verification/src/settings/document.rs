//! The settings as a structured document, the form in which they are stored
//! and read back.
//!
//! A document names each field of the settings and may leave any of them out
//! but the schema version. A field that is left out is read as the default of
//! that field, so that a document written before a field existed can still be
//! read. The schema version has no default: it is stored as a bare number, and
//! a document that holds none, or a number that names no known version, fails
//! as a whole.

use crate::relay_constraints::{
    BridgeSettings, BridgeState, ObfuscationSettings, RelaySettings, RelaySettingsView,
};
use crate::settings::platform::Platform;
use crate::settings::split_tunnel::{SplitTunnelSettings, SplitTunnelSettingsView};
use crate::settings::tunnel_options::{
    DnsOptions, GenericTunnelOptions, OpenVpnOptions, TunnelOptionsView, WireguardOptions,
    WireguardOptionsView,
};
use crate::settings::version::{InvalidSettingsVersion, SettingsVersion};
use vstd::string::StringExecFns;
use crate::settings::{option_view, SettingsView};
use vstd::prelude::*;

verus! {

/// Why a document cannot be read as settings.
#[derive(Debug, Clone, Copy, PartialEq, Eq, Structural)]
pub enum DocumentError {
    /// The document holds no schema version, so nothing tells how to take
    /// the rest of it.
    MissingVersion,
    /// The document holds a number that names no known schema version.
    InvalidVersion(InvalidSettingsVersion),
}

impl DocumentError {
    /// The text of the message.
    pub open spec fn message_text(self) -> Seq<char> {
        match self {
            DocumentError::MissingVersion => "missing field `settings_version`"@,
            DocumentError::InvalidVersion(invalid) => invalid.message_text(),
        }
    }

    /// A message for the reader of a log or a failed load. For a number that
    /// names no version, it names the number.
    pub fn message(&self) -> (text: String)
        ensures
            text@ == self.message_text(),
    {
        match self {
            DocumentError::MissingVersion => String::from_str("missing field `settings_version`"),
            DocumentError::InvalidVersion(invalid) => invalid.message(),
        }
    }
}

/// The tunnel options as they stand in a document: each block is there or not.
#[derive(Debug, PartialEq, Eq)]
pub struct TunnelOptionsDocument {
    pub openvpn: Option<OpenVpnOptions>,
    pub wireguard: Option<WireguardOptions>,
    pub generic: Option<GenericTunnelOptions>,
    pub dns_options: Option<DnsOptions>,
}

/// A `TunnelOptionsDocument` as a value.
pub ghost struct TunnelOptionsDocumentView {
    pub openvpn: Option<Seq<u8>>,
    pub wireguard: Option<WireguardOptionsView>,
    pub generic: Option<GenericTunnelOptions>,
    pub dns_options: Option<Seq<u8>>,
}

impl View for TunnelOptionsDocument {
    type V = TunnelOptionsDocumentView;

    open spec fn view(&self) -> TunnelOptionsDocumentView {
        TunnelOptionsDocumentView {
            openvpn: option_view(self.openvpn),
            wireguard: option_view(self.wireguard),
            generic: self.generic,
            dns_options: option_view(self.dns_options),
        }
    }
}

impl Default for TunnelOptionsDocument {
    /// The document that leaves every block out.
    fn default() -> (document: TunnelOptionsDocument)
        ensures
            document@ == TunnelOptionsDocumentView::empty(),
    {
        TunnelOptionsDocument { openvpn: None, wireguard: None, generic: None, dns_options: None }
    }
}

impl TunnelOptionsDocumentView {
    /// The document that leaves every block out.
    pub open spec fn empty() -> TunnelOptionsDocumentView {
        TunnelOptionsDocumentView { openvpn: None, wireguard: None, generic: None, dns_options: None }
    }

    /// The tunnel options that this document is read as on `platform`: the
    /// blocks that are there, and the default of each block that is not.
    pub open spec fn decoded(self, platform: Platform) -> TunnelOptionsView {
        let defaults = TunnelOptionsView::default_for(platform);
        TunnelOptionsView {
            openvpn: match self.openvpn {
                Some(openvpn) => openvpn,
                None => defaults.openvpn,
            },
            wireguard: match self.wireguard {
                Some(wireguard) => wireguard,
                None => defaults.wireguard,
            },
            generic: match self.generic {
                Some(generic) => generic,
                None => defaults.generic,
            },
            dns_options: match self.dns_options {
                Some(dns_options) => dns_options,
                None => defaults.dns_options,
            },
        }
    }
}

impl TunnelOptionsView {
    /// The document that holds every block of these options.
    pub open spec fn document(self) -> TunnelOptionsDocumentView {
        TunnelOptionsDocumentView {
            openvpn: Some(self.openvpn),
            wireguard: Some(self.wireguard),
            generic: Some(self.generic),
            dns_options: Some(self.dns_options),
        }
    }
}

/// The settings as they stand in a document: each field is there or not, and
/// the schema version is the bare number that was stored.
#[derive(Debug, PartialEq)]
pub struct SettingsDocument {
    pub relay_settings: Option<RelaySettings>,
    pub bridge_settings: Option<BridgeSettings>,
    pub obfuscation_settings: Option<ObfuscationSettings>,
    pub bridge_state: Option<BridgeState>,
    pub allow_lan: Option<bool>,
    pub block_when_disconnected: Option<bool>,
    pub auto_connect: Option<bool>,
    pub tunnel_options: Option<TunnelOptionsDocument>,
    pub show_beta_releases: Option<bool>,
    pub split_tunnel: Option<SplitTunnelSettings>,
    pub settings_version: Option<u32>,
}

/// A `SettingsDocument` as a value.
pub ghost struct SettingsDocumentView {
    pub relay_settings: Option<RelaySettingsView>,
    pub bridge_settings: Option<Seq<u8>>,
    pub obfuscation_settings: Option<ObfuscationSettings>,
    pub bridge_state: Option<BridgeState>,
    pub allow_lan: Option<bool>,
    pub block_when_disconnected: Option<bool>,
    pub auto_connect: Option<bool>,
    pub tunnel_options: Option<TunnelOptionsDocumentView>,
    pub show_beta_releases: Option<bool>,
    pub split_tunnel: Option<SplitTunnelSettingsView>,
    pub settings_version: Option<u32>,
}

impl View for SettingsDocument {
    type V = SettingsDocumentView;

    open spec fn view(&self) -> SettingsDocumentView {
        SettingsDocumentView {
            relay_settings: option_view(self.relay_settings),
            bridge_settings: option_view(self.bridge_settings),
            obfuscation_settings: self.obfuscation_settings,
            bridge_state: self.bridge_state,
            allow_lan: self.allow_lan,
            block_when_disconnected: self.block_when_disconnected,
            auto_connect: self.auto_connect,
            tunnel_options: option_view(self.tunnel_options),
            show_beta_releases: self.show_beta_releases,
            split_tunnel: option_view(self.split_tunnel),
            settings_version: self.settings_version,
        }
    }
}

impl Default for SettingsDocument {
    /// The document that leaves every field out.
    fn default() -> (document: SettingsDocument)
        ensures
            document@ == SettingsDocumentView::empty(),
    {
        SettingsDocument {
            relay_settings: None,
            bridge_settings: None,
            obfuscation_settings: None,
            bridge_state: None,
            allow_lan: None,
            block_when_disconnected: None,
            auto_connect: None,
            tunnel_options: None,
            show_beta_releases: None,
            split_tunnel: None,
            settings_version: None,
        }
    }
}

impl SettingsDocumentView {
    /// The document that leaves every field out.
    pub open spec fn empty() -> SettingsDocumentView {
        SettingsDocumentView {
            relay_settings: None,
            bridge_settings: None,
            obfuscation_settings: None,
            bridge_state: None,
            allow_lan: None,
            block_when_disconnected: None,
            auto_connect: None,
            tunnel_options: None,
            show_beta_releases: None,
            split_tunnel: None,
            settings_version: None,
        }
    }

    /// The schema version that this document is read as: the version that the
    /// stored number stands for. A document that stores none, or a number that
    /// stands for no version, has no version to be read as.
    pub open spec fn decoded_version(self) -> Result<SettingsVersion, DocumentError> {
        match self.settings_version {
            Some(raw) => match SettingsVersion::decoded(raw) {
                Ok(version) => Ok(version),
                Err(invalid) => Err(DocumentError::InvalidVersion(invalid)),
            },
            None => Err(DocumentError::MissingVersion),
        }
    }

    /// The list of applications kept out of the tunnel that this document is
    /// read as on `platform`. A platform that cannot keep any out has no list,
    /// whatever the document holds.
    pub open spec fn decoded_split_tunnel(self, platform: Platform) -> Option<
        SplitTunnelSettingsView,
    > {
        if platform.split_tunneling {
            match self.split_tunnel {
                Some(split_tunnel) => Some(split_tunnel),
                None => SettingsView::default_for(platform).split_tunnel,
            }
        } else {
            None
        }
    }

    /// The settings that this document is read as on `platform`, if it holds
    /// a known schema version: the fields that are there, and the default of
    /// each field that is not.
    pub open spec fn decoded(self, platform: Platform) -> Result<SettingsView, DocumentError> {
        let defaults = SettingsView::default_for(platform);
        match self.decoded_version() {
            Err(error) => Err(error),
            Ok(settings_version) => Ok(
                SettingsView {
                    relay_settings: match self.relay_settings {
                        Some(relay_settings) => relay_settings,
                        None => defaults.relay_settings,
                    },
                    bridge_settings: match self.bridge_settings {
                        Some(bridge_settings) => bridge_settings,
                        None => defaults.bridge_settings,
                    },
                    obfuscation_settings: match self.obfuscation_settings {
                        Some(obfuscation_settings) => obfuscation_settings,
                        None => defaults.obfuscation_settings,
                    },
                    bridge_state: match self.bridge_state {
                        Some(bridge_state) => bridge_state,
                        None => defaults.bridge_state,
                    },
                    allow_lan: match self.allow_lan {
                        Some(allow_lan) => allow_lan,
                        None => defaults.allow_lan,
                    },
                    block_when_disconnected: match self.block_when_disconnected {
                        Some(block_when_disconnected) => block_when_disconnected,
                        None => defaults.block_when_disconnected,
                    },
                    auto_connect: match self.auto_connect {
                        Some(auto_connect) => auto_connect,
                        None => defaults.auto_connect,
                    },
                    tunnel_options: match self.tunnel_options {
                        Some(tunnel_options) => tunnel_options.decoded(platform),
                        None => defaults.tunnel_options,
                    },
                    show_beta_releases: match self.show_beta_releases {
                        Some(show_beta_releases) => show_beta_releases,
                        None => defaults.show_beta_releases,
                    },
                    split_tunnel: self.decoded_split_tunnel(platform),
                    settings_version,
                },
            ),
        }
    }

    /// A document that holds nothing but a known schema version is read as
    /// the default settings, stamped with that version.
    pub proof fn lemma_version_alone_gives_defaults(version: SettingsVersion, platform: Platform)
        ensures
            (SettingsDocumentView {
                settings_version: Some(version.ordinal() as u32),
                ..Self::empty()
            }).decoded(platform) == Ok::<SettingsView, DocumentError>(
                SettingsView { settings_version: version, ..SettingsView::default_for(platform) },
            ),
    {
        SettingsVersion::lemma_decode_inverts_encode(version);
    }

    /// A document that holds no schema version is refused, whatever else it
    /// holds: the version is the one field that no default stands in for.
    pub proof fn lemma_missing_version_is_refused(self, platform: Platform)
        requires
            self.settings_version is None,
        ensures
            self.decoded(platform) == Err::<SettingsView, DocumentError>(
                DocumentError::MissingVersion,
            ),
            Self::empty().decoded(platform) == Err::<SettingsView, DocumentError>(
                DocumentError::MissingVersion,
            ),
    {
    }

    /// A document whose schema version is no known one is refused, whatever
    /// else it holds, and the error names the number that was found.
    pub proof fn lemma_unknown_version_is_refused(self, platform: Platform)
        ensures
            self.decoded(platform) is Ok <==> (self.settings_version matches Some(raw) && 2 <= raw
                <= 6),
            self.settings_version matches Some(raw) ==> (!(2 <= raw <= 6) ==> self.decoded(
                platform,
            ) == Err::<SettingsView, DocumentError>(
                DocumentError::InvalidVersion(InvalidSettingsVersion { value: raw }),
            )),
    {
        if let Some(raw) = self.settings_version {
            SettingsVersion::lemma_decode_rejects_unknown(raw);
        }
    }

    /// Each field that a document with a known version holds is read as it
    /// stands, and each field that it leaves out as in the default settings.
    pub proof fn lemma_fields_are_taken_or_defaulted(self, platform: Platform)
        requires
            self.decoded(platform) is Ok,
        ensures
            ({
                let read = self.decoded(platform)->Ok_0;
                let defaults = SettingsView::default_for(platform);
                &&& read.relay_settings == self.relay_settings.unwrap_or(defaults.relay_settings)
                &&& read.bridge_settings == self.bridge_settings.unwrap_or(
                    defaults.bridge_settings,
                )
                &&& read.obfuscation_settings == self.obfuscation_settings.unwrap_or(
                    defaults.obfuscation_settings,
                )
                &&& read.bridge_state == self.bridge_state.unwrap_or(defaults.bridge_state)
                &&& read.allow_lan == self.allow_lan.unwrap_or(defaults.allow_lan)
                &&& read.block_when_disconnected == self.block_when_disconnected.unwrap_or(
                    defaults.block_when_disconnected,
                )
                &&& read.auto_connect == self.auto_connect.unwrap_or(defaults.auto_connect)
                &&& read.tunnel_options == match self.tunnel_options {
                    Some(tunnel_options) => tunnel_options.decoded(platform),
                    None => defaults.tunnel_options,
                }
                &&& read.show_beta_releases == self.show_beta_releases.unwrap_or(
                    defaults.show_beta_releases,
                )
                &&& platform.split_tunneling ==> read.split_tunnel == Some(
                    self.split_tunnel.unwrap_or(SplitTunnelSettingsView::nothing_excluded()),
                )
                &&& !platform.split_tunneling ==> read.split_tunnel is None
                &&& self.settings_version is Some
                &&& read.settings_version.ordinal() == self.settings_version->Some_0
            }),
    {
        if let Some(raw) = self.settings_version {
            SettingsVersion::lemma_decode_rejects_unknown(raw);
        }
    }
}

impl SettingsView {
    /// The document that holds every field of these settings, with the schema
    /// version as its bare number.
    pub open spec fn document(self) -> SettingsDocumentView {
        SettingsDocumentView {
            relay_settings: Some(self.relay_settings),
            bridge_settings: Some(self.bridge_settings),
            obfuscation_settings: Some(self.obfuscation_settings),
            bridge_state: Some(self.bridge_state),
            allow_lan: Some(self.allow_lan),
            block_when_disconnected: Some(self.block_when_disconnected),
            auto_connect: Some(self.auto_connect),
            tunnel_options: Some(self.tunnel_options.document()),
            show_beta_releases: Some(self.show_beta_releases),
            split_tunnel: self.split_tunnel,
            settings_version: Some(self.settings_version.ordinal() as u32),
        }
    }

    /// Settings that are written to a document and read back, on a platform
    /// that has a list of excluded applications exactly if the settings have
    /// one, are the same settings.
    pub proof fn lemma_document_round_trip(self, platform: Platform)
        requires
            self.split_tunnel is Some <==> platform.split_tunneling,
        ensures
            self.document().decoded(platform) == Ok::<SettingsView, DocumentError>(self),
    {
        SettingsVersion::lemma_decode_inverts_encode(self.settings_version);
    }
}

} // verus!
