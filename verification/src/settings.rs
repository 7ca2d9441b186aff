//! The settings aggregate: what it holds, how a fresh one looks, and the
//! mutators that report whether they changed anything.

pub mod document;
pub mod platform;
pub mod split_tunnel;
pub mod tunnel_options;
pub mod version;

pub use document::DocumentError;
pub use document::SettingsDocument;
pub use document::SettingsDocumentView;
pub use document::TunnelOptionsDocument;
pub use platform::Platform;
pub use split_tunnel::SplitTunnelSettings;
pub use split_tunnel::SplitTunnelSettingsView;
pub use tunnel_options::TunnelOptions;
pub use tunnel_options::TunnelOptionsView;
pub use version::InvalidSettingsVersion;
pub use version::SettingsVersion;
pub use version::CURRENT_SETTINGS_VERSION;

use crate::opaque::Opaque;
use crate::relay_constraints::{
    BridgeSettings, BridgeState, LocationConstraint, LocationConstraintView, ObfuscationSettings,
    RelaySettings, RelaySettingsView, SelectedObfuscation,
};
use vstd::prelude::*;
use vstd::string::StringExecFns;

verus! {

/// The settings of the daemon.
///
/// The relay settings, the bridge state and the schema version can only be
/// changed through the methods, which say whether anything changed; the other
/// fields are plain storage, open to direct access and, with a contract,
/// through a getter and a setter each.
#[derive(Debug, PartialEq)]
pub struct Settings {
    relay_settings: RelaySettings,
    /// How a bridge is chosen, whether or not one is used.
    pub bridge_settings: BridgeSettings,
    /// How the tunnel's traffic is hidden.
    pub obfuscation_settings: ObfuscationSettings,
    bridge_state: BridgeState,
    /// Whether the daemon lets traffic to private (LAN) networks pass.
    pub allow_lan: bool,
    /// Whether all traffic is blocked while no tunnel is up.
    pub block_when_disconnected: bool,
    /// Whether the daemon connects as soon as it starts.
    pub auto_connect: bool,
    /// Options for tunnels of each kind, wherever the relay is.
    pub tunnel_options: TunnelOptions,
    /// Whether the user is told of beta releases.
    pub show_beta_releases: bool,
    /// The applications kept out of the tunnel; `None` on a platform that
    /// cannot keep any out.
    pub split_tunnel: Option<SplitTunnelSettings>,
    settings_version: SettingsVersion,
}

/// A `Settings` as a value.
pub ghost struct SettingsView {
    pub relay_settings: RelaySettingsView,
    pub bridge_settings: Seq<u8>,
    pub obfuscation_settings: ObfuscationSettings,
    pub bridge_state: BridgeState,
    pub allow_lan: bool,
    pub block_when_disconnected: bool,
    pub auto_connect: bool,
    pub tunnel_options: TunnelOptionsView,
    pub show_beta_releases: bool,
    pub split_tunnel: Option<SplitTunnelSettingsView>,
    pub settings_version: SettingsVersion,
}

/// The value of what may be absent.
pub open spec fn option_view<T: View>(value: Option<T>) -> Option<T::V> {
    match value {
        Some(present) => Some(present@),
        None => None,
    }
}

impl SettingsView {
    /// The relay settings of a fresh installation: any relay in Sweden, with
    /// the relay layer's defaults for the rest.
    pub open spec fn default_relay_settings() -> RelaySettingsView {
        RelaySettingsView {
            location: LocationConstraintView::Country("se"@),
            other_constraints: Seq::empty(),
        }
    }

    /// The settings of a fresh installation on `platform`.
    pub open spec fn default_for(platform: Platform) -> SettingsView {
        SettingsView {
            relay_settings: Self::default_relay_settings(),
            bridge_settings: Seq::empty(),
            obfuscation_settings: ObfuscationSettings {
                selected_obfuscation: SelectedObfuscation::Off,
            },
            bridge_state: BridgeState::Auto,
            allow_lan: false,
            block_when_disconnected: false,
            auto_connect: false,
            tunnel_options: TunnelOptionsView::default_for(platform),
            show_beta_releases: false,
            split_tunnel: if platform.split_tunneling {
                Some(SplitTunnelSettingsView::nothing_excluded())
            } else {
                None
            },
            settings_version: CURRENT_SETTINGS_VERSION,
        }
    }

    /// Whether setting the bridge state to `bridge_state` changes anything.
    pub open spec fn bridge_state_changes(self, bridge_state: BridgeState) -> bool {
        self.bridge_state != bridge_state
    }

    /// These settings with the bridge state `bridge_state`.
    pub open spec fn with_bridge_state(self, bridge_state: BridgeState) -> SettingsView {
        SettingsView { bridge_state, ..self }
    }

    /// Whether relay settings that merge to `merged` change anything.
    pub open spec fn relay_update_changes(self, merged: RelaySettingsView) -> bool {
        self.relay_settings != merged
    }

    /// The bridge state after a change of the relay settings. A bridge that
    /// is always on cannot stay so when the change cannot be used with a
    /// bridge: the state falls back to automatic.
    pub open spec fn bridge_state_after_relay_change(self, supports_bridge: bool) -> BridgeState {
        if !supports_bridge && self.bridge_state == BridgeState::On {
            BridgeState::Auto
        } else {
            self.bridge_state
        }
    }

    /// These settings after an update of the relay settings that merges to
    /// `merged` and that can be used with a bridge or, by `supports_bridge`,
    /// cannot.
    pub open spec fn after_relay_update(
        self,
        merged: RelaySettingsView,
        supports_bridge: bool,
    ) -> SettingsView {
        if self.relay_update_changes(merged) {
            SettingsView {
                relay_settings: merged,
                bridge_state: self.bridge_state_after_relay_change(supports_bridge),
                ..self
            }
        } else {
            self
        }
    }
}

impl SettingsView {
    /// Fresh settings are of the current schema version, on every platform.
    pub proof fn lemma_default_is_current(platform: Platform)
        ensures
            Self::default_for(platform).settings_version == CURRENT_SETTINGS_VERSION,
            Self::default_for(platform).settings_version.ordinal() == 6,
    {
    }

    /// An update that merges to the relay settings already held changes
    /// nothing: not the relay settings, not the bridge state, no other field.
    pub proof fn lemma_relay_update_without_effect(self, supports_bridge: bool)
        ensures
            !self.relay_update_changes(self.relay_settings),
            self.after_relay_update(self.relay_settings, supports_bridge) == self,
    {
    }

    /// An update that changes the relay settings and cannot be used with a
    /// bridge turns a bridge that is always on back to automatic, and the
    /// relay settings become what the update merged to.
    pub proof fn lemma_relay_update_without_bridge_support(self, merged: RelaySettingsView)
        requires
            self.bridge_state == BridgeState::On,
            merged != self.relay_settings,
        ensures
            self.relay_update_changes(merged),
            self.after_relay_update(merged, false).bridge_state == BridgeState::Auto,
            self.after_relay_update(merged, false).relay_settings == merged,
            self.after_relay_update(merged, false) == (SettingsView {
                relay_settings: merged,
                bridge_state: BridgeState::Auto,
                ..self
            }),
    {
    }

    /// An update that changes the relay settings and can be used with a
    /// bridge leaves a bridge that is always on as it is.
    pub proof fn lemma_relay_update_with_bridge_support(self, merged: RelaySettingsView)
        requires
            self.bridge_state == BridgeState::On,
            merged != self.relay_settings,
        ensures
            self.relay_update_changes(merged),
            self.after_relay_update(merged, true).bridge_state == BridgeState::On,
            self.after_relay_update(merged, true).relay_settings == merged,
            self.after_relay_update(merged, true) == (SettingsView {
                relay_settings: merged,
                ..self
            }),
    {
    }

    /// However the relay settings change, a bridge is not left always on
    /// beside relay settings that cannot be used with one.
    pub proof fn lemma_relay_update_keeps_bridge_usable(
        self,
        merged: RelaySettingsView,
        supports_bridge: bool,
    )
        requires
            self.relay_update_changes(merged),
            !supports_bridge,
        ensures
            self.after_relay_update(merged, supports_bridge).bridge_state != BridgeState::On,
    {
    }

    /// Setting the bridge state twice to the same state: the first time
    /// reports a change exactly if the state was another one before, the
    /// second time reports none and leaves the settings as the first left them.
    pub proof fn lemma_set_bridge_state_twice(self, bridge_state: BridgeState)
        ensures
            self.bridge_state_changes(bridge_state) <==> self.bridge_state != bridge_state,
            !self.with_bridge_state(bridge_state).bridge_state_changes(bridge_state),
            self.with_bridge_state(bridge_state).with_bridge_state(bridge_state)
                == self.with_bridge_state(bridge_state),
            !self.bridge_state_changes(bridge_state) ==> self.with_bridge_state(bridge_state)
                == self,
    {
    }
}

impl View for Settings {
    type V = SettingsView;

    closed spec fn view(&self) -> SettingsView {
        SettingsView {
            relay_settings: self.relay_settings@,
            bridge_settings: self.bridge_settings@,
            obfuscation_settings: self.obfuscation_settings,
            bridge_state: self.bridge_state,
            allow_lan: self.allow_lan,
            block_when_disconnected: self.block_when_disconnected,
            auto_connect: self.auto_connect,
            tunnel_options: self.tunnel_options@,
            show_beta_releases: self.show_beta_releases,
            split_tunnel: option_view(self.split_tunnel),
            settings_version: self.settings_version,
        }
    }
}

impl Clone for Settings {
    fn clone(&self) -> (copy: Settings)
        ensures
            copy@ == self@,
    {
        Settings {
            relay_settings: self.relay_settings.clone(),
            bridge_settings: self.bridge_settings.clone(),
            obfuscation_settings: self.obfuscation_settings,
            bridge_state: self.bridge_state,
            allow_lan: self.allow_lan,
            block_when_disconnected: self.block_when_disconnected,
            auto_connect: self.auto_connect,
            tunnel_options: self.tunnel_options.clone(),
            show_beta_releases: self.show_beta_releases,
            split_tunnel: match &self.split_tunnel {
                Some(split_tunnel) => Some(split_tunnel.clone()),
                None => None,
            },
            settings_version: self.settings_version,
        }
    }
}

impl Settings {
    /// The settings of a fresh installation on `platform`: any relay in
    /// Sweden, a bridge when needed, no obfuscation, every switch off, and
    /// the current schema version.
    pub fn default(platform: Platform) -> (settings: Settings)
        ensures
            settings@ == SettingsView::default_for(platform),
            settings@.settings_version == CURRENT_SETTINGS_VERSION,
    {
        let split_tunnel = if platform.split_tunneling {
            Some(SplitTunnelSettings::default())
        } else {
            None
        };
        Settings {
            relay_settings: RelaySettings {
                location: LocationConstraint::Country(String::from_str("se")),
                other_constraints: Opaque::default(),
            },
            bridge_settings: Opaque::default(),
            obfuscation_settings: ObfuscationSettings {
                selected_obfuscation: SelectedObfuscation::Off,
            },
            bridge_state: BridgeState::Auto,
            allow_lan: false,
            block_when_disconnected: false,
            auto_connect: false,
            tunnel_options: TunnelOptions::default(platform),
            show_beta_releases: false,
            split_tunnel,
            settings_version: CURRENT_SETTINGS_VERSION,
        }
    }

    /// A copy of the relay settings.
    pub fn get_relay_settings(&self) -> (relay_settings: RelaySettings)
        ensures
            relay_settings@ == self@.relay_settings,
    {
        self.relay_settings.clone()
    }

    /// Takes in the outcome of an update of the relay settings.
    ///
    /// `merged` is what merging the update into the current relay settings
    /// gave, and `update_supports_bridge` says whether the update can be used
    /// with a bridge. Where `merged` equals the current relay settings nothing
    /// changes. Otherwise `merged` replaces them, and a bridge state of `On`
    /// falls back to `Auto` if the update cannot be used with a bridge; both
    /// happen in this one step. The result says whether anything changed.
    pub fn update_relay_settings(
        &mut self,
        merged: RelaySettings,
        update_supports_bridge: bool,
    ) -> (changed: bool)
        ensures
            changed == old(self)@.relay_update_changes(merged@),
            final(self)@ == old(self)@.after_relay_update(merged@, update_supports_bridge),
            !changed ==> final(self)@ == old(self)@,
            changed ==> final(self)@.relay_settings == merged@,
            changed && !update_supports_bridge && old(self)@.bridge_state == BridgeState::On
                ==> final(self)@.bridge_state == BridgeState::Auto,
            changed && update_supports_bridge ==> final(self)@.bridge_state == old(
                self,
            )@.bridge_state,
            changed && !update_supports_bridge ==> final(self)@.bridge_state != BridgeState::On,
    {
        if self.relay_settings != merged {
            if !update_supports_bridge && self.bridge_state == BridgeState::On {
                self.bridge_state = BridgeState::Auto;
            }
            self.relay_settings = merged;
            true
        } else {
            false
        }
    }

    /// The bridge state.
    pub fn get_bridge_state(&self) -> (bridge_state: BridgeState)
        ensures
            bridge_state == self@.bridge_state,
    {
        self.bridge_state
    }

    /// Sets the bridge state, and says whether that changed it. The relay
    /// settings are not looked at: whoever turns the bridge on answers for
    /// relay settings that go with it.
    pub fn set_bridge_state(&mut self, bridge_state: BridgeState) -> (changed: bool)
        ensures
            changed == old(self)@.bridge_state_changes(bridge_state),
            final(self)@ == old(self)@.with_bridge_state(bridge_state),
    {
        if self.bridge_state != bridge_state {
            self.bridge_state = bridge_state;
            true
        } else {
            false
        }
    }

    /// The schema version that these settings are of.
    pub fn get_settings_version(&self) -> (version: SettingsVersion)
        ensures
            version == self@.settings_version,
    {
        self.settings_version
    }

    /// How a bridge is chosen.
    pub fn get_bridge_settings(&self) -> (bridge_settings: &BridgeSettings)
        ensures
            bridge_settings@ == self@.bridge_settings,
    {
        &self.bridge_settings
    }

    /// Replaces how a bridge is chosen. The bridge state is left as it is.
    pub fn set_bridge_settings(&mut self, bridge_settings: BridgeSettings)
        ensures
            final(self)@ == (SettingsView { bridge_settings: bridge_settings@, ..old(self)@ }),
    {
        self.bridge_settings = bridge_settings;
    }

    /// How the tunnel's traffic is hidden.
    pub fn get_obfuscation_settings(&self) -> (obfuscation_settings: ObfuscationSettings)
        ensures
            obfuscation_settings == self@.obfuscation_settings,
    {
        self.obfuscation_settings
    }

    /// Replaces how the tunnel's traffic is hidden.
    pub fn set_obfuscation_settings(&mut self, obfuscation_settings: ObfuscationSettings)
        ensures
            final(self)@ == (SettingsView { obfuscation_settings, ..old(self)@ }),
    {
        self.obfuscation_settings = obfuscation_settings;
    }

    /// Whether traffic to private (LAN) networks may pass.
    pub fn get_allow_lan(&self) -> (allow_lan: bool)
        ensures
            allow_lan == self@.allow_lan,
    {
        self.allow_lan
    }

    /// Sets whether traffic to private (LAN) networks may pass.
    pub fn set_allow_lan(&mut self, allow_lan: bool)
        ensures
            final(self)@ == (SettingsView { allow_lan, ..old(self)@ }),
    {
        self.allow_lan = allow_lan;
    }

    /// Whether all traffic is blocked while no tunnel is up.
    pub fn get_block_when_disconnected(&self) -> (block_when_disconnected: bool)
        ensures
            block_when_disconnected == self@.block_when_disconnected,
    {
        self.block_when_disconnected
    }

    /// Sets whether all traffic is blocked while no tunnel is up.
    pub fn set_block_when_disconnected(&mut self, block_when_disconnected: bool)
        ensures
            final(self)@ == (SettingsView { block_when_disconnected, ..old(self)@ }),
    {
        self.block_when_disconnected = block_when_disconnected;
    }

    /// Whether the daemon connects as soon as it starts.
    pub fn get_auto_connect(&self) -> (auto_connect: bool)
        ensures
            auto_connect == self@.auto_connect,
    {
        self.auto_connect
    }

    /// Sets whether the daemon connects as soon as it starts.
    pub fn set_auto_connect(&mut self, auto_connect: bool)
        ensures
            final(self)@ == (SettingsView { auto_connect, ..old(self)@ }),
    {
        self.auto_connect = auto_connect;
    }

    /// The options for tunnels.
    pub fn get_tunnel_options(&self) -> (tunnel_options: &TunnelOptions)
        ensures
            tunnel_options@ == self@.tunnel_options,
    {
        &self.tunnel_options
    }

    /// Replaces the options for tunnels.
    pub fn set_tunnel_options(&mut self, tunnel_options: TunnelOptions)
        ensures
            final(self)@ == (SettingsView { tunnel_options: tunnel_options@, ..old(self)@ }),
    {
        self.tunnel_options = tunnel_options;
    }

    /// Whether the user is told of beta releases.
    pub fn get_show_beta_releases(&self) -> (show_beta_releases: bool)
        ensures
            show_beta_releases == self@.show_beta_releases,
    {
        self.show_beta_releases
    }

    /// Sets whether the user is told of beta releases.
    pub fn set_show_beta_releases(&mut self, show_beta_releases: bool)
        ensures
            final(self)@ == (SettingsView { show_beta_releases, ..old(self)@ }),
    {
        self.show_beta_releases = show_beta_releases;
    }

    /// The applications kept out of the tunnel, where the platform keeps a
    /// list of them.
    pub fn get_split_tunnel(&self) -> (split_tunnel: &Option<SplitTunnelSettings>)
        ensures
            option_view(*split_tunnel) == self@.split_tunnel,
    {
        &self.split_tunnel
    }

    /// Replaces the applications kept out of the tunnel.
    pub fn set_split_tunnel(&mut self, split_tunnel: Option<SplitTunnelSettings>)
        ensures
            final(self)@ == (SettingsView {
                split_tunnel: option_view(split_tunnel),
                ..old(self)@
            }),
    {
        self.split_tunnel = split_tunnel;
    }

    /// Reads the settings from a document, on `platform`.
    ///
    /// Each field that the document holds is taken as it stands, and each
    /// field that it leaves out is the default of that field, so a document
    /// that leaves such a field out never fails for that. The schema version
    /// is the exception: no default stands in for it. A document that holds
    /// none fails, and so does one whose stored number stands for no known
    /// version, with an error that names the number.
    pub fn from_document(document: SettingsDocument, platform: Platform) -> (result: Result<
        Settings,
        DocumentError,
    >)
        ensures
            result is Ok <==> document@.decoded(platform) is Ok,
            result matches Ok(settings) ==> settings@ == document@.decoded(platform)->Ok_0,
            result matches Err(error) ==> error == document@.decoded(platform)->Err_0,
            result is Ok <==> (document@.settings_version matches Some(raw) && 2 <= raw <= 6),
            document@.settings_version is None ==> result == Err::<Settings, DocumentError>(
                DocumentError::MissingVersion,
            ),
            document@.settings_version matches Some(raw) ==> (!(2 <= raw <= 6) ==> result
                == Err::<Settings, DocumentError>(
                DocumentError::InvalidVersion(InvalidSettingsVersion { value: raw }),
            )),
            result matches Ok(settings) ==> settings@.settings_version.ordinal()
                == document@.settings_version->Some_0,
    {
        let settings_version = match document.settings_version {
            Some(raw) => match SettingsVersion::decode(raw) {
                Ok(version) => version,
                Err(invalid) => {
                    return Err(DocumentError::InvalidVersion(invalid));
                },
            },
            None => {
                return Err(DocumentError::MissingVersion);
            },
        };
        let defaults = Settings::default(platform);
        let split_tunnel = if platform.split_tunneling {
            match document.split_tunnel {
                Some(split_tunnel) => Some(split_tunnel),
                None => defaults.split_tunnel,
            }
        } else {
            None
        };
        Ok(
            Settings {
                relay_settings: match document.relay_settings {
                    Some(relay_settings) => relay_settings,
                    None => defaults.relay_settings,
                },
                bridge_settings: match document.bridge_settings {
                    Some(bridge_settings) => bridge_settings,
                    None => defaults.bridge_settings,
                },
                obfuscation_settings: match document.obfuscation_settings {
                    Some(obfuscation_settings) => obfuscation_settings,
                    None => defaults.obfuscation_settings,
                },
                bridge_state: match document.bridge_state {
                    Some(bridge_state) => bridge_state,
                    None => defaults.bridge_state,
                },
                allow_lan: match document.allow_lan {
                    Some(allow_lan) => allow_lan,
                    None => defaults.allow_lan,
                },
                block_when_disconnected: match document.block_when_disconnected {
                    Some(block_when_disconnected) => block_when_disconnected,
                    None => defaults.block_when_disconnected,
                },
                auto_connect: match document.auto_connect {
                    Some(auto_connect) => auto_connect,
                    None => defaults.auto_connect,
                },
                tunnel_options: match document.tunnel_options {
                    Some(tunnel_options) => TunnelOptions::from_document(tunnel_options, platform),
                    None => defaults.tunnel_options,
                },
                show_beta_releases: match document.show_beta_releases {
                    Some(show_beta_releases) => show_beta_releases,
                    None => defaults.show_beta_releases,
                },
                split_tunnel,
                settings_version,
            },
        )
    }

    /// Writes the settings out as a document that holds every field, with the
    /// schema version as its bare number.
    pub fn into_document(self) -> (document: SettingsDocument)
        ensures
            document@ == self@.document(),
    {
        SettingsDocument {
            relay_settings: Some(self.relay_settings),
            bridge_settings: Some(self.bridge_settings),
            obfuscation_settings: Some(self.obfuscation_settings),
            bridge_state: Some(self.bridge_state),
            allow_lan: Some(self.allow_lan),
            block_when_disconnected: Some(self.block_when_disconnected),
            auto_connect: Some(self.auto_connect),
            tunnel_options: Some(self.tunnel_options.into_document()),
            show_beta_releases: Some(self.show_beta_releases),
            split_tunnel: self.split_tunnel,
            settings_version: Some(self.settings_version.encode()),
        }
    }
}

} // verus!
