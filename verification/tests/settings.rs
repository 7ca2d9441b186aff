use mullvad_types::opaque::Opaque;
use mullvad_types::relay_constraints::{
    BridgeState, LocationConstraint, ObfuscationSettings, RelaySettings, SelectedObfuscation,
};
use mullvad_types::settings::tunnel_options::{
    GenericTunnelOptions, RotationInterval, WireguardOptions,
};
use mullvad_types::settings::{
    Platform, Settings, SettingsVersion, SplitTunnelSettings, TunnelOptions,
    CURRENT_SETTINGS_VERSION,
};
use std::collections::HashSet;
use std::path::PathBuf;

const DESKTOP: Platform = Platform { mobile: false, split_tunneling: false };
const MOBILE: Platform = Platform { mobile: true, split_tunneling: false };
const WINDOWS: Platform = Platform { mobile: false, split_tunneling: true };

fn country(code: &str) -> RelaySettings {
    RelaySettings {
        location: LocationConstraint::Country(code.to_owned()),
        other_constraints: Opaque::default(),
    }
}

#[test]
fn default_settings_have_the_current_version() {
    for platform in [DESKTOP, MOBILE, WINDOWS] {
        let settings = Settings::default(platform);
        assert_eq!(settings.get_settings_version(), CURRENT_SETTINGS_VERSION);
        assert_eq!(settings.get_settings_version(), SettingsVersion::V6);
        assert_eq!(settings.get_settings_version().encode(), 6);
    }
}

#[test]
fn default_settings_hold_the_documented_values() {
    let settings = Settings::default(DESKTOP);
    assert_eq!(settings.get_relay_settings(), country("se"));
    assert_eq!(settings.bridge_settings, Opaque { encoded: vec![] });
    assert_eq!(
        settings.obfuscation_settings,
        ObfuscationSettings { selected_obfuscation: SelectedObfuscation::Off }
    );
    assert_eq!(settings.get_bridge_state(), BridgeState::Auto);
    assert!(!settings.allow_lan);
    assert!(!settings.block_when_disconnected);
    assert!(!settings.auto_connect);
    assert!(!settings.show_beta_releases);
    assert_eq!(settings.tunnel_options, TunnelOptions::default(DESKTOP));
    assert_eq!(settings.split_tunnel, None);
}

#[test]
fn default_tunnel_options_are_independent_defaults() {
    let options = TunnelOptions::default(DESKTOP);
    assert_eq!(
        options,
        TunnelOptions {
            openvpn: Opaque { encoded: vec![] },
            wireguard: WireguardOptions {
                options: Opaque { encoded: vec![] },
                rotation_interval: None,
            },
            generic: GenericTunnelOptions { enable_ipv6: false },
            dns_options: Opaque { encoded: vec![] },
        }
    );
}

#[test]
fn ipv6_is_on_by_default_on_mobile_platforms_only() {
    assert!(TunnelOptions::default(MOBILE).generic.enable_ipv6);
    assert!(!TunnelOptions::default(DESKTOP).generic.enable_ipv6);
    assert!(!TunnelOptions::default(WINDOWS).generic.enable_ipv6);
    assert!(Settings::default(MOBILE).tunnel_options.generic.enable_ipv6);
    assert!(!Settings::default(DESKTOP).tunnel_options.generic.enable_ipv6);
}

#[test]
fn split_tunnel_is_there_only_where_the_platform_has_it() {
    assert_eq!(Settings::default(DESKTOP).split_tunnel, None);
    assert_eq!(Settings::default(MOBILE).split_tunnel, None);
    assert_eq!(
        Settings::default(WINDOWS).split_tunnel,
        Some(SplitTunnelSettings { enable_exclusions: false, apps: HashSet::new() })
    );
    assert_eq!(
        SplitTunnelSettings::default(),
        SplitTunnelSettings { enable_exclusions: false, apps: HashSet::new() }
    );
}

#[test]
fn relay_update_that_merges_to_the_same_settings_changes_nothing() {
    for state in [BridgeState::Auto, BridgeState::On, BridgeState::Off] {
        for supports_bridge in [false, true] {
            let mut settings = Settings::default(DESKTOP);
            settings.set_bridge_state(state);
            let before = settings.clone();
            let merged = settings.get_relay_settings();
            assert!(!settings.update_relay_settings(merged, supports_bridge));
            assert_eq!(settings.get_bridge_state(), state);
            assert_eq!(settings.get_relay_settings(), country("se"));
            assert_eq!(settings, before);
        }
    }
}

#[test]
fn relay_update_without_bridge_support_turns_bridge_on_to_auto() {
    let mut settings = Settings::default(DESKTOP);
    assert!(settings.set_bridge_state(BridgeState::On));
    assert!(settings.update_relay_settings(country("no"), false));
    assert_eq!(settings.get_bridge_state(), BridgeState::Auto);
    assert_eq!(settings.get_relay_settings(), country("no"));
}

#[test]
fn relay_update_with_bridge_support_keeps_bridge_on() {
    let mut settings = Settings::default(DESKTOP);
    assert!(settings.set_bridge_state(BridgeState::On));
    assert!(settings.update_relay_settings(country("no"), true));
    assert_eq!(settings.get_bridge_state(), BridgeState::On);
    assert_eq!(settings.get_relay_settings(), country("no"));
}

#[test]
fn relay_update_leaves_bridge_auto_and_off_alone() {
    for state in [BridgeState::Auto, BridgeState::Off] {
        for supports_bridge in [false, true] {
            let mut settings = Settings::default(DESKTOP);
            settings.set_bridge_state(state);
            let merged = RelaySettings {
                location: LocationConstraint::City("se".to_owned(), "got".to_owned()),
                other_constraints: Opaque::default(),
            };
            assert!(settings.update_relay_settings(merged.clone(), supports_bridge));
            assert_eq!(settings.get_bridge_state(), state);
            assert_eq!(settings.get_relay_settings(), merged);
        }
    }
}

#[test]
fn relay_update_touches_no_other_field() {
    let mut settings = Settings::default(WINDOWS);
    settings.allow_lan = true;
    settings.auto_connect = true;
    settings.bridge_settings = Opaque { encoded: vec![1, 2, 3] };
    settings.tunnel_options.wireguard.rotation_interval =
        Some(RotationInterval { seconds: 86_400 });
    settings.set_bridge_state(BridgeState::On);
    assert!(settings.update_relay_settings(
        RelaySettings {
            location: LocationConstraint::Any,
            other_constraints: Opaque::default(),
        },
        false
    ));
    assert!(settings.allow_lan);
    assert!(settings.auto_connect);
    assert!(!settings.block_when_disconnected);
    assert!(!settings.show_beta_releases);
    assert_eq!(settings.bridge_settings, Opaque { encoded: vec![1, 2, 3] });
    assert_eq!(
        settings.tunnel_options.wireguard.rotation_interval,
        Some(RotationInterval { seconds: 86_400 })
    );
    assert_eq!(settings.split_tunnel, Some(SplitTunnelSettings::default()));
    assert_eq!(settings.get_settings_version(), SettingsVersion::V6);
}

#[test]
fn set_bridge_state_reports_a_change_once() {
    for start in [BridgeState::Auto, BridgeState::On, BridgeState::Off] {
        for target in [BridgeState::Auto, BridgeState::On, BridgeState::Off] {
            let mut settings = Settings::default(DESKTOP);
            settings.set_bridge_state(start);
            assert_eq!(settings.set_bridge_state(target), start != target);
            assert_eq!(settings.get_bridge_state(), target);
            assert!(!settings.set_bridge_state(target));
            assert_eq!(settings.get_bridge_state(), target);
        }
    }
}

#[test]
fn set_bridge_state_does_not_look_at_the_relay_settings() {
    let mut settings = Settings::default(DESKTOP);
    assert!(settings.update_relay_settings(country("de"), false));
    assert!(settings.set_bridge_state(BridgeState::On));
    assert_eq!(settings.get_bridge_state(), BridgeState::On);
    assert_eq!(settings.get_relay_settings(), country("de"));
}

#[test]
fn get_relay_settings_hands_out_a_copy() {
    let settings = Settings::default(DESKTOP);
    let mut copy = settings.get_relay_settings();
    copy.location = LocationConstraint::Any;
    assert_eq!(settings.get_relay_settings(), country("se"));
}

#[test]
fn location_constraints_compare_by_kind_and_codes() {
    let any = LocationConstraint::Any;
    let se = LocationConstraint::Country("se".to_owned());
    let no = LocationConstraint::Country("no".to_owned());
    let got = LocationConstraint::City("se".to_owned(), "got".to_owned());
    let sto = LocationConstraint::City("se".to_owned(), "sto".to_owned());
    let host = LocationConstraint::Hostname("se".to_owned(), "got".to_owned(), "se3".to_owned());
    let other_host =
        LocationConstraint::Hostname("se".to_owned(), "got".to_owned(), "se4".to_owned());
    assert_eq!(any, LocationConstraint::Any);
    assert_eq!(se, LocationConstraint::Country("se".to_owned()));
    assert_eq!(got, got.clone());
    assert_eq!(host, host.clone());
    assert_ne!(any, se);
    assert_ne!(se, no);
    assert_ne!(se, got);
    assert_ne!(got, sto);
    assert_ne!(got, host);
    assert_ne!(host, other_host);
}

#[test]
fn clone_of_split_tunnel_settings_is_equal_and_apart() {
    let mut first = SplitTunnelSettings::default();
    first.enable_exclusions = true;
    first.apps.insert(PathBuf::from("C:\\Program Files\\browser.exe"));
    let mut copy = first.clone();
    assert_eq!(copy, first);
    copy.apps.insert(PathBuf::from("C:\\games\\game.exe"));
    assert_eq!(first.apps.len(), 1);
    assert_eq!(copy.apps.len(), 2);
    assert!(first.apps.contains(&PathBuf::from("C:\\Program Files\\browser.exe")));
}

#[test]
fn clone_of_settings_is_equal() {
    let mut settings = Settings::default(WINDOWS);
    settings.allow_lan = true;
    settings.set_bridge_state(BridgeState::Off);
    settings.tunnel_options.openvpn = Opaque { encoded: vec![9, 8, 7] };
    if let Some(split_tunnel) = settings.split_tunnel.as_mut() {
        split_tunnel.apps.insert(PathBuf::from("/opt/app"));
    }
    let copy = settings.clone();
    assert_eq!(copy, settings);
    assert_eq!(copy.get_bridge_state(), BridgeState::Off);
}

#[test]
fn opaque_block_default_is_empty_and_clone_keeps_the_bytes() {
    assert_eq!(Opaque::default(), Opaque { encoded: vec![] });
    let block = Opaque { encoded: vec![0, 255, 17] };
    assert_eq!(block.clone(), block);
    assert_eq!(block.clone().encoded, vec![0, 255, 17]);
}

#[test]
fn relay_settings_compare_by_location_and_by_the_rest() {
    let plain = country("se");
    let mut narrowed = country("se");
    narrowed.other_constraints = Opaque { encoded: vec![1, 2] };
    let mut narrowed_again = country("se");
    narrowed_again.other_constraints = Opaque { encoded: vec![1, 2] };
    let mut longer = country("se");
    longer.other_constraints = Opaque { encoded: vec![1, 2, 3] };
    let mut other_bytes = country("se");
    other_bytes.other_constraints = Opaque { encoded: vec![1, 3] };
    assert_eq!(plain, country("se"));
    assert_eq!(narrowed, narrowed_again);
    assert_eq!(narrowed, narrowed.clone());
    assert_ne!(plain, narrowed);
    assert_ne!(narrowed, longer);
    assert_ne!(narrowed, other_bytes);
    assert_ne!(plain, country("no"));
}

#[test]
fn relay_update_that_differs_outside_the_location_is_a_change() {
    let mut settings = Settings::default(DESKTOP);
    settings.set_bridge_state(BridgeState::On);
    let mut merged = settings.get_relay_settings();
    merged.other_constraints = Opaque { encoded: vec![7] };
    assert!(settings.update_relay_settings(merged.clone(), false));
    assert_eq!(settings.get_relay_settings(), merged);
    assert_eq!(settings.get_bridge_state(), BridgeState::Auto);
    assert!(!settings.update_relay_settings(merged, false));
}

#[test]
fn opaque_blocks_compare_by_their_bytes() {
    assert_eq!(Opaque { encoded: vec![] }, Opaque::default());
    assert_eq!(Opaque { encoded: vec![4, 5] }, Opaque { encoded: vec![4, 5] });
    assert_ne!(Opaque { encoded: vec![4, 5] }, Opaque { encoded: vec![4] });
    assert_ne!(Opaque { encoded: vec![4, 5] }, Opaque { encoded: vec![4, 6] });
    assert_ne!(Opaque { encoded: vec![4, 5] }, Opaque { encoded: vec![5, 5] });
    assert_ne!(Opaque { encoded: vec![0] }, Opaque::default());
}

#[test]
fn setters_change_their_field_and_no_other() {
    let mut settings = Settings::default(WINDOWS);
    settings.set_bridge_state(BridgeState::Off);

    let mut expected = settings.clone();
    settings.set_allow_lan(true);
    expected.allow_lan = true;
    assert_eq!(settings, expected);
    assert!(settings.get_allow_lan());

    settings.set_block_when_disconnected(true);
    expected.block_when_disconnected = true;
    assert_eq!(settings, expected);
    assert!(settings.get_block_when_disconnected());

    settings.set_auto_connect(true);
    expected.auto_connect = true;
    assert_eq!(settings, expected);
    assert!(settings.get_auto_connect());

    settings.set_show_beta_releases(true);
    expected.show_beta_releases = true;
    assert_eq!(settings, expected);
    assert!(settings.get_show_beta_releases());

    settings.set_bridge_settings(Opaque { encoded: vec![3, 1] });
    expected.bridge_settings = Opaque { encoded: vec![3, 1] };
    assert_eq!(settings, expected);
    assert_eq!(settings.get_bridge_settings(), &Opaque { encoded: vec![3, 1] });

    let obfuscation = ObfuscationSettings { selected_obfuscation: SelectedObfuscation::Auto };
    settings.set_obfuscation_settings(obfuscation);
    expected.obfuscation_settings = obfuscation;
    assert_eq!(settings, expected);
    assert_eq!(settings.get_obfuscation_settings(), obfuscation);

    let mut tunnel_options = TunnelOptions::default(MOBILE);
    tunnel_options.dns_options = Opaque { encoded: vec![8] };
    settings.set_tunnel_options(tunnel_options.clone());
    expected.tunnel_options = tunnel_options.clone();
    assert_eq!(settings, expected);
    assert_eq!(settings.get_tunnel_options(), &tunnel_options);

    let mut split_tunnel = SplitTunnelSettings::default();
    split_tunnel.enable_exclusions = true;
    split_tunnel.apps.insert(PathBuf::from("C:\\mail.exe"));
    settings.set_split_tunnel(Some(split_tunnel.clone()));
    expected.split_tunnel = Some(split_tunnel.clone());
    assert_eq!(settings, expected);
    assert_eq!(settings.get_split_tunnel(), &Some(split_tunnel));
    settings.set_split_tunnel(None);
    assert_eq!(settings.get_split_tunnel(), &None);

    assert_eq!(settings.get_bridge_state(), BridgeState::Off);
    assert_eq!(settings.get_relay_settings(), country("se"));
    assert_eq!(settings.get_settings_version(), SettingsVersion::V6);
}

#[test]
fn getters_read_what_direct_access_wrote() {
    let mut settings = Settings::default(DESKTOP);
    assert!(!settings.get_allow_lan());
    settings.allow_lan = true;
    settings.show_beta_releases = true;
    assert!(settings.get_allow_lan());
    assert!(settings.get_show_beta_releases());
    assert!(!settings.get_auto_connect());
    assert!(!settings.get_block_when_disconnected());
    assert_eq!(settings.get_split_tunnel(), &None);
    assert_eq!(settings.get_tunnel_options(), &TunnelOptions::default(DESKTOP));
}
