use mullvad_types::settings::{InvalidSettingsVersion, SettingsVersion, CURRENT_SETTINGS_VERSION};
use std::cmp::Ordering;

fn all_versions() -> Vec<SettingsVersion> {
    vec![
        SettingsVersion::V2,
        SettingsVersion::V3,
        SettingsVersion::V4,
        SettingsVersion::V5,
        SettingsVersion::V6,
    ]
}

#[test]
fn every_version_encodes_to_its_number() {
    assert_eq!(SettingsVersion::V2.encode(), 2);
    assert_eq!(SettingsVersion::V3.encode(), 3);
    assert_eq!(SettingsVersion::V4.encode(), 4);
    assert_eq!(SettingsVersion::V5.encode(), 5);
    assert_eq!(SettingsVersion::V6.encode(), 6);
}

#[test]
fn decode_inverts_encode_for_every_version() {
    for version in all_versions() {
        assert_eq!(SettingsVersion::decode(version.encode()), Ok(version));
    }
}

#[test]
fn decode_takes_exactly_the_known_numbers() {
    assert_eq!(SettingsVersion::decode(2), Ok(SettingsVersion::V2));
    assert_eq!(SettingsVersion::decode(3), Ok(SettingsVersion::V3));
    assert_eq!(SettingsVersion::decode(4), Ok(SettingsVersion::V4));
    assert_eq!(SettingsVersion::decode(5), Ok(SettingsVersion::V5));
    assert_eq!(SettingsVersion::decode(6), Ok(SettingsVersion::V6));
}

#[test]
fn decode_refuses_every_other_number() {
    for raw in [0u32, 1, 7, 8, 99, 255, 256, 65536, u32::MAX] {
        assert_eq!(
            SettingsVersion::decode(raw),
            Err(InvalidSettingsVersion { value: raw })
        );
    }
}

#[test]
fn decode_refuses_all_small_numbers_outside_the_versions() {
    for raw in 0u32..1000 {
        let result = SettingsVersion::decode(raw);
        assert_eq!(result.is_ok(), (2..=6).contains(&raw));
    }
}

#[test]
fn invalid_version_message_names_the_number() {
    let error = SettingsVersion::decode(99).unwrap_err();
    assert_eq!(error.value, 99);
    assert_eq!(error.message(), "99 is not a valid SettingsVersion");
}

#[test]
fn invalid_version_message_for_edge_numbers() {
    assert_eq!(
        InvalidSettingsVersion { value: 0 }.message(),
        "0 is not a valid SettingsVersion"
    );
    assert_eq!(
        InvalidSettingsVersion { value: 7 }.message(),
        "7 is not a valid SettingsVersion"
    );
    assert_eq!(
        InvalidSettingsVersion { value: 1000 }.message(),
        "1000 is not a valid SettingsVersion"
    );
    assert_eq!(
        InvalidSettingsVersion { value: u32::MAX }.message(),
        "4294967295 is not a valid SettingsVersion"
    );
}

#[test]
fn current_version_is_the_latest() {
    assert_eq!(CURRENT_SETTINGS_VERSION, SettingsVersion::V6);
    assert_eq!(CURRENT_SETTINGS_VERSION.encode(), 6);
    for version in all_versions() {
        assert!(version <= CURRENT_SETTINGS_VERSION);
        assert!(version.encode() <= CURRENT_SETTINGS_VERSION.encode());
    }
}

#[test]
fn versions_are_ordered_by_number() {
    for a in all_versions() {
        for b in all_versions() {
            assert_eq!(a.partial_cmp(&b), a.encode().partial_cmp(&b.encode()));
            assert_eq!(a < b, a.encode() < b.encode());
            assert_eq!(a == b, a.encode() == b.encode());
        }
    }
    assert!(SettingsVersion::V2 < SettingsVersion::V3);
    assert!(SettingsVersion::V5 < SettingsVersion::V6);
    assert!(SettingsVersion::V6 > SettingsVersion::V2);
    assert_eq!(
        SettingsVersion::V4.partial_cmp(&SettingsVersion::V4),
        Some(Ordering::Equal)
    );
}

#[test]
fn older_versions_need_an_upgrade() {
    assert!(SettingsVersion::V5 < CURRENT_SETTINGS_VERSION);
    assert!(!(SettingsVersion::V6 < CURRENT_SETTINGS_VERSION));
}
