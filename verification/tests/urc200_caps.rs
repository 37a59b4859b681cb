use radio_core::urc200::urc200_caps;
use radio_core::{FeatureFlags, FreqRange, Mode};

#[test]
fn capabilities_declare_urc200_bands() {
    let caps = &urc200_caps();
    assert_eq!(caps.id, "urc200-v2");
    assert!(caps.features.contains(FeatureFlags::PTT));
    assert!(caps.features.contains(FeatureFlags::MEMORY));
    assert_eq!(caps.presets, Some(10));
    assert!(caps.modes.contains(&Mode::Am));
    assert!(caps.modes.contains(&Mode::Fm));
}

#[test]
fn usb_mode_is_unsupported() {
    // USB isn't in URC-200's advertised set.
    assert!(!urc200_caps().modes.contains(&Mode::Usb));
}

#[test]
fn caps_ranges_and_step() {
    let caps = urc200_caps();
    assert_eq!(caps.display_name, "General Dynamics URC-200 V2");
    let expected = vec![
        FreqRange::new(115_000_000, 173_995_000),
        FreqRange::new(225_000_000, 399_995_000),
    ];
    assert_eq!(caps.rx_ranges, expected);
    assert_eq!(caps.tx_ranges, expected);
    assert_eq!(caps.tuning_step_hz, 5_000);
    assert_eq!(caps.modes.len(), 2);
}

#[test]
fn caps_feature_set_is_exact() {
    let f = urc200_caps().features;
    assert_eq!(f.bits(), 3023);
    for flag in [
        FeatureFlags::PTT,
        FeatureFlags::SQUELCH_STATUS,
        FeatureFlags::SQUELCH_LEVEL,
        FeatureFlags::SMETER,
        FeatureFlags::SPLIT,
        FeatureFlags::MEMORY,
        FeatureFlags::HARDWARE_SCAN,
        FeatureFlags::TEMPERATURE,
        FeatureFlags::RAW_PASSTHROUGH,
    ] {
        assert!(f.contains(flag));
    }
    assert!(!f.contains(FeatureFlags::CTCSS_ENCODE));
    assert!(!f.contains(FeatureFlags::CTCSS_DECODE));
    assert!(!f.contains(FeatureFlags::VOLTAGE));
    assert!(!f.contains(FeatureFlags::PTT | FeatureFlags::VOLTAGE));
}

#[test]
fn feature_flags_drop_undefined_bits() {
    let f = FeatureFlags::from_bits_truncate(0xffff_ffff);
    assert_eq!(f.bits(), FeatureFlags::ALL);
    assert!(f.contains(FeatureFlags::VOLTAGE | FeatureFlags::PTT));
    let g = FeatureFlags::from_bits_truncate(0x1000);
    assert_eq!(g.bits(), 0);
    assert!(g.contains(0));
}

#[test]
fn freq_range_is_inclusive() {
    let r = FreqRange::new(115_000_000, 173_995_000);
    assert_eq!(r.start_hz, 115_000_000);
    assert_eq!(r.end_hz, 173_995_000);
    assert!(r.contains(115_000_000));
    assert!(r.contains(173_995_000));
    assert!(r.contains(150_000_000));
    assert!(!r.contains(114_999_999));
    assert!(!r.contains(173_995_001));
    let empty = FreqRange::new(10, 5);
    assert!(!empty.contains(7));
}

#[test]
fn feature_flag_set_operations() {
    let mut f = FeatureFlags::empty();
    assert!(f.is_empty());
    f.insert(FeatureFlags::PTT | FeatureFlags::SPLIT | 0x8000);
    assert_eq!(f.bits(), FeatureFlags::PTT | FeatureFlags::SPLIT);
    assert!(!f.is_empty());
    assert!(f.intersects(FeatureFlags::SPLIT | FeatureFlags::VOLTAGE));
    assert!(!f.intersects(FeatureFlags::VOLTAGE));
    f.remove(FeatureFlags::PTT);
    assert_eq!(f.bits(), FeatureFlags::SPLIT);
    assert_eq!(FeatureFlags::all().bits(), FeatureFlags::ALL);
}
