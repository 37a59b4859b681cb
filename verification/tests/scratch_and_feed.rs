use radio_core::scratch::{
    parse_u8, scratch_preset_from_str, scratch_stages, ScratchStage, DEFAULT_SCRATCH_PRESET,
    MAX_PRESET,
};
use radio_core::serial::{DataBits, FlowControl, Parity, SerialConfig, StopBits};
use radio_core::waterfall::{sdr_request_actions, waterfall_frame, GainAction};

#[test]
fn scratch_sequence_without_mode() {
    let s = scratch_stages(false);
    assert_eq!(
        s,
        vec![ScratchStage::Preset, ScratchStage::Rx, ScratchStage::Tx, ScratchStage::Store]
    );
    let labels: Vec<&str> = s.iter().map(|x| x.label()).collect();
    assert_eq!(labels, vec!["preset", "rx", "tx", "store"]);
}

#[test]
fn scratch_sequence_with_mode() {
    let s = scratch_stages(true);
    let labels: Vec<&str> = s.iter().map(|x| x.label()).collect();
    assert_eq!(labels, vec!["preset", "rx", "tx", "mode", "store"]);
}

#[test]
fn parse_u8_cases() {
    assert_eq!(parse_u8("9"), Some(9));
    assert_eq!(parse_u8("0"), Some(0));
    assert_eq!(parse_u8("255"), Some(255));
    assert_eq!(parse_u8("+7"), Some(7));
    assert_eq!(parse_u8("007"), Some(7));
    assert_eq!(parse_u8("256"), None);
    assert_eq!(parse_u8("1000"), None);
    assert_eq!(parse_u8(""), None);
    assert_eq!(parse_u8("+"), None);
    assert_eq!(parse_u8("-1"), None);
    assert_eq!(parse_u8(" 5"), None);
    assert_eq!(parse_u8("5a"), None);
    assert_eq!(parse_u8("٣"), None);
    for s in ["9", "0", "255", "+7", "007", "256", "", "+", "-1", " 5", "5a", "99999"] {
        assert_eq!(parse_u8(s), s.parse::<u8>().ok(), "{:?}", s);
    }
}

#[test]
fn scratch_preset_choice() {
    assert_eq!(scratch_preset_from_str("9"), (9, true));
    assert_eq!(scratch_preset_from_str("0"), (0, true));
    assert_eq!(scratch_preset_from_str("3"), (3, true));
    assert_eq!(scratch_preset_from_str("10"), (9, false));
    assert_eq!(scratch_preset_from_str("x"), (9, false));
    assert_eq!(scratch_preset_from_str(""), (9, false));
    assert_eq!(MAX_PRESET, 9);
    assert_eq!(DEFAULT_SCRATCH_PRESET, 9);
}

#[test]
fn waterfall_frame_layout() {
    let bins = [1u8, 2, 3];
    let f = waterfall_frame(251_950_000, 2_000_000, &bins);
    let mut expected = Vec::new();
    expected.extend_from_slice(&251_950_000u64.to_le_bytes());
    expected.extend_from_slice(&2_000_000u32.to_le_bytes());
    expected.extend_from_slice(&3u32.to_le_bytes());
    expected.extend_from_slice(&bins);
    assert_eq!(f, expected);
    assert_eq!(f.len(), 19);
}

#[test]
fn waterfall_header_reads_back() {
    let bins: Vec<u8> = (0..=255u8).collect();
    let f = waterfall_frame(u64::MAX - 1, u32::MAX, &bins);
    assert_eq!(u64::from_le_bytes(f[0..8].try_into().unwrap()), u64::MAX - 1);
    assert_eq!(u32::from_le_bytes(f[8..12].try_into().unwrap()), u32::MAX);
    assert_eq!(u32::from_le_bytes(f[12..16].try_into().unwrap()), 256);
    assert_eq!(&f[16..], &bins[..]);
    let empty = waterfall_frame(0, 0, &[]);
    assert_eq!(empty, vec![0u8; 16]);
}

#[test]
fn sdr_request_decisions() {
    let r = sdr_request_actions(Some(251_950_000), Some("auto"), true);
    assert_eq!(r.center_hz, Some(251_950_000));
    assert_eq!(r.gain, GainAction::Auto);
    let r = sdr_request_actions(None, Some("manual"), true);
    assert_eq!(r.center_hz, None);
    assert_eq!(r.gain, GainAction::Fixed);
    let r = sdr_request_actions(None, None, false);
    assert_eq!(r.gain, GainAction::Unchanged);
    let r = sdr_request_actions(None, Some("AUTO"), false);
    assert_eq!(r.gain, GainAction::Unchanged);
    let r = sdr_request_actions(None, None, true);
    assert_eq!(r.gain, GainAction::Fixed);
}

#[test]
fn serial_defaults_for_urc200() {
    let c = SerialConfig::urc200("/dev/ttyUSB0".to_string());
    assert_eq!(c.path, "/dev/ttyUSB0");
    assert_eq!(c.baud, 1200);
    assert_eq!(c.data_bits, DataBits::Eight);
    assert_eq!(c.stop_bits, StopBits::One);
    assert_eq!(c.parity, Parity::Off);
    assert_eq!(c.flow_control, FlowControl::Off);
    assert_eq!(c.open_timeout_ms, 100);
}

#[test]
fn preset_label_number_reads_back() {
    for n in [0u8, 7, 9, 10, 99, 100, 255] {
        let label = radio_core::urc200::preset_label(n);
        assert_eq!(parse_u8(&label[1..]), Some(n));
    }
}
