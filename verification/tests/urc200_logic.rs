use radio_core::urc200::{
    band_for, keyed_after_ptt, mode_from_urc, mode_to_urc, plan_tune, preset_label,
    ptt_command, raw_reply, read_state_inquiries, require_snapshot, state_from_snapshot, Band,
    Inquiry, ModMode, PresetSnapshot, UrcCommand, ACK, NO_ACK,
};
use radio_core::{DigitalMode, DriverError, Mode, RadioError, TuneRequest};

#[test]
fn tune_request_builders() {
    let s = TuneRequest::simplex(251_950_000);
    assert_eq!((s.rx_hz, s.tx_hz, s.mode), (251_950_000, 251_950_000, None));
    let p = TuneRequest::split(140_000_000, 150_000_000);
    assert_eq!((p.rx_hz, p.tx_hz, p.mode), (140_000_000, 150_000_000, None));
    let m = p.with_mode(Mode::Nfm);
    assert_eq!((m.rx_hz, m.tx_hz, m.mode), (140_000_000, 150_000_000, Some(Mode::Nfm)));
}

#[test]
fn band_edges() {
    assert_eq!(band_for(29_999_999), None);
    assert_eq!(band_for(30_000_000), Some(Band::Lvhf));
    assert_eq!(band_for(90_000_000), Some(Band::Lvhf));
    assert_eq!(band_for(90_000_001), None);
    assert_eq!(band_for(115_000_000), Some(Band::Base));
    assert_eq!(band_for(173_995_000), Some(Band::Base));
    assert_eq!(band_for(173_995_001), None);
    assert_eq!(band_for(224_999_999), None);
    assert_eq!(band_for(225_000_000), Some(Band::Base));
    assert_eq!(band_for(399_995_000), Some(Band::Base));
    assert_eq!(band_for(399_995_001), None);
    assert_eq!(band_for(400_000_000), Some(Band::Uhf400));
    assert_eq!(band_for(420_000_000), Some(Band::Uhf400));
    assert_eq!(band_for(420_000_001), None);
}

#[test]
fn mode_mapping() {
    assert_eq!(mode_to_urc(Mode::Am).unwrap(), ModMode::Am);
    assert_eq!(mode_to_urc(Mode::Fm).unwrap(), ModMode::Fm);
    assert!(matches!(mode_to_urc(Mode::Nfm), Err(RadioError::UnsupportedMode(Mode::Nfm))));
    assert!(matches!(mode_to_urc(Mode::Usb), Err(RadioError::UnsupportedMode(Mode::Usb))));
    assert!(matches!(
        mode_to_urc(Mode::Digital(DigitalMode::Dmr)),
        Err(RadioError::UnsupportedMode(Mode::Digital(DigitalMode::Dmr)))
    ));
    assert_eq!(mode_from_urc(ModMode::Am), Mode::Am);
    assert_eq!(mode_from_urc(ModMode::Fm), Mode::Fm);
}

#[test]
fn mode_round_trip_on_concrete_values() {
    for u in [ModMode::Am, ModMode::Fm] {
        assert_eq!(mode_to_urc(mode_from_urc(u)).unwrap(), u);
    }
}

#[test]
fn plan_simplex_base_band() {
    let p = plan_tune(&TuneRequest::simplex(251_950_000)).unwrap();
    assert_eq!(p.band, Band::Base);
    assert_eq!(p.rx_hz, 251_950_000);
    assert_eq!(p.tx_hz, 251_950_000);
    assert_eq!(
        p.commands,
        vec![UrcCommand::SetRx(251_950_000), UrcCommand::SetTx(251_950_000)]
    );
}

#[test]
fn plan_split_keeps_both_frequencies() {
    let p = plan_tune(&TuneRequest::split(140_000_000, 300_000_000).with_mode(Mode::Am)).unwrap();
    assert_eq!(p.band, Band::Base);
    assert_eq!((p.rx_hz, p.tx_hz), (140_000_000, 300_000_000));
    assert_eq!(
        p.commands,
        vec![
            UrcCommand::SetRx(140_000_000),
            UrcCommand::SetTx(300_000_000),
            UrcCommand::ModTxRx(ModMode::Am)
        ]
    );
}

#[test]
fn plan_falls_back_to_tx_band() {
    let p = plan_tune(&TuneRequest::split(10, 410_000_000)).unwrap();
    assert_eq!(p.band, Band::Uhf400);
    assert_eq!((p.rx_hz, p.tx_hz), (10, 410_000_000));
}

#[test]
fn plan_refuses_frequencies_wider_than_the_radio_word() {
    let wide = (1u64 << 32) + 147_000_000;
    let r = plan_tune(&TuneRequest::split(146_000_000, wide));
    assert!(matches!(r, Err(RadioError::OutOfRange(hz)) if hz == wide));
    let r = plan_tune(&TuneRequest::split(wide, 146_000_000));
    assert!(matches!(r, Err(RadioError::OutOfRange(hz)) if hz == wide));
    let r = plan_tune(&TuneRequest::split(146_000_000, 1u64 << 32).with_mode(Mode::Usb));
    assert!(matches!(r, Err(RadioError::OutOfRange(hz)) if hz == 1u64 << 32));
}

#[test]
fn plan_out_of_range_names_rx() {
    let r = plan_tune(&TuneRequest::split(500_000_000, 600_000_000));
    assert!(matches!(r, Err(RadioError::OutOfRange(500_000_000))));
}

#[test]
fn plan_sets_frequencies_then_refuses_unadvertised_modes() {
    for m in [Mode::Usb, Mode::Nfm] {
        let p = plan_tune(&TuneRequest::simplex(150_000_000).with_mode(m)).unwrap();
        assert_eq!(
            p.commands,
            vec![UrcCommand::SetRx(150_000_000), UrcCommand::SetTx(150_000_000)]
        );
        assert!(matches!(p.refusal, Some(RadioError::UnsupportedMode(r)) if r == m));
    }
    let p = plan_tune(&TuneRequest::simplex(150_000_000).with_mode(Mode::Fm)).unwrap();
    assert_eq!(p.commands.last(), Some(&UrcCommand::ModTxRx(ModMode::Fm)));
    assert!(p.refusal.is_none());
    // A frequency refusal comes before the mode's.
    let r = plan_tune(&TuneRequest::simplex(10).with_mode(Mode::Usb));
    assert!(matches!(r, Err(RadioError::OutOfRange(10))));
}

#[test]
fn tune_plans_never_key() {
    for req in [
        TuneRequest::simplex(150_000_000),
        TuneRequest::split(140_000_000, 300_000_000).with_mode(Mode::Am),
        TuneRequest::simplex(410_000_000).with_mode(Mode::Fm),
    ] {
        let p = plan_tune(&req).unwrap();
        assert!(p
            .commands
            .iter()
            .all(|c| *c != UrcCommand::Transmit && *c != UrcCommand::Receive));
    }
}

#[test]
fn ptt_only_key_transmits() {
    assert_eq!(ptt_command(true), UrcCommand::Transmit);
    assert_eq!(ptt_command(false), UrcCommand::Receive);
}

#[test]
fn keyed_state_follows_successful_ptt() {
    assert!(keyed_after_ptt(false, true, true));
    assert!(!keyed_after_ptt(false, true, false));
    assert!(!keyed_after_ptt(true, false, true));
    assert!(keyed_after_ptt(true, false, false));
    assert!(keyed_after_ptt(true, true, true));
}

#[test]
fn raw_reply_cases() {
    match raw_reply(true, false, vec![1, 2]) {
        Err(RadioError::Driver(s)) => assert_eq!(s, "radio NAK'd raw command"),
        other => panic!("unexpected {:?}", other),
    }
    assert_eq!(raw_reply(false, true, vec![]).unwrap(), vec![ACK]);
    assert_eq!(raw_reply(false, false, vec![]).unwrap(), vec![NO_ACK]);
    assert_eq!(raw_reply(false, true, vec![0x41, 0x42]).unwrap(), vec![0x41, 0x42]);
    assert_eq!(ACK, 0x06);
    assert_eq!(NO_ACK, 0x09);
}

#[test]
fn preset_labels() {
    assert_eq!(preset_label(0), "P0");
    assert_eq!(preset_label(9), "P9");
    assert_eq!(preset_label(10), "P10");
    assert_eq!(preset_label(42), "P42");
    assert_eq!(preset_label(100), "P100");
    assert_eq!(preset_label(205), "P205");
    assert_eq!(preset_label(255), "P255");
}

#[test]
fn snapshot_required() {
    match require_snapshot(None) {
        Err(RadioError::Driver(s)) => assert_eq!(s, "preset snapshot decode"),
        other => panic!("unexpected {:?}", other),
    }
    let snap = PresetSnapshot {
        rx_hz: 1,
        tx_hz: 2,
        mod_tx_rx: ModMode::Am,
        preset: 3,
        power: "High".to_string(),
    };
    let got = require_snapshot(Some(snap)).unwrap();
    assert_eq!((got.rx_hz, got.tx_hz, got.preset), (1, 2, 3));
}

#[test]
fn state_from_snapshot_fields() {
    let snap = PresetSnapshot {
        rx_hz: 251_950_000,
        tx_hz: 292_950_000,
        mod_tx_rx: ModMode::Fm,
        preset: 9,
        power: "Low".to_string(),
    };
    let st = state_from_snapshot(snap, Some(120), Some(true), false);
    assert_eq!(st.rx_hz, 251_950_000);
    assert_eq!(st.tx_hz, 292_950_000);
    assert_eq!(st.mode, Some(Mode::Fm));
    assert_eq!(st.rssi, Some(120));
    assert_eq!(st.squelch_broken, Some(true));
    assert!(!st.transmitting);
    assert_eq!(
        st.extras,
        vec![
            ("preset".to_string(), "P9".to_string()),
            ("power".to_string(), "Low".to_string())
        ]
    );
}

#[test]
fn driver_errors_convert() {
    assert!(matches!(
        RadioError::from(DriverError::Transport("port gone".to_string())),
        RadioError::Transport(s) if s == "port gone"
    ));
    assert!(matches!(RadioError::from(DriverError::Timeout), RadioError::Timeout));
    assert!(matches!(RadioError::from(DriverError::Fault), RadioError::Fault));
    assert!(matches!(RadioError::from(DriverError::Closed), RadioError::Closed));
    let e: RadioError = DriverError::Fault.into();
    assert!(matches!(e, RadioError::Fault));
}

#[test]
fn declared_ranges_tune_in_base_band() {
    for hz in [115_000_000u64, 173_995_000, 225_000_000, 399_995_000, 160_000_000] {
        let p = plan_tune(&TuneRequest::simplex(hz)).unwrap();
        assert_eq!(p.band, Band::Base);
    }
}

#[test]
fn state_reports_keyed_transmitter() {
    let snap = PresetSnapshot {
        rx_hz: 150_000_000,
        tx_hz: 150_000_000,
        mod_tx_rx: ModMode::Am,
        preset: 0,
        power: "High".to_string(),
    };
    let st = state_from_snapshot(snap, None, None, true);
    assert!(st.transmitting);
    assert_eq!(st.mode, Some(Mode::Am));
    assert_eq!(st.rssi, None);
}

#[test]
fn state_read_inquiry_order() {
    assert_eq!(
        read_state_inquiries(),
        vec![Inquiry::PresetSnapshot, Inquiry::Rssi, Inquiry::SquelchStatus]
    );
}
