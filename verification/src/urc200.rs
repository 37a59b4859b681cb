use vstd::prelude::*;
use vstd::string::StringExecFns;
use crate::caps::{Capabilities, FeatureFlags, FreqRange};
use crate::error::RadioError;
use crate::mode::Mode;
use crate::radio::{RadioState, TuneRequest};

verus! {

/// The URC-200 frequency bands.
#[derive(Debug, Clone, Copy, PartialEq, Eq, Structural)]
pub enum Band {
    /// Low VHF option band, 30-90 MHz.
    Lvhf,
    /// Base band: 115-173.995 MHz and 225-399.995 MHz.
    Base,
    /// UHF option band, 400-420 MHz.
    Uhf400,
}

/// The two modulation modes the URC-200 knows.
#[derive(Debug, Clone, Copy, PartialEq, Eq, Structural)]
pub enum ModMode {
    Am,
    Fm,
}

/// The band that a frequency (Hz) belongs to, if any.
pub open spec fn spec_band_for(hz: u64) -> Option<Band> {
    if 30_000_000 <= hz <= 90_000_000 {
        Some(Band::Lvhf)
    } else if (115_000_000 <= hz <= 173_995_000) || (225_000_000 <= hz <= 399_995_000) {
        Some(Band::Base)
    } else if 400_000_000 <= hz <= 420_000_000 {
        Some(Band::Uhf400)
    } else {
        None
    }
}

/// The band that a frequency (Hz) belongs to, if any.
pub fn band_for(hz: u64) -> (b: Option<Band>)
    ensures
        b == spec_band_for(hz),
{
    if 30_000_000 <= hz && hz <= 90_000_000 {
        Some(Band::Lvhf)
    } else if (115_000_000 <= hz && hz <= 173_995_000) || (225_000_000 <= hz && hz <= 399_995_000) {
        Some(Band::Base)
    } else if 400_000_000 <= hz && hz <= 420_000_000 {
        Some(Band::Uhf400)
    } else {
        None
    }
}

/// The URC-200 modulation for a generic mode: the advertised modes AM and
/// FM map to themselves, and every other mode is unsupported.
pub open spec fn spec_mode_to_urc(mode: Mode) -> Result<ModMode, RadioError> {
    match mode {
        Mode::Am => Ok(ModMode::Am),
        Mode::Fm => Ok(ModMode::Fm),
        other => Err(RadioError::UnsupportedMode(other)),
    }
}

/// The URC-200 modulation for a generic mode (see [`spec_mode_to_urc`]).
pub fn mode_to_urc(mode: Mode) -> (r: Result<ModMode, RadioError>)
    ensures
        r == spec_mode_to_urc(mode),
{
    match mode {
        Mode::Am => Ok(ModMode::Am),
        Mode::Fm => Ok(ModMode::Fm),
        other => Err(RadioError::UnsupportedMode(other)),
    }
}

/// The generic mode that a URC-200 modulation reports as.
pub open spec fn spec_mode_from_urc(m: ModMode) -> Mode {
    match m {
        ModMode::Am => Mode::Am,
        ModMode::Fm => Mode::Fm,
    }
}

/// The generic mode that a URC-200 modulation reports as.
pub fn mode_from_urc(m: ModMode) -> (r: Mode)
    ensures
        r == spec_mode_from_urc(m),
{
    match m {
        ModMode::Am => Mode::Am,
        ModMode::Fm => Mode::Fm,
    }
}

} // verus!

verus! {

/// The base-band frequency ranges of the URC-200 V2 (used for both RX and TX).
pub open spec fn urc200_ranges() -> Seq<FreqRange> {
    seq![
        FreqRange { start_hz: 115_000_000, end_hz: 173_995_000 },
        FreqRange { start_hz: 225_000_000, end_hz: 399_995_000 },
    ]
}

/// The modes the URC-200 V2 advertises: AM and FM.
pub open spec fn urc200_modes() -> Seq<Mode> {
    seq![Mode::Am, Mode::Fm]
}

/// The feature bits of the URC-200 V2: PTT, squelch status and level,
/// S-meter, split, memory, hardware scan, temperature and raw passthrough.
pub open spec fn urc200_feature_bits() -> u32 {
    FeatureFlags::PTT | FeatureFlags::SQUELCH_STATUS | FeatureFlags::SQUELCH_LEVEL
        | FeatureFlags::SMETER | FeatureFlags::SPLIT | FeatureFlags::MEMORY
        | FeatureFlags::HARDWARE_SCAN | FeatureFlags::TEMPERATURE
        | FeatureFlags::RAW_PASSTHROUGH
}

/// Static declaration of what the URC-200 V2 can do (base-band unit).
pub fn urc200_caps() -> (caps: Capabilities)
    ensures
        caps.id@ == "urc200-v2"@,
        caps.display_name@ == "General Dynamics URC-200 V2"@,
        caps.rx_ranges@ == urc200_ranges(),
        caps.tx_ranges@ == urc200_ranges(),
        caps.modes@ == urc200_modes(),
        caps.tuning_step_hz == 5_000,
        caps.presets == Some(10u8),
        caps.features@ == urc200_feature_bits(),
        caps.wf(),
{
    let features = FeatureFlags::from_bits_truncate(
        FeatureFlags::PTT | FeatureFlags::SQUELCH_STATUS | FeatureFlags::SQUELCH_LEVEL
            | FeatureFlags::SMETER | FeatureFlags::SPLIT | FeatureFlags::MEMORY
            | FeatureFlags::HARDWARE_SCAN | FeatureFlags::TEMPERATURE
            | FeatureFlags::RAW_PASSTHROUGH,
    );
    assert(urc200_feature_bits() & FeatureFlags::all_bits() == urc200_feature_bits())
        by (bit_vector);
    let caps = Capabilities {
        id: "urc200-v2",
        display_name: "General Dynamics URC-200 V2",
        rx_ranges: vec![
            FreqRange::new(115_000_000, 173_995_000),
            FreqRange::new(225_000_000, 399_995_000),
        ],
        tx_ranges: vec![
            FreqRange::new(115_000_000, 173_995_000),
            FreqRange::new(225_000_000, 399_995_000),
        ],
        modes: vec![Mode::Am, Mode::Fm],
        tuning_step_hz: 5_000,
        presets: Some(10),
        features,
    };
    assert(caps.rx_ranges@ == urc200_ranges());
    assert(caps.tx_ranges@ == urc200_ranges());
    assert(caps.modes@ == urc200_modes());
    caps
}

} // verus!

verus! {

/// The commands of the URC-200 that the driver logic issues. Frequencies
/// are the radio's 32-bit Hz values.
#[derive(Debug, Clone, Copy, PartialEq, Eq, Structural)]
pub enum UrcCommand {
    /// Set the receive frequency.
    SetRx(u32),
    /// Set the transmit frequency.
    SetTx(u32),
    /// Set the modulation for both transmit and receive.
    ModTxRx(ModMode),
    /// Key the transmitter (RF emission).
    Transmit,
    /// Unkey the transmitter.
    Receive,
}

/// What a tune request becomes on the URC-200 before any byte is sent: the
/// band both frequencies are encoded in, the RX and TX frequencies, the
/// commands to send, in order, and the error (an unsupported mode) that
/// ends the tune once those commands were answered. Placing a frequency on
/// the radio's tuning grid and checking it against the band is the protocol
/// encoding's work, outside this plan.
#[derive(Debug, Clone)]
pub struct TunePlan {
    pub band: Band,
    pub rx_hz: u32,
    pub tx_hz: u32,
    pub commands: Vec<UrcCommand>,
    pub refusal: Option<RadioError>,
}

/// The band a tune request is programmed in: the band of its RX frequency,
/// else the band of its TX frequency.
pub open spec fn spec_tune_band(req: TuneRequest) -> Option<Band> {
    match spec_band_for(req.rx_hz) {
        Some(b) => Some(b),
        None => spec_band_for(req.tx_hz),
    }
}

/// The commands of a tune: set RX, set TX, then the modulation when one is
/// asked for.
pub open spec fn spec_tune_commands(rx_hz: u32, tx_hz: u32, mode: Option<ModMode>) -> Seq<UrcCommand> {
    match mode {
        Some(m) => seq![UrcCommand::SetRx(rx_hz), UrcCommand::SetTx(tx_hz), UrcCommand::ModTxRx(m)],
        None => seq![UrcCommand::SetRx(rx_hz), UrcCommand::SetTx(tx_hz)],
    }
}

/// The modulation a tune request sets, when it asks for a supported one.
pub open spec fn spec_tune_mode(req: TuneRequest) -> Option<ModMode> {
    match req.mode {
        Some(m) => match spec_mode_to_urc(m) {
            Ok(u) => Some(u),
            Err(_) => None,
        },
        None => None,
    }
}

/// The outcome of planning a tune, before anything is sent: refused as out
/// of range when neither frequency lies in a band or a frequency does not
/// fit the radio's 32-bit Hz word (the RX frequency is checked first);
/// otherwise both frequencies unchanged in the band of the RX frequency (or
/// of the TX frequency when RX has none).
pub open spec fn spec_plan_result(req: TuneRequest) -> Result<(Band, u32, u32), RadioError> {
    match spec_tune_band(req) {
        None => Err(RadioError::OutOfRange(req.rx_hz)),
        Some(b) => if req.rx_hz > u32::MAX {
            Err(RadioError::OutOfRange(req.rx_hz))
        } else if req.tx_hz > u32::MAX {
            Err(RadioError::OutOfRange(req.tx_hz))
        } else {
            Ok((b, req.rx_hz as u32, req.tx_hz as u32))
        },
    }
}

/// The error that ends a tune after its frequencies were set: the request
/// asks for a mode the URC-200 does not support.
pub open spec fn spec_tune_refusal(req: TuneRequest) -> Option<RadioError> {
    match req.mode {
        Some(m) => match spec_mode_to_urc(m) {
            Ok(_) => None,
            Err(e) => Some(e),
        },
        None => None,
    }
}

/// Plans a tune (see [`spec_plan_result`]). A plan sets RX, then TX, then
/// the modulation when the request names a supported one; a request naming
/// an unsupported mode still sets both frequencies and then fails with
/// `UnsupportedMode`, without a modulation command.
pub fn plan_tune(req: &TuneRequest) -> (r: Result<TunePlan, RadioError>)
    ensures
        match spec_plan_result(*req) {
            Err(e) => r == Err::<TunePlan, RadioError>(e),
            Ok((b, rx, tx)) => r matches Ok(p) && p.band == b && p.rx_hz == rx && p.tx_hz == tx
                && p.rx_hz == req.rx_hz && p.tx_hz == req.tx_hz
                && p.commands@ == spec_tune_commands(rx, tx, spec_tune_mode(*req))
                && p.refusal == spec_tune_refusal(*req),
        },
        r matches Ok(p) ==> {
            &&& p.commands@.len() >= 2
            &&& p.commands@[0] == UrcCommand::SetRx(req.rx_hz as u32)
            &&& p.commands@[1] == UrcCommand::SetTx(req.tx_hz as u32)
            &&& req.rx_hz == p.rx_hz && req.tx_hz == p.tx_hz
            &&& spec_band_for(req.rx_hz) matches Some(b) ==> p.band == b
            &&& spec_band_for(req.rx_hz) is None ==> spec_band_for(req.tx_hz) == Some(p.band)
            &&& req.mode is None ==> p.commands@.len() == 2 && p.refusal is None
            &&& req.mode == Some(Mode::Am) ==> p.commands@.len() == 3
                && p.commands@[2] == UrcCommand::ModTxRx(ModMode::Am) && p.refusal is None
            &&& req.mode == Some(Mode::Fm) ==> p.commands@.len() == 3
                && p.commands@[2] == UrcCommand::ModTxRx(ModMode::Fm) && p.refusal is None
            &&& req.mode matches Some(m) ==> (m != Mode::Am && m != Mode::Fm ==> p.commands@.len() == 2
                && p.refusal == Some(RadioError::UnsupportedMode(m)))
        },
        (spec_band_for(req.rx_hz) is Some || spec_band_for(req.tx_hz) is Some) && req.rx_hz <= u32::MAX
            && req.tx_hz <= u32::MAX ==> r is Ok,
{
    let band = match band_for(req.rx_hz) {
        Some(b) => b,
        None => match band_for(req.tx_hz) {
            Some(b) => b,
            None => {
                return Err(RadioError::OutOfRange(req.rx_hz));
            },
        },
    };
    if req.rx_hz > 0xffff_ffff {
        return Err(RadioError::OutOfRange(req.rx_hz));
    }
    if req.tx_hz > 0xffff_ffff {
        return Err(RadioError::OutOfRange(req.tx_hz));
    }
    let rx_hz = req.rx_hz as u32;
    let tx_hz = req.tx_hz as u32;
    let mut commands = Vec::new();
    commands.push(UrcCommand::SetRx(rx_hz));
    commands.push(UrcCommand::SetTx(tx_hz));
    let mut refusal = None;
    match req.mode {
        Some(m) => match mode_to_urc(m) {
            Ok(u) => commands.push(UrcCommand::ModTxRx(u)),
            Err(e) => {
                refusal = Some(e);
            },
        },
        None => {},
    }
    assert(commands@ =~= spec_tune_commands(rx_hz, tx_hz, spec_tune_mode(*req)));
    Ok(TunePlan { band, rx_hz, tx_hz, commands, refusal })
}

/// The command for a push-to-talk request: keying transmits, unkeying
/// receives.
pub open spec fn spec_ptt_command(key: bool) -> UrcCommand {
    if key {
        UrcCommand::Transmit
    } else {
        UrcCommand::Receive
    }
}

/// The command for a push-to-talk request (see [`spec_ptt_command`]).
pub fn ptt_command(key: bool) -> (c: UrcCommand)
    ensures
        c == spec_ptt_command(key),
{
    if key {
        UrcCommand::Transmit
    } else {
        UrcCommand::Receive
    }
}

/// Whether the transmitter is keyed after a push-to-talk request: a request
/// that the radio acknowledged leaves it as asked; one that failed or was
/// not acknowledged leaves it as it was.
pub open spec fn spec_keyed_after_ptt(was_keyed: bool, key: bool, acked: bool) -> bool {
    if acked {
        key
    } else {
        was_keyed
    }
}

/// Tracks the transmitter across a push-to-talk request (see
/// [`spec_keyed_after_ptt`]).
pub fn keyed_after_ptt(was_keyed: bool, key: bool, acked: bool) -> (k: bool)
    ensures
        k == spec_keyed_after_ptt(was_keyed, key, acked),
{
    if acked {
        key
    } else {
        was_keyed
    }
}

/// The ACK control byte.
pub const ACK: u8 = 0x06;
/// The byte that stands for "no data and no ACK".
pub const NO_ACK: u8 = 0x09;

/// The reply bytes of a raw exchange: the response data, or the single
/// byte ACK / `NO_ACK` when the data is empty.
pub open spec fn spec_raw_reply(is_ack: bool, data: Seq<u8>) -> Seq<u8> {
    if data.len() == 0 {
        seq![if is_ack { ACK } else { NO_ACK }]
    } else {
        data
    }
}

/// Turns the response to raw bytes into the caller's reply: a NAK fails
/// with `Driver("radio NAK'd raw command")`; otherwise the response data,
/// or one status byte when it carries none.
pub fn raw_reply(is_nak: bool, is_ack: bool, data: Vec<u8>) -> (r: Result<Vec<u8>, RadioError>)
    ensures
        is_nak ==> (r matches Err(RadioError::Driver(s)) && s@ == "radio NAK'd raw command"@),
        !is_nak ==> (r matches Ok(out) && out@ == spec_raw_reply(is_ack, data@)),
{
    if is_nak {
        return Err(RadioError::Driver("radio NAK'd raw command".to_owned()));
    }
    let mut out = data;
    if out.len() == 0 {
        out.push(if is_ack { ACK } else { NO_ACK });
    }
    Ok(out)
}

} // verus!

verus! {

/// The character of a decimal digit.
pub open spec fn digit_char(d: nat) -> char {
    (48 + d) as char
}

/// The decimal text of a natural number, without leading zeros.
pub open spec fn decimal(n: nat) -> Seq<char>
    decreases n,
{
    if n < 10 {
        seq![digit_char(n)]
    } else {
        decimal(n / 10) + seq![digit_char(n % 10)]
    }
}

/// The one-character text of a digit.
fn digit_str(d: u8) -> (s: &'static str)
    requires
        d < 10,
    ensures
        s@ == seq![digit_char(d as nat)],
{
    match d {
        0 => { proof { reveal_strlit("0"); } "0" },
        1 => { proof { reveal_strlit("1"); } "1" },
        2 => { proof { reveal_strlit("2"); } "2" },
        3 => { proof { reveal_strlit("3"); } "3" },
        4 => { proof { reveal_strlit("4"); } "4" },
        5 => { proof { reveal_strlit("5"); } "5" },
        6 => { proof { reveal_strlit("6"); } "6" },
        7 => { proof { reveal_strlit("7"); } "7" },
        8 => { proof { reveal_strlit("8"); } "8" },
        _ => { proof { reveal_strlit("9"); } "9" },
    }
}

/// The display label of a preset slot: `P` followed by its number.
pub fn preset_label(n: u8) -> (s: String)
    ensures
        s@ == seq!['P'] + decimal(n as nat),
{
    let mut s = String::new();
    proof { reveal_strlit("P"); }
    s.append("P");
    let ghost p: Seq<char> = seq!['P'];
    if n >= 100 {
        s.append(digit_str(n / 100));
        s.append(digit_str((n / 10) % 10));
        proof {
            reveal_with_fuel(decimal, 3);
            assert(s@ =~= p + decimal((n / 10) as nat));
        }
    } else if n >= 10 {
        s.append(digit_str(n / 10));
        proof {
            reveal_with_fuel(decimal, 2);
            assert(s@ =~= p + decimal((n / 10) as nat));
        }
    } else {
        assert(s@ =~= p);
    }
    s.append(digit_str(n % 10));
    proof {
        reveal_with_fuel(decimal, 2);
        if n >= 10 {
            assert(decimal(n as nat) == decimal((n / 10) as nat) + seq![digit_char((n % 10) as nat)]);
        }
        assert(s@ =~= p + decimal(n as nat));
    }
    s
}

/// What the preset snapshot inquiry reports: the RX and TX frequencies
/// (Hz), the modulation, the active preset slot, and the name of the power
/// level.
#[derive(Debug, Clone)]
pub struct PresetSnapshot {
    pub rx_hz: u32,
    pub tx_hz: u32,
    pub mod_tx_rx: ModMode,
    pub preset: u8,
    pub power: String,
}

/// A decoded preset snapshot, or `Driver("preset snapshot decode")` when the
/// inquiry's data could not be decoded.
pub fn require_snapshot(snap: Option<PresetSnapshot>) -> (r: Result<PresetSnapshot, RadioError>)
    ensures
        snap is None ==> (r matches Err(RadioError::Driver(s)) && s@ == "preset snapshot decode"@),
        snap matches Some(v) ==> r == Ok::<PresetSnapshot, RadioError>(v),
{
    match snap {
        Some(v) => Ok(v),
        None => Err(RadioError::Driver("preset snapshot decode".to_owned())),
    }
}

/// The radio state read from a preset snapshot, the RSSI reading and the
/// squelch reading (`Some(true)` when squelch is broken), and whether the
/// transmitter is keyed; the extras name the preset and the power level.
pub fn state_from_snapshot(
    snap: PresetSnapshot,
    rssi: Option<u8>,
    squelch_broken: Option<bool>,
    transmitting: bool,
) -> (st: RadioState)
    ensures
        st.rx_hz == snap.rx_hz as u64,
        st.tx_hz == snap.tx_hz as u64,
        st.mode == Some(spec_mode_from_urc(snap.mod_tx_rx)),
        st.rssi == rssi,
        st.squelch_broken == squelch_broken,
        st.transmitting == transmitting,
        st.extras@.len() == 2,
        st.extras@[0].0@ == "preset"@,
        st.extras@[0].1@ == seq!['P'] + decimal(snap.preset as nat),
        st.extras@[1].0@ == "power"@,
        st.extras@[1].1@ == snap.power@,
{
    let label = preset_label(snap.preset);
    let mode = mode_from_urc(snap.mod_tx_rx);
    let extras = vec![("preset".to_owned(), label), ("power".to_owned(), snap.power)];
    RadioState {
        rx_hz: snap.rx_hz as u64,
        tx_hz: snap.tx_hz as u64,
        mode: Some(mode),
        rssi,
        squelch_broken,
        transmitting,
        extras,
    }
}

} // verus!

verus! {

/// The inquiries that reading the radio's state makes.
#[derive(Debug, Clone, Copy, PartialEq, Eq, Structural)]
pub enum Inquiry {
    PresetSnapshot,
    Rssi,
    SquelchStatus,
}

/// The inquiries of a state read, in the order they are made: the preset
/// snapshot, then the RSSI, then the squelch status.
pub open spec fn spec_read_state_inquiries() -> Seq<Inquiry> {
    seq![Inquiry::PresetSnapshot, Inquiry::Rssi, Inquiry::SquelchStatus]
}

/// The inquiries of a state read (see [`spec_read_state_inquiries`]).
pub fn read_state_inquiries() -> (v: Vec<Inquiry>)
    ensures
        v@ == spec_read_state_inquiries(),
{
    let v = vec![Inquiry::PresetSnapshot, Inquiry::Rssi, Inquiry::SquelchStatus];
    assert(v@ == spec_read_state_inquiries());
    v
}

} // verus!
