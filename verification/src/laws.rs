use vstd::prelude::*;
use crate::caps::{FeatureFlags, in_some_range};
use crate::waterfall::{byte_capacity, le_bytes, le_value, spec_waterfall_frame, spec_gain_action, GainAction};
use crate::mode::Mode;
use crate::radio::TuneRequest;
use crate::error::RadioError;
use crate::scratch::{
    all_digits, digits_value,    DEFAULT_SCRATCH_PRESET, MAX_PRESET, ScratchStage, spec_parse_u8, spec_scratch_preset,
    spec_scratch_stages,
};
use crate::urc200::{
    decimal, digit_char,
    Band, ModMode, UrcCommand, spec_band_for, spec_keyed_after_ptt, spec_plan_result,
    spec_tune_commands, spec_tune_mode, spec_tune_refusal, urc200_modes, spec_mode_from_urc, spec_mode_to_urc,
    spec_ptt_command, spec_raw_reply, spec_tune_band, urc200_feature_bits, urc200_ranges,
};

verus! {

/// The URC-200's declared frequencies are exactly its base band: a
/// frequency lies in a declared range if and only if it is in the base
/// band, so tuning to a declared frequency is never refused as out of range.
pub proof fn law_declared_ranges_are_base_band(req: TuneRequest)
    ensures
        in_some_range(urc200_ranges(), req.rx_hz) <==> spec_band_for(req.rx_hz) == Some(Band::Base),
        in_some_range(urc200_ranges(), req.rx_hz) ==> spec_tune_band(req) == Some(Band::Base),
{
    if in_some_range(urc200_ranges(), req.rx_hz) {
        let i = choose|i: int| 0 <= i < urc200_ranges().len() && (#[trigger] urc200_ranges()[i]).spec_contains(req.rx_hz);
        assert(i == 0 || i == 1);
    }
    if spec_band_for(req.rx_hz) == Some(Band::Base) {
        if req.rx_hz <= 173_995_000 {
            assert(urc200_ranges()[0].spec_contains(req.rx_hz));
        } else {
            assert(urc200_ranges()[1].spec_contains(req.rx_hz));
        }
    }
}

/// The URC-200 tunes exactly the modes it advertises: an advertised mode
/// maps to a modulation that reads back as the same mode, and every other
/// mode is refused with `UnsupportedMode` naming it.
pub proof fn law_advertised_modes_exactly(m: Mode)
    ensures
        (spec_mode_to_urc(m) is Ok) <==> urc200_modes().contains(m),
        urc200_modes().contains(m) ==> (spec_mode_to_urc(m) matches Ok(u) && spec_mode_from_urc(u) == m),
        !urc200_modes().contains(m) ==> spec_mode_to_urc(m) == Err::<ModMode, RadioError>(RadioError::UnsupportedMode(m)),
{
    if urc200_modes().contains(m) {
        let i = choose|i: int| 0 <= i < 2 && urc200_modes()[i] == m;
        assert(i == 0 || i == 1);
    } else {
        assert(urc200_modes()[0] == Mode::Am);
        assert(urc200_modes()[1] == Mode::Fm);
    }
}

/// A tune request with an unadvertised mode ends with `UnsupportedMode`
/// naming it, and no modulation command is ever sent for it: only the two
/// frequencies are set.
pub proof fn law_unadvertised_mode_refused(req: TuneRequest, rx_hz: u32, tx_hz: u32)
    requires
        req.mode matches Some(m) && !urc200_modes().contains(m),
    ensures
        spec_tune_refusal(req) == Some(RadioError::UnsupportedMode(req.mode.unwrap())),
        spec_tune_commands(rx_hz, tx_hz, spec_tune_mode(req))
            == seq![UrcCommand::SetRx(rx_hz), UrcCommand::SetTx(tx_hz)],
{
    law_advertised_modes_exactly(req.mode.unwrap());
}

/// Setting a URC-200 modulation that was read back from the radio sets the
/// same modulation again.
pub proof fn law_mode_round_trip(u: ModMode)
    ensures
        spec_mode_to_urc(spec_mode_from_urc(u)) == Ok::<ModMode, RadioError>(u),
{
}

/// Only a caller's request to key causes RF emission: unkeying never
/// transmits, keying is the one request that does, and no tune sends a
/// keying command of either kind.
pub proof fn law_only_keying_transmits(key: bool, rx_hz: u32, tx_hz: u32, mode: Option<ModMode>)
    ensures
        spec_ptt_command(false) == UrcCommand::Receive,
        (spec_ptt_command(key) == UrcCommand::Transmit) <==> key,
        forall|i: int| 0 <= i < spec_tune_commands(rx_hz, tx_hz, mode).len() ==> {
            &&& #[trigger] spec_tune_commands(rx_hz, tx_hz, mode)[i] != UrcCommand::Transmit
            &&& spec_tune_commands(rx_hz, tx_hz, mode)[i] != UrcCommand::Receive
        },
{
}

/// The transmitter reads as keyed only after the radio acknowledged a
/// request to key, and an acknowledged request to unkey always clears it.
pub proof fn law_keyed_state(was_keyed: bool, key: bool, acked: bool)
    ensures
        spec_keyed_after_ptt(was_keyed, key, acked) && !was_keyed ==> key && acked,
        spec_keyed_after_ptt(was_keyed, false, true) == false,
        spec_keyed_after_ptt(was_keyed, true, true) == true,
{
}

/// The URC-200 supports split operation: it declares the split feature,
/// and a request in band, with frequencies that fit the radio's word,
/// programs exactly the RX and TX frequencies it names, whether or not they
/// differ.
pub proof fn law_split_supported(req: TuneRequest)
    requires
        spec_tune_band(req) is Some,
        req.rx_hz <= u32::MAX,
        req.tx_hz <= u32::MAX,
    ensures
        urc200_feature_bits() & FeatureFlags::SPLIT == FeatureFlags::SPLIT,
        spec_plan_result(req) matches Ok((b, rx, tx)) && rx == req.rx_hz && tx == req.tx_hz,
{
    assert(urc200_feature_bits() & FeatureFlags::SPLIT == FeatureFlags::SPLIT) by (bit_vector);
}

/// A frequency too wide for the radio's 32-bit word is refused, never
/// programmed as some other frequency: the plan carries only the exact
/// frequencies asked for.
pub proof fn law_wide_frequency_refused(req: TuneRequest)
    ensures
        req.rx_hz > u32::MAX ==> spec_plan_result(req) == Err::<(Band, u32, u32), RadioError>(RadioError::OutOfRange(req.rx_hz)),
        spec_tune_band(req) is Some && req.rx_hz <= u32::MAX && req.tx_hz > u32::MAX ==> spec_plan_result(req) == Err::<(Band, u32, u32), RadioError>(RadioError::OutOfRange(req.tx_hz)),
        spec_plan_result(req) matches Ok((b, rx, tx)) ==> rx == req.rx_hz && tx == req.tx_hz,
{
}

/// A successful raw exchange always answers with at least one byte, and
/// with exactly the radio's data when it sent any.
pub proof fn law_raw_reply_nonempty(is_ack: bool, data: Seq<u8>)
    ensures
        spec_raw_reply(is_ack, data).len() > 0,
        data.len() > 0 ==> spec_raw_reply(is_ack, data) == data,
{
}

/// The scratch-slot sequence parks on the scratch preset first, touches no
/// other preset, sets RX before TX before the mode, and stores to EEPROM
/// exactly once, last.
pub proof fn law_scratch_sequence(with_mode: bool)
    ensures
        ({
            let s = spec_scratch_stages(with_mode);
            &&& s[0] == ScratchStage::Preset
            &&& s.last() == ScratchStage::Store
            &&& forall|i: int| 0 < i < s.len() ==> s[i] != ScratchStage::Preset
            &&& forall|i: int| 0 <= i < s.len() - 1 ==> s[i] != ScratchStage::Store
            &&& s[1] == ScratchStage::Rx
            &&& s[2] == ScratchStage::Tx
            &&& (s.len() == 5) == with_mode
        }),
{
}

/// The scratch slot chosen from any configuration text is a valid slot,
/// and it is the slot the text names whenever the text is accepted.
pub proof fn law_scratch_slot_valid(raw: Seq<char>)
    ensures
        spec_scratch_preset(raw).0 <= MAX_PRESET,
        spec_scratch_preset(raw).1 ==> spec_parse_u8(raw) == Some(spec_scratch_preset(raw).0),
        !spec_scratch_preset(raw).1 ==> spec_scratch_preset(raw).0 == DEFAULT_SCRATCH_PRESET,
{
}

/// The decimal text of a number is a run of digits with that value.
proof fn lemma_decimal_digits(n: nat)
    ensures
        decimal(n).len() > 0,
        all_digits(decimal(n)),
        digits_value(decimal(n)) == n,
    decreases n,
{
    assert(digit_char(n % 10) as int == 48 + n % 10);
    if n < 10 {
        let d = decimal(n);
        assert(d.drop_last() =~= Seq::<char>::empty());
        assert(digits_value(d) == digits_value(d.drop_last()) * 10 + ((d.last() as int - 48) as nat));
    } else {
        lemma_decimal_digits(n / 10);
        let d = decimal(n);
        assert(d.drop_last() =~= decimal(n / 10));
        assert(d.last() == digit_char(n % 10));
        assert(digits_value(d) == digits_value(d.drop_last()) * 10 + ((d.last() as int - 48) as nat));
        assert(digits_value(d) == (n / 10) * 10 + n % 10);
        assert forall|i: int| 0 <= i < d.len() implies crate::scratch::is_digit(#[trigger] d[i]) by {
            if i < d.len() - 1 {
                assert(d[i] == decimal(n / 10)[i]);
            }
        }
    }
}

/// The slot number shown in a preset label (the text after `P`) reads back
/// as the same number.
pub proof fn law_preset_label_reads_back(n: u8)
    ensures
        spec_parse_u8(decimal(n as nat)) == Some(n),
{
    lemma_decimal_digits(n as nat);
    let d = decimal(n as nat);
    assert(crate::scratch::is_digit(d[0]));
}

/// Little-endian bytes have the requested length.
proof fn lemma_le_bytes_len(v: nat, n: nat)
    ensures
        le_bytes(v, n).len() == n,
    decreases n,
{
    if n > 0 {
        lemma_le_bytes_len(v / 256, (n - 1) as nat);
    }
}

/// Little-endian bytes read back as the number, when it fits.
proof fn lemma_le_round_trip(v: nat, n: nat)
    requires
        v < byte_capacity(n),
    ensures
        le_value(le_bytes(v, n)) == v,
    decreases n,
{
    if n > 0 {
        let rest = (n - 1) as nat;
        assert(v / 256 < byte_capacity(rest)) by (nonlinear_arith)
            requires
                v < 256 * byte_capacity(rest),
        ;
        lemma_le_round_trip(v / 256, rest);
        let s = le_bytes(v, n);
        assert(s.drop_first() =~= le_bytes(v / 256, rest));
    }
}

/// A waterfall frame describes itself: its first 8 bytes read back as the
/// centre frequency, the next 4 as the sample rate, the next 4 as the bin
/// count (modulo 2^32), and the bins follow unchanged.
pub proof fn law_waterfall_header(center_hz: u64, sample_rate: u32, bins: Seq<u8>)
    ensures
        ({
            let f = spec_waterfall_frame(center_hz, sample_rate, bins);
            &&& f.len() == 16 + bins.len()
            &&& le_value(f.subrange(0, 8)) == center_hz
            &&& le_value(f.subrange(8, 12)) == sample_rate
            &&& le_value(f.subrange(12, 16)) == (bins.len() as u32)
            &&& bins.len() <= u32::MAX ==> le_value(f.subrange(12, 16)) == bins.len()
            &&& f.subrange(16, f.len() as int) == bins
        }),
{
    reveal_with_fuel(byte_capacity, 9);
    assert(byte_capacity(8) == 0x1_0000_0000_0000_0000);
    assert(byte_capacity(4) == 0x1_0000_0000);
    let a = le_bytes(center_hz as nat, 8);
    let b = le_bytes(sample_rate as nat, 4);
    let c = le_bytes((bins.len() as u32) as nat, 4);
    lemma_le_bytes_len(center_hz as nat, 8);
    lemma_le_bytes_len(sample_rate as nat, 4);
    lemma_le_bytes_len((bins.len() as u32) as nat, 4);
    lemma_le_round_trip(center_hz as nat, 8);
    lemma_le_round_trip(sample_rate as nat, 4);
    lemma_le_round_trip((bins.len() as u32) as nat, 4);
    let f = spec_waterfall_frame(center_hz, sample_rate, bins);
    assert(f.subrange(0, 8) =~= a);
    assert(f.subrange(8, 12) =~= b);
    assert(f.subrange(12, 16) =~= c);
    assert(f.subrange(16, f.len() as int) =~= bins);
}

/// A tune programs exactly the frequencies asked for: whenever one of the
/// frequencies has a band and both fit the radio's 32-bit word, the plan is
/// made, its first command sets RX to the requested RX frequency and its
/// second sets TX to the requested TX frequency (split stays split), with
/// nothing more when no mode is asked for, and the matching modulation
/// command after them for AM or FM.
pub proof fn law_tune_programs_requested_frequencies(req: TuneRequest)
    requires
        spec_band_for(req.rx_hz) is Some || spec_band_for(req.tx_hz) is Some,
        req.rx_hz <= u32::MAX,
        req.tx_hz <= u32::MAX,
    ensures
        spec_plan_result(req) matches Ok((b, rx, tx)) && rx == req.rx_hz && tx == req.tx_hz,
        ({
            let c = spec_tune_commands(req.rx_hz as u32, req.tx_hz as u32, spec_tune_mode(req));
            &&& c.len() >= 2
            &&& c[0] == UrcCommand::SetRx(req.rx_hz as u32)
            &&& c[1] == UrcCommand::SetTx(req.tx_hz as u32)
            &&& req.mode is None ==> c.len() == 2
            &&& req.mode == Some(Mode::Am) ==> c == seq![
                UrcCommand::SetRx(req.rx_hz as u32),
                UrcCommand::SetTx(req.tx_hz as u32),
                UrcCommand::ModTxRx(ModMode::Am),
            ]
            &&& req.mode == Some(Mode::Fm) ==> c == seq![
                UrcCommand::SetRx(req.rx_hz as u32),
                UrcCommand::SetTx(req.tx_hz as u32),
                UrcCommand::ModTxRx(ModMode::Fm),
            ]
        }),
{
}

/// The band a tune is programmed in is the band of its RX frequency, of any
/// band (LVHF 30-90 MHz, base 115-173.995 and 225-399.995 MHz, UHF
/// 400-420 MHz); only when RX lies in none does the TX frequency's band
/// decide.
pub proof fn law_tune_band(req: TuneRequest)
    ensures
        30_000_000 <= req.rx_hz <= 90_000_000 ==> spec_tune_band(req) == Some(Band::Lvhf),
        115_000_000 <= req.rx_hz <= 173_995_000 ==> spec_tune_band(req) == Some(Band::Base),
        225_000_000 <= req.rx_hz <= 399_995_000 ==> spec_tune_band(req) == Some(Band::Base),
        400_000_000 <= req.rx_hz <= 420_000_000 ==> spec_tune_band(req) == Some(Band::Uhf400),
        spec_band_for(req.rx_hz) is None ==> {
            &&& 30_000_000 <= req.tx_hz <= 90_000_000 ==> spec_tune_band(req) == Some(Band::Lvhf)
            &&& (115_000_000 <= req.tx_hz <= 173_995_000 || 225_000_000 <= req.tx_hz <= 399_995_000)
                ==> spec_tune_band(req) == Some(Band::Base)
            &&& 400_000_000 <= req.tx_hz <= 420_000_000 ==> spec_tune_band(req) == Some(Band::Uhf400)
        },
        spec_band_for(req.rx_hz) matches Some(b) ==> (req.rx_hz <= u32::MAX && req.tx_hz <= u32::MAX
            ==> (spec_plan_result(req) matches Ok((pb, _, _)) && pb == b)),
{
}

/// A tune ends with an error after its frequencies are set exactly when it
/// asks for a mode the URC-200 does not advertise; with no mode or an
/// advertised one (AM, FM) it ends without a refusal.
pub proof fn law_refusal_exactly_unadvertised(req: TuneRequest)
    ensures
        (spec_tune_refusal(req) is None) <==> (req.mode is None || urc200_modes().contains(req.mode.unwrap())),
        req.mode == Some(Mode::Am) ==> spec_tune_refusal(req) is None,
        req.mode == Some(Mode::Fm) ==> spec_tune_refusal(req) is None,
        req.mode matches Some(m) ==> (!urc200_modes().contains(m) ==> spec_tune_refusal(req)
            == Some(RadioError::UnsupportedMode(m))),
{
    if req.mode is Some {
        law_advertised_modes_exactly(req.mode.unwrap());
    }
}

/// The gain mode `"auto"` always re-enables automatic gain, whether or not a
/// numeric gain comes with it; any other (or no) gain mode fixes the gain
/// exactly when a numeric gain is given.
pub proof fn law_auto_gain_wins(gain_mode: Option<Seq<char>>, has_gain_db: bool)
    ensures
        spec_gain_action(Some("auto"@), has_gain_db) == GainAction::Auto,
        gain_mode != Some("auto"@) ==> spec_gain_action(gain_mode, has_gain_db) == (if has_gain_db {
            GainAction::Fixed
        } else {
            GainAction::Unchanged
        }),
{
}

/// Configuration text that reads as a slot number 0 through 9 selects that
/// slot as valid; any other text selects the default slot 9 as invalid. In
/// particular the decimal text of every slot selects it.
pub proof fn law_valid_slot_selected(raw: Seq<char>, n: u8)
    ensures
        spec_parse_u8(raw) matches Some(k) ==> (k <= 9 ==> spec_scratch_preset(raw) == (k, true)),
        !(spec_parse_u8(raw) matches Some(k) && k <= 9) ==> spec_scratch_preset(raw) == (9u8, false),
        n <= 9 ==> spec_scratch_preset(decimal(n as nat)) == (n, true),
{
    law_preset_label_reads_back(n);
}

} // verus!
