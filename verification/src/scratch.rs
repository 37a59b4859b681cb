use vstd::prelude::*;
use vstd::string::StrSliceExecFns;

verus! {

/// One command of the scratch-slot tune sequence, in wire order:
/// park on the scratch preset, set RX, set TX, optionally set the
/// modulation, then store RAM to the scratch slot's EEPROM.
#[derive(Debug, Clone, Copy, PartialEq, Eq, Structural)]
pub enum ScratchStage {
    Preset,
    Rx,
    Tx,
    Mode,
    Store,
}

impl ScratchStage {
    /// The name under which a stage's outcome is reported.
    pub open spec fn spec_label(self) -> Seq<char> {
        match self {
            ScratchStage::Preset => "preset"@,
            ScratchStage::Rx => "rx"@,
            ScratchStage::Tx => "tx"@,
            ScratchStage::Mode => "mode"@,
            ScratchStage::Store => "store"@,
        }
    }

    /// The name under which a stage's outcome is reported.
    pub fn label(&self) -> (s: &'static str)
        ensures
            s@ == self.spec_label(),
    {
        match self {
            ScratchStage::Preset => "preset",
            ScratchStage::Rx => "rx",
            ScratchStage::Tx => "tx",
            ScratchStage::Mode => "mode",
            ScratchStage::Store => "store",
        }
    }
}

/// The scratch-slot sequence, with the modulation stage when a mode is set.
pub open spec fn spec_scratch_stages(with_mode: bool) -> Seq<ScratchStage> {
    if with_mode {
        seq![ScratchStage::Preset, ScratchStage::Rx, ScratchStage::Tx, ScratchStage::Mode, ScratchStage::Store]
    } else {
        seq![ScratchStage::Preset, ScratchStage::Rx, ScratchStage::Tx, ScratchStage::Store]
    }
}

/// The commands of a scratch-slot tune, in the order they go on the wire.
pub fn scratch_stages(with_mode: bool) -> (v: Vec<ScratchStage>)
    ensures
        v@ == spec_scratch_stages(with_mode),
{
    let mut v = Vec::new();
    v.push(ScratchStage::Preset);
    v.push(ScratchStage::Rx);
    v.push(ScratchStage::Tx);
    if with_mode {
        v.push(ScratchStage::Mode);
    }
    v.push(ScratchStage::Store);
    assert(v@ =~= spec_scratch_stages(with_mode));
    v
}

/// The highest preset slot of the URC-200.
pub const MAX_PRESET: u8 = 9;
/// The scratch slot used when none (or an invalid one) is configured.
pub const DEFAULT_SCRATCH_PRESET: u8 = 9;

/// Whether a character is an ASCII decimal digit.
pub open spec fn is_digit(c: char) -> bool {
    '0' <= c && c <= '9'
}

/// Every character of `s` is an ASCII decimal digit.
pub open spec fn all_digits(s: Seq<char>) -> bool {
    forall|i: int| 0 <= i < s.len() ==> is_digit(#[trigger] s[i])
}

/// The value of a string of decimal digits.
pub open spec fn digits_value(s: Seq<char>) -> nat
    decreases s.len(),
{
    if s.len() == 0 {
        0
    } else {
        digits_value(s.drop_last()) * 10 + ((s.last() as int - 48) as nat)
    }
}

/// How an unsigned byte is read from text: an optional `+`, then one or
/// more ASCII digits whose value fits in a `u8`; anything else (empty
/// text, a sign alone, other characters, overflow) is no number.
pub open spec fn spec_parse_u8(s: Seq<char>) -> Option<u8> {
    let d = if s.len() > 0 && s[0] == '+' { s.drop_first() } else { s };
    if d.len() > 0 && all_digits(d) && digits_value(d) <= 255 {
        Some(digits_value(d) as u8)
    } else {
        None
    }
}

/// The value of digits never drops as more digits follow.
proof fn lemma_digits_value_prefix(s: Seq<char>, i: int)
    requires
        all_digits(s),
        0 <= i <= s.len(),
    ensures
        digits_value(s.take(i)) <= digits_value(s),
    decreases s.len(),
{
    if i < s.len() {
        assert(s.drop_last().take(i) =~= s.take(i));
        lemma_digits_value_prefix(s.drop_last(), i);
    } else {
        assert(s.take(i) =~= s);
    }
}

/// Reads an unsigned byte from text (see [`spec_parse_u8`]).
pub fn parse_u8(s: &str) -> (r: Option<u8>)
    ensures
        r == spec_parse_u8(s@),
{
    let len = s.unicode_len();
    let mut start: usize = 0;
    if len > 0 && s.get_char(0) == '+' {
        start = 1;
    }
    let ghost d: Seq<char> = if s@.len() > 0 && s@[0] == '+' { s@.drop_first() } else { s@ };
    assert(d =~= s@.subrange(start as int, len as int));
    if start == len {
        return None;
    }
    let mut value: u32 = 0;
    let mut i: usize = start;
    while i < len
        invariant
            start <= i <= len,
            len == s@.len(),
            d =~= s@.subrange(start as int, len as int),
            d == (if s@.len() > 0 && s@[0] == '+' { s@.drop_first() } else { s@ }),
            all_digits(d.take(i - start)),
            value == digits_value(d.take(i - start)),
            value <= 255,
        decreases len - i,
    {
        let c = s.get_char(i);
        assert(d.take(i - start + 1).drop_last() =~= d.take(i - start));
        assert(d[i - start] == c);
        if !('0' <= c && c <= '9') {
            assert(!all_digits(d)) by {
                assert(!is_digit(d[i - start]));
            }
            return None;
        }
        let digit = (c as u32) - 48;
        value = value * 10 + digit;
        assert(all_digits(d.take(i - start + 1))) by {
            assert forall|k: int| 0 <= k < i - start + 1 implies is_digit(#[trigger] d.take(i - start + 1)[k]) by {
                if k < i - start {
                    assert(d.take(i - start + 1)[k] == d.take(i - start)[k]);
                }
            }
        }
        i = i + 1;
        if value > 255 {
            proof {
                if all_digits(d) {
                    lemma_digits_value_prefix(d, i - start);
                }
            }
            return None;
        }
    }
    assert(d.take(len - start) =~= d);
    Some(value as u8)
}

/// The preset slot that configuration text names, and whether it named a
/// valid slot (0 through 9); invalid text selects the default scratch slot.
pub open spec fn spec_scratch_preset(raw: Seq<char>) -> (u8, bool) {
    match spec_parse_u8(raw) {
        Some(n) => if n <= MAX_PRESET { (n, true) } else { (DEFAULT_SCRATCH_PRESET, false) },
        None => (DEFAULT_SCRATCH_PRESET, false),
    }
}

/// The preset slot that configuration text names (see
/// [`spec_scratch_preset`]).
pub fn scratch_preset_from_str(raw: &str) -> (r: (u8, bool))
    ensures
        r == spec_scratch_preset(raw@),
        spec_parse_u8(raw@) matches Some(n) ==> (n <= 9 ==> r == (n, true)),
        !(spec_parse_u8(raw@) matches Some(n) && n <= 9) ==> r == (9u8, false),
{
    match parse_u8(raw) {
        Some(n) => {
            if n <= MAX_PRESET {
                (n, true)
            } else {
                (DEFAULT_SCRATCH_PRESET, false)
            }
        },
        None => (DEFAULT_SCRATCH_PRESET, false),
    }
}

} // verus!
