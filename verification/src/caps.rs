use vstd::prelude::*;
use crate::mode::Mode;

verus! {

/// Inclusive frequency range in Hz.
#[derive(Debug, Clone, Copy, PartialEq, Eq, Structural)]
pub struct FreqRange {
    pub start_hz: u64,
    pub end_hz: u64,
}

impl FreqRange {
    /// Whether `hz` lies in the range, both ends included.
    pub open spec fn spec_contains(self, hz: u64) -> bool {
        self.start_hz <= hz && hz <= self.end_hz
    }

    pub fn new(start_hz: u64, end_hz: u64) -> (r: Self)
        ensures
            r.start_hz == start_hz,
            r.end_hz == end_hz,
    {
        FreqRange { start_hz, end_hz }
    }

    pub fn contains(&self, hz: u64) -> (b: bool)
        ensures
            b == self.spec_contains(hz),
    {
        self.start_hz <= hz && hz <= self.end_hz
    }
}

} // verus!

verus! {

/// Per-driver capability flags: what the radio can do beyond basic
/// tune / PTT / read. The server uses them to pick UI affordances, HTTP
/// routes and conformance tests. Each flag is one bit of a `u32`; a set of
/// flags is their bitwise or.
#[derive(Debug, Clone, Copy, PartialEq, Eq, Structural)]
pub struct FeatureFlags {
    bits: u32,
}

impl View for FeatureFlags {
    type V = u32;

    closed spec fn view(&self) -> u32 {
        self.bits
    }
}

impl FeatureFlags {
    /// Radio has a transmit path we can key (false for RX-only receivers).
    pub const PTT: u32 = 1 << 0;
    /// Radio reports squelch open/closed state.
    pub const SQUELCH_STATUS: u32 = 1 << 1;
    /// Radio has a configurable squelch level (not just open/closed).
    pub const SQUELCH_LEVEL: u32 = 1 << 2;
    /// Radio reports signal strength (S-meter).
    pub const SMETER: u32 = 1 << 3;
    /// Radio has internal CTCSS encode support.
    pub const CTCSS_ENCODE: u32 = 1 << 4;
    /// Radio has internal CTCSS decode support (tone squelch).
    pub const CTCSS_DECODE: u32 = 1 << 5;
    /// Split TX/RX (different frequencies on each).
    pub const SPLIT: u32 = 1 << 6;
    /// Memory/preset slots.
    pub const MEMORY: u32 = 1 << 7;
    /// Scan mode in the radio's own firmware.
    pub const HARDWARE_SCAN: u32 = 1 << 8;
    /// Reports internal temperature / over-temp.
    pub const TEMPERATURE: u32 = 1 << 9;
    /// Reports supply voltage rails.
    pub const VOLTAGE: u32 = 1 << 10;
    /// Accepts arbitrary bytes via send_raw.
    pub const RAW_PASSTHROUGH: u32 = 1 << 11;
    /// Every defined flag.
    pub const ALL: u32 = 0xfff;

    /// Every defined flag, as a spec constant.
    pub open spec fn all_bits() -> u32 {
        0xfff
    }

    /// The flag set holding the defined flags among `bits`; undefined bits
    /// are dropped.
    pub fn from_bits_truncate(bits: u32) -> (f: Self)
        ensures
            f@ == bits & Self::all_bits(),
    {
        FeatureFlags { bits: bits & Self::ALL }
    }

    /// The empty set.
    pub fn empty() -> (f: Self)
        ensures
            f@ == 0,
    {
        FeatureFlags { bits: 0 }
    }

    /// The set of every defined flag.
    pub fn all() -> (f: Self)
        ensures
            f@ == Self::all_bits(),
    {
        FeatureFlags { bits: Self::ALL }
    }

    /// Whether the set holds no flag.
    pub fn is_empty(&self) -> (b: bool)
        ensures
            b == (self@ == 0),
    {
        self.bits == 0
    }

    /// Whether the set shares a flag with `flags`.
    pub fn intersects(&self, flags: u32) -> (b: bool)
        ensures
            b == (self@ & flags != 0),
    {
        self.bits & flags != 0
    }

    /// Adds the defined flags among `flags`.
    pub fn insert(&mut self, flags: u32)
        ensures
            final(self)@ == old(self)@ | (flags & Self::all_bits()),
    {
        self.bits = self.bits | (flags & Self::ALL);
    }

    /// Removes the flags of `flags`.
    pub fn remove(&mut self, flags: u32)
        ensures
            final(self)@ == old(self)@ & !flags,
    {
        self.bits = self.bits & !flags;
    }

    /// The raw bit pattern of the set.
    pub fn bits(&self) -> (b: u32)
        ensures
            b == self@,
    {
        self.bits
    }

    /// Whether every flag of `flags` is in the set.
    pub fn contains(&self, flags: u32) -> (b: bool)
        ensures
            b == (self@ & flags == flags),
    {
        self.bits & flags == flags
    }
}

/// What a driver declares about its radio. Static data read once per driver
/// instance.
#[derive(Debug, Clone)]
pub struct Capabilities {
    /// Driver identifier, lowercase kebab-case, e.g. `"urc200-v2"`.
    pub id: &'static str,
    /// Human-readable model name.
    pub display_name: &'static str,
    /// Receive ranges (may be disjoint).
    pub rx_ranges: Vec<FreqRange>,
    /// Transmit ranges (may be narrower than RX, or empty for receivers).
    pub tx_ranges: Vec<FreqRange>,
    /// Modes the radio can be tuned to; no mode occurs twice.
    pub modes: Vec<Mode>,
    /// Smallest native frequency step, in Hz.
    pub tuning_step_hz: u32,
    /// Number of native memory slots; `None` means no presets.
    pub presets: Option<u8>,
    /// Optional features that may or may not be present.
    pub features: FeatureFlags,
}

/// No element of `s` occurs twice.
pub open spec fn no_duplicates<T>(s: Seq<T>) -> bool {
    forall|i: int, j: int| 0 <= i < j < s.len() ==> s[i] != s[j]
}

/// Every range of `s` is non-empty (its start is not above its end).
pub open spec fn ranges_nonempty(s: Seq<FreqRange>) -> bool {
    forall|i: int| 0 <= i < s.len() ==> (#[trigger] s[i]).start_hz <= s[i].end_hz
}

/// Whether some range of `s` contains `hz`.
pub open spec fn in_some_range(s: Seq<FreqRange>, hz: u64) -> bool {
    exists|i: int| 0 <= i < s.len() && (#[trigger] s[i]).spec_contains(hz)
}

impl Capabilities {
    /// Well-formed: no range is empty, the mode list is a set, and the tuning
    /// step is positive.
    pub open spec fn wf(&self) -> bool {
        &&& ranges_nonempty(self.rx_ranges@)
        &&& ranges_nonempty(self.tx_ranges@)
        &&& no_duplicates(self.modes@)
        &&& self.tuning_step_hz > 0
    }
}

} // verus!
