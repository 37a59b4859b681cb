use vstd::prelude::*;
use crate::mode::Mode;

verus! {

/// What a caller asks the radio to tune to.
///
/// `tx_hz` equals `rx_hz` for simplex. A `mode` of `None` leaves the
/// modulation untouched.
#[derive(Debug, Clone, Copy)]
pub struct TuneRequest {
    pub rx_hz: u64,
    pub tx_hz: u64,
    pub mode: Option<Mode>,
}

impl TuneRequest {
    /// Simplex: receive and transmit on `hz`, mode untouched.
    pub fn simplex(hz: u64) -> (r: Self)
        ensures
            r.rx_hz == hz,
            r.tx_hz == hz,
            r.mode is None,
    {
        TuneRequest { rx_hz: hz, tx_hz: hz, mode: None }
    }

    /// Split: receive on `rx_hz`, transmit on `tx_hz`, mode untouched.
    pub fn split(rx_hz: u64, tx_hz: u64) -> (r: Self)
        ensures
            r.rx_hz == rx_hz,
            r.tx_hz == tx_hz,
            r.mode is None,
    {
        TuneRequest { rx_hz, tx_hz, mode: None }
    }

    /// The same request, also asking for `mode`.
    pub fn with_mode(self, mode: Mode) -> (r: Self)
        ensures
            r.rx_hz == self.rx_hz,
            r.tx_hz == self.tx_hz,
            r.mode == Some(mode),
    {
        let mut s = self;
        s.mode = Some(mode);
        s
    }
}

/// A read-only snapshot of the radio's state at a point in time. Fields a
/// driver cannot query are `None`.
#[derive(Debug, Clone)]
pub struct RadioState {
    pub rx_hz: u64,
    pub tx_hz: u64,
    pub mode: Option<Mode>,
    pub rssi: Option<u8>,
    pub squelch_broken: Option<bool>,
    pub transmitting: bool,
    /// Driver-specific (key, value) pairs for display.
    pub extras: Vec<(String, String)>,
}

} // verus!
