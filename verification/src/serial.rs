use vstd::prelude::*;

verus! {

/// Number of data bits per character.
#[derive(Debug, Clone, Copy, PartialEq, Eq, Structural)]
pub enum DataBits {
    Five,
    Six,
    Seven,
    Eight,
}

/// Number of stop bits.
#[derive(Debug, Clone, Copy, PartialEq, Eq, Structural)]
pub enum StopBits {
    One,
    Two,
}

/// Parity checking.
#[derive(Debug, Clone, Copy, PartialEq, Eq, Structural)]
pub enum Parity {
    /// No parity bit.
    Off,
    Odd,
    Even,
}

/// Flow control.
#[derive(Debug, Clone, Copy, PartialEq, Eq, Structural)]
pub enum FlowControl {
    /// No flow control.
    Off,
    Software,
    Hardware,
}

/// Serial-port settings.
#[derive(Debug, Clone)]
pub struct SerialConfig {
    pub path: String,
    pub baud: u32,
    pub data_bits: DataBits,
    pub stop_bits: StopBits,
    pub parity: Parity,
    pub flow_control: FlowControl,
    /// Timeout for opening the port, in milliseconds.
    pub open_timeout_ms: u64,
}

impl SerialConfig {
    /// The URC-200 line settings on `path`: 1200 bps, 8-N-1, no flow
    /// control, 100 ms open timeout.
    pub fn urc200(path: String) -> (c: Self)
        ensures
            c.path@ == path@,
            c.baud == 1200,
            c.data_bits == DataBits::Eight,
            c.stop_bits == StopBits::One,
            c.parity == Parity::Off,
            c.flow_control == FlowControl::Off,
            c.open_timeout_ms == 100,
    {
        SerialConfig {
            path,
            baud: 1200,
            data_bits: DataBits::Eight,
            stop_bits: StopBits::One,
            parity: Parity::Off,
            flow_control: FlowControl::Off,
            open_timeout_ms: 100,
        }
    }
}

} // verus!
