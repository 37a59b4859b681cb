use vstd::prelude::*;

verus! {

/// Modulation mode expressed as a closed enum over the real-world set.
///
/// A closed enum gives exhaustive match checking; digital protocols slot
/// into [`DigitalMode`] without widening the core set. Drivers advertise the
/// modes they support through `Capabilities::modes` and reject anything else
/// at tune time with `RadioError::UnsupportedMode`.
#[derive(Debug, Clone, Copy, PartialEq, Eq, Hash, Structural)]
pub enum Mode {
    /// Amplitude modulation.
    Am,
    /// Frequency modulation (general / wideband FM broadcast-width).
    Fm,
    /// Narrowband FM (2.5 kHz deviation).
    Nfm,
    /// Wideband FM (broadcast / satellite).
    Wfm,
    /// Upper side-band.
    Usb,
    /// Lower side-band.
    Lsb,
    /// CW (Morse).
    Cw,
    /// CW reverse side-band.
    CwR,
    /// RTTY.
    Rtty,
    /// RTTY reverse.
    RttyR,
    /// Digital protocol carried over audio (FT8, DMR, P25, ...).
    Digital(DigitalMode),
}

/// Digital protocols that sit on top of an audio pipe.
#[derive(Debug, Clone, Copy, PartialEq, Eq, Hash, Structural)]
pub enum DigitalMode {
    Ft8,
    Ft4,
    Js8,
    Psk31,
    Psk63,
    Olivia,
    Mfsk,
    Rtty,
    Dmr,
    P25,
    DStar,
    C4fm,
    /// Catch-all for driver-defined digital modes that don't map cleanly.
    Vendor,
}

} // verus!
