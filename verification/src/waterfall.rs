use vstd::prelude::*;

verus! {

/// The `n` little-endian bytes of `v` (the low `n` bytes; higher ones are
/// dropped).
pub open spec fn le_bytes(v: nat, n: nat) -> Seq<u8>
    decreases n,
{
    if n == 0 {
        Seq::empty()
    } else {
        seq![(v % 256) as u8] + le_bytes(v / 256, (n - 1) as nat)
    }
}

/// The number that little-endian bytes stand for.
pub open spec fn le_value(s: Seq<u8>) -> nat
    decreases s.len(),
{
    if s.len() == 0 {
        0
    } else {
        s[0] as nat + 256 * le_value(s.drop_first())
    }
}

/// How many values `n` bytes can hold: 256 to the power `n`.
pub open spec fn byte_capacity(n: nat) -> nat
    decreases n,
{
    if n == 0 {
        1
    } else {
        256 * byte_capacity((n - 1) as nat)
    }
}

/// Appends the `n` little-endian bytes of `v`.
fn push_le(out: &mut Vec<u8>, v: u64, n: usize)
    ensures
        final(out)@ == old(out)@ + le_bytes(v as nat, n as nat),
{
    let mut x: u64 = v;
    let mut k: usize = 0;
    while k < n
        invariant
            k <= n,
            out@ + le_bytes(x as nat, (n - k) as nat) == old(out)@ + le_bytes(v as nat, n as nat),
        decreases n - k,
    {
        let ghost before = out@;
        assert(le_bytes(x as nat, (n - k) as nat) == seq![(x % 256) as u8] + le_bytes(
            (x / 256) as nat,
            (n - k - 1) as nat,
        ));
        out.push((x % 256) as u8);
        assert(out@ + le_bytes((x / 256) as nat, (n - k - 1) as nat) =~= before + le_bytes(
            x as nat,
            (n - k) as nat,
        ));
        x = x / 256;
        k = k + 1;
    }
    assert(out@ =~= out@ + le_bytes(x as nat, 0));
}

/// The bytes of one spectrum frame: a 16-byte header (centre frequency as
/// 8 little-endian bytes, sample rate as 4, bin count as 4) followed by the
/// bins. The bin count is the number of bins taken modulo 2^32.
pub open spec fn spec_waterfall_frame(center_hz: u64, sample_rate: u32, bins: Seq<u8>) -> Seq<u8> {
    le_bytes(center_hz as nat, 8) + le_bytes(sample_rate as nat, 4) + le_bytes(
        (bins.len() as u32) as nat,
        4,
    ) + bins
}

/// Frames one spectrum row for the waterfall feed (see
/// [`spec_waterfall_frame`]); the header makes each frame self-describing.
pub fn waterfall_frame(center_hz: u64, sample_rate: u32, bins: &[u8]) -> (frame: Vec<u8>)
    ensures
        frame@ == spec_waterfall_frame(center_hz, sample_rate, bins@),
{
    let n = bins.len();
    let mut payload: Vec<u8> = Vec::new();
    push_le(&mut payload, center_hz, 8);
    push_le(&mut payload, sample_rate as u64, 4);
    #[verifier::truncate]
    let count = n as u32;
    push_le(&mut payload, count as u64, 4);
    let mut i: usize = 0;
    let ghost head = payload@;
    while i < n
        invariant
            i <= n,
            n == bins@.len(),
            payload@ =~= head + bins@.take(i as int),
        decreases n - i,
    {
        payload.push(bins[i]);
        assert(bins@.take(i + 1) =~= bins@.take(i as int).push(bins@[i as int]));
        i = i + 1;
    }
    assert(bins@.take(n as int) =~= bins@);
    payload
}

/// How a configuration request sets the gain: back to automatic gain
/// control, to the fixed gain the request carries, or not at all.
#[derive(Debug, Clone, Copy, PartialEq, Eq, Structural)]
pub enum GainAction {
    Auto,
    Fixed,
    Unchanged,
}

/// What a configuration request asks of the capture: a new centre
/// frequency, if any, and what to do with the gain.
#[derive(Debug, Clone, Copy, PartialEq, Eq, Structural)]
pub struct SdrRetune {
    pub center_hz: Option<u64>,
    pub gain: GainAction,
}

/// The gain action of a request: the gain mode `"auto"` re-enables
/// automatic gain; otherwise a numeric gain, when present, fixes the gain.
pub open spec fn spec_gain_action(gain_mode: Option<Seq<char>>, has_gain_db: bool) -> GainAction {
    if gain_mode == Some("auto"@) {
        GainAction::Auto
    } else if has_gain_db {
        GainAction::Fixed
    } else {
        GainAction::Unchanged
    }
}

/// Decides what a configuration request (from the HTTP route or the
/// waterfall socket) does: retune when it names a centre frequency, and
/// set the gain as [`spec_gain_action`] says.
pub fn sdr_request_actions(center_hz: Option<u64>, gain_mode: Option<&str>, has_gain_db: bool) -> (r: SdrRetune)
    ensures
        r.center_hz == center_hz,
        r.gain == spec_gain_action(
            match gain_mode {
                Some(m) => Some(m@),
                None => None,
            },
            has_gain_db,
        ),
        (gain_mode matches Some(m) && m@ == "auto"@) ==> r.gain == GainAction::Auto,
        !(gain_mode matches Some(m) && m@ == "auto"@) ==> r.gain == (if has_gain_db {
            GainAction::Fixed
        } else {
            GainAction::Unchanged
        }),
{
    let auto = match gain_mode {
        Some(m) => {
            let given = m.to_owned();
            let word = "auto".to_owned();
            given == word
        },
        None => false,
    };
    let gain = if auto {
        GainAction::Auto
    } else if has_gain_db {
        GainAction::Fixed
    } else {
        GainAction::Unchanged
    };
    SdrRetune { center_hz, gain }
}

} // verus!

verus! {

/// What happens next on a waterfall connection.
#[derive(Debug, Clone, Copy, PartialEq, Eq, Structural)]
pub enum FeedEvent {
    /// A spectrum frame arrived from the capture.
    Frame,
    /// The capture's channel skipped frames this client was too slow for.
    Lagged,
    /// The capture's channel closed.
    ChannelClosed,
    /// The client closed the connection, or receiving from it failed.
    ClientGone,
    /// The client sent a text message (a retune request).
    ClientText,
    /// The client sent anything else.
    ClientOther,
    /// Sending to the client failed.
    SendFailed,
}

/// What the connection does about an event.
#[derive(Debug, Clone, Copy, PartialEq, Eq, Structural)]
pub enum FeedAction {
    /// Frame the spectrum row and send it.
    Forward,
    /// Apply the client's request as a configuration request.
    Retune,
    /// Ignore the event and wait for the next one.
    Skip,
    /// Close the connection.
    Stop,
}

/// The waterfall connection's rule: forward frames, skip over lag and
/// messages that are not text, apply text as a retune request, and stop
/// when the channel closes, the client goes away or a send fails.
pub open spec fn spec_feed_step(e: FeedEvent) -> FeedAction {
    match e {
        FeedEvent::Frame => FeedAction::Forward,
        FeedEvent::Lagged => FeedAction::Skip,
        FeedEvent::ChannelClosed => FeedAction::Stop,
        FeedEvent::ClientGone => FeedAction::Stop,
        FeedEvent::ClientText => FeedAction::Retune,
        FeedEvent::ClientOther => FeedAction::Skip,
        FeedEvent::SendFailed => FeedAction::Stop,
    }
}

/// Decides what a waterfall connection does about an event (see
/// [`spec_feed_step`]).
pub fn feed_step(e: FeedEvent) -> (a: FeedAction)
    ensures
        a == spec_feed_step(e),
{
    match e {
        FeedEvent::Frame => FeedAction::Forward,
        FeedEvent::Lagged => FeedAction::Skip,
        FeedEvent::ChannelClosed => FeedAction::Stop,
        FeedEvent::ClientGone => FeedAction::Stop,
        FeedEvent::ClientText => FeedAction::Retune,
        FeedEvent::ClientOther => FeedAction::Skip,
        FeedEvent::SendFailed => FeedAction::Stop,
    }
}

} // verus!
