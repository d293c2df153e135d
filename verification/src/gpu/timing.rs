//! The timing probe: a pair of GPU timestamps around the compute pass, read
//! back without stalling the frame that wrote them.
//!
//! A frame writes both timestamps, then resolves and copies them and asks
//! for the staging buffer to be mapped. The copy runs only once the frame
//! has been submitted, so the bytes that the frame itself can read are those
//! of the frame before: the value that [`TimingProbe::current_value`] gives
//! lags by one frame, and the first frame has none.
use vstd::prelude::*;

verus! {

/// Number of timestamp slots in the query set: one before the compute
/// pass, one after it.
pub const QUERY_COUNT: u32 = 2;

/// Slot of the timestamp written before the compute pass.
pub const BEGIN_SLOT: u32 = 0;

/// Slot of the timestamp written after the compute pass.
pub const END_SLOT: u32 = 1;

/// Size in bytes of one resolved timestamp.
pub const TIMESTAMP_BYTES: u64 = 8;

/// Size in bytes of the resolve buffer and of the staging buffer.
pub const READBACK_BYTES: u64 = 16;

/// The duration of the compute pass as the host sees it.
#[derive(Clone, Copy, Debug, PartialEq, Eq, Structural)]
pub enum TimingValue {
    /// No duration can be shown.
    Unavailable,
    /// The pass took this many ticks of the GPU's clock.
    Ticks(u64),
}

/// Where an active probe stands within a frame.
#[derive(Clone, Copy, Debug, PartialEq, Eq, Structural)]
pub enum ProbeState {
    /// No query is in flight.
    Idle,
    /// Both timestamps were written this frame and are not yet resolved.
    Written,
    /// Resolve and copy were issued and the map was requested.
    MapPending,
}

/// The timing probe of a device.
#[derive(Clone, Copy, Debug, PartialEq, Eq, Structural)]
pub enum TimingProbe {
    /// The device cannot write timestamps; it never will.
    Unsupported,
    /// The device writes timestamps.
    Active {
        state: ProbeState,
        /// An earlier frame has filled the staging buffer.
        primed: bool,
        /// The duration last read back.
        visible: TimingValue,
    },
}

/// Why the bytes of the staging buffer gave no pair of timestamps.
#[derive(Clone, Copy, Debug, PartialEq, Eq, Structural)]
pub enum ReadbackError {
    /// The bytes do not start at an address that a timestamp can be read at.
    Misaligned,
    /// The bytes do not make a whole number of timestamps.
    PartialWord,
    /// The cast refused the sizes of the two types.
    SizeMismatch,
    /// The cast refused the alignments of the two types.
    AlignmentMismatch,
    /// The bytes hold fewer than two timestamps.
    MissingTimestamps,
}

/// The ticks from `begin` to `end`; no duration where the clock ran
/// backwards.
pub open spec fn elapsed(begin: u64, end: u64) -> TimingValue {
    if begin <= end {
        TimingValue::Ticks((end - begin) as u64)
    } else {
        TimingValue::Unavailable
    }
}

/// The ticks from `begin` to `end`.
pub fn elapsed_ticks(begin: u64, end: u64) -> (r: TimingValue)
    ensures
        r == elapsed(begin, end),
{
    if begin <= end {
        TimingValue::Ticks(end - begin)
    } else {
        TimingValue::Unavailable
    }
}

/// `bytemuck::PodCastError`, the reason that a cast was refused. Nothing is
/// known of a value of it but through [`cast_failure`].
#[verifier::external_type_specification]
#[verifier::external_body]
pub struct ExPodCastError(bytemuck::PodCastError);

/// `bytemuck::try_cast_slice` from bytes to 64-bit words, copied into a
/// vector. Where the cast succeeds, the words take up exactly the bytes
/// given, eight bytes each. Whether it succeeds depends on the address of
/// the bytes as well as on their number, and which word eight bytes make
/// depends on the machine's byte order: neither is stated.
#[verifier::external_body]
fn cast_words(bytes: &[u8]) -> (r: Result<Vec<u64>, bytemuck::PodCastError>)
    ensures
        r matches Ok(words) ==> words@.len() * 8 == bytes@.len(),
{
    bytemuck::try_cast_slice::<u8, u64>(bytes).map(|words| words.to_vec())
}

/// Tells the four variants of `bytemuck::PodCastError` apart, one for one.
/// Nothing is stated of which comes out.
#[verifier::external_body]
fn cast_failure(error: bytemuck::PodCastError) -> ReadbackError {
    match error {
        bytemuck::PodCastError::TargetAlignmentGreaterAndInputNotAligned => ReadbackError::Misaligned,
        bytemuck::PodCastError::OutputSliceWouldHaveSlop => ReadbackError::PartialWord,
        bytemuck::PodCastError::SizeMismatch => ReadbackError::SizeMismatch,
        bytemuck::PodCastError::AlignmentMismatch => ReadbackError::AlignmentMismatch,
    }
}

/// The pair of timestamps that `words` starts with.
pub open spec fn leading_pair(words: Seq<u64>) -> Result<(u64, u64), ReadbackError> {
    if words.len() < 2 {
        Err(ReadbackError::MissingTimestamps)
    } else {
        Ok((words[0], words[1]))
    }
}

/// Picks the begin and end timestamps out of the resolved words.
pub fn timestamps_of(words: &Vec<u64>) -> (r: Result<(u64, u64), ReadbackError>)
    ensures
        r == leading_pair(words@),
{
    if words.len() < 2 {
        Err(ReadbackError::MissingTimestamps)
    } else {
        Ok((words[0], words[1]))
    }
}

/// Reads the begin and end timestamps from the mapped bytes of the staging
/// buffer. Bytes that are not a whole number of timestamps, or fewer than
/// two of them, are refused.
pub fn decode_timestamps(bytes: &[u8]) -> (r: Result<(u64, u64), ReadbackError>)
    ensures
        bytes@.len() % 8 != 0 ==> r is Err,
        bytes@.len() < 16 ==> r is Err,
{
    match cast_words(bytes) {
        Ok(words) => timestamps_of(&words),
        Err(error) => Err(cast_failure(error)),
    }
}

impl TimingProbe {
    /// The probe of a device that supports timestamps, or not, before the
    /// first frame.
    pub open spec fn initial(supported: bool) -> TimingProbe {
        if supported {
            TimingProbe::Active {
                state: ProbeState::Idle,
                primed: false,
                visible: TimingValue::Unavailable,
            }
        } else {
            TimingProbe::Unsupported
        }
    }

    /// The duration that the host sees.
    pub open spec fn visible(self) -> TimingValue {
        match self {
            TimingProbe::Unsupported => TimingValue::Unavailable,
            TimingProbe::Active { visible, .. } => visible,
        }
    }

    /// The probe after a frame has written both timestamps.
    pub open spec fn after_write(self) -> TimingProbe {
        match self {
            TimingProbe::Unsupported => TimingProbe::Unsupported,
            TimingProbe::Active { primed, visible, .. } => TimingProbe::Active {
                state: ProbeState::Written,
                primed,
                visible,
            },
        }
    }

    /// The frame's finalize step has something to resolve.
    pub open spec fn wants_readback(self) -> bool {
        self matches TimingProbe::Active { state: ProbeState::Written, .. }
    }

    /// The probe waits for the mapped bytes.
    pub open spec fn awaits_bytes(self) -> bool {
        self matches TimingProbe::Active { state: ProbeState::MapPending, .. }
    }

    /// The probe after resolve, copy and map request were issued.
    pub open spec fn after_request(self) -> TimingProbe {
        match self {
            TimingProbe::Active { state: ProbeState::Written, primed, visible } => {
                TimingProbe::Active { state: ProbeState::MapPending, primed, visible }
            },
            _ => self,
        }
    }

    /// The probe after the host has read the pair `begin`, `end` from the
    /// staging buffer. Before any frame has filled that buffer the pair
    /// means nothing, and no duration becomes visible.
    pub open spec fn after_read(self, begin: u64, end: u64) -> TimingProbe {
        match self {
            TimingProbe::Active { state: ProbeState::MapPending, primed, .. } => {
                TimingProbe::Active {
                    state: ProbeState::Idle,
                    primed: true,
                    visible: if primed {
                        elapsed(begin, end)
                    } else {
                        TimingValue::Unavailable
                    },
                }
            },
            _ => self,
        }
    }

    /// The probe after the staging buffer gave no pair of timestamps.
    pub open spec fn after_failed_read(self) -> TimingProbe {
        match self {
            TimingProbe::Active { state: ProbeState::MapPending, .. } => TimingProbe::Active {
                state: ProbeState::Idle,
                primed: true,
                visible: TimingValue::Unavailable,
            },
            _ => self,
        }
    }

    /// One whole frame: the timestamps are written, resolved and copied,
    /// and the host reads `staged` from the staging buffer.
    pub open spec fn after_frame(self, staged: (u64, u64)) -> TimingProbe {
        self.after_write().after_request().after_read(staged.0, staged.1)
    }

    /// The probe after one frame for each pair of `staged`, in order.
    pub open spec fn after_frames(self, staged: Seq<(u64, u64)>) -> TimingProbe
        decreases staged.len(),
    {
        if staged.len() == 0 {
            self
        } else {
            self.after_frames(staged.drop_last()).after_frame(staged.last())
        }
    }

    /// The probe for a device, chosen once from what the device can do.
    pub fn new(timestamp_query: bool) -> (r: TimingProbe)
        ensures
            r == TimingProbe::initial(timestamp_query),
    {
        if timestamp_query {
            TimingProbe::Active {
                state: ProbeState::Idle,
                primed: false,
                visible: TimingValue::Unavailable,
            }
        } else {
            TimingProbe::Unsupported
        }
    }

    /// Tells whether the device writes timestamps at all.
    pub fn is_supported(&self) -> (r: bool)
        ensures
            r == (*self is Active),
    {
        match self {
            TimingProbe::Unsupported => false,
            TimingProbe::Active { .. } => true,
        }
    }

    /// The duration of the compute pass of the frame before the one that
    /// last read the staging buffer.
    pub fn current_value(&self) -> (r: TimingValue)
        ensures
            r == self.visible(),
    {
        match self {
            TimingProbe::Unsupported => TimingValue::Unavailable,
            TimingProbe::Active { visible, .. } => *visible,
        }
    }

    /// Notes that the frame writes both timestamps. Returns whether it
    /// does: never on a device without timestamps.
    pub fn mark_written(&mut self) -> (r: bool)
        ensures
            *final(self) == old(self).after_write(),
            r == (*old(self) is Active),
    {
        match *self {
            TimingProbe::Unsupported => false,
            TimingProbe::Active { primed, visible, .. } => {
                *self = TimingProbe::Active { state: ProbeState::Written, primed, visible };
                true
            },
        }
    }

    /// Notes that resolve, copy and map request are issued. Returns
    /// whether they are: only after timestamps were written.
    pub fn request_readback(&mut self) -> (r: bool)
        ensures
            *final(self) == old(self).after_request(),
            r == old(self).wants_readback(),
    {
        match *self {
            TimingProbe::Active { state: ProbeState::Written, primed, visible } => {
                *self = TimingProbe::Active { state: ProbeState::MapPending, primed, visible };
                true
            },
            _ => false,
        }
    }

    /// Takes the pair that the host has read from the staging buffer and
    /// returns the duration that is visible from now on.
    pub fn complete_readback(&mut self, begin: u64, end: u64) -> (r: TimingValue)
        ensures
            *final(self) == old(self).after_read(begin, end),
            r == final(self).visible(),
    {
        match *self {
            TimingProbe::Active { state: ProbeState::MapPending, primed, .. } => {
                let visible = if primed {
                    elapsed_ticks(begin, end)
                } else {
                    TimingValue::Unavailable
                };
                *self = TimingProbe::Active { state: ProbeState::Idle, primed: true, visible };
                visible
            },
            _ => self.current_value(),
        }
    }

    /// Gives up on a read: no duration is visible until the next one.
    pub fn abandon_readback(&mut self)
        ensures
            *final(self) == old(self).after_failed_read(),
    {
        match *self {
            TimingProbe::Active { state: ProbeState::MapPending, .. } => {
                *self = TimingProbe::Active {
                    state: ProbeState::Idle,
                    primed: true,
                    visible: TimingValue::Unavailable,
                };
            },
            _ => {},
        }
    }

    /// Takes the mapped bytes of the staging buffer. Where they hold a
    /// pair of timestamps the probe goes on as after reading that pair;
    /// where they do not, as after a failed read, and the error says why.
    pub fn read_timestamps(&mut self, bytes: &[u8]) -> (r: Result<TimingValue, ReadbackError>)
        ensures
            bytes@.len() % 8 != 0 || bytes@.len() < 16 ==> r is Err,
            match r {
                Ok(value) => value == final(self).visible() && exists|begin: u64, end: u64|
                    *final(self) == #[trigger] old(self).after_read(begin, end),
                Err(_) => *final(self) == old(self).after_failed_read(),
            },
    {
        match decode_timestamps(bytes) {
            Ok((begin, end)) => Ok(self.complete_readback(begin, end)),
            Err(error) => {
                self.abandon_readback();
                Err(error)
            },
        }
    }
}

/// What the staging buffer holds when frame `k` maps it, where frame `j`
/// wrote the pair `stamps[j]`: the pair of the frame before, and zeros
/// before any frame has been submitted.
pub open spec fn staged_at(stamps: Seq<(u64, u64)>, k: int) -> (u64, u64) {
    if k <= 0 {
        (0u64, 0u64)
    } else {
        stamps[k - 1]
    }
}

/// The pairs that frames `0` to `n - 1` read from the staging buffer.
pub open spec fn staged_until(stamps: Seq<(u64, u64)>, n: nat) -> Seq<(u64, u64)> {
    Seq::new(n, |k: int| staged_at(stamps, k))
}

/// Once a frame has run, an active probe is idle again and primed.
pub proof fn frame_leaves_probe_idle(probe: TimingProbe, staged: (u64, u64))
    requires
        probe is Active,
    ensures
        probe.after_frame(staged) matches TimingProbe::Active {
            state: ProbeState::Idle,
            primed: true,
            ..
        },
        probe->primed ==> probe.after_frame(staged).visible() == elapsed(staged.0, staged.1),
        !probe->primed ==> probe.after_frame(staged).visible() == TimingValue::Unavailable,
{
}

/// The duration visible during frame `n` is that of frame `n - 1`: the
/// ticks between the two timestamps that frame `n - 1` wrote. During the
/// first frame none is visible.
pub proof fn visible_value_lags_one_frame(stamps: Seq<(u64, u64)>, n: nat)
    requires
        n < stamps.len(),
    ensures
        TimingProbe::initial(true).after_frames(staged_until(stamps, n + 1)).visible() == if n
            == 0 {
            TimingValue::Unavailable
        } else {
            elapsed(stamps[n - 1].0, stamps[n - 1].1)
        },
    decreases n,
{
    let start = TimingProbe::initial(true);
    let now = staged_until(stamps, n + 1);
    assert(now.drop_last() == staged_until(stamps, n));
    assert(now.last() == staged_at(stamps, n as int));
    assert(start.after_frames(now) == start.after_frames(now.drop_last()).after_frame(now.last()));
    if n == 0 {
        assert(start.after_frames(now.drop_last()) == start);
    } else {
        let earlier = staged_until(stamps, n);
        let before = start.after_frames(earlier.drop_last());
        assert(start.after_frames(earlier) == before.after_frame(earlier.last()));
        active_stays_active(start, earlier.drop_last());
        frame_leaves_probe_idle(before, earlier.last());
        frame_leaves_probe_idle(start.after_frames(earlier), now.last());
    }
}

/// Frames never turn an active probe into an unsupported one.
pub proof fn active_stays_active(probe: TimingProbe, staged: Seq<(u64, u64)>)
    requires
        probe is Active,
    ensures
        probe.after_frames(staged) is Active,
    decreases staged.len(),
{
    if staged.len() > 0 {
        active_stays_active(probe, staged.drop_last());
    }
}

/// On a device without timestamps no duration is ever visible, whatever
/// the frames read.
pub proof fn unsupported_is_never_available(staged: Seq<(u64, u64)>)
    ensures
        TimingProbe::initial(false).after_frames(staged) == TimingProbe::Unsupported,
        TimingProbe::initial(false).after_frames(staged).visible() == TimingValue::Unavailable,
    decreases staged.len(),
{
    if staged.len() > 0 {
        unsupported_is_never_available(staged.drop_last());
    }
}

} // verus!
