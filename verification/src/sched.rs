//! The per-device scheduling protocol, as a ghost state machine.
//!
//! One control thread drives two phases once per cycle over every device:
//! the spawn phase issues a unit of work for each idle device whose image is
//! present, and the reap phase publishes the result of each completed unit.
//! The functions below model one device's view of that protocol — they
//! mirror, transition for transition, what [`crate::device::Device`]'s
//! executable methods ensure — and the lemmas state the protocol's two
//! ordering guarantees: at most one unit is ever in flight per device, and a
//! captured frame becomes presentable exactly at the following cycle's reap,
//! never sooner and never skipped.

use vstd::prelude::*;

use crate::pixel::decode_spec;

verus! {

/// One device's scheduling state: the presentable image's bytes, the
/// working half's bytes, and whether a unit of work is in flight.
pub struct PipeState {
    /// Bytes of the externally owned presentable image.
    pub image: Seq<u8>,
    /// Bytes of the working half of the double buffer (held by the unit of
    /// work while one is in flight).
    pub working: Seq<u8>,
    /// Whether a unit of work has been spawned and not yet reaped.
    pub pending: bool,
}

/// Spawn phase for one device: a unit of work is issued — and the device
/// marked pending — exactly when the device is idle and its presentable
/// image is present in the external store. The returned flag says whether a
/// unit was issued.
pub open spec fn spawn_step(s: PipeState, image_present: bool) -> (PipeState, bool) {
    if !s.pending && image_present {
        (PipeState { pending: true, ..s }, true)
    } else {
        (s, false)
    }
}

/// The in-flight capture unit completes: it pulls one frame from the
/// hardware stream and decodes it into the working half it owns, bounded by
/// the presentable image's size. No other state is touched; in particular
/// the presentable image is not.
pub open spec fn capture_work_step(
    s: PipeState,
    fourcc: Seq<u8>,
    frame: Seq<u8>,
    max: int,
) -> PipeState {
    if s.pending {
        PipeState { working: decode_spec(fourcc, frame, s.working, max), ..s }
    } else {
        s
    }
}

/// Reap phase for one device: if the device's unit of work has completed,
/// the working half and the presentable image swap and the device returns
/// to idle; a device whose unit is still running is skipped.
pub open spec fn reap_step(s: PipeState, completed: bool) -> PipeState {
    if s.pending && completed {
        PipeState { image: s.working, working: s.image, pending: false }
    } else {
        s
    }
}

/// Reap phase for a playback device: if its unit of work has completed, the
/// presentable image's bytes are copied into the working half — to be
/// encoded by the next unit — and the device returns to idle.
pub open spec fn output_reap_step(s: PipeState, completed: bool) -> PipeState {
    if s.pending && completed {
        PipeState { working: s.image, pending: false, ..s }
    } else {
        s
    }
}

/// Playback latency law: once a playback device's unit is reaped, the unit
/// issued by the following spawn phase owns exactly the presentable bytes
/// that were current at that reap — what reaches the hardware is always a
/// whole, one-cycle-old presentable frame, never a torn one.
pub proof fn lemma_output_latency(s0: PipeState)
    requires
        s0.pending,
    ensures
        ({
            let s1 = output_reap_step(s0, true);
            let s2 = spawn_step(s1, true).0;
            &&& spawn_step(s1, true).1
            &&& s2.working == s0.image
            &&& s2.image == s0.image
        }),
{
}

/// At-most-one-in-flight law: while a device's unit of work is pending, the
/// spawn phase never issues a second unit — however many cycles run, the
/// device is left exactly as it is until the pending unit is reaped.
pub proof fn lemma_at_most_one_in_flight(s: PipeState, image_present: bool)
    requires
        s.pending,
    ensures
        spawn_step(s, image_present).0 == s,
        !spawn_step(s, image_present).1,
{
}

/// Swap-latency law: a frame delivered to the unit spawned in one cycle
/// becomes presentable exactly at the next cycle's reap. Through the
/// spawning cycle's own reap (the unit is still running) and through the
/// next cycle's spawn (skipped: the unit is pending) the presentable image
/// is untouched; the next reap then publishes precisely the decoded frame,
/// with the worker taking longer than the spawning cycle the whole way.
pub proof fn lemma_swap_latency(s0: PipeState, fourcc: Seq<u8>, frame: Seq<u8>, max: int)
    requires
        !s0.pending,
    ensures
        ({
            let s1 = spawn_step(s0, true).0;  // cycle N: a unit is issued
            let s2 = reap_step(s1, false);  // cycle N: unit still running
            let s3 = capture_work_step(s2, fourcc, frame, max);  // frame N decoded
            let s4 = spawn_step(s3, true).0;  // cycle N + 1: spawn skipped
            let s5 = reap_step(s4, true);  // cycle N + 1: published
            &&& spawn_step(s0, true).1
            &&& s1.image == s0.image
            &&& s2.image == s0.image
            &&& s3.image == s0.image
            &&& s4.image == s0.image
            &&& s5.image == decode_spec(fourcc, frame, s0.working, max)
            &&& !s5.pending
        }),
{
}

} // verus!
