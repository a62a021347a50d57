//! The dispatcher's per-iteration decision.
//!
//! The event loop blocks on a multiplexed wait over the device handle and
//! the control-channel handle with a bounded timeout, then acts on what is
//! readable and on the periodic flush timer.  The decision of what to do,
//! and in which order, is this pure step function; the loop around it only
//! performs the actions.

use vstd::prelude::*;

verus! {

/// Milliseconds between two illumination flushes.
pub const FLUSH_INTERVAL_MS: u64 = 16;

/// Timeout of the multiplexed wait, in milliseconds.
pub const POLL_TIMEOUT_MS: i32 = 16;

/// One action of a dispatcher iteration.
#[derive(Copy, Clone, PartialEq, Eq, Structural, Debug)]
pub enum DispatchAction {
    /// Read one report from the device and handle its events.
    ProcessDevice,
    /// Receive one control-channel message and handle it.
    ProcessControl,
    /// Transmit the illumination buffer and restart the flush timer.
    FlushLights,
}

/// The actions of one iteration, in order: device input first, then
/// control input, then the flush if it is due.
pub open spec fn spec_dispatch(
    device_readable: bool,
    control_readable: bool,
    flush_due: bool,
) -> Seq<DispatchAction> {
    (if device_readable {
        seq![DispatchAction::ProcessDevice]
    } else {
        Seq::empty()
    }) + (if control_readable {
        seq![DispatchAction::ProcessControl]
    } else {
        Seq::empty()
    }) + (if flush_due {
        seq![DispatchAction::FlushLights]
    } else {
        Seq::empty()
    })
}

/// Whether the periodic flush is due.
pub fn flush_due(elapsed_ms: u64) -> (r: bool)
    ensures
        r == (elapsed_ms >= FLUSH_INTERVAL_MS),
{
    elapsed_ms >= FLUSH_INTERVAL_MS
}

/// Decide one dispatcher iteration.
pub fn dispatch_step(device_readable: bool, control_readable: bool, flush_due: bool) -> (acts: Vec<
    DispatchAction,
>)
    ensures
        acts@ == spec_dispatch(device_readable, control_readable, flush_due),
{
    let mut acts: Vec<DispatchAction> = Vec::new();
    if device_readable {
        acts.push(DispatchAction::ProcessDevice);
    }
    if control_readable {
        acts.push(DispatchAction::ProcessControl);
    }
    if flush_due {
        acts.push(DispatchAction::FlushLights);
    }
    proof {
        assert(acts@ =~= spec_dispatch(device_readable, control_readable, flush_due));
    }
    acts
}

/// A due flush is never starved by busy inputs: it is always the last
/// action of the iteration, whatever else is readable.
pub proof fn lemma_flush_not_starved(device_readable: bool, control_readable: bool)
    ensures
        spec_dispatch(device_readable, control_readable, true).last()
            == DispatchAction::FlushLights,
{
}

/// Within one iteration, device input is handled before control input.
pub proof fn lemma_device_before_control(flush_due: bool)
    ensures
        spec_dispatch(true, true, flush_due)[0] == DispatchAction::ProcessDevice,
        spec_dispatch(true, true, flush_due)[1] == DispatchAction::ProcessControl,
{
}

} // verus!
