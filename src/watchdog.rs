//! The watchdog supervisor: it pets the hardware watchdog on every timer tick
//! and, when the shutdown signal is observed, disarms it once and stops.
use vstd::prelude::*;

verus! {

/// Any non-empty write pets the device; this is the byte written.
pub const PET_BYTE: u8 = 10;

/// The sentinel byte that disarms the device.
pub const DISARM_BYTE: u8 = 86;

/// What a long-running loop observes at its suspension point.
#[derive(Clone, Copy, PartialEq, Eq, Structural, Debug)]
pub enum LoopEvent {
    Tick,
    Shutdown,
}

/// The write the supervisor asks of the device.
#[derive(Clone, Copy, PartialEq, Eq, Structural, Debug)]
pub enum WatchdogAction {
    /// Write `PET_BYTE`.
    Pet,
    /// Write `DISARM_BYTE`.
    Disarm,
    /// Write nothing.
    Idle,
}

/// The supervisor's state: running until it has disarmed the device.
pub struct Supervisor {
    pub stopped: bool,
}

/// The action for `e` in a supervisor that has (or has not) stopped.
pub open spec fn action_for(stopped: bool, e: LoopEvent) -> WatchdogAction {
    if stopped {
        WatchdogAction::Idle
    } else {
        match e {
            LoopEvent::Tick => WatchdogAction::Pet,
            LoopEvent::Shutdown => WatchdogAction::Disarm,
        }
    }
}

/// The actions for `evs` received in order, from a supervisor that has (or has
/// not) stopped.
pub open spec fn actions(stopped: bool, evs: Seq<LoopEvent>) -> Seq<WatchdogAction>
    decreases evs.len(),
{
    if evs.len() == 0 {
        seq![]
    } else {
        seq![action_for(stopped, evs[0])] + actions(stopped || evs[0] == LoopEvent::Shutdown, evs.drop_first())
    }
}

/// The byte written for an action, if any.
pub open spec fn byte_of(a: WatchdogAction) -> Option<u8> {
    match a {
        WatchdogAction::Pet => Some(PET_BYTE),
        WatchdogAction::Disarm => Some(DISARM_BYTE),
        WatchdogAction::Idle => None,
    }
}

impl Supervisor {
    /// A running supervisor.
    pub fn new() -> (r: Supervisor)
        ensures
            !r.stopped,
    {
        Supervisor { stopped: false }
    }

    /// Handles one event: a tick pets the device, the shutdown signal disarms
    /// it and stops the supervisor, and a stopped supervisor does nothing.
    pub fn on_event(&mut self, e: LoopEvent) -> (r: WatchdogAction)
        ensures
            r == action_for(old(self).stopped, e),
            final(self).stopped == (old(self).stopped || e == LoopEvent::Shutdown),
    {
        if self.stopped {
            return WatchdogAction::Idle;
        }
        match e {
            LoopEvent::Tick => WatchdogAction::Pet,
            LoopEvent::Shutdown => {
                self.stopped = true;
                WatchdogAction::Disarm
            },
        }
    }

    /// Whether the supervisor's loop has ended.
    pub fn is_stopped(&self) -> (r: bool)
        ensures
            r == self.stopped,
    {
        self.stopped
    }
}

/// The byte to write for an action, if any.
pub fn device_byte(a: WatchdogAction) -> (r: Option<u8>)
    ensures
        r == byte_of(a),
{
    match a {
        WatchdogAction::Pet => Some(PET_BYTE),
        WatchdogAction::Disarm => Some(DISARM_BYTE),
        WatchdogAction::Idle => None,
    }
}

proof fn lemma_actions_len(stopped: bool, evs: Seq<LoopEvent>)
    ensures
        actions(stopped, evs).len() == evs.len(),
    decreases evs.len(),
{
    if evs.len() > 0 {
        lemma_actions_len(stopped || evs[0] == LoopEvent::Shutdown, evs.drop_first());
    }
}

proof fn lemma_actions_at(stopped: bool, evs: Seq<LoopEvent>, j: int)
    requires
        0 <= j < evs.len(),
    ensures
        actions(stopped, evs)[j] == action_for(
            stopped || exists|k: int| 0 <= k < j && evs[k] == LoopEvent::Shutdown,
            evs[j],
        ),
    decreases evs.len(),
{
    lemma_actions_len(stopped || evs[0] == LoopEvent::Shutdown, evs.drop_first());
    if j > 0 {
        let rest = evs.drop_first();
        lemma_actions_at(stopped || evs[0] == LoopEvent::Shutdown, rest, j - 1);
        let before = exists|k: int| 0 <= k < j && evs[k] == LoopEvent::Shutdown;
        let before_rest = exists|k: int| 0 <= k < j - 1 && rest[k] == LoopEvent::Shutdown;
        if before_rest {
            let k = choose|k: int| 0 <= k < j - 1 && rest[k] == LoopEvent::Shutdown;
            assert(evs[k + 1] == LoopEvent::Shutdown);
        }
        if before && evs[0] != LoopEvent::Shutdown {
            let k = choose|k: int| 0 <= k < j && evs[k] == LoopEvent::Shutdown;
            assert(rest[k - 1] == LoopEvent::Shutdown);
        }
    }
}

/// Once the shutdown signal is observed, the supervisor performs exactly one
/// disarm write, at that event, and no write of any kind afterwards; before
/// it, every tick pets the device.
pub proof fn disarm_once_then_silent(evs: Seq<LoopEvent>, i: int)
    requires
        0 <= i < evs.len(),
        evs[i] == LoopEvent::Shutdown,
        forall|k: int| 0 <= k < i ==> evs[k] != LoopEvent::Shutdown,
    ensures
        actions(false, evs).len() == evs.len(),
        actions(false, evs)[i] == WatchdogAction::Disarm,
        forall|j: int| i < j < evs.len() ==> actions(false, evs)[j] == WatchdogAction::Idle,
        forall|j: int| 0 <= j < i ==> actions(false, evs)[j] == WatchdogAction::Pet,
{
    lemma_actions_len(false, evs);
    lemma_actions_at(false, evs, i);
    assert forall|j: int| i < j < evs.len() implies actions(false, evs)[j] == WatchdogAction::Idle by {
        lemma_actions_at(false, evs, j);
        assert(0 <= i < j && evs[i] == LoopEvent::Shutdown);
    }
    assert forall|j: int| 0 <= j < i implies actions(false, evs)[j] == WatchdogAction::Pet by {
        lemma_actions_at(false, evs, j);
    }
}

} // verus!
