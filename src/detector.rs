use vstd::prelude::*;

verus! {

/// A notification that the detector hands to its environment.
#[derive(Clone, Copy, Debug, PartialEq, Eq, Structural)]
pub enum Emit {
    /// The button was released before the long-press threshold elapsed.
    ShortPress,
    /// The long-press threshold elapsed while the button was held.
    LongPress,
    /// One cadence interval elapsed while the button stayed held.
    HeldTick,
}

/// What ended one wait of the timer task.
#[derive(Clone, Copy, Debug, PartialEq, Eq, Structural)]
pub enum Wake {
    /// The cancellation signal fired.
    Cancelled,
    /// The delay being waited on elapsed.
    Due,
}

/// Decides which of the two raced conditions wins a wait of the timer task.
/// Cancellation takes priority when both are ready at once.
pub fn race(cancel_ready: bool, due_ready: bool) -> (r: Option<Wake>)
    ensures
        cancel_ready ==> r == Some(Wake::Cancelled),
        !cancel_ready && due_ready ==> r == Some(Wake::Due),
        !cancel_ready && !due_ready ==> r is None,
{
    if cancel_ready {
        Some(Wake::Cancelled)
    } else if due_ready {
        Some(Wake::Due)
    } else {
        None
    }
}

/// Where the detector stands with respect to its timer.
#[derive(Clone, Copy, Debug, PartialEq, Eq, Structural)]
pub enum Phase {
    /// No timer is live.
    Idle,
    /// A timer is live and the long-press threshold has not elapsed yet.
    Waiting,
    /// A timer is live, the threshold has elapsed and held ticks repeat.
    Held,
}

/// The abstract state of a detector.
pub struct DetectorView {
    pub phase: Phase,
    pub long_pressed: bool,
    pub threshold: u64,
    pub cadence: u64,
}

/// The detector after a key-down edge: any live timer is retired and a
/// fresh one starts waiting for the threshold.
pub open spec fn after_down(v: DetectorView) -> DetectorView {
    DetectorView { phase: Phase::Waiting, ..v }
}

/// The detector after a key-up edge: the timer is retired and the flag
/// reset to false.
pub open spec fn after_up(v: DetectorView) -> DetectorView {
    DetectorView { phase: Phase::Idle, long_pressed: false, ..v }
}

/// What a key-up edge emits: a short press unless the threshold elapsed.
pub open spec fn emit_on_up(v: DetectorView) -> Option<Emit> {
    if v.long_pressed {
        None
    } else {
        Some(Emit::ShortPress)
    }
}

/// The detector after the delay of its live timer elapses uncancelled.
pub open spec fn after_due(v: DetectorView) -> DetectorView {
    match v.phase {
        Phase::Waiting => DetectorView { phase: Phase::Held, long_pressed: true, ..v },
        _ => v,
    }
}

/// What the live timer emits when its delay elapses uncancelled.
pub open spec fn emit_on_due(v: DetectorView) -> Option<Emit> {
    match v.phase {
        Phase::Idle => None,
        Phase::Waiting => Some(Emit::LongPress),
        Phase::Held => Some(Emit::HeldTick),
    }
}

/// The per-button press detector.
///
/// One enum field stands for the timer handle and its cancellation signal
/// together, so the two are present or absent as a pair and at most one
/// timer is ever live.
pub struct PressDetector {
    phase: Phase,
    was_long_pressed: bool,
    threshold: u64,
    cadence: u64,
}

impl View for PressDetector {
    type V = DetectorView;

    closed spec fn view(&self) -> DetectorView {
        DetectorView {
            phase: self.phase,
            long_pressed: self.was_long_pressed,
            threshold: self.threshold,
            cadence: self.cadence,
        }
    }
}

impl PressDetector {
    /// A detector is well formed when its held ticks have a positive period.
    pub open spec fn wf(&self) -> bool {
        self@.cadence > 0
    }

    /// A detector with no live timer and the flag cleared.
    pub fn new(threshold: u64, cadence: u64) -> (r: Self)
        requires
            cadence > 0,
        ensures
            r@ == (DetectorView { phase: Phase::Idle, long_pressed: false, threshold, cadence }),
            r.wf(),
    {
        PressDetector { phase: Phase::Idle, was_long_pressed: false, threshold, cadence }
    }

    /// Handles a key-down edge. Returns whether a live timer had to be
    /// retired first; the caller cancels and awaits that task before it
    /// starts the new one.
    pub fn on_key_down(&mut self) -> (retired: bool)
        ensures
            final(self)@ == after_down(old(self)@),
            retired == (old(self)@.phase != Phase::Idle),
    {
        let retired = !matches!(self.phase, Phase::Idle);
        self.phase = Phase::Waiting;
        retired
    }

    /// Handles a key-up edge, once the caller has cancelled and awaited the
    /// live timer. Returns the short press when the threshold never elapsed.
    pub fn on_key_up(&mut self) -> (r: Option<Emit>)
        ensures
            final(self)@ == after_up(old(self)@),
            r == emit_on_up(old(self)@),
    {
        let r = if self.was_long_pressed {
            None
        } else {
            Some(Emit::ShortPress)
        };
        self.phase = Phase::Idle;
        self.was_long_pressed = false;
        r
    }

    /// Handles the delay of the live timer elapsing without a cancellation.
    /// With no live timer nothing is emitted and nothing changes.
    pub fn on_timer_due(&mut self) -> (r: Option<Emit>)
        ensures
            final(self)@ == after_due(old(self)@),
            r == emit_on_due(old(self)@),
    {
        match self.phase {
            Phase::Idle => None,
            Phase::Waiting => {
                self.phase = Phase::Held;
                self.was_long_pressed = true;
                Some(Emit::LongPress)
            },
            Phase::Held => Some(Emit::HeldTick),
        }
    }

    /// Where the detector stands with respect to its timer.
    pub fn phase(&self) -> (r: Phase)
        ensures
            r == self@.phase,
    {
        self.phase
    }

    /// Whether the long-press threshold elapsed during the current press.
    pub fn was_long_pressed(&self) -> (r: bool)
        ensures
            r == self@.long_pressed,
    {
        self.was_long_pressed
    }

    /// The long-press threshold.
    pub fn threshold(&self) -> (r: u64)
        ensures
            r == self@.threshold,
    {
        self.threshold
    }

    /// The held-tick cadence.
    pub fn cadence(&self) -> (r: u64)
        ensures
            r == self@.cadence,
    {
        self.cadence
    }

    /// The delay the live timer waits next: the threshold before it elapses,
    /// the cadence after. None when no timer is live.
    pub fn next_wait(&self) -> (r: Option<u64>)
        ensures
            self@.phase == Phase::Idle ==> r is None,
            self@.phase == Phase::Waiting ==> r == Some(self@.threshold),
            self@.phase == Phase::Held ==> r == Some(self@.cadence),
    {
        match self.phase {
            Phase::Idle => None,
            Phase::Waiting => Some(self.threshold),
            Phase::Held => Some(self.cadence),
        }
    }
}

/// The long-press threshold of a default detector, in milliseconds.
pub const DEFAULT_THRESHOLD_MS: u64 = 2000;

/// The held-tick cadence of a default detector, in milliseconds.
pub const DEFAULT_CADENCE_MS: u64 = 1000;

impl Default for PressDetector {
    /// A detector with the default threshold and cadence.
    fn default() -> (r: Self)
        ensures
            r@ == (DetectorView {
                phase: Phase::Idle,
                long_pressed: false,
                threshold: DEFAULT_THRESHOLD_MS,
                cadence: DEFAULT_CADENCE_MS,
            }),
            r.wf(),
    {
        PressDetector::new(DEFAULT_THRESHOLD_MS, DEFAULT_CADENCE_MS)
    }
}

/// The emits of `n` successive timer delays elapsing uncancelled, starting
/// from `v`.
pub open spec fn emits_of_dues(v: DetectorView, n: nat) -> Seq<Emit>
    decreases n,
{
    if n == 0 {
        Seq::empty()
    } else {
        let first = match emit_on_due(v) {
            Some(e) => seq![e],
            None => Seq::empty(),
        };
        first + emits_of_dues(after_due(v), (n - 1) as nat)
    }
}

/// A second key-down without a key-up in between leaves the detector as the
/// first one did: the stale timer is retired and one fresh timer is live.
pub proof fn lemma_key_down_idempotent(v: DetectorView)
    ensures
        after_down(after_down(v)) == after_down(v),
        after_down(v).phase == Phase::Waiting,
{
}

/// Once a key-up has been handled, no number of timer delays elapsing
/// afterwards produces any emit.
pub proof fn lemma_no_emit_after_key_up(v: DetectorView, n: nat)
    ensures
        emits_of_dues(after_up(v), n) == Seq::<Emit>::empty(),
    decreases n,
{
    if n > 0 {
        lemma_no_emit_after_key_up(v, (n - 1) as nat);
        assert(after_due(after_up(v)) == after_up(v));
        assert(emits_of_dues(after_up(v), n) =~= Seq::<Emit>::empty());
    }
}

/// After any handled key-up, a following key-down and key-up with no timer
/// delay elapsing in between reports a short press, whatever came before.
pub proof fn lemma_flag_reset_after_key_up(v: DetectorView)
    ensures
        !after_up(v).long_pressed,
        emit_on_up(after_down(after_up(v))) == Some(Emit::ShortPress),
        after_up(after_down(after_up(v))) == after_up(v),
{
}

} // verus!
