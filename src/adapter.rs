use vstd::prelude::*;

use crate::detector::{
    after_down, after_due, after_up, emit_on_due, emit_on_up, DetectorView, Emit, Phase,
    PressDetector, DEFAULT_CADENCE_MS, DEFAULT_THRESHOLD_MS,
};

verus! {

/// A handler that only cares about short and long presses. Each press hands
/// back a report of what the handler made of it; the handler itself is not
/// changed by a press.
pub trait LongPressable: Sized {
    /// What the handler reports for a press.
    type Report;

    /// Whether the handler can take a short press in its current state.
    spec fn short_ok(&self) -> bool;

    /// Whether the handler can take a long press in its current state.
    spec fn long_ok(&self) -> bool;

    /// The report of a short press.
    spec fn short_report(&self) -> Self::Report;

    /// The report of a long press.
    spec fn long_report(&self) -> Self::Report;

    fn on_short_press(&self) -> (r: Self::Report)
        requires
            self.short_ok(),
        ensures
            r == self.short_report(),
    ;

    fn on_long_press(&self) -> (r: Self::Report)
        requires
            self.long_ok(),
        ensures
            r == self.long_report(),
    ;
}

/// Drives a `LongPressable` handler from raw key edges through a press
/// detector.
pub struct LongPressAdapter<T: LongPressable> {
    inner: T,
    detector: PressDetector,
}

impl<T: LongPressable> LongPressAdapter<T> {
    /// The wrapped handler.
    pub closed spec fn handler(&self) -> T {
        self.inner
    }

    /// The wrapped handler.
    pub fn inner(&self) -> (r: &T)
        ensures
            *r == self.handler(),
    {
        &self.inner
    }

    /// The abstract state of the detector inside the adapter.
    pub closed spec fn detector_view(&self) -> DetectorView {
        self.detector@
    }

    /// Wraps `inner` with a detector of the default threshold and cadence.
    pub fn new(inner: T) -> (r: Self)
        ensures
            r.handler() == inner,
            r.detector_view() == (DetectorView {
                phase: Phase::Idle,
                long_pressed: false,
                threshold: DEFAULT_THRESHOLD_MS,
                cadence: DEFAULT_CADENCE_MS,
            }),
    {
        LongPressAdapter {
            inner,
            detector: PressDetector::new(DEFAULT_THRESHOLD_MS, DEFAULT_CADENCE_MS),
        }
    }

    /// The delay the caller's timer waits next, if a timer is live.
    pub fn next_wait(&self) -> (r: Option<u64>)
        ensures
            self.detector_view().phase == Phase::Idle ==> r is None,
            self.detector_view().phase == Phase::Waiting ==> r == Some(
                self.detector_view().threshold,
            ),
            self.detector_view().phase == Phase::Held ==> r == Some(self.detector_view().cadence),
    {
        self.detector.next_wait()
    }

    /// Handles a key-down edge; the handler hears nothing yet. Returns
    /// whether a live timer had to be retired.
    pub fn key_down(&mut self) -> (retired: bool)
        ensures
            final(self).handler() == old(self).handler(),
            final(self).detector_view() == after_down(old(self).detector_view()),
            retired == (old(self).detector_view().phase != Phase::Idle),
    {
        self.detector.on_key_down()
    }

    /// Handles a key-up edge, once the caller's timer has stopped. When a
    /// short press was detected the handler receives it, and its report is
    /// returned.
    pub fn key_up(&mut self) -> (r: Option<T::Report>)
        requires
            emit_on_up(old(self).detector_view()) is Some ==> old(self).handler().short_ok(),
        ensures
            final(self).handler() == old(self).handler(),
            final(self).detector_view() == after_up(old(self).detector_view()),
            r == (if emit_on_up(old(self).detector_view()) is Some {
                Some(old(self).handler().short_report())
            } else {
                None::<T::Report>
            }),
    {
        match self.detector.on_key_up() {
            Some(_) => Some(self.inner.on_short_press()),
            None => None,
        }
    }

    /// Handles the caller's timer delay elapsing. Returns what the detector
    /// emits, and the handler's report when the threshold has just been
    /// reached and the handler received a long press.
    pub fn timer_due(&mut self) -> (r: (Option<Emit>, Option<T::Report>))
        requires
            old(self).detector_view().phase == Phase::Waiting ==> old(self).handler().long_ok(),
        ensures
            final(self).handler() == old(self).handler(),
            final(self).detector_view() == after_due(old(self).detector_view()),
            r.0 == emit_on_due(old(self).detector_view()),
            r.1 == (if r.0 == Some(Emit::LongPress) {
                Some(old(self).handler().long_report())
            } else {
                None::<T::Report>
            }),
    {
        let emit = self.detector.on_timer_due();
        match emit {
            Some(Emit::LongPress) => (emit, Some(self.inner.on_long_press())),
            _ => (emit, None),
        }
    }
}

/// A counter that reports its value plus one on a short press and minus one
/// on a long press, leaving the stored value as it is.
#[derive(Clone, Copy, Debug, PartialEq, Eq, Structural)]
pub struct Counter {
    pub value: i32,
}

impl LongPressable for Counter {
    type Report = i32;

    open spec fn short_ok(&self) -> bool {
        self.value < i32::MAX
    }

    open spec fn long_ok(&self) -> bool {
        self.value > i32::MIN
    }

    open spec fn short_report(&self) -> i32 {
        (self.value + 1) as i32
    }

    open spec fn long_report(&self) -> i32 {
        (self.value - 1) as i32
    }

    fn on_short_press(&self) -> (r: i32) {
        self.value + 1
    }

    fn on_long_press(&self) -> (r: i32) {
        self.value - 1
    }
}

/// A counter at 5 behind an adapter receives one quick press, which it
/// reports as the new value 6.
pub fn demo() -> (r: i32)
    ensures
        r == 6,
{
    let counter = Counter { value: 5 };
    let mut action = LongPressAdapter::new(counter);
    action.key_down();
    match action.key_up() {
        Some(value) => value,
        None => counter.value,
    }
}

} // verus!
