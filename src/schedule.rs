use vstd::prelude::*;

use crate::detector::{race, Emit, Phase, PressDetector, Wake};

verus! {

/// An emit together with the abstract time at which it happens.
#[derive(Clone, Copy, Debug, PartialEq, Eq, Structural)]
pub struct Stamped {
    pub emit: Emit,
    pub at: u64,
}

/// The held ticks due at `t`, `t + cadence`, ... strictly before `hold`;
/// at `hold` itself the release wins the tie.
pub open spec fn held_ticks(t: int, cadence: int, hold: int) -> Seq<Stamped>
    decreases if t < hold { hold - t } else { 0 },
{
    if cadence <= 0 || t >= hold {
        Seq::empty()
    } else {
        seq![Stamped { emit: Emit::HeldTick, at: t as u64 }] + held_ticks(t + cadence, cadence, hold)
    }
}

/// What a press emits when the key goes down at time 0 and up at `hold`:
/// a short press at release when the threshold has not elapsed by then,
/// else a long press at the threshold followed by a held tick per cadence.
pub open spec fn press_schedule(threshold: u64, cadence: u64, hold: u64) -> Seq<Stamped> {
    if hold <= threshold {
        seq![Stamped { emit: Emit::ShortPress, at: hold }]
    } else {
        seq![Stamped { emit: Emit::LongPress, at: threshold }] + held_ticks(
            threshold + cadence,
            cadence as int,
            hold as int,
        )
    }
}

/// Replays one press through a detector: key-down at time 0, every timer
/// delay that elapses before the release, and key-up at `hold`. Returns the
/// emits in order with their times.
pub fn press_emits(threshold: u64, cadence: u64, hold: u64) -> (r: Vec<Stamped>)
    requires
        cadence > 0,
    ensures
        r@ == press_schedule(threshold, cadence, hold),
{
    let mut det = PressDetector::new(threshold, cadence);
    let mut out: Vec<Stamped> = Vec::new();
    det.on_key_down();
    let long = threshold < hold;
    let mut due: u64 = threshold;
    if let Some(Wake::Due) = race(hold <= threshold, threshold <= hold) {
        if let Some(e) = det.on_timer_due() {
            out.push(Stamped { emit: e, at: due });
        }
    }
    let mut ticking: bool = long;
    while ticking
        invariant
            det.wf(),
            det@.cadence == cadence,
            long == (threshold < hold),
            long ==> det@.phase == Phase::Held && det@.long_pressed,
            long ==> threshold <= due < hold,
            long ==> out@ + held_ticks(due + cadence, cadence as int, hold as int)
                == press_schedule(threshold, cadence, hold),
            long && !ticking ==> held_ticks(due + cadence, cadence as int, hold as int)
                == Seq::<Stamped>::empty(),
            !long ==> !ticking && out@.len() == 0 && det@.phase == Phase::Waiting
                && !det@.long_pressed,
        decreases hold - due + (if ticking { 1int } else { 0int }),
    {
        let gap = hold - due;
        match race(gap <= cadence, cadence <= gap) {
            Some(Wake::Due) => {
                let ghost prev = out@;
                due = due + cadence;
                if let Some(e) = det.on_timer_due() {
                    out.push(Stamped { emit: e, at: due });
                }
                assert(out@ == prev + seq![Stamped { emit: Emit::HeldTick, at: due }]);
                assert(prev + held_ticks(due - cadence + cadence, cadence as int, hold as int)
                    == out@ + held_ticks(due + cadence, cadence as int, hold as int));
            },
            _ => {
                ticking = false;
            },
        }
    }
    if let Some(e) = det.on_key_up() {
        out.push(Stamped { emit: e, at: hold });
    }
    assert(out@ =~= press_schedule(threshold, cadence, hold));
    out
}

/// The held ticks from `t` are one per cadence interval: tick `i` falls at
/// `t + i * cadence`, all of them before `hold`, and the next would not be.
pub proof fn lemma_held_ticks_shape(t: int, cadence: int, hold: int)
    requires
        cadence > 0,
    ensures
        ({
            let s = held_ticks(t, cadence, hold);
            &&& forall|i: int|
                0 <= i < s.len() ==> s[i].emit == Emit::HeldTick && s[i].at == (t + i * cadence) as u64
                    && t + i * cadence < hold
            &&& t + s.len() * cadence >= hold
        }),
    decreases if t < hold { hold - t } else { 0 },
{
    let s = held_ticks(t, cadence, hold);
    if t < hold {
        lemma_held_ticks_shape(t + cadence, cadence, hold);
        let rest = held_ticks(t + cadence, cadence, hold);
        assert forall|i: int| 0 <= i < s.len() implies s[i].emit == Emit::HeldTick && s[i].at == (t
            + i * cadence) as u64 && t + i * cadence < hold by {
            if i > 0 {
                assert(s[i] == rest[i - 1]);
                assert(t + cadence + (i - 1) * cadence == t + i * cadence) by (nonlinear_arith);
            }
        }
        assert(t + cadence + rest.len() * cadence == t + s.len() * cadence) by (nonlinear_arith)
            requires
                s.len() == rest.len() + 1,
        ;
    }
}

/// A press released no later than the threshold emits exactly one short
/// press, at the release, and neither a long press nor a held tick.
pub proof fn lemma_quick_release_is_short(threshold: u64, cadence: u64, hold: u64)
    requires
        hold <= threshold,
    ensures
        press_schedule(threshold, cadence, hold) == seq![Stamped { emit: Emit::ShortPress, at: hold }],
{
}

/// A press held past the threshold emits one long press at the threshold,
/// then one held tick at each full cadence interval that ends before the
/// release, and never a short press.
pub proof fn lemma_long_hold(threshold: u64, cadence: u64, hold: u64)
    requires
        cadence > 0,
        threshold < hold,
    ensures
        ({
            let s = press_schedule(threshold, cadence, hold);
            &&& s.len() >= 1
            &&& s[0] == Stamped { emit: Emit::LongPress, at: threshold }
            &&& forall|i: int|
                1 <= i < s.len() ==> s[i].emit == Emit::HeldTick && s[i].at == threshold + i
                    * cadence && s[i].at < hold
            &&& threshold + s.len() * cadence >= hold
            &&& forall|i: int| 0 <= i < s.len() ==> s[i].emit != Emit::ShortPress
        }),
{
    let s = press_schedule(threshold, cadence, hold);
    let t = threshold + cadence;
    let ticks = held_ticks(t, cadence as int, hold as int);
    lemma_held_ticks_shape(t, cadence as int, hold as int);
    assert forall|i: int| 1 <= i < s.len() implies s[i].emit == Emit::HeldTick && s[i].at
        == threshold + i * cadence && s[i].at < hold by {
        assert(s[i] == ticks[i - 1]);
        assert(t + (i - 1) * cadence == threshold + i * cadence) by (nonlinear_arith)
            requires
                t == threshold + cadence,
        ;
    }
    assert(t + ticks.len() * cadence == threshold + s.len() * cadence) by (nonlinear_arith)
        requires
            t == threshold + cadence,
            s.len() == ticks.len() + 1,
    ;
}

} // verus!
