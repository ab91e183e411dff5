//! What holds of a sprite over a whole sequence of updates.
//!
//! The statements here are about [`SpriteState::step`], the state change
//! that every call of `AnimatedSprite::advance` performs, applied once for
//! each elapsed time of a sequence.

use crate::animation::SpriteState;
use crate::systems::{all_wf, count_marked, retrigger_marked};
use crate::timer::{lemma_period_is_one_over_fps, NANOS_PER_SECOND};
use vstd::prelude::*;

verus! {

/// The sum of a sequence of elapsed times.
pub open spec fn total(deltas: Seq<nat>) -> nat
    decreases deltas.len(),
{
    if deltas.len() == 0 {
        0
    } else {
        total(deltas.drop_last()) + deltas.last()
    }
}

/// The sprite after one update for each elapsed time of `deltas`, in order.
pub open spec fn run(state: SpriteState, deltas: Seq<nat>) -> SpriteState
    decreases deltas.len(),
{
    if deltas.len() == 0 {
        state
    } else {
        run(state, deltas.drop_last()).step(deltas.last())
    }
}

/// The time that the countdown shows after `deltas`, had nothing made it
/// expire: what it showed before plus all that has passed.
pub open spec fn accumulated(state: SpriteState, deltas: Seq<nat>) -> nat {
    state.config.timer.elapsed + total(deltas)
}

/// A prefix of a sequence of elapsed times sums to no more than the whole.
pub proof fn lemma_total_of_prefix(deltas: Seq<nat>, k: int)
    requires
        0 <= k <= deltas.len(),
    ensures
        total(deltas.take(k)) <= total(deltas),
    decreases deltas.len(),
{
    if k == deltas.len() {
        assert(deltas.take(k) =~= deltas);
    } else {
        lemma_total_of_prefix(deltas.drop_last(), k);
        assert(deltas.drop_last().take(k) =~= deltas.take(k));
    }
}

/// Updating over `first` and then over `second` is updating over the two
/// sequences joined.
pub proof fn lemma_run_joined(state: SpriteState, first: Seq<nat>, second: Seq<nat>)
    ensures
        run(state, first + second) == run(run(state, first), second),
    decreases second.len(),
{
    if second.len() == 0 {
        assert(first + second =~= first);
    } else {
        lemma_run_joined(state, first, second.drop_last());
        assert((first + second).drop_last() =~= first + second.drop_last());
        assert((first + second).last() == second.last());
    }
}

/// One update keeps a well-formed sprite well formed: the frame on display
/// stays within the range.  Range, rate and marker never change.
pub proof fn lemma_step_keeps_bounds(state: SpriteState, delta: nat)
    requires
        state.wf(),
    ensures
        state.step(delta).wf(),
        state.step(delta).config.first == state.config.first,
        state.step(delta).config.last == state.config.last,
        state.step(delta).config.fps == state.config.fps,
        state.step(delta).marker == state.marker,
        state.frame is Some <==> state.step(delta).frame is Some,
{
}

/// After any sequence of updates the frame on display lies within the range
/// and the countdown still runs over exactly one frame period.
pub proof fn lemma_run_keeps_bounds(state: SpriteState, deltas: Seq<nat>)
    requires
        state.wf(),
    ensures
        run(state, deltas).wf(),
        run(state, deltas).config.first == state.config.first,
        run(state, deltas).config.last == state.config.last,
        run(state, deltas).config.fps == state.config.fps,
        run(state, deltas).marker == state.marker,
        state.frame is Some <==> run(state, deltas).frame is Some,
    decreases deltas.len(),
{
    if deltas.len() > 0 {
        lemma_run_keeps_bounds(state, deltas.drop_last());
        lemma_step_keeps_bounds(run(state, deltas.drop_last()), deltas.last());
    }
}

/// As long as the time counted stays short of `1 / fps` seconds, no update
/// moves the frame: the countdown only adds up what has passed.
pub proof fn lemma_no_advance_before_period(state: SpriteState, deltas: Seq<nat>)
    requires
        state.wf(),
        accumulated(state, deltas) * state.config.fps < NANOS_PER_SECOND,
    ensures
        run(state, deltas).frame == state.frame,
        run(state, deltas).config == state.config.tick(total(deltas)),
        run(state, deltas).config.timer.elapsed == accumulated(state, deltas),
        !run(state, deltas).config.timer.finished(),
    decreases deltas.len(),
{
    let fps = state.config.fps;
    lemma_period_is_one_over_fps(fps, accumulated(state, deltas));
    if deltas.len() == 0 {
    } else {
        let earlier = deltas.drop_last();
        assert(accumulated(state, earlier) * fps <= accumulated(state, deltas) * fps)
            by (nonlinear_arith)
            requires
                accumulated(state, earlier) <= accumulated(state, deltas),
        ;
        lemma_no_advance_before_period(state, earlier);
    }
}

/// The update on which the time counted reaches `1 / fps` seconds moves the
/// frame to its successor, and it is the only one up to then that moves it.
///
/// Where the frame moved on to the next one, the countdown is started anew,
/// so the next move is a full period away.  Where it wrapped round to the
/// first frame, or where no frame is on display, the countdown is left
/// expired.
pub proof fn lemma_advance_when_period_reached(state: SpriteState, deltas: Seq<nat>, delta: nat)
    requires
        state.wf(),
        accumulated(state, deltas) * state.config.fps < NANOS_PER_SECOND,
        (accumulated(state, deltas) + delta) * state.config.fps >= NANOS_PER_SECOND,
    ensures
        forall|k: int|
            0 <= k <= deltas.len() ==> (#[trigger] run(state, deltas.take(k))).frame == state.frame,
        state.frame matches Some(index) ==> run(state, deltas.push(delta)).frame == Some(
            state.successor(index),
        ),
        state.frame matches Some(index) && index != state.config.last ==> run(
            state,
            deltas.push(delta),
        ).config == state.config.restart(),
        state.frame matches Some(index) && index == state.config.last ==> run(
            state,
            deltas.push(delta),
        ).config.timer.finished(),
        state.frame is None ==> run(state, deltas.push(delta)).frame is None && run(
            state,
            deltas.push(delta),
        ).config.timer.finished(),
{
    let fps = state.config.fps;
    assert forall|k: int| 0 <= k <= deltas.len() implies (#[trigger] run(
        state,
        deltas.take(k),
    )).frame == state.frame by {
        lemma_total_of_prefix(deltas, k);
        assert(accumulated(state, deltas.take(k)) * fps <= accumulated(state, deltas) * fps)
            by (nonlinear_arith)
            requires
                accumulated(state, deltas.take(k)) <= accumulated(state, deltas),
        ;
        lemma_no_advance_before_period(state, deltas.take(k));
    }
    lemma_no_advance_before_period(state, deltas);
    lemma_period_is_one_over_fps(fps, accumulated(state, deltas) + delta);
    assert(deltas.push(delta).drop_last() =~= deltas);
    assert(deltas.push(delta).last() == delta);
}

/// After the frame has moved on to the next one, it stays there until
/// another `1 / fps` seconds have been counted from that update on.
pub proof fn lemma_next_advance_is_a_period_away(
    state: SpriteState,
    deltas: Seq<nat>,
    delta: nat,
    more: Seq<nat>,
)
    requires
        state.wf(),
        state.frame is Some,
        state.frame != Some(state.config.last),
        accumulated(state, deltas) * state.config.fps < NANOS_PER_SECOND,
        (accumulated(state, deltas) + delta) * state.config.fps >= NANOS_PER_SECOND,
        total(more) * state.config.fps < NANOS_PER_SECOND,
    ensures
        run(state, deltas.push(delta) + more).frame == Some(state.frame->Some_0 + 1),
        run(state, deltas.push(delta) + more).config.timer.elapsed == total(more),
{
    lemma_advance_when_period_reached(state, deltas, delta);
    lemma_run_keeps_bounds(state, deltas.push(delta));
    lemma_run_joined(state, deltas.push(delta), more);
    lemma_no_advance_before_period(run(state, deltas.push(delta)), more);
}

/// Once the countdown has expired, updates change nothing at all until the
/// sprite is retriggered.
pub proof fn lemma_expired_countdown_is_inert(state: SpriteState, deltas: Seq<nat>)
    requires
        state.wf(),
        state.config.timer.finished(),
    ensures
        run(state, deltas) == state,
    decreases deltas.len(),
{
    if deltas.len() > 0 {
        lemma_expired_countdown_is_inert(state, deltas.drop_last());
    }
}

/// The update on which the countdown expires while the last frame is on
/// display wraps round to the first frame and leaves the countdown expired.
/// From then on the sprite rests on the first frame, whatever time passes.
pub proof fn lemma_wrap_leaves_countdown_expired(state: SpriteState, delta: nat, later: Seq<nat>)
    requires
        state.wf(),
        state.frame == Some(state.config.last),
        state.config.timer.fires(delta),
    ensures
        state.step(delta).frame == Some(state.config.first),
        state.step(delta).config.timer.finished(),
        run(state.step(delta), later) == state.step(delta),
{
    lemma_step_keeps_bounds(state, delta);
    lemma_expired_countdown_is_inert(state.step(delta), later);
}

/// A sprite with no frame on display never gets one from an update.
pub proof fn lemma_no_target_no_frame(state: SpriteState, deltas: Seq<nat>)
    requires
        state.frame is None,
    ensures
        run(state, deltas).frame is None,
    decreases deltas.len(),
{
    if deltas.len() > 0 {
        lemma_no_target_no_frame(state, deltas.drop_last());
    }
}

/// Retriggering leaves the frame on display, the range, the rate and the
/// marker as they are, and retriggering again changes nothing more.
pub proof fn lemma_retrigger_idempotent(state: SpriteState)
    requires
        state.wf(),
    ensures
        state.retrigger().wf(),
        state.retrigger().frame == state.frame,
        state.retrigger().marker == state.marker,
        state.retrigger().config.first == state.config.first,
        state.retrigger().config.last == state.config.last,
        state.retrigger().config.fps == state.config.fps,
        state.retrigger().retrigger() == state.retrigger(),
{
    lemma_period_is_one_over_fps(state.config.fps, 0);
}

/// A trigger on a collection leaves every frame as it is and selects the
/// same sprites afterwards, so a second trigger with the same marker is
/// accepted whenever the first one was, and changes nothing more.
pub proof fn lemma_trigger_idempotent(states: Seq<SpriteState>, marker: u32)
    requires
        all_wf(states),
    ensures
        all_wf(retrigger_marked(states, marker)),
        forall|i: int|
            0 <= i < states.len() ==> (#[trigger] retrigger_marked(states, marker)[i]).frame
                == states[i].frame,
        count_marked(retrigger_marked(states, marker), marker) == count_marked(states, marker),
        retrigger_marked(retrigger_marked(states, marker), marker) == retrigger_marked(
            states,
            marker,
        ),
    decreases states.len(),
{
    let once = retrigger_marked(states, marker);
    assert forall|i: int| 0 <= i < states.len() implies (#[trigger] once[i]).wf() && once[i].frame
        == states[i].frame by {
        assert(states[i].wf());
        lemma_retrigger_idempotent(states[i]);
    }
    assert(retrigger_marked(once, marker) =~= once);
    if states.len() > 0 {
        let shorter = states.drop_last();
        assert(all_wf(shorter)) by {
            assert forall|i: int| 0 <= i < shorter.len() implies (#[trigger] shorter[i]).wf() by {
                assert(states[i].wf());
            }
        }
        lemma_trigger_idempotent(shorter, marker);
        assert(once.drop_last() =~= retrigger_marked(shorter, marker));
    }
}

} // verus!
