//! The two routines that a host runs over all of its animated sprites: the
//! per-update frame advance, and the restart on a trigger.

use crate::animation::{AnimatedSprite, SpriteState};
use vstd::prelude::*;

verus! {

/// The states of a collection of sprites, in order.
pub open spec fn sprite_states(sprites: Seq<AnimatedSprite>) -> Seq<SpriteState> {
    sprites.map_values(|sprite: AnimatedSprite| sprite@)
}

/// Every sprite of the collection is well formed.
pub open spec fn all_wf(states: Seq<SpriteState>) -> bool {
    forall|i: int| 0 <= i < states.len() ==> (#[trigger] states[i]).wf()
}

/// Every sprite advanced by the same elapsed time.
pub open spec fn step_all(states: Seq<SpriteState>, delta: nat) -> Seq<SpriteState> {
    states.map_values(|state: SpriteState| state.step(delta))
}

/// How many sprites carry `marker`.
pub open spec fn count_marked(states: Seq<SpriteState>, marker: u32) -> nat
    decreases states.len(),
{
    if states.len() == 0 {
        0
    } else {
        count_marked(states.drop_last(), marker) + if states.last().marker == marker {
            1nat
        } else {
            0nat
        }
    }
}

/// Every sprite that carries `marker` has its countdown started anew; the
/// others are left alone.
pub open spec fn retrigger_marked(states: Seq<SpriteState>, marker: u32) -> Seq<SpriteState> {
    states.map_values(
        |state: SpriteState|
            if state.marker == marker {
                state.retrigger()
            } else {
                state
            },
    )
}

/// Why a trigger was refused.
#[derive(Clone, Copy, Debug, PartialEq, Eq)]
pub enum TriggerError {
    /// No sprite carries the marker.
    NoMatch,
    /// More than one sprite carries the marker.
    MultipleMatches,
}

/// Advances every sprite by `delta_nanos` nanoseconds, the time that has
/// passed since the previous update.
pub fn execute_animations(sprites: &mut Vec<AnimatedSprite>, delta_nanos: u64)
    requires
        all_wf(sprite_states(old(sprites)@)),
    ensures
        sprite_states(final(sprites)@) == step_all(
            sprite_states(old(sprites)@),
            delta_nanos as nat,
        ),
        all_wf(sprite_states(final(sprites)@)),
{
    let ghost before = sprite_states(sprites@);
    let n = sprites.len();
    let mut i: usize = 0;
    while i < n
        invariant
            i <= n,
            sprites@.len() == n,
            before.len() == n,
            all_wf(before),
            forall|j: int| 0 <= j < i ==> (#[trigger] sprites@[j])@ == before[j].step(delta_nanos as nat),
            forall|j: int| 0 <= j < i ==> (#[trigger] sprites@[j])@.wf(),
            forall|j: int| i <= j < n ==> (#[trigger] sprites@[j])@ == before[j],
        decreases n - i,
    {
        assert(before[i as int].wf());
        let mut sprite = sprites[i];
        sprite.advance(delta_nanos);
        sprites.set(i, sprite);
        i += 1;
    }
    assert(sprite_states(sprites@) =~= step_all(before, delta_nanos as nat));
}

/// Restarts the countdown of the one sprite that carries `marker`; the frame
/// it displays stays where it is.
///
/// The marker has to select exactly one sprite.  Where it selects none, or
/// more than one, nothing is changed and the error says which.
pub fn trigger_animation(sprites: &mut Vec<AnimatedSprite>, marker: u32) -> (result: Result<
    (),
    TriggerError,
>)
    requires
        all_wf(sprite_states(old(sprites)@)),
    ensures
        match result {
            Ok(()) => {
                &&& count_marked(sprite_states(old(sprites)@), marker) == 1
                &&& sprite_states(final(sprites)@) == retrigger_marked(
                    sprite_states(old(sprites)@),
                    marker,
                )
            },
            Err(TriggerError::NoMatch) => {
                &&& count_marked(sprite_states(old(sprites)@), marker) == 0
                &&& final(sprites)@ == old(sprites)@
            },
            Err(TriggerError::MultipleMatches) => {
                &&& count_marked(sprite_states(old(sprites)@), marker) >= 2
                &&& final(sprites)@ == old(sprites)@
            },
        },
        all_wf(sprite_states(final(sprites)@)),
{
    let ghost before = sprite_states(sprites@);
    let n = sprites.len();
    let mut matches: usize = 0;
    let mut target: usize = 0;
    let mut i: usize = 0;
    while i < n
        invariant
            i <= n,
            sprites@.len() == n,
            before == sprite_states(sprites@),
            matches <= i,
            matches == count_marked(before.take(i as int), marker),
            matches == 0 ==> forall|j: int| 0 <= j < i ==> (#[trigger] before[j]).marker != marker,
            matches == 1 ==> target < i && before[target as int].marker == marker && forall|j: int|
                0 <= j < i && j != target ==> (#[trigger] before[j]).marker != marker,
        decreases n - i,
    {
        assert(before.take(i + 1).drop_last() =~= before.take(i as int));
        assert(before.take(i + 1).last() == before[i as int]);
        assert(before[i as int] == sprites@[i as int]@);
        if sprites[i].marker() == marker {
            if matches == 0 {
                target = i;
            }
            matches += 1;
        }
        i += 1;
    }
    assert(before.take(n as int) =~= before);
    if matches == 0 {
        Err(TriggerError::NoMatch)
    } else if matches > 1 {
        Err(TriggerError::MultipleMatches)
    } else {
        assert(before[target as int].wf());
        let mut sprite = sprites[target];
        sprite.retrigger();
        sprites.set(target, sprite);
        assert(sprite_states(sprites@) =~= retrigger_marked(before, marker));
        Ok(())
    }
}

} // verus!
