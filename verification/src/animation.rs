//! Animated sprites: the frame range, the playback rate, and the routine
//! that moves the displayed frame along as time passes.

use crate::timer::{frame_period_nanos, period_of_fps, Countdown, FrameTimer};
use vstd::prelude::*;

verus! {

/// Mathematical state of an [`AnimationConfig`].
pub struct AnimationState {
    /// First frame of the animation.
    pub first: nat,
    /// Last frame of the animation.
    pub last: nat,
    /// Playback rate, in frames per second.
    pub fps: nat,
    /// The countdown to the next frame.
    pub timer: Countdown,
}

impl AnimationState {
    /// The range is not empty, the rate is positive, and the countdown runs
    /// over exactly one frame period.
    pub open spec fn wf(self) -> bool {
        &&& self.first <= self.last
        &&& 0 < self.fps
        &&& self.timer.period == period_of_fps(self.fps)
        &&& self.timer.elapsed <= self.timer.period
    }

    /// The animation as it is constructed: countdown freshly started.
    pub open spec fn init(first: nat, last: nat, fps: nat) -> AnimationState {
        AnimationState { first, last, fps, timer: Countdown::fresh(period_of_fps(fps)) }
    }

    /// The same animation with its countdown started anew.
    pub open spec fn restart(self) -> AnimationState {
        AnimationState { timer: Countdown::fresh(period_of_fps(self.fps)), ..self }
    }

    /// The same animation after its countdown has counted `delta` more.
    pub open spec fn tick(self, delta: nat) -> AnimationState {
        AnimationState { timer: self.timer.tick(delta), ..self }
    }
}

/// Mathematical state of an [`AnimatedSprite`].
pub struct SpriteState {
    /// The animation that drives the sprite.
    pub config: AnimationState,
    /// The frame on display, if the sprite has a frame to display.
    pub frame: Option<nat>,
    /// The marker by which the sprite is selected.
    pub marker: u32,
}

impl SpriteState {
    /// The animation is well formed and the frame on display lies in its
    /// range.
    pub open spec fn wf(self) -> bool {
        &&& self.config.wf()
        &&& self.frame matches Some(index) ==> self.config.first <= index <= self.config.last
    }

    /// The frame that follows `index`: the next one, or the first one after
    /// the last.
    pub open spec fn successor(self, index: nat) -> nat {
        if index == self.config.last {
            self.config.first
        } else {
            index + 1
        }
    }

    /// The update of this call moves the frame: the countdown expires on it
    /// and there is a frame on display.
    pub open spec fn advances(self, delta: nat) -> bool {
        self.config.timer.fires(delta) && self.frame is Some
    }

    /// The sprite after `delta` nanoseconds have passed.
    ///
    /// The countdown counts `delta`.  If it expires on this update and a
    /// frame is on display, the frame moves to its successor; the countdown
    /// is started anew unless the frame wrapped round to the first one, in
    /// which case it is left expired.
    pub open spec fn step(self, delta: nat) -> SpriteState {
        if self.advances(delta) {
            let index = self.frame->Some_0;
            SpriteState {
                config: if index == self.config.last {
                    self.config.tick(delta)
                } else {
                    self.config.restart()
                },
                frame: Some(self.successor(index)),
                marker: self.marker,
            }
        } else {
            SpriteState { config: self.config.tick(delta), ..self }
        }
    }

    /// The sprite with its countdown started anew and nothing else changed.
    pub open spec fn retrigger(self) -> SpriteState {
        SpriteState { config: self.config.restart(), ..self }
    }
}

/// Frame range, playback rate and countdown of one animated sprite.
#[derive(Clone, Copy, Debug, PartialEq, Eq)]
pub struct AnimationConfig {
    first_sprite_index: usize,
    last_sprite_index: usize,
    fps: u8,
    frame_timer: FrameTimer,
}

impl View for AnimationConfig {
    type V = AnimationState;

    closed spec fn view(&self) -> AnimationState {
        AnimationState {
            first: self.first_sprite_index as nat,
            last: self.last_sprite_index as nat,
            fps: self.fps as nat,
            timer: self.frame_timer@,
        }
    }
}

impl AnimationConfig {
    /// An animation over the frames `first..=last` at `fps` frames per
    /// second, with its countdown freshly started.
    pub fn new(first: usize, last: usize, fps: u8) -> (config: AnimationConfig)
        requires
            first <= last,
            fps > 0,
        ensures
            config@ == AnimationState::init(first as nat, last as nat, fps as nat),
            config@.wf(),
    {
        AnimationConfig {
            first_sprite_index: first,
            last_sprite_index: last,
            fps,
            frame_timer: Self::timer_from_fps(fps),
        }
    }

    /// A freshly started countdown of one frame period at `fps` frames per
    /// second.
    pub fn timer_from_fps(fps: u8) -> (timer: FrameTimer)
        requires
            fps > 0,
        ensures
            timer@ == Countdown::fresh(period_of_fps(fps as nat)),
    {
        FrameTimer::once(frame_period_nanos(fps))
    }

    /// First frame of the animation.
    pub fn first_sprite_index(&self) -> (first: usize)
        ensures
            first == self@.first,
    {
        self.first_sprite_index
    }

    /// Last frame of the animation.
    pub fn last_sprite_index(&self) -> (last: usize)
        ensures
            last == self@.last,
    {
        self.last_sprite_index
    }

    /// Playback rate, in frames per second.
    pub fn fps(&self) -> (fps: u8)
        ensures
            fps == self@.fps,
    {
        self.fps
    }

    /// The countdown to the next frame.
    pub fn frame_timer(&self) -> (timer: FrameTimer)
        ensures
            timer@ == self@.timer,
    {
        self.frame_timer
    }

    /// Starts the countdown anew; range and rate stay as they are.
    pub fn restart(&mut self)
        requires
            old(self)@.wf(),
        ensures
            final(self)@ == old(self)@.restart(),
            final(self)@.wf(),
    {
        self.frame_timer = Self::timer_from_fps(self.fps);
    }
}

/// An animated sprite: its animation, the frame it displays, and the marker
/// by which it is selected.
#[derive(Clone, Copy, Debug, PartialEq, Eq)]
pub struct AnimatedSprite {
    config: AnimationConfig,
    frame_index: Option<usize>,
    marker: u32,
}

impl View for AnimatedSprite {
    type V = SpriteState;

    closed spec fn view(&self) -> SpriteState {
        SpriteState {
            config: self.config@,
            frame: match self.frame_index {
                Some(index) => Some(index as nat),
                None => None,
            },
            marker: self.marker,
        }
    }
}

impl AnimatedSprite {
    /// A sprite driven by `config` that displays `frame_index`, or nothing
    /// yet where that is `None`, and is selected by `marker`.
    pub fn new(config: AnimationConfig, frame_index: Option<usize>, marker: u32) -> (sprite:
        AnimatedSprite)
        requires
            config@.wf(),
            frame_index matches Some(index) ==> config@.first <= index <= config@.last,
        ensures
            sprite@ == (SpriteState {
                config: config@,
                frame: match frame_index {
                    Some(index) => Some(index as nat),
                    None => None,
                },
                marker,
            }),
            sprite@.wf(),
    {
        AnimatedSprite { config, frame_index, marker }
    }

    /// The animation that drives the sprite.
    pub fn config(&self) -> (config: AnimationConfig)
        ensures
            config@ == self@.config,
    {
        self.config
    }

    /// The frame on display, if the sprite has a frame to display.
    pub fn frame_index(&self) -> (frame_index: Option<usize>)
        ensures
            match frame_index {
                Some(index) => self@.frame == Some(index as nat),
                None => self@.frame is None,
            },
    {
        self.frame_index
    }

    /// Puts `frame_index` on display, or nothing where that is `None`; the
    /// animation and its countdown stay as they are.
    pub fn set_frame_index(&mut self, frame_index: Option<usize>)
        requires
            frame_index matches Some(index) ==> old(self)@.config.first <= index <= old(
                self,
            )@.config.last,
        ensures
            final(self)@ == (SpriteState {
                frame: match frame_index {
                    Some(index) => Some(index as nat),
                    None => None,
                },
                ..old(self)@
            }),
    {
        self.frame_index = frame_index;
    }

    /// The marker by which the sprite is selected.
    pub fn marker(&self) -> (marker: u32)
        ensures
            marker == self@.marker,
    {
        self.marker
    }

    /// Starts the sprite's countdown anew; the frame on display stays.
    pub fn retrigger(&mut self)
        requires
            old(self)@.wf(),
        ensures
            final(self)@ == old(self)@.retrigger(),
            final(self)@.wf(),
    {
        self.config.restart();
    }

    /// Advances the sprite by `delta_nanos` nanoseconds of elapsed time.
    pub fn advance(&mut self, delta_nanos: u64)
        requires
            old(self)@.wf(),
        ensures
            final(self)@ == old(self)@.step(delta_nanos as nat),
            final(self)@.wf(),
    {
        let just_finished = self.config.frame_timer.tick(delta_nanos);
        if just_finished {
            if let Some(index) = self.frame_index {
                if index == self.config.last_sprite_index {
                    self.frame_index = Some(self.config.first_sprite_index);
                } else {
                    self.frame_index = Some(index + 1);
                    self.config.frame_timer = AnimationConfig::timer_from_fps(self.config.fps);
                }
            }
        }
    }
}

} // verus!
