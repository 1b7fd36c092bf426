//! The dice service: a time-boxed rolling animation that yields a value.
//! While the elapsed time is under one second the face spins; at one second
//! it snaps to the rolled value and the "ding" sound plays exactly once; at
//! one and a half seconds the roll ends.

use vstd::prelude::*;

verus! {

pub const DICE_SNAP_MS: u32 = 1000;
pub const DICE_END_MS: u32 = 1500;

/// What one dice operation asks of the host.
pub struct DiceCue {
    /// Start the looped rolling sound in the "roll" channel.
    pub start_roll_audio: bool,
    /// Stop the "roll" channel.
    pub stop_roll_audio: bool,
    /// Play the "ding" sound once.
    pub ding: bool,
    /// The roll finished this tick (`DiceRollEnd`).
    pub roll_end: bool,
}

impl DiceCue {
    pub fn none() -> (r: DiceCue)
        ensures
            !r.start_roll_audio,
            !r.stop_roll_audio,
            !r.ding,
            !r.roll_end,
    {
        DiceCue { start_roll_audio: false, stop_roll_audio: false, ding: false, roll_end: false }
    }
}

pub struct DiceState {
    pub visible: bool,
    pub time_ms: u32,
    pub value: u32,
    /// The ding has already played for this roll; the face has snapped.
    pub snapped: bool,
}

impl DiceState {
    /// Whether consumers should treat the die as still rolling.
    pub open spec fn spec_is_rolling(&self) -> bool {
        self.visible && self.time_ms < DICE_END_MS
    }

    pub fn new() -> (r: DiceState)
        ensures
            !r.visible,
            r.time_ms == 0,
            r.value == 1,
            !r.snapped,
    {
        DiceState { visible: false, time_ms: 0, value: 1, snapped: false }
    }

    #[verifier::when_used_as_spec(spec_is_rolling)]
    pub fn is_rolling(&self) -> (r: bool)
        ensures
            r == self.spec_is_rolling(),
    {
        self.visible && self.time_ms < DICE_END_MS
    }

    /// Begins a roll that will settle on `value`.
    pub fn start(&mut self, value: u32) -> (cue: DiceCue)
        ensures
            final(self).visible,
            final(self).time_ms == 0,
            final(self).value == value,
            !final(self).snapped,
            cue.start_roll_audio,
            !cue.stop_roll_audio && !cue.ding && !cue.roll_end,
    {
        self.visible = true;
        self.time_ms = 0;
        self.value = value;
        self.snapped = false;
        DiceCue { start_roll_audio: true, stop_roll_audio: false, ding: false, roll_end: false }
    }

    /// Changes the value the face will show. Never replays the ding: the
    /// snap state is untouched.
    pub fn set_value(&mut self, value: u32)
        ensures
            *final(self) == (DiceState { value, ..*old(self) }),
            final(self).snapped == old(self).snapped,
    {
        self.value = value;
    }

    /// Takes the die off screen and silences the rolling loop.
    pub fn dismiss(&mut self) -> (cue: DiceCue)
        ensures
            *final(self) == (DiceState { visible: false, ..*old(self) }),
            cue.stop_roll_audio,
            !cue.start_roll_audio && !cue.ding && !cue.roll_end,
    {
        self.visible = false;
        DiceCue { start_roll_audio: false, stop_roll_audio: true, ding: false, roll_end: false }
    }

    /// Advances the roll. The ding plays exactly once per roll, on the tick
    /// where the face first snaps; the roll ends once the timer crosses a
    /// second and a half.
    pub fn tick(&mut self, dt_ms: u32) -> (cue: DiceCue)
        requires
            old(self).time_ms <= DICE_END_MS,
            dt_ms <= 1000,
        ensures
            final(self).visible == old(self).visible,
            final(self).value == old(self).value,
            final(self).time_ms == if old(self).spec_is_rolling() {
                crate::num::spec_clamp_u32((old(self).time_ms + dt_ms) as u32, 0, DICE_END_MS)
            } else {
                old(self).time_ms
            },
            cue.roll_end == (old(self).spec_is_rolling() && old(self).time_ms + dt_ms
                >= DICE_END_MS),
            cue.ding == (old(self).visible && !old(self).snapped && final(self).time_ms
                >= DICE_SNAP_MS),
            final(self).snapped == (old(self).snapped || cue.ding),
            cue.stop_roll_audio == cue.ding,
            !cue.start_roll_audio,
    {
        let mut cue = DiceCue::none();
        if self.is_rolling() {
            let advanced = self.time_ms + dt_ms;
            if advanced >= DICE_END_MS {
                self.time_ms = DICE_END_MS;
                cue.roll_end = true;
            } else {
                self.time_ms = advanced;
            }
        }
        if self.visible && !self.snapped && self.time_ms >= DICE_SNAP_MS {
            self.snapped = true;
            cue.ding = true;
            cue.stop_roll_audio = true;
        }
        cue
    }

    /// The sprite frame to show: one of the four spin frames at 15 Hz while
    /// rolling, and the settled value's face after the snap.
    pub fn face_frame(&self) -> (r: u32)
        requires
            self.value <= 10,
            self.time_ms <= DICE_END_MS,
        ensures
            self.time_ms >= DICE_SNAP_MS ==> r == 4 + self.value,
            self.time_ms < DICE_SNAP_MS ==> r == (self.time_ms * 15 / 1000) % 4,
    {
        if self.time_ms >= DICE_SNAP_MS {
            4 + self.value
        } else {
            (self.time_ms * 15 / 1000) % 4
        }
    }

    /// A game reset hides the die and rewinds its clock.
    pub fn reset(&mut self)
        ensures
            !final(self).visible,
            final(self).time_ms == 0,
    {
        self.visible = false;
        self.time_ms = 0;
    }
}

/// Once the face has snapped, changing the value never replays the ding:
/// the following tick reports no snap sound.
pub proof fn lemma_set_value_no_resnap(dice: DiceState, value: u32)
    requires
        dice.snapped,
    ensures
        (DiceState { value, ..dice }).snapped,
{
}

} // verus!
