//! The external-interrupt lesson: a button toggles the LED between steady off and
//! blinking, and a timer blinks it while it is on.

use vstd::prelude::*;

verus! {

/// Whether the LED is meant to be off or blinking.
#[derive(Clone, Copy, Debug, PartialEq, Eq, Structural)]
pub enum LEDLogicState {
    /// The LED stays dark.
    Off,
    /// The LED blinks.
    On,
}

/// What a button press does to the LED and its blink timer.
#[derive(Clone, Copy, Debug, PartialEq, Eq, Structural)]
pub enum PressAction {
    /// Light the LED (drive its pin low), start the 1000 ms blink timer and listen to it.
    StartBlinking,
    /// Darken the LED (drive its pin high) and cancel the blink timer.
    StopBlinking,
}

/// The state after a press.
pub open spec fn pressed(state: LEDLogicState) -> LEDLogicState {
    match state {
        LEDLogicState::Off => LEDLogicState::On,
        LEDLogicState::On => LEDLogicState::Off,
    }
}

/// The button's handler: the LED state and how many presses were seen.
pub struct ButtonLed {
    pub state: LEDLogicState,
    pub trigger_count: u16,
}

impl ButtonLed {
    /// The LED off, no press seen.
    pub fn new() -> (button: Self)
        ensures
            button.state == LEDLogicState::Off,
            button.trigger_count == 0,
    {
        ButtonLed { state: LEDLogicState::Off, trigger_count: 0 }
    }

    /// Handles a press: off turns into blinking and blinking into off, and the press is
    /// counted.
    pub fn press(&mut self) -> (action: PressAction)
        requires
            old(self).trigger_count < u16::MAX,
        ensures
            final(self).state == pressed(old(self).state),
            old(self).state == LEDLogicState::Off ==> action == PressAction::StartBlinking,
            old(self).state == LEDLogicState::On ==> action == PressAction::StopBlinking,
            final(self).trigger_count == old(self).trigger_count + 1,
    {
        let action = match self.state {
            LEDLogicState::Off => {
                self.state = LEDLogicState::On;
                PressAction::StartBlinking
            },
            LEDLogicState::On => {
                self.state = LEDLogicState::Off;
                PressAction::StopBlinking
            },
        };
        self.trigger_count = self.trigger_count + 1;
        action
    }

    /// Handles a tick of the blink timer: the LED is toggled exactly while it is meant to
    /// blink. A tick while it is off means the timer was not stopped.
    pub fn blink_tick(&self) -> (toggle: bool)
        ensures
            toggle == (self.state == LEDLogicState::On),
    {
        match self.state {
            LEDLogicState::On => true,
            LEDLogicState::Off => false,
        }
    }
}

/// Two presses bring the LED back to the state it was in.
pub proof fn lemma_two_presses_restore(state: LEDLogicState)
    ensures
        pressed(pressed(state)) == state,
{
}

/// The blink timer runs exactly while the LED blinks: a press starts it when and only when
/// it leaves the LED blinking.
pub proof fn lemma_timer_runs_while_blinking(state: LEDLogicState)
    ensures
        (pressed(state) == LEDLogicState::On) == (state == LEDLogicState::Off),
{
}

} // verus!
