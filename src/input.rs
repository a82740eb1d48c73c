use vstd::prelude::*;

verus! {

/// Why a synthetic input was not sent.
#[derive(Clone, Copy, Debug, PartialEq, Eq, Structural)]
pub enum InputError {
    /// The operator parked the cursor in the abort corner.
    FailsafeTriggered,
    /// The key has no binding.
    UnsupportedKey(char),
    /// The platform refused the event.
    Failed,
}

/// One step of an input sequence.
#[derive(Clone, Copy, Debug, PartialEq, Eq, Structural)]
pub enum InputStep {
    Click,
    Key(char),
    Pause { ms: u64 },
}

/// Cursor coordinates below this, on both axes, abort all input.
pub const FAILSAFE_CORNER: i32 = 5;

/// Pause after each step of the rod and food sequences.
pub const STEP_PAUSE_MS: u64 = 200;

/// Hold time of a key, and the pause after its release.
pub const KEY_HOLD_MS: u64 = 50;

/// Virtual-key code of a supported key: the digit keys 5 (rod) and 6 (food).
pub open spec fn key_code_spec(key: char) -> Option<u8> {
    if key == '5' {
        Some(0x35u8)
    } else if key == '6' {
        Some(0x36u8)
    } else {
        None
    }
}

/// The failsafe is armed and the cursor sits in the top-left corner.
pub open spec fn failsafe_spec(enabled: bool, cursor: Option<(i32, i32)>) -> bool {
    enabled && match cursor {
        Some(p) => p.0 < FAILSAFE_CORNER && p.1 < FAILSAFE_CORNER,
        None => false,
    }
}

pub fn key_code(key: char) -> (r: Result<u8, InputError>)
    ensures
        match key_code_spec(key) {
            Some(c) => r == Ok::<u8, InputError>(c),
            None => r == Err::<u8, InputError>(InputError::UnsupportedKey(key)),
        },
{
    if key == '5' {
        Ok(0x35)
    } else if key == '6' {
        Ok(0x36)
    } else {
        Err(InputError::UnsupportedKey(key))
    }
}

/// Input state: whether the failsafe is armed, and when the last input went out.
pub struct RobloxInputController {
    pub failsafe_enabled: bool,
    pub last_action_ms: Option<u64>,
}

impl RobloxInputController {
    pub fn new(failsafe_enabled: bool) -> (c: RobloxInputController)
        ensures
            c.failsafe_enabled == failsafe_enabled,
            c.last_action_ms is None,
    {
        RobloxInputController { failsafe_enabled, last_action_ms: None }
    }

    /// Refuses input while the failsafe is armed and the cursor, if it could be
    /// read, is in the top-left corner.
    pub fn check_failsafe(&self, cursor: Option<(i32, i32)>) -> (r: Result<(), InputError>)
        ensures
            r is Err <==> failsafe_spec(self.failsafe_enabled, cursor),
            r is Err ==> r == Err::<(), InputError>(InputError::FailsafeTriggered),
    {
        if !self.failsafe_enabled {
            return Ok(());
        }
        match cursor {
            Some((x, y)) => if x < FAILSAFE_CORNER && y < FAILSAFE_CORNER {
                Err(InputError::FailsafeTriggered)
            } else {
                Ok(())
            },
            None => Ok(()),
        }
    }

    /// Notes that an input went out at `now`.
    pub fn mark_action(&mut self, now: u64)
        ensures
            final(self).last_action_ms == Some(now),
            final(self).failsafe_enabled == old(self).failsafe_enabled,
    {
        self.last_action_ms = Some(now);
    }

    /// Clears a key press: the failsafe is checked first, then the key must
    /// have a binding, whose code is returned.
    pub fn press_key(&self, key: char, cursor: Option<(i32, i32)>) -> (r: Result<u8, InputError>)
        ensures
            failsafe_spec(self.failsafe_enabled, cursor) ==> r == Err::<u8, InputError>(
                InputError::FailsafeTriggered,
            ),
            !failsafe_spec(self.failsafe_enabled, cursor) ==> match key_code_spec(key) {
                Some(c) => r == Ok::<u8, InputError>(c),
                None => r == Err::<u8, InputError>(InputError::UnsupportedKey(key)),
            },
    {
        match self.check_failsafe(cursor) {
            Err(e) => Err(e),
            Ok(()) => key_code(key),
        }
    }

    /// The rod key twice, with a pause after each press.
    pub fn reset_rod(&self) -> (v: Vec<InputStep>)
        ensures
            v@ == seq![
                InputStep::Key('5'),
                InputStep::Pause { ms: STEP_PAUSE_MS },
                InputStep::Key('5'),
                InputStep::Pause { ms: STEP_PAUSE_MS },
            ],
    {
        let mut v = Vec::new();
        v.push(InputStep::Key('5'));
        v.push(InputStep::Pause { ms: STEP_PAUSE_MS });
        v.push(InputStep::Key('5'));
        v.push(InputStep::Pause { ms: STEP_PAUSE_MS });
        assert(v@ =~= seq![
            InputStep::Key('5'),
            InputStep::Pause { ms: STEP_PAUSE_MS },
            InputStep::Key('5'),
            InputStep::Pause { ms: STEP_PAUSE_MS },
        ]);
        v
    }

    /// Put the rod away, select the food, eat it, and take the rod back.
    pub fn eat_food(&self) -> (v: Vec<InputStep>)
        ensures
            v@ == seq![
                InputStep::Click,
                InputStep::Pause { ms: STEP_PAUSE_MS },
                InputStep::Key('6'),
                InputStep::Pause { ms: STEP_PAUSE_MS },
                InputStep::Click,
                InputStep::Pause { ms: STEP_PAUSE_MS },
                InputStep::Key('5'),
                InputStep::Pause { ms: STEP_PAUSE_MS },
            ],
    {
        let mut v = Vec::new();
        v.push(InputStep::Click);
        v.push(InputStep::Pause { ms: STEP_PAUSE_MS });
        v.push(InputStep::Key('6'));
        v.push(InputStep::Pause { ms: STEP_PAUSE_MS });
        v.push(InputStep::Click);
        v.push(InputStep::Pause { ms: STEP_PAUSE_MS });
        v.push(InputStep::Key('5'));
        v.push(InputStep::Pause { ms: STEP_PAUSE_MS });
        assert(v@ =~= seq![
            InputStep::Click,
            InputStep::Pause { ms: STEP_PAUSE_MS },
            InputStep::Key('6'),
            InputStep::Pause { ms: STEP_PAUSE_MS },
            InputStep::Click,
            InputStep::Pause { ms: STEP_PAUSE_MS },
            InputStep::Key('5'),
            InputStep::Pause { ms: STEP_PAUSE_MS },
        ]);
        v
    }

    pub fn get_last_action_time(&self) -> (r: Option<u64>)
        ensures
            r == self.last_action_ms,
    {
        self.last_action_ms
    }
}

} // verus!
