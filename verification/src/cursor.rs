//! Input capture: one mode for the whole game. While input is captured the
//! cursor is locked and hidden and every player's input is enabled; while it
//! is released the cursor is free and shown and every player's input is off.

use vstd::prelude::*;
use crate::look::PlayerSettings;

verus! {

/// Whether the game holds the cursor.
#[derive(Clone, Copy, Debug, PartialEq, Eq, Structural)]
pub enum InputCapture {
    /// The cursor is free and visible.
    Released,
    /// The cursor is locked to the window and hidden.
    Captured,
}

impl InputCapture {
    /// The mode after a frame in which the primary button, the cancel key,
    /// both or neither were pressed: cancel releases, and is looked at last;
    /// the primary button captures; without either the mode stays.
    pub open spec fn spec_next(self, primary_pressed: bool, cancel_pressed: bool) -> InputCapture {
        if cancel_pressed {
            InputCapture::Released
        } else if primary_pressed {
            InputCapture::Captured
        } else {
            self
        }
    }

    /// Whether players' input is enabled in this mode.
    pub open spec fn spec_input_enabled(self) -> bool {
        self is Captured
    }

    /// The mode after a frame's presses.
    pub fn next(self, primary_pressed: bool, cancel_pressed: bool) -> (mode: InputCapture)
        ensures
            mode == self.spec_next(primary_pressed, cancel_pressed),
    {
        if cancel_pressed {
            InputCapture::Released
        } else if primary_pressed {
            InputCapture::Captured
        } else {
            self
        }
    }

    /// Whether the cursor is locked to the window.
    pub fn cursor_locked(self) -> (b: bool)
        ensures
            b == (self is Captured),
    {
        match self {
            InputCapture::Captured => true,
            InputCapture::Released => false,
        }
    }

    /// Whether the cursor is shown.
    pub fn cursor_visible(self) -> (b: bool)
        ensures
            b == (self is Released),
    {
        match self {
            InputCapture::Captured => false,
            InputCapture::Released => true,
        }
    }

    /// Whether players' input is enabled.
    pub fn input_enabled(self) -> (b: bool)
        ensures
            b == self.spec_input_enabled(),
    {
        self.cursor_locked()
    }
}

/// Whether every player's input is on exactly when input is captured.
pub open spec fn all_follow(capture: InputCapture, settings: Seq<PlayerSettings>) -> bool {
    forall|i: int|
        0 <= i < settings.len() ==> (#[trigger] settings[i]).enable_input
            == capture.spec_input_enabled()
}

/// A player's settings after a frame's presses: if either was pressed the
/// input is set as the new mode has it, and the sensitivity stays.
pub open spec fn settings_after_presses(
    settings: PlayerSettings,
    capture: InputCapture,
    primary_pressed: bool,
    cancel_pressed: bool,
) -> PlayerSettings {
    if primary_pressed || cancel_pressed {
        PlayerSettings {
            enable_input: capture.spec_next(primary_pressed, cancel_pressed).spec_input_enabled(),
            sensitivity: settings.sensitivity,
        }
    } else {
        settings
    }
}

/// Moves the mode by a frame's presses and, if either was pressed, sets every
/// player's input as the new mode has it and hands back the mode to put the
/// cursor in. Without a press nothing changes and the cursor is left alone.
/// Once a press has come, or where they did before, all players follow the
/// mode.
pub fn manage_cursor(
    primary_pressed: bool,
    cancel_pressed: bool,
    capture: &mut InputCapture,
    controller_query: &mut Vec<PlayerSettings>,
) -> (cursor: Option<InputCapture>)
    ensures
        cursor == if primary_pressed || cancel_pressed {
            Some(old(capture).spec_next(primary_pressed, cancel_pressed))
        } else {
            None::<InputCapture>
        },
        *final(capture) == old(capture).spec_next(primary_pressed, cancel_pressed),
        final(controller_query)@.len() == old(controller_query)@.len(),
        forall|i: int|
            0 <= i < old(controller_query)@.len() ==> #[trigger] final(controller_query)@[i]
                == settings_after_presses(
                old(controller_query)@[i],
                *old(capture),
                primary_pressed,
                cancel_pressed,
            ),
        primary_pressed || cancel_pressed || all_follow(*old(capture), old(controller_query)@)
            ==> all_follow(*final(capture), final(controller_query)@),
{
    *capture = capture.next(primary_pressed, cancel_pressed);
    if primary_pressed || cancel_pressed {
        let enabled = capture.input_enabled();
        let n = controller_query.len();
        let mut i: usize = 0;
        while i < n
            invariant
                0 <= i <= n,
                n == old(controller_query)@.len(),
                controller_query@.len() == n,
                primary_pressed || cancel_pressed,
                *capture == old(capture).spec_next(primary_pressed, cancel_pressed),
                enabled == capture.spec_input_enabled(),
                forall|j: int|
                    0 <= j < i ==> #[trigger] controller_query@[j] == settings_after_presses(
                        old(controller_query)@[j],
                        *old(capture),
                        primary_pressed,
                        cancel_pressed,
                    ),
                forall|j: int|
                    i <= j < n ==> #[trigger] controller_query@[j] == old(controller_query)@[j],
            decreases n - i,
        {
            controller_query[i].enable_input = enabled;
            i = i + 1;
        }
        Some(*capture)
    } else {
        None
    }
}

} // verus!
