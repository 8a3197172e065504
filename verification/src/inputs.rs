use vstd::prelude::*;
use crate::ecs::resources::Motion;

verus! {

/// The buttons of the game: each fires once when it is pressed.
#[derive(Hash, Eq, PartialEq, Copy, Clone, Debug, Structural)]
pub enum Buttons {
    RotateRight,
    RotateLeft,
    StartGame,
}

/// The axes of the game: each is held in one of its two directions, or not
/// at all.
#[derive(Hash, Eq, PartialEq, Copy, Clone, Debug, Structural)]
pub enum Axes {
    Horizontal,
    Vertical,
}

/// What a key asks of a running game.
#[derive(Eq, PartialEq, Copy, Clone, Debug, Structural)]
pub enum GameKey {
    /// Move the piece one column to the left.
    Left,
    /// Move the piece one column to the right.
    Right,
    /// Move the piece one row down.
    Down,
    /// Turn the piece counter-clockwise.
    RotateLeft,
    /// Turn the piece clockwise.
    RotateRight,
    /// Start again after the game is over.
    Restart,
}

/// What a key is bound to: a button, or one of the two directions of an
/// axis, the positive one where the flag is set.
#[derive(Eq, PartialEq, Copy, Clone, Debug, Structural)]
pub enum Binding {
    Button(Buttons),
    Axis(Axes, bool),
}

/// What the keys have asked for since the last update: the direction in
/// which each axis is held, as 1, -1 or 0; for each button whether it was
/// pressed since the buttons were last read; and for each button whether it
/// is down now. A button is pressed when it goes from up to down.
#[derive(Eq, PartialEq, Copy, Clone, Debug, Structural)]
pub struct InputState {
    pub vertical: i8,
    pub horizontal: i8,
    pub rotate_right: bool,
    pub rotate_left: bool,
    pub start_game: bool,
    pub rotate_right_down: bool,
    pub rotate_left_down: bool,
    pub start_game_down: bool,
}

/// The direction of an axis as a number.
pub open spec fn direction_of(positive: bool) -> i8 {
    if positive {
        1i8
    } else {
        -1i8
    }
}

impl InputState {
    /// The state in which no axis is held, no button is down and no button
    /// was pressed.
    pub open spec fn idle() -> InputState {
        InputState {
            vertical: 0,
            horizontal: 0,
            rotate_right: false,
            rotate_left: false,
            start_game: false,
            rotate_right_down: false,
            rotate_left_down: false,
            start_game_down: false,
        }
    }

    /// Whether the button is down.
    pub open spec fn is_down(self, button: Buttons) -> bool {
        match button {
            Buttons::RotateRight => self.rotate_right_down,
            Buttons::RotateLeft => self.rotate_left_down,
            Buttons::StartGame => self.start_game_down,
        }
    }

    /// Whether the button was pressed since the buttons were last read.
    pub open spec fn was_pressed(self, button: Buttons) -> bool {
        match button {
            Buttons::RotateRight => self.rotate_right,
            Buttons::RotateLeft => self.rotate_left,
            Buttons::StartGame => self.start_game,
        }
    }

    /// The state after a key that is bound to an axis went down or up. A
    /// key that goes down holds the axis in its direction. A key that goes
    /// up lets go of the axis if the axis is held in the direction of that
    /// key, and changes nothing if the other key of the axis holds it.
    pub open spec fn with_axis(self, axis: Axes, positive: bool, down: bool) -> InputState {
        let held = match axis {
            Axes::Vertical => self.vertical,
            Axes::Horizontal => self.horizontal,
        };
        let now = if down {
            direction_of(positive)
        } else if held == direction_of(positive) {
            0i8
        } else {
            held
        };
        match axis {
            Axes::Vertical => InputState { vertical: now, ..self },
            Axes::Horizontal => InputState { horizontal: now, ..self },
        }
    }

    /// The state after a key that is bound to a button went down or up. A
    /// button that goes down while it was up is pressed, and the press is
    /// noted until it is read. A button that goes down while it is down
    /// already, as a key that repeats does, is not pressed again. A button
    /// that goes up is down no longer, so that its next going down is a
    /// press; a press that was not read yet is not lost by it.
    pub open spec fn with_button(self, button: Buttons, down: bool) -> InputState {
        let pressed = self.was_pressed(button) || (down && !self.is_down(button));
        match button {
            Buttons::RotateRight => InputState {
                rotate_right: pressed,
                rotate_right_down: down,
                ..self
            },
            Buttons::RotateLeft => InputState {
                rotate_left: pressed,
                rotate_left_down: down,
                ..self
            },
            Buttons::StartGame => InputState {
                start_game: pressed,
                start_game_down: down,
                ..self
            },
        }
    }

    /// The state after a bound key went down or up.
    pub open spec fn with_key(self, binding: Binding, down: bool) -> InputState {
        match binding {
            Binding::Axis(axis, positive) => self.with_axis(axis, positive, down),
            Binding::Button(button) => self.with_button(button, down),
        }
    }

    /// What the state asks of the piece.
    pub open spec fn asked(self) -> Motion {
        Motion {
            up: self.vertical > 0,
            down: self.vertical < 0,
            left: self.horizontal < 0,
            right: self.horizontal > 0,
            rotation_right: self.rotate_right,
            rotation_left: self.rotate_left,
        }
    }

    /// The state after it was read: the axes stay as they are held, the
    /// buttons stay down or up as they are, and their presses are
    /// forgotten.
    pub open spec fn after_read(self) -> InputState {
        InputState { rotate_right: false, rotate_left: false, start_game: false, ..self }
    }

    pub fn new() -> (state: InputState)
        ensures
            state == InputState::idle(),
    {
        InputState {
            vertical: 0,
            horizontal: 0,
            rotate_right: false,
            rotate_left: false,
            start_game: false,
            rotate_right_down: false,
            rotate_left_down: false,
            start_game_down: false,
        }
    }

    /// Notes that the key of one direction of an axis went down.
    pub fn update_axis_start(&mut self, axis: Axes, positive: bool)
        ensures
            *final(self) == old(self).with_axis(axis, positive, true),
    {
        self.key(Binding::Axis(axis, positive), true);
    }

    /// Notes that the key of one direction of an axis went up.
    pub fn update_axis_stop(&mut self, axis: Axes, positive: bool)
        ensures
            *final(self) == old(self).with_axis(axis, positive, false),
    {
        self.key(Binding::Axis(axis, positive), false);
    }

    /// Notes that a button went down: it is pressed if it was up.
    pub fn update_button_down(&mut self, button: Buttons)
        ensures
            *final(self) == old(self).with_button(button, true),
    {
        self.key(Binding::Button(button), true);
    }

    /// Notes that a button went up: it is down no longer, and what was
    /// pressed and not read yet stays pressed.
    pub fn update_button_up(&mut self, button: Buttons)
        ensures
            *final(self) == old(self).with_button(button, false),
            !final(self).is_down(button),
            final(self).asked() == old(self).asked(),
    {
        self.key(Binding::Button(button), false);
    }

    /// Notes that a bound key went down or up.
    pub fn key(&mut self, binding: Binding, down: bool)
        ensures
            *final(self) == old(self).with_key(binding, down),
    {
        match binding {
            Binding::Axis(axis, positive) => {
                let direction: i8 = if positive {
                    1
                } else {
                    -1
                };
                match axis {
                    Axes::Vertical => {
                        if down {
                            self.vertical = direction;
                        } else if self.vertical == direction {
                            self.vertical = 0;
                        }
                    },
                    Axes::Horizontal => {
                        if down {
                            self.horizontal = direction;
                        } else if self.horizontal == direction {
                            self.horizontal = 0;
                        }
                    },
                }
            },
            Binding::Button(button) => {
                match button {
                    Buttons::RotateRight => {
                        if down && !self.rotate_right_down {
                            self.rotate_right = true;
                        }
                        self.rotate_right_down = down;
                    },
                    Buttons::RotateLeft => {
                        if down && !self.rotate_left_down {
                            self.rotate_left = true;
                        }
                        self.rotate_left_down = down;
                    },
                    Buttons::StartGame => {
                        if down && !self.start_game_down {
                            self.start_game = true;
                        }
                        self.start_game_down = down;
                    },
                }
            },
        }
    }

    /// Reads the state at the start of an update: gives what it asks of
    /// the piece, and forgets the presses, so that one press turns the
    /// piece once, while an axis goes on asking for as long as it is held.
    pub fn take_motion(&mut self) -> (motion: Motion)
        ensures
            motion == old(self).asked(),
            *final(self) == old(self).after_read(),
    {
        let motion = Motion::new(
            self.vertical as i32,
            self.horizontal as i32,
            self.rotate_right,
            self.rotate_left,
        );
        self.rotate_right = false;
        self.rotate_left = false;
        self.start_game = false;
        motion
    }
}

/// A press of a button is read exactly once. Where a button that is up goes
/// down, the read that follows asks for it. The read after that does not,
/// and neither does any read while the button stays down, whether its key
/// repeats or not. Once the button went up, its going down is a press
/// again.
pub proof fn lemma_button_fires_once(state: InputState, button: Buttons)
    requires
        !state.is_down(button),
    ensures
        ({
            let pressed = state.with_button(button, true);
            let read = pressed.after_read();
            let repeated = read.with_button(button, true);
            let released = read.with_button(button, false);
            let again = released.with_button(button, true);
            &&& pressed.was_pressed(button)
            &&& pressed.is_down(button)
            &&& !read.was_pressed(button)
            &&& read.is_down(button)
            &&& !repeated.was_pressed(button)
            &&& !released.was_pressed(button)
            &&& !released.is_down(button)
            &&& again.was_pressed(button)
        }),
        button == Buttons::RotateRight ==> state.with_button(button, true).asked().rotation_right,
        button == Buttons::RotateLeft ==> state.with_button(button, true).asked().rotation_left,
{
}

/// A press that was not read yet is not lost when the button goes up: the
/// read that follows still asks for it.
pub proof fn lemma_press_survives_release(state: InputState, button: Buttons)
    ensures
        state.was_pressed(button) ==> state.with_button(button, false).was_pressed(button),
        state.with_button(button, false).asked() == state.asked(),
        !state.with_button(button, false).is_down(button),
        state.with_button(button, true).with_button(button, false).was_pressed(button)
            == (state.was_pressed(button) || !state.is_down(button)),
{
}

/// An axis asks for its direction at every read for as long as it is held,
/// and no longer once its key went up.
pub proof fn lemma_axis_is_held(state: InputState, axis: Axes, positive: bool)
    ensures
        ({
            let held = state.with_axis(axis, positive, true);
            let asked = held.asked();
            let again = held.after_read().asked();
            let let_go = held.with_axis(axis, positive, false).asked();
            match (axis, positive) {
                (Axes::Horizontal, true) => asked.right && again.right && !let_go.right,
                (Axes::Horizontal, false) => asked.left && again.left && !let_go.left,
                (Axes::Vertical, true) => asked.up && again.up && !let_go.up,
                (Axes::Vertical, false) => asked.down && again.down && !let_go.down,
            }
        }),
{
}

} // verus!
