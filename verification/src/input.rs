use vstd::prelude::*;

verus! {

/// Size of the key table: key codes are the window system's virtual key
/// numbers, all of which fall below this bound.
pub const KEY_TABLE_SIZE: usize = 256;

/// Virtual key numbers of the keys the engine binds, as the window system
/// numbers them (letters run from A at 10 through Z at 35).
pub const KEY_A: u32 = 10;

pub const KEY_D: u32 = 13;

pub const KEY_E: u32 = 14;

pub const KEY_Q: u32 = 26;

pub const KEY_S: u32 = 28;

pub const KEY_W: u32 = 32;

pub const KEY_Z: u32 = 35;

/// What the input system remembers of one key: nothing yet, or the state of
/// its most recent transition.
#[derive(Clone, Copy, PartialEq, Eq, Structural, Debug)]
pub enum KeyPress {
    Unseen,
    Pressed,
    Released,
}

/// An input event, reduced to what the engine reads from it: a key
/// transition, loss of window focus, or a scroll step whose direction is a
/// sign in each axis.
#[derive(Clone, Copy, PartialEq, Eq, Structural, Debug)]
pub enum InputEvent {
    Key { code: u32, pressed: bool },
    FocusLost,
    Scroll { x_sign: i8, y_sign: i8 },
}

/// Tracks the last known state of every key and the scroll direction of the
/// current tick.
pub struct InputSystem {
    pub keyboard: Vec<KeyPress>,
    pub scroll_x: i8,
    pub scroll_y: i8,
}

impl InputSystem {
    pub open spec fn wf(self) -> bool {
        &&& self.keyboard@.len() == KEY_TABLE_SIZE
        &&& -1 <= self.scroll_x <= 1
        &&& -1 <= self.scroll_y <= 1
    }

    pub fn new() -> (s: Self)
        ensures
            s.wf(),
            forall|i: int| 0 <= i < KEY_TABLE_SIZE ==> s.keyboard@[i] is Unseen,
            s.scroll_x == 0 && s.scroll_y == 0,
    {
        InputSystem { keyboard: vec![KeyPress::Unseen; KEY_TABLE_SIZE], scroll_x: 0, scroll_y: 0 }
    }

    /// Forget the scroll steps of the tick that just ended; key states
    /// persist until their next transition.
    pub fn reset(&mut self)
        requires
            old(self).wf(),
        ensures
            final(self).wf(),
            final(self).keyboard@ == old(self).keyboard@,
            final(self).scroll_x == 0 && final(self).scroll_y == 0,
    {
        self.scroll_x = 0;
        self.scroll_y = 0;
    }

    /// Fold one event into the state: a key transition overwrites that key's
    /// entry, losing focus forgets everything, and a scroll step records its
    /// direction (a zero component leaves that axis alone).
    pub fn on_event(&mut self, event: &InputEvent)
        requires
            old(self).wf(),
            *event matches InputEvent::Scroll { x_sign, y_sign } ==> -1 <= x_sign <= 1 && -1
                <= y_sign <= 1,
        ensures
            final(self).wf(),
            match *event {
                InputEvent::Key { code, pressed } => {
                    &&& final(self).scroll_x == old(self).scroll_x
                    &&& final(self).scroll_y == old(self).scroll_y
                    &&& (code < KEY_TABLE_SIZE ==> final(self).keyboard@ == old(
                        self,
                    ).keyboard@.update(
                        code as int,
                        if pressed {
                            KeyPress::Pressed
                        } else {
                            KeyPress::Released
                        },
                    ))
                    &&& (code >= KEY_TABLE_SIZE ==> *final(self) == *old(self))
                },
                InputEvent::FocusLost => {
                    &&& (forall|i: int| 0 <= i < KEY_TABLE_SIZE ==> final(self).keyboard@[i]
                        is Unseen)
                    &&& final(self).scroll_x == 0 && final(self).scroll_y == 0
                },
                InputEvent::Scroll { x_sign, y_sign } => {
                    &&& final(self).keyboard@ == old(self).keyboard@
                    &&& final(self).scroll_x == (if x_sign != 0 {
                        x_sign
                    } else {
                        old(self).scroll_x
                    })
                    &&& final(self).scroll_y == (if y_sign != 0 {
                        y_sign
                    } else {
                        old(self).scroll_y
                    })
                },
            },
    {
        match *event {
            InputEvent::Key { code, pressed } => {
                if code < KEY_TABLE_SIZE as u32 {
                    let state = if pressed {
                        KeyPress::Pressed
                    } else {
                        KeyPress::Released
                    };
                    self.keyboard.set(code as usize, state);
                }
            },
            InputEvent::FocusLost => {
                self.keyboard = vec![KeyPress::Unseen; KEY_TABLE_SIZE];
                self.scroll_x = 0;
                self.scroll_y = 0;
            },
            InputEvent::Scroll { x_sign, y_sign } => {
                if x_sign != 0 {
                    self.scroll_x = x_sign;
                }
                if y_sign != 0 {
                    self.scroll_y = y_sign;
                }
            },
        }
    }

    /// Whether the key's last observed transition was a press.
    pub fn is_key_pressed(&self, key: u32) -> (r: bool)
        requires
            self.wf(),
        ensures
            r == (key < KEY_TABLE_SIZE && self.keyboard@[key as int] is Pressed),
    {
        key < KEY_TABLE_SIZE as u32 && matches!(self.keyboard[key as usize], KeyPress::Pressed)
    }

    /// Whether the key is currently up: released, or never observed at all.
    pub fn is_key_released(&self, key: u32) -> (r: bool)
        requires
            self.wf(),
        ensures
            r == !(key < KEY_TABLE_SIZE && self.keyboard@[key as int] is Pressed),
    {
        !self.is_key_pressed(key)
    }

    /// The horizontal scroll direction of this tick: -1, 0 or 1.
    pub fn mouse_scoll_x(&self) -> (r: i8)
        requires
            self.wf(),
        ensures
            r == self.scroll_x,
    {
        self.scroll_x
    }

    /// The vertical scroll direction of this tick: -1, 0 or 1.
    pub fn mouse_scoll_y(&self) -> (r: i8)
        requires
            self.wf(),
        ensures
            r == self.scroll_y,
    {
        self.scroll_y
    }
}

} // verus!
