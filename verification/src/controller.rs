//! Standard NES pad: an 8-bit shift register latched from the current
//! button states while the strobe line is high, then shifted out one bit
//! per read, A first.

use vstd::prelude::*;

verus! {

#[derive(Debug, Clone, Copy)]
pub enum Button {
    A,
    B,
    Select,
    Start,
    Up,
    Down,
    Left,
    Right,
}

#[derive(Debug, Clone, Copy, PartialEq, Eq, Structural)]
pub struct ButtonStates {
    pub a: bool,
    pub b: bool,
    pub select: bool,
    pub start: bool,
    pub up: bool,
    pub down: bool,
    pub left: bool,
    pub right: bool,
}

impl ButtonStates {
    /// The state with no button held.
    pub open spec fn released() -> ButtonStates {
        ButtonStates {
            a: false,
            b: false,
            select: false,
            start: false,
            up: false,
            down: false,
            left: false,
            right: false,
        }
    }

    pub fn all_released() -> (s: ButtonStates)
        ensures
            s == (ButtonStates {
                a: false,
                b: false,
                select: false,
                start: false,
                up: false,
                down: false,
                left: false,
                right: false,
            }),
    {
        ButtonStates {
            a: false,
            b: false,
            select: false,
            start: false,
            up: false,
            down: false,
            left: false,
            right: false,
        }
    }
}

/// The byte the pad latches: buttons packed in the order
/// A, B, Select, Start, Up, Down, Left, Right with A as the most
/// significant bit.
pub open spec fn latched_byte(s: ButtonStates) -> u8 {
    (if s.a { 0x80u8 } else { 0u8 }) | (if s.b { 0x40u8 } else { 0u8 })
        | (if s.select { 0x20u8 } else { 0u8 }) | (if s.start { 0x10u8 } else { 0u8 })
        | (if s.up { 0x08u8 } else { 0u8 }) | (if s.down { 0x04u8 } else { 0u8 })
        | (if s.left { 0x02u8 } else { 0u8 }) | (if s.right { 0x01u8 } else { 0u8 })
}

pub struct Controller {
    pub shift_register: u8,
    pub buttons: ButtonStates,
    pub strobe: bool,
}

impl Controller {
    pub fn new() -> (c: Controller)
        ensures
            c.shift_register == 0u8,
            c.buttons == ButtonStates::released(),
            !c.strobe,
    {
        Controller { shift_register: 0, buttons: ButtonStates::all_released(), strobe: false }
    }

    /// $4016 write: bit 0 is the strobe line. A 0-to-1 transition latches
    /// the current button states into the shift register.
    pub fn write(&mut self, value: u8)
        ensures
            final(self).strobe == ((value & 0x01u8) == 0x01u8),
            final(self).buttons == old(self).buttons,
            final(self).shift_register == (if !old(self).strobe && (value & 0x01u8) == 0x01u8 {
                latched_byte(old(self).buttons)
            } else {
                old(self).shift_register
            }),
    {
        let new_strobe = value & 0x01 == 0x01;
        if !self.strobe && new_strobe {
            self.latch_buttons();
        }
        self.strobe = new_strobe;
    }

    /// $4016 read: returns bit 7 of the shift register in the low bit and
    /// shifts left, unless strobing, in which case the register is not
    /// consumed and the A bit is returned continuously.
    pub fn read(&mut self) -> (bit: u8)
        ensures
            bit == (if (old(self).shift_register & 0x80u8) != 0u8 { 1u8 } else { 0u8 }),
            final(self).shift_register == (if old(self).strobe {
                old(self).shift_register
            } else {
                (old(self).shift_register << 1u8) as u8
            }),
            final(self).strobe == old(self).strobe,
            final(self).buttons == old(self).buttons,
    {
        if self.strobe {
            return if self.shift_register & 0x80 != 0 { 1 } else { 0 };
        }
        let result = if self.shift_register & 0x80 != 0 { 1 } else { 0 };
        self.shift_register = self.shift_register << 1;
        result
    }

    /// Replace the button states wholesale; while strobing, the new states
    /// are latched immediately.
    pub fn set_button_states(&mut self, states: ButtonStates)
        ensures
            final(self).buttons == states,
            final(self).strobe == old(self).strobe,
            final(self).shift_register == (if old(self).strobe {
                latched_byte(states)
            } else {
                old(self).shift_register
            }),
    {
        self.buttons = states;
        if self.strobe {
            self.latch_buttons();
        }
    }

    fn latch_buttons(&mut self)
        ensures
            final(self).shift_register == latched_byte(old(self).buttons),
            final(self).buttons == old(self).buttons,
            final(self).strobe == old(self).strobe,
    {
        let reg: u8 = (if self.buttons.a { 0x80u8 } else { 0u8 })
            | (if self.buttons.b { 0x40u8 } else { 0u8 })
            | (if self.buttons.select { 0x20u8 } else { 0u8 })
            | (if self.buttons.start { 0x10u8 } else { 0u8 })
            | (if self.buttons.up { 0x08u8 } else { 0u8 })
            | (if self.buttons.down { 0x04u8 } else { 0u8 })
            | (if self.buttons.left { 0x02u8 } else { 0u8 })
            | (if self.buttons.right { 0x01u8 } else { 0u8 });
        self.shift_register = reg;
    }

    /// What `buttons` becomes when one button changes.
    pub open spec fn buttons_with(s: ButtonStates, button: Button, pressed: bool) -> ButtonStates {
        match button {
            Button::A => ButtonStates { a: pressed, ..s },
            Button::B => ButtonStates { b: pressed, ..s },
            Button::Select => ButtonStates { select: pressed, ..s },
            Button::Start => ButtonStates { start: pressed, ..s },
            Button::Up => ButtonStates { up: pressed, ..s },
            Button::Down => ButtonStates { down: pressed, ..s },
            Button::Left => ButtonStates { left: pressed, ..s },
            Button::Right => ButtonStates { right: pressed, ..s },
        }
    }

    pub fn set_button(&mut self, button: Button, pressed: bool)
        ensures
            final(self).buttons == Controller::buttons_with(old(self).buttons, button, pressed),
            final(self).strobe == old(self).strobe,
            final(self).shift_register == (if old(self).strobe {
                latched_byte(Controller::buttons_with(old(self).buttons, button, pressed))
            } else {
                old(self).shift_register
            }),
    {
        match button {
            Button::A => self.buttons.a = pressed,
            Button::B => self.buttons.b = pressed,
            Button::Select => self.buttons.select = pressed,
            Button::Start => self.buttons.start = pressed,
            Button::Up => self.buttons.up = pressed,
            Button::Down => self.buttons.down = pressed,
            Button::Left => self.buttons.left = pressed,
            Button::Right => self.buttons.right = pressed,
        }
        if self.strobe {
            self.latch_buttons();
        }
    }
}

} // verus!
