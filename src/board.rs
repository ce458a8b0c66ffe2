use vstd::prelude::*;
use crate::ssd1306::{DisplayState, SSD1306};

verus! {

/// The six buttons of the device.
#[derive(Clone, Copy, Debug, PartialEq, Eq, Structural)]
pub enum Button {
    A,
    B,
    Up,
    Down,
    Left,
    Right,
}

/// Which buttons are held down.
#[derive(Clone, Copy, Debug, PartialEq, Eq, Structural)]
pub struct ButtonState {
    pub a: bool,
    pub b: bool,
    pub up: bool,
    pub down: bool,
    pub left: bool,
    pub right: bool,
}

/// Data-space address of the port B input pins (button B on bit 4).
pub const PINB: u16 = 0x23;
/// Data-space address of the port D output latch (display D/C on bit 4).
pub const PORTD: u16 = 0x2b;
/// Data-space address of the port E input pins (button A on bit 6).
pub const PINE: u16 = 0x2c;
/// Data-space address of the port F input pins (Up 7, Right 6, Left 5, Down 4).
pub const PINF: u16 = 0x2f;
/// Data-space address of the SPI status register.
pub const SPSR: u16 = 0x4d;
/// Data-space address of the SPI data register, wired to the display.
pub const SPDR: u16 = 0x4e;

/// A pin reads low while its button is held.
pub open spec fn pin_bit(pressed: bool, bit: u8) -> u8 {
    if pressed { 0 } else { (1u8 << bit) as u8 }
}

impl ButtonState {
    /// No button held.
    pub fn released() -> (r: ButtonState)
        ensures
            !r.a && !r.b && !r.up && !r.down && !r.left && !r.right,
    {
        ButtonState { a: false, b: false, up: false, down: false, left: false, right: false }
    }

    /// The state with `button` held or not, the others unchanged.
    pub open spec fn with(self, button: Button, pressed: bool) -> ButtonState {
        match button {
            Button::A => ButtonState { a: pressed, ..self },
            Button::B => ButtonState { b: pressed, ..self },
            Button::Up => ButtonState { up: pressed, ..self },
            Button::Down => ButtonState { down: pressed, ..self },
            Button::Left => ButtonState { left: pressed, ..self },
            Button::Right => ButtonState { right: pressed, ..self },
        }
    }

    /// Holds or releases one button.
    pub fn set(&mut self, button: Button, pressed: bool)
        ensures
            *final(self) == old(self).with(button, pressed),
    {
        match button {
            Button::A => self.a = pressed,
            Button::B => self.b = pressed,
            Button::Up => self.up = pressed,
            Button::Down => self.down = pressed,
            Button::Left => self.left = pressed,
            Button::Right => self.right = pressed,
        }
    }

    /// What the input register at data address `addr` reads: buttons pull
    /// their pins low, all other pins read high.
    pub open spec fn pins(self, addr: u16) -> u8 {
        if addr == PINB {
            (0xef | pin_bit(self.b, 4)) as u8
        } else if addr == PINE {
            (0xbf | pin_bit(self.a, 6)) as u8
        } else {
            (0x0f | pin_bit(self.up, 7) | pin_bit(self.right, 6) | pin_bit(self.left, 5) | pin_bit(
                self.down,
                4,
            )) as u8
        }
    }

    /// Reads the input register at `addr`, one of PINB, PINE and PINF.
    pub fn read_pins(&self, addr: u16) -> (r: u8)
        requires
            addr == PINB || addr == PINE || addr == PINF,
        ensures
            r == self.pins(addr),
    {
        let r: u8 = if addr == PINB {
            0xef | (if self.b { 0u8 } else { 0x10u8 })
        } else if addr == PINE {
            0xbf | (if self.a { 0u8 } else { 0x40u8 })
        } else {
            0x0f | (if self.up { 0u8 } else { 0x80u8 }) | (if self.right { 0u8 } else { 0x40u8 }) | (
            if self.left { 0u8 } else { 0x20u8 }) | (if self.down { 0u8 } else { 0x10u8 })
        };
        assert(pin_bit(true, 4) == 0 && pin_bit(false, 4) == 0x10 && pin_bit(true, 6) == 0
            && pin_bit(false, 6) == 0x40 && pin_bit(true, 7) == 0 && pin_bit(false, 7) == 0x80
            && pin_bit(true, 5) == 0 && pin_bit(false, 5) == 0x20) by (bit_vector);
        r
    }
}

/// The devices around the processor: the display on the SPI bus and the
/// button latches on the input ports.
pub struct Board {
    pub display: SSD1306,
    pub buttons: ButtonState,
}

/// The abstract state of the board.
pub struct BoardState {
    pub display: DisplayState,
    pub buttons: ButtonState,
}

impl View for Board {
    type V = BoardState;

    open spec fn view(&self) -> BoardState {
        BoardState { display: self.display@, buttons: self.buttons }
    }
}

} // verus!
