//! An emulator core for the Arduboy handheld: an ATmega32U4 processor model
//! and an SSD1306 display controller model, wired together by a small device
//! façade.

pub mod status;
pub mod alu;
pub mod instruction;
pub mod registers;
pub mod vram;
pub mod error;
pub mod ssd1306;
pub mod board;
pub mod atmega32u4;
pub mod arduboy;

pub use alu::{AluOp, UnaryOp};
pub use arduboy::{words_from_image, Arduboy, CYCLES_PER_FRAME};
pub use atmega32u4::ATmega32u4;
pub use board::{Board, Button, ButtonState};
pub use error::EmuError;
pub use instruction::Instruction;
pub use registers::GeneralRegisters;
pub use ssd1306::{AddressingMode, DISPLAY_HEIGHT, DISPLAY_WIDTH, SSD1306};
pub use status::StatusRegister;
pub use vram::DISPLAY_PIXELS;
