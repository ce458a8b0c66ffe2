use vstd::prelude::*;
use crate::atmega32u4::{follows, ATmega32u4, CpuState, EEPROM_SIZE, PROGRAM_MEMORY_WORDS};
use crate::board::{Board, BoardState, Button, ButtonState};
use crate::error::EmuError;
use crate::status::{lemma_sreg_round_trip, lemma_unpacked_zero};
use crate::ssd1306::{power_on_state, DISPLAY_HEIGHT, DISPLAY_WIDTH, SSD1306};

verus! {

/// Cycles in one 60 Hz frame of a 16 MHz processor.
pub const CYCLES_PER_FRAME: u32 = 266667;

/// The abstract state of the whole device.
pub struct DeviceState {
    pub cpu: CpuState,
    pub board: BoardState,
}

impl DeviceState {
    pub open spec fn wf(self) -> bool {
        self.cpu.wf() && self.board.display.wf()
    }

    /// A device just built or reset, holding the given program and EEPROM.
    pub open spec fn initial(program: Seq<u16>, eeprom: Seq<u8>) -> DeviceState {
        DeviceState {
            cpu: CpuState::reset_state(program, eeprom),
            board: BoardState {
                display: power_on_state(),
                buttons: ButtonState { a: false, b: false, up: false, down: false, left: false, right: false },
            },
        }
    }
}

/// The program words of a flat image, low byte first; an odd last byte is
/// the low byte of a final word whose high byte is zero.
pub open spec fn image_words(bytes: Seq<u8>) -> Seq<u16> {
    Seq::new(
        ((bytes.len() + 1) / 2) as nat,
        |i: int|
            (bytes[2 * i] + 256 * (if 2 * i + 1 < bytes.len() {
                bytes[2 * i + 1] as int
            } else {
                0
            })) as u16,
    )
}

/// Splits a flat program image into little-endian words.
pub fn words_from_image(bytes: &Vec<u8>) -> (r: Vec<u16>)
    ensures
        r@ == image_words(bytes@),
{
    let n = bytes.len() / 2 + bytes.len() % 2;
    let mut words: Vec<u16> = Vec::with_capacity(n);
    let mut i: usize = 0;
    while i < n
        invariant
            n == (bytes@.len() + 1) / 2,
            bytes@.len() <= usize::MAX,
            i <= n,
            words@.len() == i,
            forall|j: int| 0 <= j < i ==> #[trigger] words@[j] == image_words(bytes@)[j],
        decreases n - i,
    {
        assert(2 * i < bytes@.len());
        let lo = bytes[2 * i] as u16;
        let hi: u16 = if 2 * i + 1 < bytes.len() { bytes[2 * i + 1] as u16 } else { 0 };
        words.push(lo + 256 * hi);
        i += 1;
    }
    assert(words@ =~= image_words(bytes@));
    words
}

/// The Arduboy: one processor, and the board around it with the display and
/// the buttons.
pub struct Arduboy {
    cpu: ATmega32u4,
    board: Board,
}

impl View for Arduboy {
    type V = DeviceState;

    closed spec fn view(&self) -> DeviceState {
        DeviceState { cpu: self.cpu@, board: self.board@ }
    }
}

impl Default for Arduboy {
    fn default() -> (r: Arduboy)
        ensures
            r@.wf(),
            r@ == DeviceState::initial(
                Seq::new(PROGRAM_MEMORY_WORDS as nat, |i: int| 0u16),
                Seq::new(EEPROM_SIZE as nat, |i: int| 0u8),
            ),
    {
        Arduboy::new()
    }
}

impl Arduboy {
    /// A device fresh from power-on, with an empty program (all NOPs).
    pub fn new() -> (r: Arduboy)
        ensures
            r@.wf(),
            r@ == DeviceState::initial(
                Seq::new(PROGRAM_MEMORY_WORDS as nat, |i: int| 0u16),
                Seq::new(EEPROM_SIZE as nat, |i: int| 0u8),
            ),
    {
        Arduboy {
            cpu: ATmega32u4::new(),
            board: Board { display: SSD1306::new(), buttons: ButtonState::released() },
        }
    }

    /// Resets processor, display and buttons to their power-on state. The
    /// program and the EEPROM are kept.
    pub fn reset(&mut self)
        requires
            old(self)@.wf(),
        ensures
            final(self)@.wf(),
            final(self)@ == DeviceState::initial(old(self)@.cpu.program, old(self)@.cpu.eeprom),
    {
        self.cpu.reset();
        self.board.display.reset();
        self.board.buttons = ButtonState::released();
    }

    /// Loads a program image, word by word; see `ATmega32u4::load_program`.
    pub fn load_program(&mut self, words: &Vec<u16>) -> (r: Result<(), EmuError>)
        requires
            old(self)@.wf(),
        ensures
            final(self)@.wf(),
            final(self)@.board == old(self)@.board,
            words@.len() > PROGRAM_MEMORY_WORDS ==> r == Err::<(), EmuError>(
                EmuError::ProgramTooLarge { words: words@.len() as usize },
            ) && final(self)@ == old(self)@,
            words@.len() <= PROGRAM_MEMORY_WORDS ==> r is Ok && final(self)@.cpu == (CpuState {
                program: words@ + Seq::new((PROGRAM_MEMORY_WORDS - words@.len()) as nat, |i: int| 0u16),
                ..old(self)@.cpu
            }),
    {
        self.cpu.load_program(words)
    }

    /// Loads a flat program image of little-endian words; an image of more
    /// than 16384 words is refused and changes nothing.
    pub fn load_image(&mut self, bytes: &Vec<u8>) -> (r: Result<(), EmuError>)
        requires
            old(self)@.wf(),
        ensures
            final(self)@.wf(),
            final(self)@.board == old(self)@.board,
            image_words(bytes@).len() > PROGRAM_MEMORY_WORDS ==> r == Err::<(), EmuError>(
                EmuError::ProgramTooLarge { words: image_words(bytes@).len() as usize },
            ) && final(self)@ == old(self)@,
            image_words(bytes@).len() <= PROGRAM_MEMORY_WORDS ==> r is Ok && final(self)@.cpu == (CpuState {
                program: image_words(bytes@) + Seq::new(
                    (PROGRAM_MEMORY_WORDS - image_words(bytes@).len()) as nat,
                    |i: int| 0u16,
                ),
                ..old(self)@.cpu
            }),
    {
        let words = words_from_image(bytes);
        self.load_program(&words)
    }

    /// Holds or releases a button.
    pub fn set_button(&mut self, button: Button, pressed: bool)
        requires
            old(self)@.wf(),
        ensures
            final(self)@.wf(),
            final(self)@ == (DeviceState {
                board: BoardState { buttons: old(self)@.board.buttons.with(button, pressed), ..old(self)@.board },
                ..old(self)@
            }),
    {
        self.board.buttons.set(button, pressed);
    }

    /// Holds or releases a button; the same as `set_button`.
    pub fn set_button_state(&mut self, button: Button, state: bool)
        requires
            old(self)@.wf(),
        ensures
            final(self)@.wf(),
            final(self)@ == (DeviceState {
                board: BoardState { buttons: old(self)@.board.buttons.with(button, state), ..old(self)@.board },
                ..old(self)@
            }),
    {
        self.set_button(button, state);
    }

    /// Executes one instruction and returns the cycles it took.
    pub fn execute(&mut self) -> (r: Result<u32, EmuError>)
        requires
            old(self)@.wf(),
        ensures
            final(self)@.wf(),
            follows(old(self)@.cpu, old(self)@.board, old(self)@.cpu.stepped(old(self)@.board), final(self)@.cpu, final(self)@.board, r),
    {
        self.cpu.step(&mut self.board)
    }

    /// Runs the processor for one frame's worth of cycles.
    pub fn execute_for_a_frame(&mut self) -> (r: Result<(), EmuError>)
        requires
            old(self)@.wf(),
        ensures
            final(self)@.wf(),
            ({
                let (c, b, t, e) = old(self)@.cpu.ran(old(self)@.board, CYCLES_PER_FRAME as int);
                &&& final(self)@.cpu == c
                &&& final(self)@.board == b
                &&& match e {
                    None => r is Ok,
                    Some(err) => r == Err::<(), EmuError>(err),
                }
            }),
    {
        match self.cpu.run_cycles(&mut self.board, CYCLES_PER_FRAME) {
            Ok(_) => Ok(()),
            Err(e) => Err(e),
        }
    }

    /// The display controller.
    pub fn display_ssd1306(&self) -> (r: &SSD1306)
        ensures
            r@ == self@.board.display,
    {
        &self.board.display
    }

    /// The processor.
    pub fn cpu(&self) -> (r: &ATmega32u4)
        ensures
            r@ == self@.cpu,
    {
        &self.cpu
    }

    /// The row-major readout of the display, 8192 pixels, top-left first.
    pub fn display_iter(&self) -> (r: Vec<bool>)
        requires
            self@.wf(),
        ensures
            r@ == self@.board.display.readout(),
    {
        self.board.display.iter()
    }

    /// The readout of the display as 64 rows of 128 pixels.
    pub fn display(&self) -> (r: Vec<Vec<bool>>)
        requires
            self@.wf(),
        ensures
            r@.len() == DISPLAY_HEIGHT,
            forall|y: int| 0 <= y < DISPLAY_HEIGHT ==> #[trigger] r@[y]@ == self@.board.display.readout().subrange(
                y * 128,
                y * 128 + 128,
            ),
    {
        let pixels = self.board.display.iter();
        let mut rows: Vec<Vec<bool>> = Vec::with_capacity(DISPLAY_HEIGHT);
        let mut y: usize = 0;
        while y < DISPLAY_HEIGHT
            invariant
                y <= DISPLAY_HEIGHT,
                pixels@ == self@.board.display.readout(),
                pixels@.len() == 8192,
                rows@.len() == y,
                forall|j: int| 0 <= j < y ==> #[trigger] rows@[j]@ == pixels@.subrange(j * 128, j * 128 + 128),
            decreases DISPLAY_HEIGHT - y,
        {
            let mut row: Vec<bool> = Vec::with_capacity(DISPLAY_WIDTH);
            let mut x: usize = 0;
            while x < DISPLAY_WIDTH
                invariant
                    x <= DISPLAY_WIDTH,
                    y < DISPLAY_HEIGHT,
                    pixels@.len() == 8192,
                    row@ == pixels@.subrange(y * 128, y * 128 + x),
                decreases DISPLAY_WIDTH - x,
            {
                row.push(pixels[y * DISPLAY_WIDTH + x]);
                x += 1;
                assert(row@ =~= pixels@.subrange(y * 128, y * 128 + x));
            }
            rows.push(row);
            y += 1;
        }
        rows
    }

    /// Width and height of the display in pixels.
    pub fn display_dimensions(&self) -> (r: (usize, usize))
        ensures
            r == (128usize, 64usize),
    {
        (DISPLAY_WIDTH, DISPLAY_HEIGHT)
    }
}

/// After a reset every flag is clear, SP is 0x0AFF, PC is 0 and the
/// display RAM is blank.
pub proof fn lemma_reset_state(program: Seq<u16>, eeprom: Seq<u8>)
    ensures
        ({
            let d = DeviceState::initial(program, eeprom);
            &&& d.cpu.status.byte() == 0
            &&& forall|k: u8| k < 8 ==> !#[trigger] d.cpu.status.flag(k)
            &&& d.cpu.sp == 0x0aff
            &&& d.cpu.pc == 0
            &&& forall|i: int| 0 <= i < d.board.display.vram.len() ==> !#[trigger] d.board.display.vram[i]
            &&& d.board.display.vram.len() == 8192
        }),
{
    lemma_sreg_round_trip(0);
    lemma_unpacked_zero();
}

/// Resetting a device in any state gives exactly a freshly built device
/// into which the same program and EEPROM contents were loaded.
pub proof fn lemma_reset_fidelity(any: DeviceState, fresh: DeviceState)
    requires
        fresh == DeviceState::initial(
            Seq::new(PROGRAM_MEMORY_WORDS as nat, |i: int| 0u16),
            Seq::new(EEPROM_SIZE as nat, |i: int| 0u8),
        ),
    ensures
        DeviceState::initial(any.cpu.program, any.cpu.eeprom) == (DeviceState {
            cpu: CpuState { program: any.cpu.program, eeprom: any.cpu.eeprom, ..fresh.cpu },
            ..fresh
        }),
{
}

} // verus!
