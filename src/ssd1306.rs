use vstd::prelude::*;
use crate::error::EmuError;
use crate::status::bit_of;
use crate::vram::{vram_bits, Vram, DISPLAY_PIXELS};

verus! {

pub const DISPLAY_WIDTH: usize = 128;
pub const DISPLAY_HEIGHT: usize = 64;
const PAGE_SIZE: usize = 8;

/// How the column and page cursor moves after each data byte.
#[derive(Clone, Copy, Debug, PartialEq, Eq, Structural)]
pub enum AddressingMode {
    Horizontal,
    Vertical,
    Page,
}

/// The abstract state of the controller: its registers, the bytes of a
/// command still being received, and the pixel RAM.
pub struct DisplayState {
    pub alternative_com: bool,
    pub com_remap: bool,
    pub ignore_ram: bool,
    pub inverted: bool,
    pub segment_remap: bool,
    pub sleeping: bool,
    pub addressing_mode: AddressingMode,
    pub col: u8,
    pub column_end: u8,
    pub column_start: u8,
    pub contrast: u8,
    pub divide_ratio: u8,
    pub display_start_line: u8,
    pub multiplex_ratio: u8,
    pub oscillator_frequency: u8,
    pub page_end: u8,
    pub page_mode_column_start: u8,
    pub page_mode_page_start: u8,
    pub page_start: u8,
    pub page: u8,
    pub precharge_period: u8,
    pub vcomh_deselect_level: u8,
    pub vertical_shift: u8,
    pub command_buffer: Seq<u8>,
    pub vram: Seq<bool>,
}

/// Number of bytes of the command that starts with `first`.
pub open spec fn command_len(first: u8) -> nat {
    if first == 0x26 || first == 0x27 { 7 }
    else if first == 0x29 || first == 0x2a { 6 }
    else if first == 0xa3 || first == 0x21 || first == 0x22 { 3 }
    else if first == 0x81 || first == 0x20 || first == 0xa8 || first == 0xd3 || first == 0xda
        || first == 0xd5 || first == 0xd9 || first == 0xdb { 2 }
    else { 1 }
}

/// The power-on state, its pixel RAM clear and no command pending.
pub open spec fn power_on_state() -> DisplayState {
    DisplayState {
        alternative_com: true,
        com_remap: false,
        ignore_ram: false,
        inverted: false,
        segment_remap: false,
        sleeping: false,
        addressing_mode: AddressingMode::Page,
        col: 0,
        column_end: 0x7f,
        column_start: 0,
        contrast: 0x7f,
        divide_ratio: 1,
        display_start_line: 0,
        multiplex_ratio: 64,
        oscillator_frequency: 0x08,
        page_end: 0x07,
        page_mode_column_start: 0,
        page_mode_page_start: 0,
        page_start: 0,
        page: 0,
        precharge_period: 0x22,
        vcomh_deselect_level: 0x20,
        vertical_shift: 0,
        command_buffer: Seq::empty(),
        vram: Seq::new(DISPLAY_PIXELS as nat, |k: int| false),
    }
}

impl DisplayState {
    /// The cursor and the windows lie on the display, the pixel RAM has one
    /// bit per pixel, and the command buffer holds an unfinished command.
    pub open spec fn wf(self) -> bool {
        &&& self.vram.len() == DISPLAY_PIXELS
        &&& self.page < 8
        &&& self.column_start < 128
        &&& self.column_end < 128
        &&& self.page_start < 8
        &&& self.page_end < 8
        &&& self.page_mode_page_start < 8
        &&& (self.command_buffer.len() > 0 ==> self.command_buffer.len() < command_len(
            self.command_buffer[0],
        ))
    }

    /// What a pixel of RAM holding `b` shows.
    pub open spec fn shown(self, b: bool) -> bool {
        if self.sleeping {
            false
        } else if self.ignore_ram {
            true
        } else if self.inverted {
            !b
        } else {
            b
        }
    }

    /// The row-major readout of the panel.
    pub open spec fn readout(self) -> Seq<bool> {
        Seq::new(DISPLAY_PIXELS as nat, |k: int| self.shown(self.vram[k]))
    }

    /// The pixel RAM after a data byte is written at the cursor: bit `i` goes
    /// to row `8 * page + 7 - i` of the cursor's column. A cursor at column
    /// 128 or beyond (a page-mode column start can be set up to 255) lies off
    /// the panel, and nothing is written.
    pub open spec fn written(self, data: u8) -> Seq<bool> {
        Seq::new(
            self.vram.len(),
            |k: int|
                if k % 128 == self.col as int && (self.page as int) * 8 <= k / 128 < (self.page as int)
                    * 8 + 8 {
                    bit_of(data, ((self.page as int) * 8 + 7 - k / 128) as u8)
                } else {
                    self.vram[k]
                },
        )
    }

    /// The cursor after a data byte, as the addressing mode moves it.
    pub open spec fn advanced(self) -> (u8, u8) {
        match self.addressing_mode {
            AddressingMode::Page => {
                if self.col + 1 >= 128 {
                    (self.page_mode_column_start, self.page)
                } else {
                    ((self.col + 1) as u8, self.page)
                }
            },
            AddressingMode::Horizontal => {
                if self.col + 1 > self.column_end {
                    (self.column_start, if self.page + 1 > self.page_end {
                        self.page_start
                    } else {
                        (self.page + 1) as u8
                    })
                } else {
                    ((self.col + 1) as u8, self.page)
                }
            },
            AddressingMode::Vertical => {
                if self.page + 1 > self.page_end {
                    (if self.col + 1 > self.column_end {
                        self.column_start
                    } else {
                        (self.col + 1) as u8
                    }, self.page_start)
                } else {
                    (self.col, (self.page + 1) as u8)
                }
            },
        }
    }

    /// The state after one data byte.
    pub open spec fn after_data(self, data: u8) -> DisplayState {
        DisplayState {
            vram: self.written(data),
            col: self.advanced().0,
            page: self.advanced().1,
            ..self
        }
    }

    /// The effect of a complete command `cmd` (its buffer already cleared),
    /// or the fault it raises.
    pub open spec fn applied(self, cmd: Seq<u8>) -> Result<DisplayState, EmuError> {
        let c = cmd[0];
        let p = cmd[1];
        let q = cmd[2];
        if c == 0x81 {
            Ok(DisplayState { contrast: p, ..self })
        } else if c == 0xa4 || c == 0xa5 {
            Ok(DisplayState { ignore_ram: c == 0xa5, ..self })
        } else if c == 0xa6 || c == 0xa7 {
            Ok(DisplayState { inverted: c == 0xa7, ..self })
        } else if c == 0xae || c == 0xaf {
            Ok(DisplayState { sleeping: c == 0xae, ..self })
        } else if c == 0x26 || c == 0x27 || c == 0x29 || c == 0x2a || c == 0x2e || c == 0x2f || c
            == 0xa3 || c == 0xe3 {
            Ok(self)
        } else if c <= 0x0f {
            let s = ((self.page_mode_column_start & 0xf0) | (c & 0x0f)) as u8;
            Ok(DisplayState { page_mode_column_start: s, col: s, ..self })
        } else if 0x10 <= c <= 0x1f {
            Ok(
                DisplayState {
                    page_mode_column_start: ((self.page_mode_column_start & 0x0f) | ((c & 0x0f) << 4u8)) as u8,
                    ..self
                },
            )
        } else if c == 0x20 {
            if p & 3 == 0 {
                Ok(DisplayState { addressing_mode: AddressingMode::Horizontal, ..self })
            } else if p & 3 == 1 {
                Ok(DisplayState { addressing_mode: AddressingMode::Vertical, ..self })
            } else if p & 3 == 2 {
                Ok(DisplayState { addressing_mode: AddressingMode::Page, ..self })
            } else {
                Err(EmuError::UnknownDisplayCommand { command: c })
            }
        } else if c == 0x21 {
            Ok(DisplayState { column_start: p & 0x7f, column_end: q & 0x7f, col: p & 0x7f, ..self })
        } else if c == 0x22 {
            Ok(DisplayState { page_start: p & 0x07, page_end: q & 0x07, page: p & 0x07, ..self })
        } else if 0xb0 <= c <= 0xb7 {
            Ok(DisplayState { page_mode_page_start: c & 0x07, page: c & 0x07, ..self })
        } else if 0x40 <= c <= 0x7f {
            Ok(DisplayState { display_start_line: c & 0x3f, ..self })
        } else if c == 0xa0 || c == 0xa1 {
            Ok(DisplayState { segment_remap: c == 0xa1, ..self })
        } else if c == 0xa8 {
            if p & 0x3f < 15 {
                Err(EmuError::InvalidDisplayParameter { command: c, parameter: p })
            } else {
                Ok(DisplayState { multiplex_ratio: ((p & 0x3f) + 1) as u8, ..self })
            }
        } else if c == 0xc0 || c == 0xc8 {
            Ok(DisplayState { com_remap: c == 0xc8, ..self })
        } else if c == 0xd3 {
            Ok(DisplayState { vertical_shift: p & 0x3f, ..self })
        } else if c == 0xda {
            Ok(DisplayState { alternative_com: bit_of(p, 4), com_remap: bit_of(p, 5), ..self })
        } else if c == 0xd5 {
            Ok(
                DisplayState {
                    divide_ratio: ((p & 0x0f) + 1) as u8,
                    oscillator_frequency: p >> 4u8,
                    ..self
                },
            )
        } else if c == 0xd9 {
            if p & 0x0f == 0 || p >> 4u8 == 0 {
                Err(EmuError::InvalidDisplayParameter { command: c, parameter: p })
            } else {
                Ok(DisplayState { precharge_period: p, ..self })
            }
        } else if c == 0xdb {
            Ok(DisplayState { vcomh_deselect_level: (p >> 4u8) & 0x07, ..self })
        } else {
            Err(EmuError::UnknownDisplayCommand { command: c })
        }
    }

    /// The state after one command byte: it is kept until its command is
    /// complete, which then takes effect, or, where it faults, leaves the
    /// state as it was.
    pub open spec fn after_command(self, byte: u8) -> Result<DisplayState, EmuError> {
        let buf = self.command_buffer.push(byte);
        if buf.len() >= command_len(buf[0]) {
            match self.applied(buf) {
                Ok(s) => Ok(DisplayState { command_buffer: Seq::empty(), ..s }),
                Err(e) => Err(e),
            }
        } else {
            Ok(DisplayState { command_buffer: buf, ..self })
        }
    }
}

/// The SSD1306 controller: configuration registers, the command being
/// received and the 128 by 64 pixel RAM.
pub struct SSD1306 {
    alternative_com: bool,
    com_remap: bool,
    ignore_ram: bool,
    inverted: bool,
    segment_remap: bool,
    sleeping: bool,
    addressing_mode: AddressingMode,
    col: u8,
    column_end: u8,
    column_start: u8,
    contrast: u8,
    divide_ratio: u8,
    display_start_line: u8,
    multiplex_ratio: u8,
    oscillator_frequency: u8,
    page_end: u8,
    page_mode_column_start: u8,
    page_mode_page_start: u8,
    page_start: u8,
    page: u8,
    precharge_period: u8,
    vcomh_deselect_level: u8,
    vertical_shift: u8,
    command_buffer: Vec<u8>,
    vram: Vram,
}

impl View for SSD1306 {
    type V = DisplayState;

    closed spec fn view(&self) -> DisplayState {
        DisplayState {
            alternative_com: self.alternative_com,
            com_remap: self.com_remap,
            ignore_ram: self.ignore_ram,
            inverted: self.inverted,
            segment_remap: self.segment_remap,
            sleeping: self.sleeping,
            addressing_mode: self.addressing_mode,
            col: self.col,
            column_end: self.column_end,
            column_start: self.column_start,
            contrast: self.contrast,
            divide_ratio: self.divide_ratio,
            display_start_line: self.display_start_line,
            multiplex_ratio: self.multiplex_ratio,
            oscillator_frequency: self.oscillator_frequency,
            page_end: self.page_end,
            page_mode_column_start: self.page_mode_column_start,
            page_mode_page_start: self.page_mode_page_start,
            page_start: self.page_start,
            page: self.page,
            precharge_period: self.precharge_period,
            vcomh_deselect_level: self.vcomh_deselect_level,
            vertical_shift: self.vertical_shift,
            command_buffer: self.command_buffer@,
            vram: vram_bits(self.vram),
        }
    }
}

proof fn lemma_masks(a: u8, b: u8)
    by (bit_vector)
    ensures
        a & 0x7f < 128,
        a & 0x07 < 8,
        a & 0x3f <= 0x3f,
        a & 0x0f <= 0x0f,
{
}

/// Number of bytes of the command that starts with `first`.
fn command_length(first: u8) -> (r: usize)
    ensures
        r == command_len(first),
{
    match first {
        0x26 | 0x27 => 7,
        0x29 | 0x2a => 6,
        0xa3 | 0x21 | 0x22 => 3,
        0x81 | 0x20 | 0xa8 | 0xd3 | 0xda | 0xd5 | 0xd9 | 0xdb => 2,
        _ => 1,
    }
}

impl Default for SSD1306 {
    fn default() -> (r: SSD1306)
        ensures
            r@ == power_on_state(),
            r@.wf(),
    {
        SSD1306::new()
    }
}

impl SSD1306 {
    /// The controller as it powers on, its pixel RAM clear.
    pub fn new() -> (r: SSD1306)
        ensures
            r@ == power_on_state(),
            r@.wf(),
    {
        SSD1306 {
            alternative_com: true,
            com_remap: false,
            ignore_ram: false,
            inverted: false,
            segment_remap: false,
            sleeping: false,
            addressing_mode: AddressingMode::Page,
            col: 0,
            column_end: 0x7f,
            column_start: 0,
            contrast: 0x7f,
            divide_ratio: 1,
            display_start_line: 0,
            multiplex_ratio: 64,
            oscillator_frequency: 0x08,
            page_end: 0x07,
            page_mode_column_start: 0,
            page_mode_page_start: 0,
            page_start: 0,
            page: 0,
            precharge_period: 0x22,
            vcomh_deselect_level: 0x20,
            vertical_shift: 0,
            command_buffer: Vec::new(),
            vram: Vram::blank(),
        }
    }

    /// Returns the controller to its power-on state and clears its RAM.
    pub fn reset(&mut self)
        ensures
            final(self)@ == power_on_state(),
            final(self)@.wf(),
    {
        *self = SSD1306::new();
    }

    /// The row-major readout of the panel, 8192 pixels, top-left first.
    pub fn iter(&self) -> (r: Vec<bool>)
        requires
            self@.wf(),
        ensures
            r@ == self@.readout(),
            r@.len() == DISPLAY_PIXELS,
    {
        let mut out: Vec<bool> = Vec::with_capacity(DISPLAY_PIXELS);
        let mut k: usize = 0;
        while k < DISPLAY_PIXELS
            invariant
                self@.wf(),
                k <= DISPLAY_PIXELS,
                out@.len() == k,
                forall|j: int| 0 <= j < k ==> out@[j] == self@.shown(#[trigger] self@.vram[j]),
            decreases DISPLAY_PIXELS - k,
        {
            let b = self.vram.get(k);
            let shown = if self.sleeping {
                false
            } else if self.ignore_ram {
                true
            } else if self.inverted {
                !b
            } else {
                b
            };
            out.push(shown);
            k += 1;
        }
        assert(out@ =~= self@.readout());
        out
    }

    /// Takes one command byte. Once the command is complete it takes effect
    /// and the buffer is emptied; a faulty command leaves the controller as
    /// it was before this byte.
    pub fn push_command(&mut self, byte: u8) -> (r: Result<(), EmuError>)
        requires
            old(self)@.wf(),
        ensures
            final(self)@.wf(),
            match old(self)@.after_command(byte) {
                Ok(s) => r is Ok && final(self)@ == s,
                Err(e) => r == Err::<(), EmuError>(e) && final(self)@ == old(self)@,
            },
    {
        let first = if self.command_buffer.len() == 0 {
            byte
        } else {
            self.command_buffer[0]
        };
        if self.command_buffer.len() + 1 >= command_length(first) {
            let mut cmd = self.command_buffer.clone();
            cmd.push(byte);
            assert(cmd@ == old(self)@.command_buffer.push(byte));
            let res = self.dispatch_command(&cmd);
            if res.is_ok() {
                self.command_buffer = Vec::new();
                assert(self@.command_buffer =~= Seq::empty());
            }
            res
        } else {
            self.command_buffer.push(byte);
            Ok(())
        }
    }

    /// Carries out a complete command; a faulty one changes nothing.
    #[verifier::rlimit(50)]
    fn dispatch_command(&mut self, cmd: &Vec<u8>) -> (r: Result<(), EmuError>)
        requires
            old(self)@.wf(),
            cmd@.len() >= 1,
            cmd@.len() >= command_len(cmd@[0]),
            old(self)@.command_buffer.len() + 1 == cmd@.len(),
        ensures
            match old(self)@.applied(cmd@) {
                Ok(s) => r is Ok && final(self)@ == s,
                Err(e) => r == Err::<(), EmuError>(e) && final(self)@ == old(self)@,
            },
            r is Ok ==> final(self)@.wf(),
    {
        let c = cmd[0];
        proof {
            lemma_masks(self.page_mode_column_start, c);
            lemma_masks(c, c);
            if cmd@.len() >= 2 {
                lemma_masks(cmd@[1], c);
            }
            if cmd@.len() >= 3 {
                lemma_masks(cmd@[2], c);
            }
        }
        if c == 0x81 {
            self.contrast = cmd[1];
        } else if c == 0xa4 || c == 0xa5 {
            self.ignore_ram = c == 0xa5;
        } else if c == 0xa6 || c == 0xa7 {
            self.inverted = c == 0xa7;
        } else if c == 0xae || c == 0xaf {
            self.sleeping = c == 0xae;
        } else if c == 0x26 || c == 0x27 || c == 0x29 || c == 0x2a || c == 0x2e || c == 0x2f || c
            == 0xa3 || c == 0xe3 {
            // Scrolling is accepted and has no effect on the readout.
        } else if c <= 0x0f {
            let s = (self.page_mode_column_start & 0xf0) | (c & 0x0f);
            self.page_mode_column_start = s;
            self.col = s;
        } else if 0x10 <= c && c <= 0x1f {
            self.page_mode_column_start = (self.page_mode_column_start & 0x0f) | ((c & 0x0f) << 4u8);
        } else if c == 0x20 {
            let p = cmd[1];
            if p & 3 == 0 {
                self.addressing_mode = AddressingMode::Horizontal;
            } else if p & 3 == 1 {
                self.addressing_mode = AddressingMode::Vertical;
            } else if p & 3 == 2 {
                self.addressing_mode = AddressingMode::Page;
            } else {
                return Err(EmuError::UnknownDisplayCommand { command: c });
            }
        } else if c == 0x21 {
            self.column_start = cmd[1] & 0x7f;
            self.column_end = cmd[2] & 0x7f;
            self.col = cmd[1] & 0x7f;
        } else if c == 0x22 {
            self.page_start = cmd[1] & 0x07;
            self.page_end = cmd[2] & 0x07;
            self.page = cmd[1] & 0x07;
        } else if 0xb0 <= c && c <= 0xb7 {
            self.page_mode_page_start = c & 0x07;
            self.page = c & 0x07;
        } else if 0x40 <= c && c <= 0x7f {
            self.display_start_line = c & 0x3f;
        } else if c == 0xa0 || c == 0xa1 {
            self.segment_remap = c == 0xa1;
        } else if c == 0xa8 {
            let p = cmd[1];
            if p & 0x3f < 15 {
                return Err(EmuError::InvalidDisplayParameter { command: c, parameter: p });
            }
            self.multiplex_ratio = (p & 0x3f) + 1;
        } else if c == 0xc0 || c == 0xc8 {
            self.com_remap = c == 0xc8;
        } else if c == 0xd3 {
            self.vertical_shift = cmd[1] & 0x3f;
        } else if c == 0xda {
            let p = cmd[1];
            self.alternative_com = (p >> 4u8) & 1 == 1;
            self.com_remap = (p >> 5u8) & 1 == 1;
        } else if c == 0xd5 {
            let p = cmd[1];
            self.divide_ratio = (p & 0x0f) + 1;
            self.oscillator_frequency = p >> 4u8;
        } else if c == 0xd9 {
            let p = cmd[1];
            if p & 0x0f == 0 || p >> 4u8 == 0 {
                return Err(EmuError::InvalidDisplayParameter { command: c, parameter: p });
            }
            self.precharge_period = p;
        } else if c == 0xdb {
            self.vcomh_deselect_level = (cmd[1] >> 4u8) & 0x07;
        } else {
            return Err(EmuError::UnknownDisplayCommand { command: c });
        }
        Ok(())
    }

    /// Writes eight vertically stacked pixels at the cursor and moves the
    /// cursor on as the addressing mode says.
    pub fn push_data(&mut self, data: u8)
        requires
            old(self)@.wf(),
        ensures
            final(self)@ == old(self)@.after_data(data),
            final(self)@.wf(),
    {
        let ghost before = self@;
        let col = self.col as usize;
        let top = self.page as usize * PAGE_SIZE;
        let n: usize = if col < DISPLAY_WIDTH { 8 } else { 0 };
        let mut i: usize = 0;
        while i < n
            invariant
                before.wf(),
                self@ == (DisplayState { vram: self@.vram, ..before }),
                i <= n,
                n == (if col < 128 { 8usize } else { 0usize }),
                col == before.col,
                top == before.page * 8,
                self@.vram.len() == DISPLAY_PIXELS,
                forall|k: int| 0 <= k < DISPLAY_PIXELS ==> #[trigger] self@.vram[k] == (
                    if k % 128 == col && top + 8 - i <= k / 128 < top + 8 {
                        bit_of(data, (top + 7 - k / 128) as u8)
                    } else {
                        before.vram[k]
                    }),
            decreases n - i,
        {
            let y = top + 7 - i;
            let index = y * DISPLAY_WIDTH + col;
            let bit = (data >> (i as u8)) & 1 == 1;
            let ghost prev = self@.vram;
            self.vram.set(index, bit);
            assert forall|k: int| 0 <= k < DISPLAY_PIXELS implies #[trigger] self@.vram[k] == (
                if k % 128 == col && top + 8 - (i + 1) <= k / 128 < top + 8 {
                    bit_of(data, (top + 7 - k / 128) as u8)
                } else {
                    before.vram[k]
                }) by {
                assert(k == (k / 128) * 128 + k % 128);
                assert(0 <= k % 128 < 128);
            }
            i += 1;
        }
        assert(self@.vram =~= before.written(data));
        match self.addressing_mode {
            AddressingMode::Page => {
                if self.col as u16 + 1 >= 128 {
                    self.col = self.page_mode_column_start;
                } else {
                    self.col = self.col + 1;
                }
            },
            AddressingMode::Horizontal => {
                if self.col as u16 + 1 > self.column_end as u16 {
                    self.col = self.column_start;
                    if self.page + 1 > self.page_end {
                        self.page = self.page_start;
                    } else {
                        self.page = self.page + 1;
                    }
                } else {
                    self.col = self.col + 1;
                }
            },
            AddressingMode::Vertical => {
                if self.page + 1 > self.page_end {
                    self.page = self.page_start;
                    if self.col as u16 + 1 > self.column_end as u16 {
                        self.col = self.column_start;
                    } else {
                        self.col = self.col + 1;
                    }
                } else {
                    self.page = self.page + 1;
                }
            },
        }
    }
}

/// Inverting and then restoring normal display leaves the registers as
/// they were, with `inverted` set in between; the readout is then the raw
/// RAM again wherever RAM is shown.
pub proof fn lemma_invert_toggle(st: DisplayState)
    requires
        st.wf(),
        st.command_buffer.len() == 0,
        !st.inverted,
    ensures
        st.after_command(0xa7) == Ok::<DisplayState, EmuError>(DisplayState { inverted: true, ..st }),
        (DisplayState { inverted: true, ..st }).after_command(0xa6) == Ok::<DisplayState, EmuError>(st),
        !st.sleeping && !st.ignore_ram ==> st.readout() == st.vram,
{
    assert(st.command_buffer.push(0xa7)[0] == 0xa7);
    let s1 = DisplayState { inverted: true, ..st };
    assert(s1.command_buffer.push(0xa6)[0] == 0xa6);
    assert(st.command_buffer =~= Seq::<u8>::empty());
    if !st.sleeping && !st.ignore_ram {
        assert(st.readout() =~= st.vram);
    }
}

/// Putting the display to sleep blanks the readout whatever the RAM holds;
/// waking it shows the RAM as before.
pub proof fn lemma_sleep_hides(st: DisplayState)
    requires
        st.wf(),
        st.command_buffer.len() == 0,
        !st.sleeping,
    ensures
        st.after_command(0xae) == Ok::<DisplayState, EmuError>(DisplayState { sleeping: true, ..st }),
        (DisplayState { sleeping: true, ..st }).readout() == Seq::new(DISPLAY_PIXELS as nat, |k: int| false),
        (DisplayState { sleeping: true, ..st }).after_command(0xaf) == Ok::<DisplayState, EmuError>(st),
{
    assert(st.command_buffer.push(0xae)[0] == 0xae);
    let s1 = DisplayState { sleeping: true, ..st };
    assert(s1.command_buffer.push(0xaf)[0] == 0xaf);
    assert(st.command_buffer =~= Seq::<u8>::empty());
    assert(s1.readout() =~= Seq::new(DISPLAY_PIXELS as nat, |k: int| false));
    assert(DisplayState { sleeping: false, ..s1 } == st);
}

/// The state after `n` data bytes, each equal to `data`.
pub open spec fn after_data_run(st: DisplayState, data: u8, n: nat) -> DisplayState
    decreases n,
{
    if n == 0 {
        st
    } else {
        after_data_run(st, data, (n - 1) as nat).after_data(data)
    }
}

proof fn lemma_page_run_prefix(st: DisplayState, data: u8, k: nat)
    requires
        st.wf(),
        st.addressing_mode == AddressingMode::Page,
        st.col == 0,
        k <= 127,
    ensures
        after_data_run(st, data, k).col == k,
        after_data_run(st, data, k).page == st.page,
        after_data_run(st, data, k).addressing_mode == AddressingMode::Page,
        after_data_run(st, data, k).page_mode_column_start == st.page_mode_column_start,
    decreases k,
{
    if k > 0 {
        lemma_page_run_prefix(st, data, (k - 1) as nat);
    }
}

/// In page addressing mode, 128 data bytes written from column 0 bring the
/// cursor back to the page-mode column start, on the same page.
pub proof fn lemma_page_mode_wrap(st: DisplayState, data: u8)
    requires
        st.wf(),
        st.addressing_mode == AddressingMode::Page,
        st.col == 0,
    ensures
        after_data_run(st, data, 128).col == st.page_mode_column_start,
        after_data_run(st, data, 128).page == st.page,
{
    lemma_page_run_prefix(st, data, 127);
}

proof fn lemma_all_ones_bit(j: u8)
    by (bit_vector)
    requires
        j < 8,
    ensures
        bit_of(0xff, j),
{
}

/// Where every pixel of RAM is set, the readout is all lit unless the
/// display sleeps or is inverted.
pub proof fn lemma_all_ones_readout(st: DisplayState)
    requires
        st.wf(),
        !st.sleeping,
        !st.inverted,
        forall|i: int| 0 <= i < DISPLAY_PIXELS ==> #[trigger] st.vram[i],
    ensures
        st.readout() == Seq::new(DISPLAY_PIXELS as nat, |k: int| true),
{
    assert(st.readout() =~= Seq::new(DISPLAY_PIXELS as nat, |k: int| true));
}

/// A byte of all ones lights the eight pixels of the cursor's column in
/// the cursor's page and leaves every other pixel as it was.
pub proof fn lemma_all_ones_byte(st: DisplayState)
    requires
        st.wf(),
    ensures
        forall|i: int|
            0 <= i < DISPLAY_PIXELS ==> #[trigger] st.after_data(0xff).vram[i] == (st.vram[i] || (i % 128
                == st.col as int && i / 1024 == st.page as int)),
{
    assert forall|i: int| 0 <= i < DISPLAY_PIXELS implies #[trigger] st.after_data(0xff).vram[i] == (
    st.vram[i] || (i % 128 == st.col as int && i / 1024 == st.page as int)) by {
        let row = i / 128;
        assert((st.page as int) * 8 <= row < (st.page as int) * 8 + 8 <==> i / 1024 == st.page as int);
        if i % 128 == st.col as int && (st.page as int) * 8 <= row < (st.page as int) * 8 + 8 {
            lemma_all_ones_bit(((st.page as int) * 8 + 7 - row) as u8);
        }
    }
}

/// Writing all ones to every column of every page, in horizontal mode over
/// the whole display starting at the top-left corner, lights every pixel
/// of RAM; with the display awake and not inverted the readout is all lit.
pub proof fn lemma_fill_all_ones(st: DisplayState)
    requires
        st.wf(),
        st.addressing_mode == AddressingMode::Horizontal,
        st.column_start == 0,
        st.column_end == 127,
        st.page_start == 0,
        st.page_end == 7,
        st.col == 0,
        st.page == 0,
    ensures
        forall|i: int| 0 <= i < DISPLAY_PIXELS ==> #[trigger] after_data_run(st, 0xff, 1024).vram[i],
        !st.sleeping && !st.inverted ==> after_data_run(st, 0xff, 1024).readout() == Seq::new(
            DISPLAY_PIXELS as nat,
            |k: int| true,
        ),
{
    lemma_fill_prefix(st, 1024);
    let fin = after_data_run(st, 0xff, 1024);
    assert forall|i: int| 0 <= i < DISPLAY_PIXELS implies #[trigger] fin.vram[i] by {
        assert((i / 1024) * 128 + i % 128 < 1024);
    }
    if !st.sleeping && !st.inverted {
        lemma_all_ones_readout(fin);
    }
}

proof fn lemma_fill_prefix(st: DisplayState, k: nat)
    requires
        st.wf(),
        st.addressing_mode == AddressingMode::Horizontal,
        st.column_start == 0,
        st.column_end == 127,
        st.page_start == 0,
        st.page_end == 7,
        st.col == 0,
        st.page == 0,
        k <= 1024,
    ensures
        ({
            let t = after_data_run(st, 0xff, k);
            &&& t.wf()
            &&& t.addressing_mode == AddressingMode::Horizontal
            &&& t.sleeping == st.sleeping && t.inverted == st.inverted
            &&& t.column_start == 0 && t.column_end == 127 && t.page_start == 0 && t.page_end == 7
            &&& k < 1024 ==> t.col as int == k % 128 && t.page as int == k / 128
            &&& forall|i: int|
                0 <= i < DISPLAY_PIXELS ==> #[trigger] t.vram[i] == (st.vram[i] || (i / 1024) * 128 + i % 128 < k)
        }),
    decreases k,
{
    if k > 0 {
        lemma_fill_prefix(st, (k - 1) as nat);
        let prev = after_data_run(st, 0xff, (k - 1) as nat);
        lemma_all_ones_byte(prev);
        let t = after_data_run(st, 0xff, k);
        assert(t == prev.after_data(0xff));
        assert forall|i: int| 0 <= i < DISPLAY_PIXELS implies #[trigger] t.vram[i] == (st.vram[i] || (i / 1024)
            * 128 + i % 128 < k) by {
            assert(t.vram[i] == (prev.vram[i] || (i % 128 == prev.col as int && i / 1024 == prev.page as int)));
            assert(0 <= i % 128 < 128);
            assert(0 <= i / 1024 < 8);
        }
        if k < 1024 {
            assert((k - 1) % 128 + 1 == 128 ==> k % 128 == 0 && k / 128 == (k - 1) / 128 + 1);
            assert((k - 1) % 128 + 1 < 128 ==> k % 128 == (k - 1) % 128 + 1 && k / 128 == (k - 1) / 128);
        }
    }
}

/// A data byte at a cursor column of 128 or beyond writes no pixel.
pub proof fn lemma_off_panel_column(st: DisplayState, data: u8)
    requires
        st.wf(),
        st.col >= 128,
    ensures
        st.after_data(data).vram == st.vram,
{
    assert(st.after_data(data).vram =~= st.vram);
}

} // verus!
