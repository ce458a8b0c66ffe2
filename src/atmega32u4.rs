use vstd::prelude::*;
use crate::alu::{alu, alu_exec, compares, unary, unary_exec, AluOp, UnaryOp};
use crate::board::{Board, BoardState, PINB, PINE, PINF, PORTD, SPDR, SPSR};
use crate::error::EmuError;
use crate::instruction::{decode, decode_exec, is_two_words, operands_in_range, two_words, Instruction};
use crate::registers::{pair_of, GeneralRegisters, REGISTER_SIZE};
use crate::status::{bit_of, StatusRegister};

verus! {

pub const PROGRAM_MEMORY_WORDS: usize = 16384;
pub const IO_REGISTER_START: u16 = 0x20;
pub const SRAM_START: u16 = 0x100;
pub const SRAM_SIZE: usize = 2560;
pub const DATA_END: u16 = 0x0aff;
pub const EEPROM_SIZE: usize = 1024;
/// Data-space addresses of the stack pointer's low and high byte and of SREG.
pub const SPL: u16 = 0x5d;
pub const SPH: u16 = 0x5e;
pub const SREG: u16 = 0x5f;

/// The abstract state of the processor.
pub struct CpuState {
    pub program: Seq<u16>,
    pub regs: Seq<u8>,
    /// The port D output latch, the one plain I/O register the board uses
    /// (its bit 4 is the display's data/command line).
    pub portd: u8,
    pub sram: Seq<u8>,
    pub eeprom: Seq<u8>,
    pub pc: u16,
    pub sp: u16,
    pub status: StatusRegister,
}

/// A program counter moved by `n` words, wrapping round program memory.
pub open spec fn pc_plus(pc: u16, n: int) -> u16 {
    ((pc + n) % (PROGRAM_MEMORY_WORDS as int)) as u16
}

/// What a step or an instruction leads to: the new processor and board
/// state with the cycles spent, or a fault.
pub type Outcome = Result<(CpuState, BoardState, u32), EmuError>;

impl CpuState {
    pub open spec fn wf(self) -> bool {
        &&& self.program.len() == PROGRAM_MEMORY_WORDS
        &&& self.regs.len() == REGISTER_SIZE
        &&& self.sram.len() == SRAM_SIZE
        &&& self.eeprom.len() == EEPROM_SIZE
        &&& self.pc < PROGRAM_MEMORY_WORDS
    }

    /// The state after power-on or reset, keeping the given EEPROM and
    /// program.
    pub open spec fn reset_state(program: Seq<u16>, eeprom: Seq<u8>) -> CpuState {
        CpuState {
            program,
            regs: Seq::new(REGISTER_SIZE as nat, |i: int| 0u8),
            portd: 0,
            sram: Seq::new(SRAM_SIZE as nat, |i: int| 0u8),
            eeprom,
            pc: 0,
            sp: DATA_END,
            status: StatusRegister::unpacked(0),
        }
    }

    /// Whether the display's data/command line (port D bit 4) selects data.
    pub open spec fn display_data_selected(self) -> bool {
        bit_of(self.portd, 4)
    }

    /// The byte a load from data address `addr` reads. I/O addresses with no
    /// device behind them read as 0.
    pub open spec fn loaded(self, b: BoardState, addr: u16) -> u8 {
        if addr < IO_REGISTER_START {
            self.regs[addr as int]
        } else if addr == PINB || addr == PINE || addr == PINF {
            b.buttons.pins(addr)
        } else if addr == SPSR {
            0x80
        } else if addr == SPL {
            (self.sp % 256) as u8
        } else if addr == SPH {
            (self.sp / 256) as u8
        } else if addr == SREG {
            self.status.byte()
        } else if addr == PORTD {
            self.portd
        } else if addr < SRAM_START {
            0
        } else {
            self.sram[addr - SRAM_START]
        }
    }

    /// The effect of storing `v` at data address `addr`. A byte written to
    /// the SPI data register goes to the display, as data or as a command
    /// by the data/command line. Writes to I/O addresses with no device
    /// behind them, the input pins among them, are ignored.
    pub open spec fn stored(self, b: BoardState, addr: u16, v: u8) -> Result<(CpuState, BoardState), EmuError> {
        if addr > DATA_END {
            Err(EmuError::BadAddress { pc: self.pc, addr: addr as u32 })
        } else if addr < IO_REGISTER_START {
            Ok((CpuState { regs: self.regs.update(addr as int, v), ..self }, b))
        } else if addr == SPDR {
            if self.display_data_selected() {
                Ok((self, BoardState { display: b.display.after_data(v), ..b }))
            } else {
                match b.display.after_command(v) {
                    Ok(d) => Ok((self, BoardState { display: d, ..b })),
                    Err(e) => Err(e),
                }
            }
        } else if addr == SPL {
            Ok((CpuState { sp: ((self.sp / 256) * 256 + v) as u16, ..self }, b))
        } else if addr == SPH {
            Ok((CpuState { sp: (v * 256 + self.sp % 256) as u16, ..self }, b))
        } else if addr == SREG {
            Ok((CpuState { status: StatusRegister::unpacked(v), ..self }, b))
        } else if addr == PORTD {
            Ok((CpuState { portd: v, ..self }, b))
        } else if addr < SRAM_START {
            Ok((self, b))
        } else {
            Ok((CpuState { sram: self.sram.update(addr - SRAM_START, v), ..self }, b))
        }
    }

    /// The state with `word` pushed as a return address, high byte first.
    pub open spec fn pushed_word(self, word: u16) -> Result<CpuState, EmuError> {
        if self.sp < SRAM_START + 1 || self.sp > DATA_END {
            Err(EmuError::BadAddress { pc: self.pc, addr: self.sp as u32 })
        } else {
            Ok(CpuState {
                sram: self.sram.update(self.sp - SRAM_START, (word / 256) as u8).update(
                    self.sp - 1 - SRAM_START,
                    (word % 256) as u8,
                ),
                sp: (self.sp - 2) as u16,
                ..self
            })
        }
    }

    /// A skip instruction's outcome: past the next instruction, one or two
    /// words long, where `skip` holds, else to the next word.
    pub open spec fn skipped(self, b: BoardState, skip: bool) -> Outcome {
        if skip {
            let n: int = if two_words(self.program[pc_plus(self.pc, 1) as int]) { 2 } else { 1 };
            Ok((CpuState { pc: pc_plus(self.pc, 1 + n), ..self }, b, (1 + n) as u32))
        } else {
            Ok((CpuState { pc: pc_plus(self.pc, 1), ..self }, b, 1))
        }
    }

    /// What executing `ins` at the current program counter leads to.
    pub open spec fn executed(self, b: BoardState, ins: Instruction) -> Outcome {
        let next = CpuState { pc: pc_plus(self.pc, 1), ..self };
        match ins {
            Instruction::Nop | Instruction::Break | Instruction::Sleep => Ok((next, b, 1)),
            Instruction::Ijmp => Ok((CpuState { pc: pc_plus(pair_of(self.regs, 30), 0), ..self }, b, 2)),
            Instruction::Icall => match self.pushed_word((self.pc + 1) as u16) {
                Ok(c) => Ok((CpuState { pc: pc_plus(pair_of(self.regs, 30), 0), ..c }, b, 3)),
                Err(e) => Err(e),
            },
            Instruction::Alu { op, d, r } => {
                let (res, st) = alu(op, self.regs[d as int], self.regs[r as int], self.status);
                let regs = if compares(op) { self.regs } else { self.regs.update(d as int, res) };
                Ok((CpuState { regs, status: st, ..next }, b, 1))
            },
            Instruction::Imm { op, d, k } => {
                let (res, st) = alu(op, self.regs[d as int], k, self.status);
                let regs = if compares(op) { self.regs } else { self.regs.update(d as int, res) };
                Ok((CpuState { regs, status: st, ..next }, b, 1))
            },
            Instruction::Unary { op, d } => {
                let (res, st) = unary(op, self.regs[d as int], self.status);
                Ok((CpuState { regs: self.regs.update(d as int, res), status: st, ..next }, b, 1))
            },
            Instruction::Movw { d, r } => Ok((CpuState {
                regs: self.regs.update(d as int, self.regs[r as int]).update(d + 1, self.regs[r + 1]),
                ..next
            }, b, 1)),
            Instruction::Adiw { d, k } => {
                let p = pair_of(self.regs, d as int);
                let sum = p + k;
                let res = (sum % 65536) as u16;
                let v = p < 0x8000 && res >= 0x8000;
                let st = StatusRegister { s: (res >= 0x8000) != v, v, n: res >= 0x8000, z: res == 0, c: sum >= 65536, ..self.status };
                Ok((CpuState {
                    regs: self.regs.update(d as int, (res % 256) as u8).update(d + 1, (res / 256) as u8),
                    status: st,
                    ..next
                }, b, 2))
            },
            Instruction::Sbiw { d, k } => {
                let p = pair_of(self.regs, d as int);
                let res = ((p - k + 65536) % 65536) as u16;
                let v = p >= 0x8000 && res < 0x8000;
                let st = StatusRegister { s: (res >= 0x8000) != v, v, n: res >= 0x8000, z: res == 0, c: p < k, ..self.status };
                Ok((CpuState {
                    regs: self.regs.update(d as int, (res % 256) as u8).update(d + 1, (res / 256) as u8),
                    status: st,
                    ..next
                }, b, 2))
            },
            Instruction::Bset { s } => Ok((CpuState { status: self.status.with_flag(s, true), ..next }, b, 1)),
            Instruction::Bclr { s } => Ok((CpuState { status: self.status.with_flag(s, false), ..next }, b, 1)),
            Instruction::Bld { d, b: bit } => {
                let old = self.regs[d as int];
                let v = if self.status.t { old | (1u8 << bit) } else { old & !(1u8 << bit) };
                Ok((CpuState { regs: self.regs.update(d as int, v as u8), ..next }, b, 1))
            },
            Instruction::Bst { d, b: bit } => Ok((CpuState {
                status: StatusRegister { t: bit_of(self.regs[d as int], bit), ..self.status },
                ..next
            }, b, 1)),
            Instruction::Brbs { s, k } => if self.status.flag(s) {
                Ok((CpuState { pc: pc_plus(self.pc, 1 + k), ..self }, b, 2))
            } else {
                Ok((next, b, 1))
            },
            Instruction::Brbc { s, k } => if !self.status.flag(s) {
                Ok((CpuState { pc: pc_plus(self.pc, 1 + k), ..self }, b, 2))
            } else {
                Ok((next, b, 1))
            },
            Instruction::Rjmp { k } => Ok((CpuState { pc: pc_plus(self.pc, 1 + k), ..self }, b, 2)),
            Instruction::Rcall { k } => match self.pushed_word((self.pc + 1) as u16) {
                Ok(c) => Ok((CpuState { pc: pc_plus(self.pc, 1 + k), ..c }, b, 3)),
                Err(e) => Err(e),
            },
            Instruction::Jmp { k } => Ok((CpuState { pc: pc_plus(k, 0), ..self }, b, 3)),
            Instruction::Call { k } => match self.pushed_word((self.pc + 2) as u16) {
                Ok(c) => Ok((CpuState { pc: pc_plus(k, 0), ..c }, b, 4)),
                Err(e) => Err(e),
            },
            Instruction::Ret | Instruction::Reti => {
                if self.sp + 2 > DATA_END {
                    Err(EmuError::StackUnderflow { pc: self.pc })
                } else if self.sp + 1 < SRAM_START {
                    Err(EmuError::BadAddress { pc: self.pc, addr: (self.sp + 1) as u32 })
                } else {
                    let lo = self.sram[self.sp + 1 - SRAM_START];
                    let hi = self.sram[self.sp + 2 - SRAM_START];
                    let st = if ins == Instruction::Reti { StatusRegister { i: true, ..self.status } } else { self.status };
                    Ok((CpuState { pc: pc_plus((hi * 256 + lo) as u16, 0), sp: (self.sp + 2) as u16, status: st, ..self }, b, 4))
                }
            },
            Instruction::Cpse { d, r } => self.skipped(b, self.regs[d as int] == self.regs[r as int]),
            Instruction::Sbrc { r, b: bit } => self.skipped(b, !bit_of(self.regs[r as int], bit)),
            Instruction::Sbrs { r, b: bit } => self.skipped(b, bit_of(self.regs[r as int], bit)),
            Instruction::Sbic { a, b: bit } => self.skipped(b, !bit_of(self.loaded(b, (a + IO_REGISTER_START) as u16), bit)),
            Instruction::Sbis { a, b: bit } => self.skipped(b, bit_of(self.loaded(b, (a + IO_REGISTER_START) as u16), bit)),
            Instruction::Cbi { a, b: bit } => {
                let addr = (a + IO_REGISTER_START) as u16;
                match next.stored(b, addr, self.loaded(b, addr) & !(1u8 << bit)) {
                    Ok((c, b2)) => Ok((c, b2, 2)),
                    Err(e) => Err(e),
                }
            },
            Instruction::Sbi { a, b: bit } => {
                let addr = (a + IO_REGISTER_START) as u16;
                match next.stored(b, addr, self.loaded(b, addr) | (1u8 << bit)) {
                    Ok((c, b2)) => Ok((c, b2, 2)),
                    Err(e) => Err(e),
                }
            },
            Instruction::In { d, a } => Ok((CpuState {
                regs: self.regs.update(d as int, self.loaded(b, (a + IO_REGISTER_START) as u16)),
                ..next
            }, b, 1)),
            Instruction::Out { a, r } => match next.stored(b, (a + IO_REGISTER_START) as u16, self.regs[r as int]) {
                Ok((c, b2)) => Ok((c, b2, 1)),
                Err(e) => Err(e),
            },
            Instruction::Push { r } => {
                if self.sp < SRAM_START || self.sp > DATA_END {
                    Err(EmuError::BadAddress { pc: self.pc, addr: self.sp as u32 })
                } else {
                    Ok((CpuState {
                        sram: self.sram.update(self.sp - SRAM_START, self.regs[r as int]),
                        sp: (self.sp - 1) as u16,
                        ..next
                    }, b, 2))
                }
            },
            Instruction::Pop { d } => {
                if self.sp + 1 > DATA_END {
                    Err(EmuError::StackUnderflow { pc: self.pc })
                } else if self.sp + 1 < SRAM_START {
                    Err(EmuError::BadAddress { pc: self.pc, addr: (self.sp + 1) as u32 })
                } else {
                    Ok((CpuState {
                        regs: self.regs.update(d as int, self.sram[self.sp + 1 - SRAM_START]),
                        sp: (self.sp + 1) as u16,
                        ..next
                    }, b, 2))
                }
            },
            Instruction::Lds { d, k } => {
                if k > DATA_END {
                    Err(EmuError::BadAddress { pc: self.pc, addr: k as u32 })
                } else {
                    Ok((CpuState {
                        regs: self.regs.update(d as int, self.loaded(b, k)),
                        pc: pc_plus(self.pc, 2),
                        ..self
                    }, b, 2))
                }
            },
            Instruction::Sts { k, r } => {
                if k > DATA_END {
                    Err(EmuError::BadAddress { pc: self.pc, addr: k as u32 })
                } else {
                    match (CpuState { pc: pc_plus(self.pc, 2), ..self }).stored(b, k, self.regs[r as int]) {
                        Ok((c, b2)) => Ok((c, b2, 2)),
                        Err(e) => Err(e),
                    }
                }
            },
            Instruction::Ld { d, p, q, inc, dec } => {
                let addr = self.pointer_target(p, q, dec);
                if addr > DATA_END {
                    Err(EmuError::BadAddress { pc: self.pc, addr: addr as u32 })
                } else {
                    let value = self.loaded(b, addr as u16);
                    let regs = self.pointer_moved(p, inc, dec).update(d as int, value);
                    Ok((CpuState { regs, ..next }, b, if dec { 3 } else { 2 }))
                }
            },
            Instruction::St { r, p, q, inc, dec } => {
                let addr = self.pointer_target(p, q, dec);
                if addr > DATA_END {
                    Err(EmuError::BadAddress { pc: self.pc, addr: addr as u32 })
                } else {
                    match (CpuState { regs: self.pointer_moved(p, inc, dec), ..next }).stored(b, addr as u16, self.regs[r as int]) {
                        Ok((c, b2)) => Ok((c, b2, 2)),
                        Err(e) => Err(e),
                    }
                }
            },
            Instruction::Lpm { d, inc } => {
                let z = pair_of(self.regs, 30);
                let word = self.program[(z as int / 2) % (PROGRAM_MEMORY_WORDS as int)];
                let byte = (if z % 2 == 1 { word / 256 } else { word % 256 }) as u8;
                Ok((CpuState { regs: self.pointer_moved(30, inc, false).update(d as int, byte), ..next }, b, 3))
            },
            Instruction::Mul { d, r } => {
                let prod = self.regs[d as int] * self.regs[r as int];
                Ok((CpuState {
                    regs: self.regs.update(0, (prod % 256) as u8).update(1, (prod / 256) as u8),
                    status: StatusRegister { c: prod >= 32768, z: prod == 0, ..self.status },
                    ..next
                }, b, 2))
            },
        }
    }

    /// The data address a pointer form reaches: the pair at `p`, first
    /// decremented where `dec`, plus the displacement `q`.
    pub open spec fn pointer_target(self, p: u8, q: u8, dec: bool) -> int {
        let ptr = pair_of(self.regs, p as int);
        (if dec { (ptr + 65535) % 65536 } else { ptr as int }) + q
    }

    /// The registers with the pointer pair at `p` incremented or decremented
    /// as the form says.
    pub open spec fn pointer_moved(self, p: u8, inc: bool, dec: bool) -> Seq<u8> {
        let ptr = pair_of(self.regs, p as int);
        let moved: int = if inc { (ptr + 1) % 65536 } else if dec { (ptr + 65535) % 65536 } else { ptr as int };
        self.regs.update(p as int, (moved % 256) as u8).update(p + 1, (moved / 256) as u8)
    }

    /// What one step leads to: fetch the word at the program counter,
    /// decode it, execute it.
    #[verifier::opaque]
    pub open spec fn stepped(self, b: BoardState) -> Outcome {
        let w = self.program[self.pc as int];
        match decode(w, self.program[pc_plus(self.pc, 1) as int]) {
            Some(ins) => self.executed(b, ins),
            None => Err(EmuError::IllegalInstruction { pc: self.pc, word: w }),
        }
    }
}

impl CpuState {
    /// Running whole steps until at least `budget` cycles have passed: the
    /// final states, the cycles spent, and the fault that stopped it, if
    /// one did (the states are then those before the faulting step).
    pub open spec fn ran(self, b: BoardState, budget: int) -> (CpuState, BoardState, int, Option<EmuError>)
        decreases budget,
    {
        if budget <= 0 {
            (self, b, 0, None)
        } else {
            match self.stepped(b) {
                Err(e) => (self, b, 0, Some(e)),
                Ok((c, b2, n)) => if n >= budget || n == 0 {
                    (c, b2, n as int, None)
                } else {
                    let t = c.ran(b2, budget - n);
                    (t.0, t.1, t.2 + n, t.3)
                },
            }
        }
    }
}

/// Every arithmetic or logic instruction leaves S equal to N XOR V.
pub proof fn lemma_sign_is_n_xor_v(c: CpuState, b: BoardState, ins: Instruction)
    requires
        match ins {
            Instruction::Alu { op, .. } => op != AluOp::Mov,
            Instruction::Imm { op, .. } => op != AluOp::Mov,
            Instruction::Unary { op, .. } => op != UnaryOp::Swap,
            Instruction::Adiw { .. } | Instruction::Sbiw { .. } => true,
            _ => false,
        },
    ensures
        c.executed(b, ins) matches Ok((c2, _, _)) ==> c2.status.s == (c2.status.n != c2.status.v),
{
}

/// A compare with carry writes no register, keeps Z set only where it was
/// set and this byte's difference is zero, sets C to the borrow, and moves
/// on to the next word in one cycle.
pub proof fn lemma_cpc_step(c: CpuState, b: BoardState, d: u8, r: u8)
    requires
        c.wf(),
        d < 32,
        r < 32,
    ensures
        c.executed(b, Instruction::Alu { op: AluOp::Cpc, d, r }) matches Ok((c2, b2, n)) && c2.regs == c.regs
            && c2.status.z == (c.status.z && (c.regs[d as int] - c.regs[r as int] - (if c.status.c { 1int } else { 0 })
            + 512) % 256 == 0) && c2.status.c == (c.regs[d as int] < c.regs[r as int] + (if c.status.c { 1int } else { 0 }))
            && c2.pc == pc_plus(c.pc, 1) && b2 == b && n == 1,
{
}

/// An arithmetic shift right keeps bit 7, moves bit 0 into C, and sets N,
/// Z, V = N XOR C and S = N XOR V from the result; H, T and I are kept.
pub proof fn lemma_asr_step(c: CpuState, b: BoardState, d: u8)
    requires
        c.wf(),
        d < 32,
    ensures
        ({
            let a = c.regs[d as int];
            let res = (a / 2 + (if a >= 128 { 128int } else { 0 })) as u8;
            c.executed(b, Instruction::Unary { op: UnaryOp::Asr, d }) matches Ok((c2, b2, n)) && c2.regs
                == c.regs.update(d as int, res) && c2.status.c == (a % 2 == 1) && c2.status.n == (res >= 128)
                && c2.status.z == (res == 0) && c2.status.v == (c2.status.n != c2.status.c) && c2.status.s == (
            c2.status.n != c2.status.v) && c2.status.h == c.status.h && c2.status.t == c.status.t
                && c2.status.i == c.status.i && c2.pc == pc_plus(c.pc, 1) && b2 == b && n == 1
        }),
{
}

/// A branch on a set flag with offset -1 jumps to itself.
pub proof fn lemma_branch_to_self(c: CpuState, b: BoardState, s: u8)
    requires
        c.wf(),
        s < 8,
        c.status.flag(s),
    ensures
        c.executed(b, Instruction::Brbs { s, k: -1i8 }) == Ok::<(CpuState, BoardState, u32), EmuError>((c, b, 2u32)),
{
    assert(pc_plus(c.pc, 1 + (-1i8) as int) == c.pc);
    assert((CpuState { pc: c.pc, ..c }) == c);
}

/// Every instruction takes one to four cycles.
pub proof fn lemma_instruction_cycles(c: CpuState, b: BoardState, ins: Instruction)
    ensures
        c.executed(b, ins) matches Ok((_, _, n)) ==> 1 <= n <= 4,
{
    match ins {
        Instruction::Alu { .. } | Instruction::Imm { .. } | Instruction::Unary { .. } => {},
        Instruction::Cpse { .. } | Instruction::Sbrc { .. } | Instruction::Sbrs { .. } => {},
        Instruction::Sbic { .. } | Instruction::Sbis { .. } => {},
        Instruction::Cbi { .. } | Instruction::Sbi { .. } | Instruction::Out { .. } => {},
        Instruction::Sts { .. } | Instruction::St { .. } => {},
        _ => {},
    }
}

/// Every step takes one to four cycles.
pub proof fn lemma_cycles_bounded(c: CpuState, b: BoardState)
    ensures
        c.stepped(b) matches Ok((_, _, n)) ==> 1 <= n <= 4,
{
    reveal(CpuState::stepped);
    let w = c.program[c.pc as int];
    if let Some(ins) = decode(w, c.program[pc_plus(c.pc, 1) as int]) {
        lemma_instruction_cycles(c, b, ins);
    }
}

/// Whether the returned value and the new states are those `o` gives;
/// after a fault both states are as before.
pub open spec fn follows(
    c0: CpuState,
    b0: BoardState,
    o: Outcome,
    c1: CpuState,
    b1: BoardState,
    r: Result<u32, EmuError>,
) -> bool {
    match o {
        Ok((c, b, n)) => r == Ok::<u32, EmuError>(n) && c1 == c && b1 == b,
        Err(e) => r == Err::<u32, EmuError>(e) && c1 == c0 && b1 == b0,
    }
}

fn zeros_u8(n: usize) -> (r: Vec<u8>)
    ensures
        r@ == Seq::new(n as nat, |i: int| 0u8),
{
    let mut v: Vec<u8> = Vec::with_capacity(n);
    let mut i: usize = 0;
    while i < n
        invariant
            i <= n,
            v@ == Seq::new(i as nat, |j: int| 0u8),
        decreases n - i,
    {
        v.push(0);
        i += 1;
        assert(v@ =~= Seq::new(i as nat, |j: int| 0u8));
    }
    v
}

/// The program counter moved by `n` words, wrapping round program memory.
fn pc_after(pc: u16, n: i32) -> (r: u16)
    requires
        pc < PROGRAM_MEMORY_WORDS,
        -16384 <= n <= 65536,
    ensures
        r == pc_plus(pc, n as int),
        r < PROGRAM_MEMORY_WORDS,
{
    let x: i32 = pc as i32 + n + 16384;
    assert((x as int) % 16384 == (pc + n) % 16384) by {
        assert(x as int == (pc + n) + 16384);
    }
    (x % 16384) as u16
}

/// The ATmega32U4 processor: program memory, register file, I/O
/// registers, SRAM, EEPROM, program counter, stack pointer and SREG.
pub struct ATmega32u4 {
    program_memory: Vec<u16>,
    regs: GeneralRegisters,
    portd: u8,
    sram: Vec<u8>,
    eeprom: Vec<u8>,
    pc: u16,
    sp: u16,
    status: StatusRegister,
}

impl View for ATmega32u4 {
    type V = CpuState;

    closed spec fn view(&self) -> CpuState {
        CpuState {
            program: self.program_memory@,
            regs: self.regs@,
            portd: self.portd,
            sram: self.sram@,
            eeprom: self.eeprom@,
            pc: self.pc,
            sp: self.sp,
            status: self.status,
        }
    }
}

impl ATmega32u4 {
    /// A processor fresh from power-on: all memories zero, the program
    /// empty (all NOPs), SP at the top of SRAM.
    pub fn new() -> (r: ATmega32u4)
        ensures
            r@.wf(),
            r@ == CpuState::reset_state(
                Seq::new(PROGRAM_MEMORY_WORDS as nat, |i: int| 0u16),
                Seq::new(EEPROM_SIZE as nat, |i: int| 0u8),
            ),
    {
        let mut program_memory: Vec<u16> = Vec::with_capacity(PROGRAM_MEMORY_WORDS);
        let mut i: usize = 0;
        while i < PROGRAM_MEMORY_WORDS
            invariant
                i <= PROGRAM_MEMORY_WORDS,
                program_memory@ == Seq::new(i as nat, |j: int| 0u16),
            decreases PROGRAM_MEMORY_WORDS - i,
        {
            program_memory.push(0);
            i += 1;
            assert(program_memory@ =~= Seq::new(i as nat, |j: int| 0u16));
        }
        ATmega32u4 {
            program_memory,
            regs: GeneralRegisters::new(),
            portd: 0,
            sram: zeros_u8(SRAM_SIZE),
            eeprom: zeros_u8(EEPROM_SIZE),
            pc: 0,
            sp: DATA_END,
            status: StatusRegister::cleared(),
        }
    }

    /// Zeroes the registers, I/O registers and SRAM, sets PC to 0, SP to
    /// 0x0AFF and clears SREG; program memory and EEPROM are kept.
    pub fn reset(&mut self)
        requires
            old(self)@.wf(),
        ensures
            final(self)@.wf(),
            final(self)@ == CpuState::reset_state(old(self)@.program, old(self)@.eeprom),
    {
        self.regs = GeneralRegisters::new();
        self.portd = 0;
        self.sram = zeros_u8(SRAM_SIZE);
        self.pc = 0;
        self.sp = DATA_END;
        self.status = StatusRegister::cleared();
    }

    /// Copies a program image into program memory, the rest of which is
    /// zeroed. An image longer than program memory is refused and changes
    /// nothing.
    pub fn load_program(&mut self, words: &Vec<u16>) -> (r: Result<(), EmuError>)
        requires
            old(self)@.wf(),
        ensures
            final(self)@.wf(),
            words@.len() > PROGRAM_MEMORY_WORDS ==> r == Err::<(), EmuError>(
                EmuError::ProgramTooLarge { words: words@.len() as usize },
            ) && final(self)@ == old(self)@,
            words@.len() <= PROGRAM_MEMORY_WORDS ==> r is Ok && final(self)@ == (CpuState {
                program: words@ + Seq::new((PROGRAM_MEMORY_WORDS - words@.len()) as nat, |i: int| 0u16),
                ..old(self)@
            }),
    {
        if words.len() > PROGRAM_MEMORY_WORDS {
            return Err(EmuError::ProgramTooLarge { words: words.len() });
        }
        let mut program_memory: Vec<u16> = Vec::with_capacity(PROGRAM_MEMORY_WORDS);
        let mut i: usize = 0;
        while i < PROGRAM_MEMORY_WORDS
            invariant
                i <= PROGRAM_MEMORY_WORDS,
                words@.len() <= PROGRAM_MEMORY_WORDS,
                program_memory@.len() == i,
                forall|j: int| 0 <= j < i ==> #[trigger] program_memory@[j] == if j < words@.len() {
                    words@[j]
                } else {
                    0u16
                },
            decreases PROGRAM_MEMORY_WORDS - i,
        {
            if i < words.len() {
                program_memory.push(words[i]);
            } else {
                program_memory.push(0);
            }
            i += 1;
        }
        assert(program_memory@ =~= words@ + Seq::new(
            (PROGRAM_MEMORY_WORDS - words@.len()) as nat,
            |i: int| 0u16,
        ));
        self.program_memory = program_memory;
        Ok(())
    }

    /// A copy of the EEPROM's 1024 bytes.
    pub fn eeprom_bytes(&self) -> (r: Vec<u8>)
        ensures
            r@ == self@.eeprom,
    {
        self.eeprom.clone()
    }

    /// Replaces the EEPROM's contents.
    pub fn load_eeprom(&mut self, bytes: &Vec<u8>)
        requires
            old(self)@.wf(),
            bytes@.len() == EEPROM_SIZE,
        ensures
            final(self)@.wf(),
            final(self)@ == (CpuState { eeprom: bytes@, ..old(self)@ }),
    {
        self.eeprom = bytes.clone();
    }

    /// The program counter, a word address.
    pub fn pc(&self) -> (r: u16)
        ensures
            r == self@.pc,
    {
        self.pc
    }

    /// The stack pointer.
    pub fn sp(&self) -> (r: u16)
        ensures
            r == self@.sp,
    {
        self.sp
    }

    /// SREG's flags.
    pub fn status(&self) -> (r: StatusRegister)
        ensures
            r == self@.status,
    {
        self.status
    }

    /// Register `index`.
    pub fn reg(&self, index: usize) -> (r: u8)
        requires
            self@.wf(),
            index < REGISTER_SIZE,
        ensures
            r == self@.regs[index as int],
    {
        self.regs.get(index)
    }

    /// Load from the data space. An address above 0x0AFF is a
    /// `BadAddress` fault at the current program counter.
    pub fn data_load(&self, board: &Board, addr: u16) -> (r: Result<u8, EmuError>)
        requires
            self@.wf(),
        ensures
            addr > DATA_END ==> r == Err::<u8, EmuError>(EmuError::BadAddress { pc: self@.pc, addr: addr as u32 }),
            addr <= DATA_END ==> r == Ok::<u8, EmuError>(self@.loaded(board@, addr)),
    {
        if addr > DATA_END {
            Err(EmuError::BadAddress { pc: self.pc, addr: addr as u32 })
        } else {
            Ok(self.load_byte(board, addr))
        }
    }

    /// The byte at a data address known to be mapped.
    fn load_byte(&self, board: &Board, addr: u16) -> (r: u8)
        requires
            self@.wf(),
            addr <= DATA_END,
        ensures
            r == self@.loaded(board@, addr),
    {
        if addr < IO_REGISTER_START {
            self.regs.get(addr as usize)
        } else if addr == PINB || addr == PINE || addr == PINF {
            board.buttons.read_pins(addr)
        } else if addr == SPSR {
            0x80
        } else if addr == SPL {
            (self.sp % 256) as u8
        } else if addr == SPH {
            (self.sp / 256) as u8
        } else if addr == SREG {
            self.status.to_u8()
        } else if addr == PORTD {
            self.portd
        } else if addr < SRAM_START {
            0
        } else {
            self.sram[(addr - SRAM_START) as usize]
        }
    }

    /// Store to the data space; a fault changes nothing.
    pub fn data_store(&mut self, board: &mut Board, addr: u16, value: u8) -> (r: Result<(), EmuError>)
        requires
            old(self)@.wf(),
            old(board)@.display.wf(),
        ensures
            final(self)@.wf(),
            final(board)@.display.wf(),
            match old(self)@.stored(old(board)@, addr, value) {
                Ok((c, b)) => r is Ok && final(self)@ == c && final(board)@ == b,
                Err(e) => r == Err::<(), EmuError>(e) && final(self)@ == old(self)@ && final(board)@
                    == old(board)@,
            },
    {
        if addr > DATA_END {
            Err(EmuError::BadAddress { pc: self.pc, addr: addr as u32 })
        } else if addr < IO_REGISTER_START {
            self.regs.set(addr as usize, value);
            Ok(())
        } else if addr == SPDR {
            let dc = (self.portd >> 4u8) & 1 == 1;
            if dc {
                board.display.push_data(value);
                Ok(())
            } else {
                board.display.push_command(value)
            }
        } else if addr == SPL {
            self.sp = (self.sp / 256) * 256 + value as u16;
            Ok(())
        } else if addr == SPH {
            self.sp = value as u16 * 256 + self.sp % 256;
            Ok(())
        } else if addr == SREG {
            self.status = StatusRegister::from_u8(value);
            Ok(())
        } else if addr == PORTD {
            self.portd = value;
            Ok(())
        } else if addr < SRAM_START {
            Ok(())
        } else {
            self.sram.set((addr - SRAM_START) as usize, value);
            Ok(())
        }
    }

    /// Skips the next instruction where `skip` holds.
    fn skip_if(&mut self, board: &Board, skip: bool) -> (r: Result<u32, EmuError>)
        requires
            old(self)@.wf(),
        ensures
            final(self)@.wf(),
            follows(old(self)@, board@, old(self)@.skipped(board@, skip), final(self)@, board@, r),
    {
        let next = pc_after(self.pc, 1);
        if skip {
            let n: u16 = if is_two_words(self.program_memory[next as usize]) { 2 } else { 1 };
            self.pc = pc_after(self.pc, 1 + n as i32);
            Ok(1 + n as u32)
        } else {
            self.pc = next;
            Ok(1)
        }
    }

    /// Pushes a return address, high byte first.
    fn push_word(&mut self, word: u16) -> (r: Result<(), EmuError>)
        requires
            old(self)@.wf(),
        ensures
            final(self)@.wf(),
            match old(self)@.pushed_word(word) {
                Ok(c) => r is Ok && final(self)@ == c,
                Err(e) => r == Err::<(), EmuError>(e) && final(self)@ == old(self)@,
            },
    {
        if self.sp < SRAM_START + 1 || self.sp > DATA_END {
            return Err(EmuError::BadAddress { pc: self.pc, addr: self.sp as u32 });
        }
        self.sram.set((self.sp - SRAM_START) as usize, (word / 256) as u8);
        self.sram.set((self.sp - 1 - SRAM_START) as usize, (word % 256) as u8);
        self.sp = self.sp - 2;
        Ok(())
    }

    /// Executes one decoded instruction at the program counter.
    pub fn execute(&mut self, board: &mut Board, ins: Instruction) -> (r: Result<u32, EmuError>)
        requires
            old(self)@.wf(),
            old(board)@.display.wf(),
            operands_in_range(ins),
        ensures
            final(self)@.wf(),
            final(board)@.display.wf(),
            follows(old(self)@, old(board)@, old(self)@.executed(old(board)@, ins), final(self)@, final(board)@, r),
    {
        match ins {
            Instruction::Nop | Instruction::Break | Instruction::Sleep => self.do_nop(board, ins),
            Instruction::Ijmp => self.do_ijmp(board),
            Instruction::Icall => self.do_icall(board),
            Instruction::Alu { op, d, r } => self.do_alu(board, op, d, r),
            Instruction::Imm { op, d, k } => self.do_imm(board, op, d, k),
            Instruction::Unary { op, d } => self.do_unary(board, op, d),
            Instruction::Movw { d, r } => self.do_movw(board, d, r),
            Instruction::Adiw { d, k } => self.do_adiw(board, d, k),
            Instruction::Sbiw { d, k } => self.do_sbiw(board, d, k),
            Instruction::Bset { s } => self.do_bset(board, s),
            Instruction::Bclr { s } => self.do_bclr(board, s),
            Instruction::Bld { d, b } => self.do_bld(board, d, b),
            Instruction::Bst { d, b } => self.do_bst(board, d, b),
            Instruction::Brbs { s, k } => self.do_brbs(board, s, k),
            Instruction::Brbc { s, k } => self.do_brbc(board, s, k),
            Instruction::Rjmp { k } => self.do_rjmp(board, k),
            Instruction::Rcall { k } => self.do_rcall(board, k),
            Instruction::Jmp { k } => self.do_jmp(board, k),
            Instruction::Call { k } => self.do_call(board, k),
            Instruction::Ret | Instruction::Reti => self.do_ret(board, ins),
            Instruction::Cpse { d, r } => self.do_cpse(board, d, r),
            Instruction::Sbrc { r, b } => self.do_sbrc(board, r, b),
            Instruction::Sbrs { r, b } => self.do_sbrs(board, r, b),
            Instruction::Sbic { a, b } => self.do_sbic(board, a, b),
            Instruction::Sbis { a, b } => self.do_sbis(board, a, b),
            Instruction::Cbi { a, b } => self.do_cbi(board, a, b),
            Instruction::Sbi { a, b } => self.do_sbi(board, a, b),
            Instruction::In { d, a } => self.do_in(board, d, a),
            Instruction::Out { a, r } => self.do_out(board, a, r),
            Instruction::Push { r } => self.do_push(board, r),
            Instruction::Pop { d } => self.do_pop(board, d),
            Instruction::Lds { d, k } => self.do_lds(board, d, k),
            Instruction::Sts { k, r } => self.do_sts(board, k, r),
            Instruction::Ld { d, p, q, inc, dec } => self.do_ld(board, d, p, q, inc, dec),
            Instruction::St { r, p, q, inc, dec } => self.do_st(board, r, p, q, inc, dec),
            Instruction::Lpm { d, inc } => self.do_lpm(board, d, inc),
            Instruction::Mul { d, r } => self.do_mul(board, d, r),
        }
    }

    /// The address a pointer form reaches, and the pointer's new value.
    fn pointer_step(&self, p: u8, q: u8, inc: bool, dec: bool) -> (r: (u32, u16))
        requires
            self@.wf(),
            p == 26 || p == 28 || p == 30,
        ensures
            r.0 == self@.pointer_target(p, q, dec),
            self@.pointer_moved(p, inc, dec) == self@.regs.update(p as int, (r.1 % 256) as u8).update(
                p + 1,
                (r.1 / 256) as u8,
            ),
    {
        let ptr = self.regs.pair(p as usize);
        let base: u16 = if dec { ptr.wrapping_sub(1) } else { ptr };
        assert(dec ==> base == (ptr + 65535) % 65536);
        let moved: u16 = if inc { ptr.wrapping_add(1) } else { base };
        assert(inc ==> moved == (ptr + 1) % 65536);
        (base as u32 + q as u32, moved)
    }

    fn do_lds(&mut self, board: &Board, d: u8, k: u16) -> (res: Result<u32, EmuError>)
        requires
            old(self)@.wf(),
            d < 32,
        ensures
            final(self)@.wf(),
            follows(old(self)@, board@, old(self)@.executed(board@, Instruction::Lds { d, k }), final(self)@, board@, res),
    {
        if k > DATA_END {
            return Err(EmuError::BadAddress { pc: self.pc, addr: k as u32 });
        }
        let value = self.load_byte(board, k);
        self.regs.set(d as usize, value);
        self.pc = pc_after(self.pc, 2);
        Ok(2)
    }

    fn do_sts(&mut self, board: &mut Board, k: u16, r: u8) -> (res: Result<u32, EmuError>)
        requires
            old(self)@.wf(),
            old(board)@.display.wf(),
            r < 32,
        ensures
            final(self)@.wf(),
            final(board)@.display.wf(),
            follows(old(self)@, old(board)@, old(self)@.executed(old(board)@, Instruction::Sts { k, r }), final(self)@, final(board)@, res),
    {
        if k > DATA_END {
            return Err(EmuError::BadAddress { pc: self.pc, addr: k as u32 });
        }
        let value = self.regs.get(r as usize);
        let old_pc = self.pc;
        self.pc = pc_after(self.pc, 2);
        match self.data_store(board, k, value) {
            Ok(()) => Ok(2),
            Err(e) => {
                self.pc = old_pc;
                Err(e)
            },
        }
    }

    fn do_ld(&mut self, board: &Board, d: u8, p: u8, q: u8, inc: bool, dec: bool) -> (res: Result<u32, EmuError>)
        requires
            old(self)@.wf(),
            operands_in_range(Instruction::Ld { d, p, q, inc, dec }),
        ensures
            final(self)@.wf(),
            follows(old(self)@, board@, old(self)@.executed(board@, Instruction::Ld { d, p, q, inc, dec }), final(self)@, board@, res),
    {
        let (addr, moved) = self.pointer_step(p, q, inc, dec);
        if addr > DATA_END as u32 {
            return Err(EmuError::BadAddress { pc: self.pc, addr });
        }
        let value = self.load_byte(board, addr as u16);
        self.regs.set_pair(p as usize, moved);
        self.regs.set(d as usize, value);
        self.pc = pc_after(self.pc, 1);
        if dec {
            Ok(3)
        } else {
            Ok(2)
        }
    }

    #[verifier::rlimit(100)]
    fn do_st(&mut self, board: &mut Board, r: u8, p: u8, q: u8, inc: bool, dec: bool) -> (res: Result<u32, EmuError>)
        requires
            old(self)@.wf(),
            old(board)@.display.wf(),
            operands_in_range(Instruction::St { r, p, q, inc, dec }),
        ensures
            final(self)@.wf(),
            final(board)@.display.wf(),
            follows(old(self)@, old(board)@, old(self)@.executed(old(board)@, Instruction::St { r, p, q, inc, dec }), final(self)@, final(board)@, res),
    {
        let (addr, moved) = self.pointer_step(p, q, inc, dec);
        if addr > DATA_END as u32 {
            return Err(EmuError::BadAddress { pc: self.pc, addr });
        }
        let value = self.regs.get(r as usize);
        let old_pc = self.pc;
        let old_pointer = self.regs.pair(p as usize);
        let ghost before = self@;
        self.regs.set_pair(p as usize, moved);
        self.pc = pc_after(self.pc, 1);
        match self.data_store(board, addr as u16, value) {
            Ok(()) => Ok(2),
            Err(e) => {
                self.regs.set_pair(p as usize, old_pointer);
                self.pc = old_pc;
                assert(self@.regs =~= before.regs);
                Err(e)
            },
        }
    }

    fn do_lpm(&mut self, board: &Board, d: u8, inc: bool) -> (res: Result<u32, EmuError>)
        requires
            old(self)@.wf(),
            d < 32,
        ensures
            final(self)@.wf(),
            follows(old(self)@, board@, old(self)@.executed(board@, Instruction::Lpm { d, inc }), final(self)@, board@, res),
    {
        let (_, moved) = self.pointer_step(30, 0, inc, false);
        let z = self.regs.pair(30);
        let word = self.program_memory[((z / 2) % 16384) as usize];
        let byte: u8 = if z % 2 == 1 { (word / 256) as u8 } else { (word % 256) as u8 };
        self.regs.set_pair(30, moved);
        self.regs.set(d as usize, byte);
        self.pc = pc_after(self.pc, 1);
        Ok(3)
    }

    fn do_mul(&mut self, board: &Board, d: u8, r: u8) -> (res: Result<u32, EmuError>)
        requires
            old(self)@.wf(),
            d < 32,
            r < 32,
        ensures
            final(self)@.wf(),
            follows(old(self)@, board@, old(self)@.executed(board@, Instruction::Mul { d, r }), final(self)@, board@, res),
    {
        let a = self.regs.get(d as usize) as u16;
        let b = self.regs.get(r as usize) as u16;
        assert(a * b <= 255 * 255) by (nonlinear_arith)
            requires
                a <= 255,
                b <= 255,
        ;
        let prod: u16 = a * b;
        self.regs.set(0, (prod % 256) as u8);
        self.regs.set(1, (prod / 256) as u8);
        self.status = StatusRegister { c: prod >= 32768, z: prod == 0, ..self.status };
        self.pc = pc_after(self.pc, 1);
        Ok(2)
    }

    fn do_ijmp(&mut self, board: &Board) -> (res: Result<u32, EmuError>)
        requires
            old(self)@.wf(),
        ensures
            final(self)@.wf(),
            follows(old(self)@, board@, old(self)@.executed(board@, Instruction::Ijmp), final(self)@, board@, res),
    {
        self.pc = self.regs.z() % 16384;
        Ok(2)
    }

    fn do_icall(&mut self, board: &Board) -> (res: Result<u32, EmuError>)
        requires
            old(self)@.wf(),
        ensures
            final(self)@.wf(),
            follows(old(self)@, board@, old(self)@.executed(board@, Instruction::Icall), final(self)@, board@, res),
    {
        let target = self.regs.z() % 16384;
        match self.push_word(self.pc + 1) {
            Ok(()) => {
                self.pc = target;
                Ok(3)
            },
            Err(e) => Err(e),
        }
    }

    fn do_nop(&mut self, board: &Board, ins: Instruction) -> (res: Result<u32, EmuError>)
        requires
            old(self)@.wf(),
            ins is Nop || ins is Break || ins is Sleep,
        ensures
            final(self)@.wf(),
            follows(old(self)@, board@, old(self)@.executed(board@, ins), final(self)@, board@, res),
    {
        let next = pc_after(self.pc, 1);
        self.pc = next;
        Ok(1)
    
    }

    fn do_alu(&mut self, board: &Board, op: AluOp, d: u8, r: u8) -> (res: Result<u32, EmuError>)
        requires
            old(self)@.wf(),
            operands_in_range(Instruction::Alu { op, d, r }),
        ensures
            final(self)@.wf(),
            follows(old(self)@, board@, old(self)@.executed(board@, Instruction::Alu { op, d, r }), final(self)@, board@, res),
    {
        let next = pc_after(self.pc, 1);
        let (res, st) = alu_exec(op, self.regs.get(d as usize), self.regs.get(r as usize), self.status);
        if !matches!(op, AluOp::Cp | AluOp::Cpc) {
            self.regs.set(d as usize, res);
        }
        self.status = st;
        self.pc = next;
        Ok(1)
    
    }

    fn do_imm(&mut self, board: &Board, op: AluOp, d: u8, k: u8) -> (res: Result<u32, EmuError>)
        requires
            old(self)@.wf(),
            operands_in_range(Instruction::Imm { op, d, k }),
        ensures
            final(self)@.wf(),
            follows(old(self)@, board@, old(self)@.executed(board@, Instruction::Imm { op, d, k }), final(self)@, board@, res),
    {
        let next = pc_after(self.pc, 1);
        let (res, st) = alu_exec(op, self.regs.get(d as usize), k, self.status);
        if !matches!(op, AluOp::Cp | AluOp::Cpc) {
            self.regs.set(d as usize, res);
        }
        self.status = st;
        self.pc = next;
        Ok(1)
    
    }

    fn do_unary(&mut self, board: &Board, op: UnaryOp, d: u8) -> (res: Result<u32, EmuError>)
        requires
            old(self)@.wf(),
            operands_in_range(Instruction::Unary { op, d }),
        ensures
            final(self)@.wf(),
            follows(old(self)@, board@, old(self)@.executed(board@, Instruction::Unary { op, d }), final(self)@, board@, res),
    {
        let next = pc_after(self.pc, 1);
        let (res, st) = unary_exec(op, self.regs.get(d as usize), self.status);
        self.regs.set(d as usize, res);
        self.status = st;
        self.pc = next;
        Ok(1)
    
    }

    fn do_movw(&mut self, board: &Board, d: u8, r: u8) -> (res: Result<u32, EmuError>)
        requires
            old(self)@.wf(),
            operands_in_range(Instruction::Movw { d, r }),
        ensures
            final(self)@.wf(),
            follows(old(self)@, board@, old(self)@.executed(board@, Instruction::Movw { d, r }), final(self)@, board@, res),
    {
        let next = pc_after(self.pc, 1);
        let lo = self.regs.get(r as usize);
        let hi = self.regs.get(r as usize + 1);
        self.regs.set(d as usize, lo);
        self.regs.set(d as usize + 1, hi);
        self.pc = next;
        Ok(1)
    
    }

    fn do_adiw(&mut self, board: &Board, d: u8, k: u8) -> (res: Result<u32, EmuError>)
        requires
            old(self)@.wf(),
            operands_in_range(Instruction::Adiw { d, k }),
        ensures
            final(self)@.wf(),
            follows(old(self)@, board@, old(self)@.executed(board@, Instruction::Adiw { d, k }), final(self)@, board@, res),
    {
        let next = pc_after(self.pc, 1);
        let p = self.regs.pair(d as usize);
        let sum: u32 = p as u32 + k as u32;
        let res = (sum % 65536) as u16;
        let v = p < 0x8000 && res >= 0x8000;
        self.regs.set(d as usize, (res % 256) as u8);
        self.regs.set(d as usize + 1, (res / 256) as u8);
        self.status = StatusRegister { s: (res >= 0x8000) != v, v, n: res >= 0x8000, z: res == 0, c: sum >= 65536, ..self.status };
        self.pc = next;
        Ok(2)
    
    }

    fn do_sbiw(&mut self, board: &Board, d: u8, k: u8) -> (res: Result<u32, EmuError>)
        requires
            old(self)@.wf(),
            operands_in_range(Instruction::Sbiw { d, k }),
        ensures
            final(self)@.wf(),
            follows(old(self)@, board@, old(self)@.executed(board@, Instruction::Sbiw { d, k }), final(self)@, board@, res),
    {
        let next = pc_after(self.pc, 1);
        let p = self.regs.pair(d as usize);
        let res = ((p as u32 + 65536 - k as u32) % 65536) as u16;
        let v = p >= 0x8000 && res < 0x8000;
        self.regs.set(d as usize, (res % 256) as u8);
        self.regs.set(d as usize + 1, (res / 256) as u8);
        self.status = StatusRegister { s: (res >= 0x8000) != v, v, n: res >= 0x8000, z: res == 0, c: p < k as u16, ..self.status };
        self.pc = next;
        Ok(2)
    
    }

    fn do_bset(&mut self, board: &Board, s: u8) -> (res: Result<u32, EmuError>)
        requires
            old(self)@.wf(),
            operands_in_range(Instruction::Bset { s }),
        ensures
            final(self)@.wf(),
            follows(old(self)@, board@, old(self)@.executed(board@, Instruction::Bset { s }), final(self)@, board@, res),
    {
        let next = pc_after(self.pc, 1);
        self.status.set(s, true);
        self.pc = next;
        Ok(1)
    
    }

    fn do_bclr(&mut self, board: &Board, s: u8) -> (res: Result<u32, EmuError>)
        requires
            old(self)@.wf(),
            operands_in_range(Instruction::Bclr { s }),
        ensures
            final(self)@.wf(),
            follows(old(self)@, board@, old(self)@.executed(board@, Instruction::Bclr { s }), final(self)@, board@, res),
    {
        let next = pc_after(self.pc, 1);
        self.status.set(s, false);
        self.pc = next;
        Ok(1)
    
    }

    fn do_bld(&mut self, board: &Board, d: u8, b: u8) -> (res: Result<u32, EmuError>)
        requires
            old(self)@.wf(),
            operands_in_range(Instruction::Bld { d, b }),
        ensures
            final(self)@.wf(),
            follows(old(self)@, board@, old(self)@.executed(board@, Instruction::Bld { d, b }), final(self)@, board@, res),
    {
        let next = pc_after(self.pc, 1);
        let old = self.regs.get(d as usize);
        let v = if self.status.t { old | (1u8 << b) } else { old & !(1u8 << b) };
        self.regs.set(d as usize, v);
        self.pc = next;
        Ok(1)
    
    }

    fn do_bst(&mut self, board: &Board, d: u8, b: u8) -> (res: Result<u32, EmuError>)
        requires
            old(self)@.wf(),
            operands_in_range(Instruction::Bst { d, b }),
        ensures
            final(self)@.wf(),
            follows(old(self)@, board@, old(self)@.executed(board@, Instruction::Bst { d, b }), final(self)@, board@, res),
    {
        let next = pc_after(self.pc, 1);
        self.status.t = (self.regs.get(d as usize) >> b) & 1 == 1;
        self.pc = next;
        Ok(1)
    
    }

    fn do_brbs(&mut self, board: &Board, s: u8, k: i8) -> (res: Result<u32, EmuError>)
        requires
            old(self)@.wf(),
            operands_in_range(Instruction::Brbs { s, k }),
        ensures
            final(self)@.wf(),
            follows(old(self)@, board@, old(self)@.executed(board@, Instruction::Brbs { s, k }), final(self)@, board@, res),
    {
        let next = pc_after(self.pc, 1);
        if self.status.get(s) {
            self.pc = pc_after(self.pc, 1 + k as i32);
            Ok(2)
        } else {
            self.pc = next;
            Ok(1)
        }
    
    }

    fn do_brbc(&mut self, board: &Board, s: u8, k: i8) -> (res: Result<u32, EmuError>)
        requires
            old(self)@.wf(),
            operands_in_range(Instruction::Brbc { s, k }),
        ensures
            final(self)@.wf(),
            follows(old(self)@, board@, old(self)@.executed(board@, Instruction::Brbc { s, k }), final(self)@, board@, res),
    {
        let next = pc_after(self.pc, 1);
        if !self.status.get(s) {
            self.pc = pc_after(self.pc, 1 + k as i32);
            Ok(2)
        } else {
            self.pc = next;
            Ok(1)
        }
    
    }

    fn do_rjmp(&mut self, board: &Board, k: i16) -> (res: Result<u32, EmuError>)
        requires
            old(self)@.wf(),
            operands_in_range(Instruction::Rjmp { k }),
        ensures
            final(self)@.wf(),
            follows(old(self)@, board@, old(self)@.executed(board@, Instruction::Rjmp { k }), final(self)@, board@, res),
    {
        self.pc = pc_after(self.pc, 1 + k as i32);
        Ok(2)
    
    }

    fn do_rcall(&mut self, board: &Board, k: i16) -> (res: Result<u32, EmuError>)
        requires
            old(self)@.wf(),
            operands_in_range(Instruction::Rcall { k }),
        ensures
            final(self)@.wf(),
            follows(old(self)@, board@, old(self)@.executed(board@, Instruction::Rcall { k }), final(self)@, board@, res),
    {
        let target = pc_after(self.pc, 1 + k as i32);
        match self.push_word(self.pc + 1) {
            Ok(()) => {
                self.pc = target;
                Ok(3)
            },
            Err(e) => Err(e),
        }
    
    }

    fn do_jmp(&mut self, board: &Board, k: u16) -> (res: Result<u32, EmuError>)
        requires
            old(self)@.wf(),
            operands_in_range(Instruction::Jmp { k }),
        ensures
            final(self)@.wf(),
            follows(old(self)@, board@, old(self)@.executed(board@, Instruction::Jmp { k }), final(self)@, board@, res),
    {
        self.pc = k % 16384;
        Ok(3)
    
    }

    fn do_call(&mut self, board: &Board, k: u16) -> (res: Result<u32, EmuError>)
        requires
            old(self)@.wf(),
            operands_in_range(Instruction::Call { k }),
        ensures
            final(self)@.wf(),
            follows(old(self)@, board@, old(self)@.executed(board@, Instruction::Call { k }), final(self)@, board@, res),
    {
        match self.push_word(self.pc + 2) {
            Ok(()) => {
                self.pc = k % 16384;
                Ok(4)
            },
            Err(e) => Err(e),
        }
    
    }

    fn do_ret(&mut self, board: &Board, ins: Instruction) -> (res: Result<u32, EmuError>)
        requires
            old(self)@.wf(),
            ins is Ret || ins is Reti,
        ensures
            final(self)@.wf(),
            follows(old(self)@, board@, old(self)@.executed(board@, ins), final(self)@, board@, res),
    {
        if self.sp > DATA_END - 2 {
            return Err(EmuError::StackUnderflow { pc: self.pc });
        }
        if self.sp < SRAM_START - 1 {
            return Err(EmuError::BadAddress { pc: self.pc, addr: (self.sp + 1) as u32 });
        }
        let lo = self.sram[(self.sp + 1 - SRAM_START) as usize];
        let hi = self.sram[(self.sp + 2 - SRAM_START) as usize];
        if matches!(ins, Instruction::Reti) {
            self.status.i = true;
        }
        self.pc = (hi as u16 * 256 + lo as u16) % 16384;
        self.sp = self.sp + 2;
        Ok(4)
    
    }

    fn do_cpse(&mut self, board: &Board, d: u8, r: u8) -> (res: Result<u32, EmuError>)
        requires
            old(self)@.wf(),
            operands_in_range(Instruction::Cpse { d, r }),
        ensures
            final(self)@.wf(),
            follows(old(self)@, board@, old(self)@.executed(board@, Instruction::Cpse { d, r }), final(self)@, board@, res),
    {
        let skip = self.regs.get(d as usize) == self.regs.get(r as usize);
        self.skip_if(board, skip)
    
    }

    fn do_sbrc(&mut self, board: &Board, r: u8, b: u8) -> (res: Result<u32, EmuError>)
        requires
            old(self)@.wf(),
            operands_in_range(Instruction::Sbrc { r, b }),
        ensures
            final(self)@.wf(),
            follows(old(self)@, board@, old(self)@.executed(board@, Instruction::Sbrc { r, b }), final(self)@, board@, res),
    {
        let skip = (self.regs.get(r as usize) >> b) & 1 != 1;
        self.skip_if(board, skip)
    
    }

    fn do_sbrs(&mut self, board: &Board, r: u8, b: u8) -> (res: Result<u32, EmuError>)
        requires
            old(self)@.wf(),
            operands_in_range(Instruction::Sbrs { r, b }),
        ensures
            final(self)@.wf(),
            follows(old(self)@, board@, old(self)@.executed(board@, Instruction::Sbrs { r, b }), final(self)@, board@, res),
    {
        let skip = (self.regs.get(r as usize) >> b) & 1 == 1;
        self.skip_if(board, skip)
    
    }

    fn do_sbic(&mut self, board: &Board, a: u8, b: u8) -> (res: Result<u32, EmuError>)
        requires
            old(self)@.wf(),
            operands_in_range(Instruction::Sbic { a, b }),
        ensures
            final(self)@.wf(),
            follows(old(self)@, board@, old(self)@.executed(board@, Instruction::Sbic { a, b }), final(self)@, board@, res),
    {
        let skip = (self.load_byte(board, a as u16 + IO_REGISTER_START) >> b) & 1 != 1;
        self.skip_if(board, skip)
    
    }

    fn do_sbis(&mut self, board: &Board, a: u8, b: u8) -> (res: Result<u32, EmuError>)
        requires
            old(self)@.wf(),
            operands_in_range(Instruction::Sbis { a, b }),
        ensures
            final(self)@.wf(),
            follows(old(self)@, board@, old(self)@.executed(board@, Instruction::Sbis { a, b }), final(self)@, board@, res),
    {
        let skip = (self.load_byte(board, a as u16 + IO_REGISTER_START) >> b) & 1 == 1;
        self.skip_if(board, skip)
    
    }

    fn do_cbi(&mut self, board: &mut Board, a: u8, b: u8) -> (res: Result<u32, EmuError>)
        requires
            old(self)@.wf(),
            old(board)@.display.wf(),
            operands_in_range(Instruction::Cbi { a, b }),
        ensures
            final(self)@.wf(),
            final(board)@.display.wf(),
            follows(old(self)@, old(board)@, old(self)@.executed(old(board)@, Instruction::Cbi { a, b }), final(self)@, final(board)@, res),
    {
        let next = pc_after(self.pc, 1);
        let addr = a as u16 + IO_REGISTER_START;
        let value = self.load_byte(board, addr) & !(1u8 << b);
        let old_pc = self.pc;
        self.pc = next;
        match self.data_store(board, addr, value) {
            Ok(()) => Ok(2),
            Err(e) => {
                self.pc = old_pc;
                Err(e)
            },
        }
    
    }

    fn do_sbi(&mut self, board: &mut Board, a: u8, b: u8) -> (res: Result<u32, EmuError>)
        requires
            old(self)@.wf(),
            old(board)@.display.wf(),
            operands_in_range(Instruction::Sbi { a, b }),
        ensures
            final(self)@.wf(),
            final(board)@.display.wf(),
            follows(old(self)@, old(board)@, old(self)@.executed(old(board)@, Instruction::Sbi { a, b }), final(self)@, final(board)@, res),
    {
        let next = pc_after(self.pc, 1);
        let addr = a as u16 + IO_REGISTER_START;
        let value = self.load_byte(board, addr) | (1u8 << b);
        let old_pc = self.pc;
        self.pc = next;
        match self.data_store(board, addr, value) {
            Ok(()) => Ok(2),
            Err(e) => {
                self.pc = old_pc;
                Err(e)
            },
        }
    
    }

    fn do_in(&mut self, board: &Board, d: u8, a: u8) -> (res: Result<u32, EmuError>)
        requires
            old(self)@.wf(),
            operands_in_range(Instruction::In { d, a }),
        ensures
            final(self)@.wf(),
            follows(old(self)@, board@, old(self)@.executed(board@, Instruction::In { d, a }), final(self)@, board@, res),
    {
        let next = pc_after(self.pc, 1);
        let value = self.load_byte(board, a as u16 + IO_REGISTER_START);
        self.regs.set(d as usize, value);
        self.pc = next;
        Ok(1)
    
    }

    fn do_out(&mut self, board: &mut Board, a: u8, r: u8) -> (res: Result<u32, EmuError>)
        requires
            old(self)@.wf(),
            old(board)@.display.wf(),
            operands_in_range(Instruction::Out { a, r }),
        ensures
            final(self)@.wf(),
            final(board)@.display.wf(),
            follows(old(self)@, old(board)@, old(self)@.executed(old(board)@, Instruction::Out { a, r }), final(self)@, final(board)@, res),
    {
        let next = pc_after(self.pc, 1);
        let value = self.regs.get(r as usize);
        let old_pc = self.pc;
        self.pc = next;
        match self.data_store(board, a as u16 + IO_REGISTER_START, value) {
            Ok(()) => Ok(1),
            Err(e) => {
                self.pc = old_pc;
                Err(e)
            },
        }
    
    }

    fn do_push(&mut self, board: &Board, r: u8) -> (res: Result<u32, EmuError>)
        requires
            old(self)@.wf(),
            operands_in_range(Instruction::Push { r }),
        ensures
            final(self)@.wf(),
            follows(old(self)@, board@, old(self)@.executed(board@, Instruction::Push { r }), final(self)@, board@, res),
    {
        let next = pc_after(self.pc, 1);
        if self.sp < SRAM_START || self.sp > DATA_END {
            return Err(EmuError::BadAddress { pc: self.pc, addr: self.sp as u32 });
        }
        let value = self.regs.get(r as usize);
        self.sram.set((self.sp - SRAM_START) as usize, value);
        self.sp = self.sp - 1;
        self.pc = next;
        Ok(2)
    
    }

    fn do_pop(&mut self, board: &Board, d: u8) -> (res: Result<u32, EmuError>)
        requires
            old(self)@.wf(),
            operands_in_range(Instruction::Pop { d }),
        ensures
            final(self)@.wf(),
            follows(old(self)@, board@, old(self)@.executed(board@, Instruction::Pop { d }), final(self)@, board@, res),
    {
        let next = pc_after(self.pc, 1);
        if self.sp >= DATA_END {
            return Err(EmuError::StackUnderflow { pc: self.pc });
        }
        if self.sp < SRAM_START - 1 {
            return Err(EmuError::BadAddress { pc: self.pc, addr: (self.sp + 1) as u32 });
        }
        let value = self.sram[(self.sp + 1 - SRAM_START) as usize];
        self.regs.set(d as usize, value);
        self.sp = self.sp + 1;
        self.pc = next;
        Ok(2)
    
    }

    /// Fetches, decodes and executes the instruction at the program
    /// counter, returning the cycles it took. An unknown word is an
    /// `IllegalInstruction` fault; a fault leaves the machine unchanged.
    pub fn step(&mut self, board: &mut Board) -> (r: Result<u32, EmuError>)
        requires
            old(self)@.wf(),
            old(board)@.display.wf(),
        ensures
            final(self)@.wf(),
            final(board)@.display.wf(),
            follows(old(self)@, old(board)@, old(self)@.stepped(old(board)@), final(self)@, final(board)@, r),
    {
        proof {
            reveal(CpuState::stepped);
        }
        let w = self.program_memory[self.pc as usize];
        let next = self.program_memory[pc_after(self.pc, 1) as usize];
        match decode_exec(w, next) {
            Some(ins) => self.execute(board, ins),
            None => Err(EmuError::IllegalInstruction { pc: self.pc, word: w }),
        }
    }

    /// Steps until at least `budget` cycles have passed and returns the
    /// cycles spent, which exceed the budget by less than one instruction.
    /// A fault stops the run at the faulting instruction.
    pub fn run_cycles(&mut self, board: &mut Board, budget: u32) -> (r: Result<u64, EmuError>)
        requires
            old(self)@.wf(),
            old(board)@.display.wf(),
        ensures
            final(self)@.wf(),
            final(board)@.display.wf(),
            ({
                let (c, b, t, e) = old(self)@.ran(old(board)@, budget as int);
                &&& final(self)@ == c
                &&& final(board)@ == b
                &&& match e {
                    None => r == Ok::<u64, EmuError>(t as u64),
                    Some(err) => r == Err::<u64, EmuError>(err),
                }
            }),
            r matches Ok(t) ==> budget <= t < budget + 4,
    {
        let ghost start = old(self)@;
        let ghost start_board = old(board)@;
        let mut total: u64 = 0;
        while total < budget as u64
            invariant
                self@.wf(),
                board@.display.wf(),
                total < budget + 4,
                start == old(self)@,
                start_board == old(board)@,
                ({
                    let whole = start.ran(start_board, budget as int);
                    let rest = self@.ran(board@, budget - total);
                    &&& whole.0 == rest.0
                    &&& whole.1 == rest.1
                    &&& whole.2 == rest.2 + total
                    &&& whole.3 == rest.3
                }),
            decreases budget + 4 - total,
        {
            let ghost before = self@;
            let ghost before_board = board@;
            proof {
                lemma_cycles_bounded(before, before_board);
            }
            let ghost old_total = total;
            match self.step(board) {
                Ok(n) => {
                    proof {
                        let o = before.stepped(before_board);
                        assert(o == Ok::<(CpuState, BoardState, u32), EmuError>((self@, board@, n)));
                        assert(1 <= n <= 4);
                        assert(before.ran(before_board, budget - old_total) == (if n >= budget - old_total {
                            (self@, board@, n as int, None::<EmuError>)
                        } else {
                            let t = self@.ran(board@, budget - old_total - n);
                            (t.0, t.1, t.2 + n, t.3)
                        }));
                    }
                    total = total + n as u64;
                    proof {
                        if total >= budget {
                            assert(self@.ran(board@, budget - total) == (self@, board@, 0int, None::<EmuError>));
                        }
                    }
                },
                Err(e) => {
                    proof {
                        assert(before.stepped(before_board) == Err::<(CpuState, BoardState, u32), EmuError>(e));
                        assert(self@.ran(board@, budget - total) == (self@, board@, 0int, Some(e)));

                    }
                    return Err(e);
                },
            }
        }
        assert(self@.ran(board@, budget - total) == (self@, board@, 0int, None::<EmuError>));
        Ok(total)
    }
}

} // verus!
