use arduous::instruction::decode_exec;
use arduous::{AluOp, Arduboy, Button, EmuError, Instruction, StatusRegister};

fn ldi(d: u16, k: u16) -> u16 {
    0xe000 | ((k & 0xf0) << 4) | ((d - 16) << 4) | (k & 0x0f)
}

fn two_reg(base: u16, d: u16, r: u16) -> u16 {
    base | ((r & 0x10) << 5) | (d << 4) | (r & 0x0f)
}

fn adc(d: u16, r: u16) -> u16 {
    two_reg(0x1c00, d, r)
}

fn sub(d: u16, r: u16) -> u16 {
    two_reg(0x1800, d, r)
}

fn cp(d: u16, r: u16) -> u16 {
    two_reg(0x1400, d, r)
}

fn cpc(d: u16, r: u16) -> u16 {
    two_reg(0x0400, d, r)
}

fn adiw(d: u16, k: u16) -> u16 {
    0x9600 | ((k & 0x30) << 2) | (((d - 24) / 2) << 4) | (k & 0x0f)
}

fn out(a: u16, r: u16) -> u16 {
    0xb800 | ((a & 0x30) << 5) | (r << 4) | (a & 0x0f)
}

fn push(r: u16) -> u16 {
    0x920f | (r << 4)
}

fn pop(d: u16) -> u16 {
    0x900f | (d << 4)
}

fn sbi(a: u16, b: u16) -> u16 {
    0x9a00 | (a << 3) | b
}

fn sbic(a: u16, b: u16) -> u16 {
    0x9900 | (a << 3) | b
}

fn rjmp(k: i16) -> u16 {
    0xc000 | ((k as u16) & 0x0fff)
}

fn brbs(s: u16, k: i16) -> u16 {
    0xf000 | (((k as u16) & 0x7f) << 3) | s
}

fn bset(s: u16) -> u16 {
    0x9408 | (s << 4)
}

const RET: u16 = 0x9508;
const SPDR: u16 = 0x2e;
const PORTD: u16 = 0x0b;
const PINE: u16 = 0x0c;
const SPL: u16 = 0x3d;
const SPH: u16 = 0x3e;

fn device(program: &[u16]) -> Arduboy {
    let mut a = Arduboy::new();
    a.load_program(&program.to_vec()).unwrap();
    a
}

fn run(a: &mut Arduboy, steps: usize) {
    for _ in 0..steps {
        a.execute().unwrap();
    }
}

#[test]
fn sreg_byte_round_trip() {
    for b in 0..=255u8 {
        assert_eq!(StatusRegister::from_u8(b).to_u8(), b);
        assert_eq!(StatusRegister::new(&b).to_u8(), b);
    }
    let s = StatusRegister::from_u8(0b1000_0001);
    assert!(s.i && s.c && !s.z && !s.t);
    assert!(s.get(0) && s.get(7) && !s.get(1));
}

#[test]
fn sreg_indexed_write() {
    let mut s = StatusRegister::from_u8(0);
    s.set(6, true);
    assert!(s.t);
    assert_eq!(s.to_u8(), 0x40);
    s.set(6, false);
    s.set(1, true);
    assert_eq!(s.to_u8(), 0x02);
}

#[test]
fn register_pairs_are_little_endian() {
    let mut regs = arduous::GeneralRegisters::new();
    regs.set_pair(24, 0x1234);
    assert_eq!(regs.pair(24), 0x1234);
    assert_eq!(regs.w(), 0x1234);
    assert_eq!(regs.get(24), 0x34);
    assert_eq!(regs.get(25), 0x12);
    regs.set_z(0xbeef);
    assert_eq!(regs.get(30), 0xef);
    assert_eq!(regs.get(31), 0xbe);
    assert_eq!(regs.z(), 0xbeef);
    regs.set_x(0x0102);
    regs.set_y(0x0304);
    assert_eq!(regs.x(), 0x0102);
    assert_eq!(regs.y(), 0x0304);
    regs.set_w(0xffff);
    assert_eq!(regs.w(), 0xffff);
}

#[test]
fn adc_carries_into_zero() {
    let mut a = device(&[ldi(16, 0xff), ldi(17, 0x01), adc(16, 17)]);
    run(&mut a, 3);
    let cpu = a.cpu();
    assert_eq!(cpu.reg(16), 0x00);
    let s = cpu.status();
    assert!(s.c && s.z && s.h);
    assert!(!s.n && !s.v && !s.s);
}

#[test]
fn sub_borrows_below_zero() {
    let mut a = device(&[ldi(16, 0x00), ldi(17, 0x01), sub(16, 17)]);
    run(&mut a, 3);
    let cpu = a.cpu();
    assert_eq!(cpu.reg(16), 0xff);
    let s = cpu.status();
    assert!(s.c && s.n && s.h && s.s);
    assert!(!s.v && !s.z);
}

#[test]
fn adiw_signed_overflow() {
    let mut a = device(&[ldi(24, 0xff), ldi(25, 0x7f), adiw(24, 1)]);
    assert_eq!(a.execute(), Ok(1));
    assert_eq!(a.execute(), Ok(1));
    assert_eq!(a.execute(), Ok(2));
    let cpu = a.cpu();
    assert_eq!(cpu.reg(24), 0x00);
    assert_eq!(cpu.reg(25), 0x80);
    let s = cpu.status();
    assert!(s.n && s.v);
    assert!(!s.s && !s.c && !s.z);
}

#[test]
fn cpc_keeps_zero_only_while_bytes_match() {
    // 0x1234 against 0x1234: Z stays set
    let mut a = device(&[ldi(16, 0x34), ldi(17, 0x12), ldi(18, 0x34), ldi(19, 0x12), cp(16, 18), cpc(17, 19)]);
    run(&mut a, 5);
    assert!(a.cpu().status().z);
    run(&mut a, 1);
    assert!(a.cpu().status().z);
    // 0x1334 against 0x1234: low bytes equal, high bytes differ, Z cleared
    let mut a = device(&[ldi(16, 0x34), ldi(17, 0x13), ldi(18, 0x34), ldi(19, 0x12), cp(16, 18), cpc(17, 19), cpc(16, 18)]);
    run(&mut a, 6);
    assert!(!a.cpu().status().z);
    // a later byte with a zero difference does not set it again
    run(&mut a, 1);
    assert!(!a.cpu().status().z);
}

#[test]
fn branch_minus_one_loops_in_place() {
    let mut a = device(&[bset(1), brbs(1, -1)]);
    run(&mut a, 1);
    assert_eq!(a.cpu().pc(), 1);
    assert_eq!(a.execute(), Ok(2));
    assert_eq!(a.cpu().pc(), 1);
    assert_eq!(a.execute(), Ok(2));
    assert_eq!(a.cpu().pc(), 1);
}

#[test]
fn blank_frame() {
    let mut a = Arduboy::new();
    assert_eq!(a.execute_for_a_frame(), Ok(()));
    assert!(a.display_iter().iter().all(|p| !*p));
}

#[test]
fn display_init_then_stripes() {
    let mut program = vec![ldi(16, 0x20), out(SPDR, 16), ldi(16, 0x02), out(SPDR, 16), sbi(PORTD, 4)];
    for b in [0x01u16, 0x03, 0x07, 0x0f, 0x1f, 0x3f, 0x7f, 0xff] {
        program.push(ldi(16, b));
        program.push(out(SPDR, 16));
    }
    program.push(rjmp(-1));
    let mut a = device(&program);
    assert_eq!(a.execute_for_a_frame(), Ok(()));
    let pixels = a.display_iter();
    for c in 0..8usize {
        for y in 0..8usize {
            assert_eq!(pixels[y * 128 + c], y + c >= 7, "column {} row {}", c, y);
        }
    }
    assert!(!pixels[8]);
    assert!(!pixels[8 * 128]);
}

fn button_program() -> Vec<u16> {
    vec![sbic(PINE, 6), rjmp(2), ldi(16, 1), rjmp(-1), ldi(16, 2), rjmp(-1)]
}

#[test]
fn button_a_pressed_takes_branch() {
    let mut a = device(&button_program());
    a.set_button(Button::A, true);
    a.execute_for_a_frame().unwrap();
    assert_eq!(a.cpu().reg(16), 1);
}

#[test]
fn button_a_released_does_not_take_branch() {
    let mut a = device(&button_program());
    a.set_button(Button::A, true);
    a.set_button(Button::A, false);
    a.set_button(Button::B, true);
    a.execute_for_a_frame().unwrap();
    assert_eq!(a.cpu().reg(16), 2);
}

#[test]
fn stack_round_trip() {
    let mut a = device(&[ldi(16, 0xab), ldi(17, 0xcd), push(16), push(17), pop(0), pop(1)]);
    run(&mut a, 4);
    assert_eq!(a.cpu().sp(), 0x0afd);
    run(&mut a, 2);
    let cpu = a.cpu();
    assert_eq!(cpu.reg(0), 0xcd);
    assert_eq!(cpu.reg(1), 0xab);
    assert_eq!(cpu.sp(), 0x0aff);
}

#[test]
fn call_and_ret() {
    // 0: CALL 4; 2: LDI r16,7; 3: RJMP -1; 4: LDI r17,9; 5: RET
    let mut a = device(&[0x940e, 4, ldi(16, 7), rjmp(-1), ldi(17, 9), RET]);
    assert_eq!(a.execute(), Ok(4));
    assert_eq!(a.cpu().pc(), 4);
    assert_eq!(a.cpu().sp(), 0x0afd);
    run(&mut a, 1);
    assert_eq!(a.execute(), Ok(4));
    assert_eq!(a.cpu().pc(), 2);
    run(&mut a, 1);
    assert_eq!(a.cpu().reg(16), 7);
    assert_eq!(a.cpu().reg(17), 9);
}

#[test]
fn reset_matches_fresh_device() {
    let program = vec![ldi(16, 0x20), out(SPDR, 16), ldi(16, 0x00), out(SPDR, 16), sbi(PORTD, 4), ldi(16, 0xff), out(SPDR, 16), push(16), bset(7), rjmp(-1)];
    let mut a = device(&program);
    a.set_button(Button::Up, true);
    a.execute_for_a_frame().unwrap();
    assert!(a.display_iter().iter().any(|p| *p));
    a.reset();
    let fresh = device(&program);
    assert_eq!(a.display_iter(), fresh.display_iter());
    assert_eq!(a.cpu().pc(), 0);
    assert_eq!(a.cpu().sp(), 0x0aff);
    assert_eq!(a.cpu().status().to_u8(), 0);
    for r in 0..32 {
        assert_eq!(a.cpu().reg(r), fresh.cpu().reg(r));
    }
    assert_eq!(a.cpu().eeprom_bytes(), fresh.cpu().eeprom_bytes());
    // the same program then runs the same way
    a.execute_for_a_frame().unwrap();
    let mut fresh = fresh;
    fresh.execute_for_a_frame().unwrap();
    assert_eq!(a.display_iter(), fresh.display_iter());
}

#[test]
fn illegal_instruction_faults_in_place() {
    let mut a = device(&[0xffff]);
    assert_eq!(a.execute(), Err(EmuError::IllegalInstruction { pc: 0, word: 0xffff }));
    assert_eq!(a.cpu().pc(), 0);
    assert_eq!(a.execute_for_a_frame(), Err(EmuError::IllegalInstruction { pc: 0, word: 0xffff }));
}

#[test]
fn ret_on_empty_stack_underflows() {
    let mut a = device(&[RET]);
    assert_eq!(a.execute(), Err(EmuError::StackUnderflow { pc: 0 }));
}

#[test]
fn push_outside_sram_is_bad_address() {
    // SP := 0x0B00, then PUSH
    let mut a = device(&[ldi(16, 0x00), ldi(17, 0x0b), out(SPL, 16), out(SPH, 17), push(16)]);
    run(&mut a, 4);
    assert_eq!(a.cpu().sp(), 0x0b00);
    assert_eq!(a.execute(), Err(EmuError::BadAddress { pc: 4, addr: 0x0b00 }));
    assert_eq!(a.cpu().pc(), 4);
}

#[test]
fn display_fault_surfaces_from_frame() {
    let mut a = device(&[ldi(16, 0xff), out(SPDR, 16), rjmp(-1)]);
    assert_eq!(a.execute_for_a_frame(), Err(EmuError::UnknownDisplayCommand { command: 0xff }));
    assert_eq!(a.cpu().pc(), 1);
}

#[test]
fn program_too_large_is_refused() {
    let mut a = Arduboy::new();
    let big = vec![0u16; 16385];
    assert_eq!(a.load_program(&big), Err(EmuError::ProgramTooLarge { words: 16385 }));
    let fits = vec![0u16; 16384];
    assert_eq!(a.load_program(&fits), Ok(()));
}

#[test]
fn eeprom_survives_reset() {
    let mut cpu = arduous::ATmega32u4::new();
    let mut bytes = vec![0u8; 1024];
    bytes[3] = 0x5a;
    cpu.load_eeprom(&bytes);
    cpu.reset();
    assert_eq!(cpu.eeprom_bytes(), bytes);
}

#[test]
fn frame_spends_its_cycle_budget() {
    let mut cpu = arduous::ATmega32u4::new();
    let mut board = arduous::Board { display: arduous::SSD1306::new(), buttons: arduous::ButtonState::released() };
    let spent = cpu.run_cycles(&mut board, 1000).unwrap();
    assert_eq!(spent, 1000);
    assert_eq!(cpu.pc(), 1000);
}

#[test]
fn image_bytes_become_little_endian_words() {
    assert_eq!(arduous::words_from_image(&vec![0x34, 0x12, 0xcd, 0xab]), vec![0x1234, 0xabcd]);
    assert_eq!(arduous::words_from_image(&vec![0x34, 0x12, 0x07]), vec![0x1234, 0x0007]);
    let mut a = Arduboy::new();
    // LDI r16, 0x5A as bytes, low byte first
    let w = ldi(16, 0x5a);
    a.load_image(&vec![(w & 0xff) as u8, (w >> 8) as u8]).unwrap();
    a.execute().unwrap();
    assert_eq!(a.cpu().reg(16), 0x5a);
    assert_eq!(a.load_image(&vec![0u8; 32769]), Err(EmuError::ProgramTooLarge { words: 16385 }));
}

#[test]
fn lds_and_sts_reach_sram() {
    let mut a = device(&[ldi(16, 0x42), 0x9200 | (16 << 4), 0x0200, 0x9000 | (17 << 4), 0x0200]);
    assert_eq!(a.execute(), Ok(1));
    assert_eq!(a.execute(), Ok(2));
    assert_eq!(a.cpu().pc(), 3);
    assert_eq!(a.execute(), Ok(2));
    assert_eq!(a.cpu().pc(), 5);
    assert_eq!(a.cpu().reg(17), 0x42);
}

#[test]
fn lds_beyond_data_space_is_bad_address() {
    let mut a = device(&[0x9000 | (17 << 4), 0x0b00]);
    assert_eq!(a.execute(), Err(EmuError::BadAddress { pc: 0, addr: 0x0b00 }));
}

#[test]
fn st_post_increment_and_ld_through_x() {
    // X = 0x0200; ST X+, r16; LDI r26, 0; LD r17, X
    let mut a = device(&[ldi(26, 0x00), ldi(27, 0x02), ldi(16, 7), 0x920d | (16 << 4), ldi(26, 0x00), 0x900c | (17 << 4)]);
    run(&mut a, 4);
    assert_eq!(a.cpu().reg(26), 0x01);
    assert_eq!(a.cpu().reg(27), 0x02);
    run(&mut a, 2);
    assert_eq!(a.cpu().reg(17), 7);
}

#[test]
fn pre_decrement_load_takes_three_cycles() {
    // Y = 0x0201; ST -Y would store at 0x0200; use LD -Y after STS
    let mut a = device(&[ldi(16, 9), 0x9200 | (16 << 4), 0x0200, ldi(28, 0x01), ldi(29, 0x02), 0x900a | (18 << 4)]);
    run(&mut a, 4);
    assert_eq!(a.execute(), Ok(3));
    assert_eq!(a.cpu().reg(18), 9);
    assert_eq!(a.cpu().reg(28), 0x00);
}

fn std_y(q: u16, r: u16) -> u16 {
    0x8208 | ((q & 0x20) << 8) | ((q & 0x18) << 7) | (q & 0x07) | (r << 4)
}

fn ldd_y(q: u16, d: u16) -> u16 {
    0x8008 | ((q & 0x20) << 8) | ((q & 0x18) << 7) | (q & 0x07) | (d << 4)
}

#[test]
fn displacement_store_and_load() {
    let mut a = device(&[ldi(28, 0x00), ldi(29, 0x03), ldi(16, 0x99), std_y(45, 16), ldd_y(45, 20), 0x9000 | (21 << 4), 0x032d]);
    run(&mut a, 6);
    assert_eq!(a.cpu().reg(20), 0x99);
    assert_eq!(a.cpu().reg(21), 0x99);
    assert_eq!(a.cpu().reg(28), 0x00);
}

#[test]
fn lpm_reads_program_bytes() {
    let program = vec![ldi(30, 16), ldi(31, 0), 0x9005 | (16 << 4), 0x9004 | (17 << 4), rjmp(-1), 0, 0, 0, 0xbeef];
    let mut a = device(&program);
    run(&mut a, 2);
    assert_eq!(a.execute(), Ok(3));
    assert_eq!(a.execute(), Ok(3));
    assert_eq!(a.cpu().reg(16), 0xef);
    assert_eq!(a.cpu().reg(17), 0xbe);
    assert_eq!(a.cpu().reg(30), 17);
}

#[test]
fn mul_fills_r1_r0() {
    let mul = 0x9c00 | ((17 & 0x10) << 5) | (16 << 4) | (17 & 0x0f);
    let mut a = device(&[ldi(16, 200), ldi(17, 3), mul]);
    run(&mut a, 2);
    assert_eq!(a.execute(), Ok(2));
    assert_eq!(a.cpu().reg(0), 0x58);
    assert_eq!(a.cpu().reg(1), 0x02);
    assert!(!a.cpu().status().c && !a.cpu().status().z);
}

#[test]
fn decoder_tells_mov_movw_and_muls_apart() {
    assert_eq!(decode_exec(0x2c01, 0), Some(Instruction::Alu { op: AluOp::Mov, d: 0, r: 1 }));
    assert_eq!(decode_exec(0x0112, 0), Some(Instruction::Movw { d: 2, r: 4 }));
    assert_eq!(decode_exec(0x0212, 0), None);
    assert_eq!(decode_exec(0x0000, 0), Some(Instruction::Nop));
    assert_eq!(decode_exec(0x9598, 0), Some(Instruction::Break));
    assert_eq!(decode_exec(0x940e, 0x1234), Some(Instruction::Call { k: 0x1234 }));
}

#[test]
fn skip_over_two_word_instruction() {
    // CPSE r0, r0 skips the two-word STS and costs three cycles
    let mut a = device(&[0x1000, 0x9200, 0x0200, ldi(16, 1)]);
    assert_eq!(a.execute(), Ok(3));
    assert_eq!(a.cpu().pc(), 3);
}

#[test]
fn sreg_is_mapped_in_io_space() {
    // OUT SREG, r16 with r16 = 0x81, then IN r17, SREG
    let mut a = device(&[ldi(16, 0x81), out(0x3f, 16), 0xb000 | ((0x3f & 0x30) << 5) | (17 << 4) | (0x3f & 0x0f)]);
    run(&mut a, 3);
    assert!(a.cpu().status().i && a.cpu().status().c);
    assert_eq!(a.cpu().reg(17), 0x81);
}

#[test]
fn icall_and_ijmp_go_through_z() {
    // Z = 5; ICALL; ... 5: LDI r16,3; 6: RET
    let mut a = device(&[ldi(30, 5), ldi(31, 0), 0x9509, rjmp(-1), 0, ldi(16, 3), RET]);
    run(&mut a, 2);
    assert_eq!(a.execute(), Ok(3));
    assert_eq!(a.cpu().pc(), 5);
    run(&mut a, 2);
    assert_eq!(a.cpu().pc(), 3);
    assert_eq!(a.cpu().reg(16), 3);
    let mut b = device(&[ldi(30, 4), ldi(31, 0), 0x9409, 0, ldi(17, 1)]);
    run(&mut b, 2);
    assert_eq!(b.execute(), Ok(2));
    assert_eq!(b.cpu().pc(), 4);
}

#[test]
fn set_button_state_matches_set_button() {
    let mut a = device(&button_program());
    a.set_button_state(Button::A, true);
    a.execute_for_a_frame().unwrap();
    assert_eq!(a.cpu().reg(16), 1);
}

#[test]
fn buttons_read_low_when_held() {
    // IN r16, PINF with Up held; IN r17, PINB with B held
    let in_ = |d: u16, a: u16| 0xb000 | ((a & 0x30) << 5) | (d << 4) | (a & 0x0f);
    let mut a = device(&[in_(16, 0x0f), in_(17, 0x03)]);
    a.set_button(Button::Up, true);
    a.set_button(Button::B, true);
    run(&mut a, 2);
    assert_eq!(a.cpu().reg(16), 0x7f);
    assert_eq!(a.cpu().reg(17), 0xef);
}

#[test]
fn unmapped_io_reads_zero_and_ignores_writes() {
    let mut cpu = arduous::ATmega32u4::new();
    let mut board = arduous::Board { display: arduous::SSD1306::new(), buttons: arduous::ButtonState::released() };
    assert_eq!(cpu.data_store(&mut board, 0x30, 0x55), Ok(()));
    assert_eq!(cpu.data_load(&board, 0x30), Ok(0));
    assert_eq!(cpu.data_store(&mut board, 0xc0, 0x55), Ok(()));
    assert_eq!(cpu.data_load(&board, 0xc0), Ok(0));
    // the port D latch keeps its value
    assert_eq!(cpu.data_store(&mut board, 0x2b, 0x10), Ok(()));
    assert_eq!(cpu.data_load(&board, 0x2b), Ok(0x10));
    // SRAM and registers keep theirs
    assert_eq!(cpu.data_store(&mut board, 0x0300, 0x77), Ok(()));
    assert_eq!(cpu.data_load(&board, 0x0300), Ok(0x77));
    assert_eq!(cpu.data_store(&mut board, 0x05, 0x66), Ok(()));
    assert_eq!(cpu.data_load(&board, 0x05), Ok(0x66));
    assert_eq!(cpu.reg(5), 0x66);
}

#[test]
fn out_to_unmapped_io_then_in_reads_zero() {
    let in_ = |d: u16, a: u16| 0xb000 | ((a & 0x30) << 5) | (d << 4) | (a & 0x0f);
    let mut a = device(&[ldi(16, 0x55), out(0x10, 16), in_(17, 0x10)]);
    a.set_button(Button::Left, false);
    run(&mut a, 3);
    assert_eq!(a.cpu().reg(17), 0);
}

#[test]
fn data_load_beyond_data_space_is_bad_address() {
    let cpu = arduous::ATmega32u4::new();
    let board = arduous::Board { display: arduous::SSD1306::new(), buttons: arduous::ButtonState::released() };
    assert_eq!(cpu.data_load(&board, 0x0b00), Err(EmuError::BadAddress { pc: 0, addr: 0x0b00 }));
    assert_eq!(cpu.data_load(&board, 0x0aff), Ok(0));
}
