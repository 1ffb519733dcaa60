use emu16::alu::Operation;
use emu16::run::Outcome;
use emu16::state::{Cpu, Pointer, RegisterMemory};

fn cpu_with(program: &[u8]) -> Cpu {
    let mut cpu = Cpu::new();
    cpu.load_program(program);
    cpu
}

fn reg16(cpu: &mut Cpu, n: u8) -> u16 {
    let p = Cpu::get_register(n);
    cpu.read16(&p)
}

fn set_reg16(cpu: &mut Cpu, n: u8, v: u16) {
    let p = Cpu::get_register(n);
    cpu.write16(&p, v);
}

#[test]
fn new_cpu_is_reset() {
    let mut cpu = Cpu::new();
    assert_eq!(cpu.ip, 0);
    assert!(!cpu.cf && !cpu.zf && !cpu.sf);
    assert_eq!(cpu.memory.len(), 65536);
    assert!(cpu.memory.iter().all(|&b| b == 0));
    assert_eq!(reg16(&mut cpu, 4), 0x100);
    assert_eq!(reg16(&mut cpu, 0), 0);
}

#[test]
fn add_zero_is_identity_with_flags() {
    let mut cpu = Cpu::new();
    let r = cpu.alu(Operation::Add, 0x8000, 0);
    assert_eq!(r, 0x8000);
    assert!(!cpu.cf);
    assert!(!cpu.zf);
    assert!(cpu.sf);
    let r = cpu.alu(Operation::Add, 0, 0);
    assert_eq!(r, 0);
    assert!(cpu.zf);
    assert!(!cpu.sf);
}

#[test]
fn bitwise_ops_clear_carry() {
    let mut cpu = Cpu::new();
    cpu.cf = true;
    assert_eq!(cpu.alu(Operation::And, 0xFF0F, 0x00FF), 0x000F);
    assert!(!cpu.cf);
    cpu.cf = true;
    assert_eq!(cpu.alu(Operation::Or, 0xF000, 0x000F), 0xF00F);
    assert!(!cpu.cf);
    cpu.cf = true;
    assert_eq!(cpu.alu(Operation::Xor, 0xFFFF, 0x0F0F), 0xF0F0);
    assert!(!cpu.cf);
}

#[test]
fn sub_then_add_round_trips() {
    let mut cpu = Cpu::new();
    let d = cpu.alu(Operation::Sub, 0x1234, 0x5678);
    assert_eq!(d, 0xBBBC);
    assert!(cpu.cf); // borrow
    let r = cpu.alu(Operation::Add, d, 0x5678);
    assert_eq!(r, 0x1234);
}

#[test]
fn add_with_carry_detection() {
    let mut cpu = Cpu::new();
    let r = cpu.alu(Operation::Add, 0xFFFF, 1);
    assert_eq!(r, 0);
    assert!(cpu.cf);
    assert!(cpu.zf);
    assert!(!cpu.sf);
}

#[test]
fn adc_adds_incoming_carry() {
    let mut cpu = Cpu::new();
    cpu.cf = true;
    assert_eq!(cpu.alu(Operation::Adc, 1, 1), 3);
    assert!(!cpu.cf);
    cpu.cf = false;
    assert_eq!(cpu.alu(Operation::Adc, 1, 1), 2);
}

#[test]
fn sbb_subtracts_incoming_borrow() {
    let mut cpu = Cpu::new();
    cpu.cf = true;
    assert_eq!(cpu.alu(Operation::Sbb, 5, 2), 2);
    cpu.cf = false;
    assert_eq!(cpu.alu(Operation::Sbb, 5, 2), 3);
}

#[test]
fn sub_borrow_wraps_and_sets_carry() {
    let mut cpu = Cpu::new();
    let r = cpu.alu(Operation::Sub, 0, 1);
    assert_eq!(r, 0xFFFF);
    assert!(cpu.cf);
    assert!(cpu.sf);
    assert!(!cpu.zf);
}

#[test]
fn cmp_reports_first_operand_but_sets_flags() {
    let mut cpu = Cpu::new();
    let r = cpu.alu(Operation::Cmp, 3, 5);
    assert_eq!(r, 3);
    assert!(cpu.cf); // 3 - 5 borrows
    assert!(!cpu.zf);
    assert!(cpu.sf); // 0xFFFE has its top bit set
}

#[test]
fn operation_from_u8_covers_exactly_eight_codes() {
    assert_eq!(Operation::from_u8(0), Some(Operation::Add));
    assert_eq!(Operation::from_u8(1), Some(Operation::Or));
    assert_eq!(Operation::from_u8(2), Some(Operation::Adc));
    assert_eq!(Operation::from_u8(3), Some(Operation::Sbb));
    assert_eq!(Operation::from_u8(4), Some(Operation::And));
    assert_eq!(Operation::from_u8(5), Some(Operation::Sub));
    assert_eq!(Operation::from_u8(6), Some(Operation::Xor));
    assert_eq!(Operation::from_u8(7), Some(Operation::Cmp));
    assert_eq!(Operation::from_u8(8), None);
    assert_eq!(Operation::from_u8(255), None);
}

#[test]
fn push_pop_returns_value_and_restores_stack_pointer() {
    let mut cpu = Cpu::new();
    let sp_before = reg16(&mut cpu, 4);
    assert_eq!(sp_before, 0x100);
    cpu.push16(0xABCD);
    assert_eq!(reg16(&mut cpu, 4), 0x00FE);
    let v = cpu.pop16();
    assert_eq!(v, 0xABCD);
    assert_eq!(reg16(&mut cpu, 4), sp_before);
}

#[test]
fn push_stores_little_endian_below_stack_top() {
    let mut cpu = Cpu::new();
    cpu.push16(0xABCD);
    assert_eq!(cpu.memory[0x100], 0xAB); // high byte pushed first
    assert_eq!(cpu.memory[0x0FF], 0xCD); // low byte below it
}

#[test]
fn push_pop_round_trips_at_stack_pointer_wraparound() {
    let mut cpu = Cpu::new();
    set_reg16(&mut cpu, 4, 0);
    cpu.push16(0x1234);
    assert_eq!(reg16(&mut cpu, 4), 0xFFFE);
    let v = cpu.pop16();
    assert_eq!(v, 0x1234);
    assert_eq!(reg16(&mut cpu, 4), 0);
}

#[test]
fn increment_then_decrement_restores_register() {
    for &start in &[0x0000u16, 0xFFFF, 0x7FFF, 0x1234] {
        let mut cpu = cpu_with(&[0x40, 0x48, 0xF4]);
        set_reg16(&mut cpu, 0, start);
        assert_eq!(cpu.run(), Outcome::Running);
        assert_eq!(reg16(&mut cpu, 0), start.wrapping_add(1));
        assert_eq!(cpu.run(), Outcome::Running);
        assert_eq!(reg16(&mut cpu, 0), start);
        assert_eq!(cpu.run(), Outcome::Halted);
    }
}

#[test]
fn increment_wraps_and_sets_zero_flag() {
    let mut cpu = cpu_with(&[0x47, 0xF4]);
    set_reg16(&mut cpu, 7, 0xFFFF);
    assert_eq!(cpu.run(), Outcome::Running);
    assert_eq!(reg16(&mut cpu, 7), 0);
    assert!(cpu.zf);
    assert!(!cpu.sf);
}

#[test]
fn decrement_wraps_and_sets_sign_flag() {
    let mut cpu = cpu_with(&[0x49, 0xF4]);
    set_reg16(&mut cpu, 1, 0);
    assert_eq!(cpu.run(), Outcome::Running);
    assert_eq!(reg16(&mut cpu, 1), 0xFFFF);
    assert!(!cpu.zf);
    assert!(cpu.sf);
}

#[test]
fn conditional_jump_not_taken_still_consumes_displacement() {
    let mut cpu = cpu_with(&[0x74, 0x10, 0xF4]);
    assert!(!cpu.zf);
    assert_eq!(cpu.run(), Outcome::Running);
    assert_eq!(cpu.ip, 2); // past opcode and displacement, branch not applied
    assert_eq!(cpu.run(), Outcome::Halted);
}

#[test]
fn conditional_jump_taken_adds_offset() {
    let mut cpu = cpu_with(&[0x74, 0x10]);
    cpu.zf = true;
    assert_eq!(cpu.run(), Outcome::Running);
    assert_eq!(cpu.ip, 0x12);
}

#[test]
fn conditional_jump_backward_displacement_is_signed() {
    let mut cpu = cpu_with(&[0x74, 0xFE]);
    cpu.zf = true;
    assert_eq!(cpu.run(), Outcome::Running);
    assert_eq!(cpu.ip, 0); // 2 + (-2)
}

#[test]
fn jump_conditions_follow_flags() {
    // carry set: 0x72 taken, 0x77 (above) not taken, 0x76 (below-or-equal) taken
    let mut cpu = cpu_with(&[0x72, 0x02]);
    cpu.cf = true;
    cpu.run();
    assert_eq!(cpu.ip, 4);

    let mut cpu = cpu_with(&[0x77, 0x02]);
    cpu.cf = true;
    cpu.run();
    assert_eq!(cpu.ip, 2);

    let mut cpu = cpu_with(&[0x76, 0x02]);
    cpu.zf = true;
    cpu.run();
    assert_eq!(cpu.ip, 4);

    // sign clear: 0x79 taken
    let mut cpu = cpu_with(&[0x79, 0x02]);
    cpu.run();
    assert_eq!(cpu.ip, 4);

    let mut cpu = cpu_with(&[0x75, 0x02]);
    cpu.zf = true;
    cpu.run();
    assert_eq!(cpu.ip, 2);
}

#[test]
fn unconditional_short_jump() {
    let mut cpu = cpu_with(&[0xEB, 0x03]);
    assert_eq!(cpu.run(), Outcome::Running);
    assert_eq!(cpu.ip, 5);
}

#[test]
fn sign_extension_of_bytes() {
    assert_eq!(Cpu::sign_extend(0xFF), 0xFFFF);
    assert_eq!(Cpu::sign_extend(0x7F), 0x007F);
    assert_eq!(Cpu::sign_extend(0x80), 0xFF80);
    assert_eq!(Cpu::sign_extend(0x00), 0x0000);
}

#[test]
fn word_conversions_round_trip() {
    assert_eq!(Cpu::to16(0x34, 0x12), 0x1234);
    assert_eq!(Cpu::to8s(0x1234), (0x34, 0x12));
    assert_eq!(Cpu::to16(0x00, 0xFF), 0xFF00);
    assert_eq!(Cpu::to8s(0x00FF), (0xFF, 0x00));
}

#[test]
fn move_immediate_then_halt() {
    // move immediate 0x0005 into register 0, then halt: exactly two steps
    let mut cpu = cpu_with(&[0xB8, 0x05, 0x00, 0xF4]);
    assert_eq!(cpu.run(), Outcome::Running);
    assert_eq!(cpu.run(), Outcome::Halted);
    assert_eq!(reg16(&mut cpu, 0), 0x0005);
}

#[test]
fn second_byte_move_overwrites_first() {
    let mut cpu = cpu_with(&[0xB0, 0x02, 0xB0, 0x03, 0x90, 0xF4]);
    assert_eq!(cpu.run(), Outcome::Running);
    assert_eq!(cpu.run(), Outcome::Running);
    assert_eq!(cpu.run(), Outcome::Running); // no-op
    assert_eq!(cpu.run(), Outcome::Halted);
    assert_eq!(cpu.regs[0], 0x03);
}

#[test]
fn byte_move_leaves_register_high_byte_alone() {
    let mut cpu = cpu_with(&[0xB1, 0xAA, 0xF4]);
    set_reg16(&mut cpu, 1, 0x1234);
    assert_eq!(cpu.run(), Outcome::Running);
    assert_eq!(reg16(&mut cpu, 1), 0x12AA);
}

#[test]
fn unsupported_opcode_reports_byte_and_stops() {
    let mut cpu = cpu_with(&[0xF1]);
    assert_eq!(cpu.run(), Outcome::UnsupportedOpcode(0xF1));
    assert_eq!(cpu.ip, 1); // only the opcode byte was consumed
    assert_eq!(reg16(&mut cpu, 0), 0);
}

#[test]
fn invalid_addressing_mode_is_reported() {
    // mode 00 with r/m 000 is not in the addressing table
    let mut cpu = cpu_with(&[0xC7, 0x00, 0x34, 0x12]);
    assert_eq!(cpu.run(), Outcome::InvalidAddressing);
}

#[test]
fn invalid_secondary_field_on_byte_incdec() {
    // mod/rm 0xD0: register operand, but secondary field 2 selects nothing
    let mut cpu = cpu_with(&[0xFE, 0xD0]);
    assert_eq!(cpu.run(), Outcome::InvalidAddressing);
}

#[test]
fn register_to_rm_arithmetic_16bit() {
    // add reg1 into reg0: opcode 0x01, mod/rm 11 001 000
    let mut cpu = cpu_with(&[0x01, 0xC8, 0xF4]);
    set_reg16(&mut cpu, 0, 0x0FFF);
    set_reg16(&mut cpu, 1, 0x0001);
    assert_eq!(cpu.run(), Outcome::Running);
    assert_eq!(reg16(&mut cpu, 0), 0x1000);
    assert!(!cpu.cf && !cpu.zf && !cpu.sf);
}

#[test]
fn register_to_rm_or_16bit() {
    // or reg1 into reg0: opcode 0x09, mod/rm 11 001 000
    let mut cpu = cpu_with(&[0x09, 0xC8, 0xF4]);
    set_reg16(&mut cpu, 0, 0x00F0);
    set_reg16(&mut cpu, 1, 0x000F);
    assert_eq!(cpu.run(), Outcome::Running);
    assert_eq!(reg16(&mut cpu, 0), 0x00FF);
    assert!(!cpu.cf && !cpu.zf && !cpu.sf);
}

#[test]
fn immediate_arithmetic_8bit_group() {
    // add immediate 5 to reg1's low byte: 0x80, mod/rm 11 000 001
    let mut cpu = cpu_with(&[0x80, 0xC1, 0x05, 0xF4]);
    set_reg16(&mut cpu, 1, 0x0110);
    assert_eq!(cpu.run(), Outcome::Running);
    assert_eq!(reg16(&mut cpu, 1), 0x0115);
}

#[test]
fn immediate_arithmetic_16bit_group() {
    // add immediate 0x1234 to reg3: 0x81, mod/rm 11 000 011
    let mut cpu = cpu_with(&[0x81, 0xC3, 0x34, 0x12, 0xF4]);
    set_reg16(&mut cpu, 3, 0x1111);
    assert_eq!(cpu.run(), Outcome::Running);
    assert_eq!(reg16(&mut cpu, 3), 0x2345);
}

#[test]
fn immediate_arithmetic_sign_extended_group() {
    // subtract 1 from reg0 (16-bit, sign-extended byte): 0x83, mod/rm 11 101 000
    let mut cpu = cpu_with(&[0x83, 0xE8, 0x01, 0xF4]);
    set_reg16(&mut cpu, 0, 0);
    assert_eq!(cpu.run(), Outcome::Running);
    assert_eq!(reg16(&mut cpu, 0), 0xFFFF);
    assert!(cpu.cf);
    assert!(cpu.sf);
}

#[test]
fn add_immediate_to_accumulator_low_byte() {
    // 0x04: sign-extended byte add on AL
    let mut cpu = cpu_with(&[0x04, 0xFF, 0xF4]);
    set_reg16(&mut cpu, 0, 0x0001);
    assert_eq!(cpu.run(), Outcome::Running);
    assert_eq!(cpu.regs[0], 0x00); // 1 + (-1) wraps to 0
    assert!(cpu.cf); // wrapped sum is below the first operand
    assert!(cpu.zf);
}

#[test]
fn compare_immediate_with_accumulator_low_byte() {
    let mut cpu = cpu_with(&[0x3C, 0x05, 0xF4]);
    set_reg16(&mut cpu, 0, 0x0005);
    assert_eq!(cpu.run(), Outcome::Running);
    assert!(cpu.zf); // equal
    assert_eq!(reg16(&mut cpu, 0), 0x0005); // compare stores nothing
}

#[test]
fn and_register_with_rm_8bit() {
    // 0x20: and reg0's low byte into reg1's low byte: mod/rm 11 000 001
    let mut cpu = cpu_with(&[0x20, 0xC1, 0xF4]);
    set_reg16(&mut cpu, 0, 0x00F0);
    set_reg16(&mut cpu, 1, 0x00FF);
    assert_eq!(cpu.run(), Outcome::Running);
    assert_eq!(cpu.regs[2], 0xF0);
    assert!(!cpu.cf);
}

#[test]
fn move_between_register_and_memory_direct_address() {
    // move immediate to memory at direct address 0x2000: 0xC7, mod 00 r/m 110
    let mut cpu = cpu_with(&[0xC7, 0x06, 0x00, 0x20, 0xCD, 0xAB, 0xF4]);
    assert_eq!(cpu.run(), Outcome::Running);
    assert_eq!(cpu.memory[0x2000], 0xCD);
    assert_eq!(cpu.memory[0x2001], 0xAB);
    assert_eq!(cpu.run(), Outcome::Halted);
}

#[test]
fn addressing_mode_base_plus_index() {
    // mov reg1's low byte from memory at BX + DI: 0x8A, mod/rm 00 001 001
    let mut cpu = cpu_with(&[0x8A, 0x09, 0xF4]);
    set_reg16(&mut cpu, 3, 0x1000);
    set_reg16(&mut cpu, 7, 0x0010);
    cpu.memory[0x1010] = 0x77;
    assert_eq!(cpu.run(), Outcome::Running);
    assert_eq!(cpu.regs[2], 0x77);
}

#[test]
fn addressing_mode_bx_indirect() {
    // mov reg0's low byte from memory at BX: 0x8A, mod/rm 00 000 111
    let mut cpu = cpu_with(&[0x8A, 0x07, 0xF4]);
    set_reg16(&mut cpu, 3, 0x4321);
    cpu.memory[0x4321] = 0x5A;
    assert_eq!(cpu.run(), Outcome::Running);
    assert_eq!(cpu.regs[0], 0x5A);
}

#[test]
fn addressing_mode_bp_di_signed_displacement() {
    // mov reg3 from memory at BP + DI + signed byte: 0x8B, mod/rm 01 011 011
    let mut cpu = cpu_with(&[0x8B, 0x5B, 0xFE, 0xF4]);
    set_reg16(&mut cpu, 5, 0x2000);
    set_reg16(&mut cpu, 7, 0x0010);
    cpu.memory[0x200E] = 0x34; // 0x2000 + 0x10 - 2
    cpu.memory[0x200F] = 0x12;
    assert_eq!(cpu.run(), Outcome::Running);
    assert_eq!(reg16(&mut cpu, 3), 0x1234);
}

#[test]
fn addressing_mode_di_plus_word_displacement() {
    // mov reg0 from memory at DI + 0x3000: 0x8B, mod/rm 10 000 101
    let mut cpu = cpu_with(&[0x8B, 0x85, 0x00, 0x30, 0xF4]);
    set_reg16(&mut cpu, 7, 0x0010);
    cpu.memory[0x3010] = 0xCC;
    cpu.memory[0x3011] = 0x01;
    assert_eq!(cpu.run(), Outcome::Running);
    assert_eq!(reg16(&mut cpu, 0), 0x01CC);
}

#[test]
fn addressing_mode_bx_plus_word_displacement() {
    // mov memory at BX + 0x0100 from reg1: 0x89, mod/rm 10 001 111
    let mut cpu = cpu_with(&[0x89, 0x8F, 0x00, 0x01, 0xF4]);
    set_reg16(&mut cpu, 3, 0x5000);
    set_reg16(&mut cpu, 1, 0xBEEF);
    assert_eq!(cpu.run(), Outcome::Running);
    assert_eq!(cpu.memory[0x5100], 0xEF);
    assert_eq!(cpu.memory[0x5101], 0xBE);
}

#[test]
fn move_rm_to_register_16bit() {
    // mov reg2 from reg6: 0x8B, mod/rm 11 010 110
    let mut cpu = cpu_with(&[0x8B, 0xD6, 0xF4]);
    set_reg16(&mut cpu, 6, 0x7777);
    assert_eq!(cpu.run(), Outcome::Running);
    assert_eq!(reg16(&mut cpu, 2), 0x7777);
}

#[test]
fn move_register_to_rm_8bit() {
    // mov reg1's low byte from reg0's low byte: 0x88, mod/rm 11 000 001
    let mut cpu = cpu_with(&[0x88, 0xC1, 0xF4]);
    set_reg16(&mut cpu, 0, 0x00EE);
    assert_eq!(cpu.run(), Outcome::Running);
    assert_eq!(cpu.regs[2], 0xEE);
}

#[test]
fn push_then_pop_through_instructions() {
    // push reg0, pop reg3
    let mut cpu = cpu_with(&[0x50, 0x5B, 0xF4]);
    set_reg16(&mut cpu, 0, 0xBEEF);
    assert_eq!(cpu.run(), Outcome::Running);
    assert_eq!(cpu.run(), Outcome::Running);
    assert_eq!(reg16(&mut cpu, 3), 0xBEEF);
    assert_eq!(reg16(&mut cpu, 4), 0x100); // stack pointer restored
    assert_eq!(cpu.run(), Outcome::Halted);
}

#[test]
fn call_pushes_return_address_and_ret_returns() {
    let mut cpu = cpu_with(&[0xE8, 0x01, 0x00, 0xF4, 0xC3]);
    assert_eq!(cpu.run(), Outcome::Running); // call to 4
    assert_eq!(cpu.ip, 4);
    assert_eq!(cpu.memory[0x100], 0x00); // return address 0x0003, high byte
    assert_eq!(cpu.memory[0x0FF], 0x03); // low byte
    assert_eq!(cpu.run(), Outcome::Running); // ret back to 3
    assert_eq!(cpu.ip, 3);
    assert_eq!(reg16(&mut cpu, 4), 0x100);
    assert_eq!(cpu.run(), Outcome::Halted);
}

#[test]
fn exchange_register_with_accumulator() {
    let mut cpu = cpu_with(&[0x91, 0xF4]);
    set_reg16(&mut cpu, 0, 0x1111);
    set_reg16(&mut cpu, 1, 0x2222);
    assert_eq!(cpu.run(), Outcome::Running);
    assert_eq!(reg16(&mut cpu, 0), 0x2222);
    assert_eq!(reg16(&mut cpu, 1), 0x1111);
}

#[test]
fn exchange_8bit_register_with_rm() {
    // xchg reg0's low byte with reg1's low byte: 0x86, mod/rm 11 000 001
    let mut cpu = cpu_with(&[0x86, 0xC1, 0xF4]);
    set_reg16(&mut cpu, 0, 0x00AA);
    set_reg16(&mut cpu, 1, 0x00BB);
    assert_eq!(cpu.run(), Outcome::Running);
    assert_eq!(cpu.regs[0], 0xBB);
    assert_eq!(cpu.regs[2], 0xAA);
}

#[test]
fn byte_increment_and_decrement_rm() {
    // inc reg0's low byte: 0xFE, mod/rm 11 000 000
    let mut cpu = cpu_with(&[0xFE, 0xC0, 0xF4]);
    set_reg16(&mut cpu, 0, 0x12FF);
    assert_eq!(cpu.run(), Outcome::Running);
    assert_eq!(reg16(&mut cpu, 0), 0x1200); // only the low byte wraps
    assert!(cpu.zf);

    // dec reg1's low byte: 0xFE, mod/rm 11 001 001
    let mut cpu = cpu_with(&[0xFE, 0xC9, 0xF4]);
    set_reg16(&mut cpu, 1, 0x0000);
    assert_eq!(cpu.run(), Outcome::Running);
    assert_eq!(reg16(&mut cpu, 1), 0x00FF);
    assert!(cpu.sf); // 0xFF sign-extends negative
}

#[test]
fn set_carry_flag_instruction() {
    let mut cpu = cpu_with(&[0xF9, 0xF4]);
    assert_eq!(cpu.run(), Outcome::Running);
    assert!(cpu.cf);
    assert_eq!(cpu.run(), Outcome::Halted);
}

#[test]
fn word_access_wraps_at_top_of_memory() {
    let mut cpu = Cpu::new();
    let p = Pointer { rm: RegisterMemory::Memory, offset: 0xFFFF };
    cpu.write16(&p, 0x1234);
    assert_eq!(cpu.memory[0xFFFF], 0x34);
    assert_eq!(cpu.memory[0x0000], 0x12);
    assert_eq!(cpu.read16(&p), 0x1234);
}

#[test]
fn word_access_wraps_inside_register_file() {
    let mut cpu = Cpu::new();
    let p = Pointer { rm: RegisterMemory::Register, offset: 15 };
    cpu.write16(&p, 0xABCD);
    assert_eq!(cpu.regs[15], 0xCD);
    assert_eq!(cpu.regs[0], 0xAB); // wraps to the start of the register file
    assert_eq!(cpu.read16(&p), 0xABCD);
}

#[test]
fn load_program_truncates_and_keeps_rest() {
    let mut cpu = Cpu::new();
    let image = vec![0x5Au8; 70000];
    cpu.load_program(&image);
    assert_eq!(cpu.memory.len(), 65536);
    assert_eq!(cpu.memory[0], 0x5A);
    assert_eq!(cpu.memory[65535], 0x5A);
    assert_eq!(cpu.ip, 0);
    assert_eq!(reg16(&mut cpu, 4), 0x100);
}

#[test]
fn load_program_leaves_tail_zeroed() {
    let mut cpu = Cpu::new();
    cpu.load_program(&[1, 2, 3]);
    assert_eq!(cpu.memory[0], 1);
    assert_eq!(cpu.memory[1], 2);
    assert_eq!(cpu.memory[2], 3);
    assert_eq!(cpu.memory[3], 0);
    assert_eq!(cpu.memory[65535], 0);
}

#[test]
fn render_window_maps_zero_to_space() {
    let mut cpu = Cpu::new();
    cpu.memory[0x8000] = b'H';
    cpu.memory[0x8001] = b'i';
    cpu.memory[0x8000 + 80] = b'!'; // first cell of the second row
    let window = cpu.render_window();
    assert_eq!(window.len(), 2000);
    assert_eq!(window[0], b'H');
    assert_eq!(window[1], b'i');
    assert_eq!(window[2], b' ');
    assert_eq!(window[80], b'!');
    assert_eq!(window[1999], b' ');
}

#[test]
fn instruction_pointer_wraps_at_top_of_memory() {
    let mut cpu = Cpu::new();
    cpu.memory[0xFFFF] = 0x90; // no-op at the very top of the segment
    cpu.memory[0x0000] = 0xF4;
    cpu.ip = 0xFFFF;
    assert_eq!(cpu.run(), Outcome::Running);
    assert_eq!(cpu.ip, 0);
    assert_eq!(cpu.run(), Outcome::Halted);
}

#[test]
fn adc_wraps_silently_at_the_extreme() {
    // carry in with an all-ones operand: the sum wraps a full 2^16, so the
    // wrapped result equals the first operand and the less-than heuristic
    // reports no carry
    let mut cpu = Cpu::new();
    cpu.cf = true;
    let r = cpu.alu(Operation::Adc, 5, 0xFFFF);
    assert_eq!(r, 5);
    assert!(!cpu.cf);
}

#[test]
fn sbb_wraps_silently_at_the_extreme() {
    let mut cpu = Cpu::new();
    cpu.cf = true;
    let r = cpu.alu(Operation::Sbb, 5, 0xFFFF);
    assert_eq!(r, 5);
    assert!(!cpu.cf);
}
