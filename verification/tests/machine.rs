use dmg01::cpu::CPU;
use dmg01::cpu::DecodeError;
use dmg01::instructions::ArithmeticSource;
use dmg01::instructions::Instruction;
use dmg01::memory::Cartridge;

/// A machine whose boot overlay is already switched off, so the cartridge
/// bytes are the program the processor fetches from address zero.
fn machine_running(rom: Vec<u8>) -> CPU {
    let mut cpu = CPU::new(Some(Cartridge { rom }));
    cpu.bus.write_byte(1, 0xFF50);
    cpu
}

#[test]
fn add_b_keeps_accumulator_and_costs_four_cycles() {
    let mut cpu = machine_running(vec![0x80]);
    cpu.registers.a = 0x3C;
    cpu.registers.b = 0x00;
    let cycles = cpu.step_single_instruction().unwrap();
    assert_eq!(cpu.registers.a, 0x3C);
    assert_eq!(cycles, 4);
    assert_eq!(cpu.registers.pc, 1);
    assert!(!cpu.registers.f.zero);
    assert!(!cpu.registers.f.subtract);
    assert!(!cpu.registers.f.half_carry);
    assert!(!cpu.registers.f.carry);
}

#[test]
fn add_overflow_sets_carry_half_carry_and_zero() {
    let mut cpu = machine_running(vec![0x80]);
    cpu.registers.a = 0xFF;
    cpu.registers.b = 0x01;
    cpu.step_single_instruction().unwrap();
    assert_eq!(cpu.registers.a, 0x00);
    assert!(cpu.registers.f.zero);
    assert!(cpu.registers.f.carry);
    assert!(cpu.registers.f.half_carry);
    assert!(!cpu.registers.f.subtract);
}

#[test]
fn xor_accumulator_with_itself_clears_it() {
    let mut cpu = machine_running(vec![0xAF]);
    cpu.registers.a = 0x5A;
    cpu.step_single_instruction().unwrap();
    assert_eq!(cpu.registers.a, 0x00);
    assert!(cpu.registers.f.zero);
    assert!(!cpu.registers.f.carry);
    assert!(!cpu.registers.f.half_carry);
}

#[test]
fn push_bc_writes_both_stack_bytes() {
    let mut cpu = machine_running(vec![0xC5]);
    cpu.registers.set_bc(0x1234);
    cpu.registers.sp = 0xFFFE;
    let cycles = cpu.step_single_instruction().unwrap();
    assert_eq!(cpu.bus.read_byte(0xFFFD), 0x12);
    assert_eq!(cpu.bus.read_byte(0xFFFC), 0x34);
    assert_eq!(cpu.registers.sp, 0xFFFC);
    assert_eq!(cycles, 16);
}

#[test]
fn push_then_pop_restores_value_and_stack_pointer() {
    let mut cpu = machine_running(vec![0xC5, 0xD1]);
    cpu.registers.set_bc(0xABCD);
    cpu.registers.sp = 0xFFFE;
    cpu.step_single_instruction().unwrap();
    cpu.step_single_instruction().unwrap();
    assert_eq!(cpu.registers.get_de(), 0xABCD);
    assert_eq!(cpu.registers.sp, 0xFFFE);
}

#[test]
fn undefined_opcode_reports_decode_error_without_corrupting_state() {
    let mut cpu = machine_running(vec![0xD3]);
    cpu.registers.a = 0x77;
    let result = cpu.step_single_instruction();
    assert_eq!(result, Err(DecodeError { opcode: 0xD3, prefixed: false }));
    assert_eq!(cpu.registers.pc, 0);
    assert_eq!(cpu.registers.a, 0x77);
}

#[test]
fn taken_backwards_relative_jump_returns_to_its_own_address() {
    let mut cpu = machine_running(vec![0x20, 0xFE]);
    let cycles = cpu.step_single_instruction().unwrap();
    assert_eq!(cpu.registers.pc, 0);
    assert_eq!(cycles, 12);
}

#[test]
fn untaken_relative_jump_falls_through() {
    let mut cpu = machine_running(vec![0x28, 0xFE]);
    let cycles = cpu.step_single_instruction().unwrap();
    assert_eq!(cpu.registers.pc, 2);
    assert_eq!(cycles, 8);
}

#[test]
fn daa_corrects_a_bcd_sum() {
    let mut cpu = machine_running(vec![0xC6, 0x27, 0x27]);
    cpu.registers.a = 0x15;
    cpu.step_single_instruction().unwrap();
    assert_eq!(cpu.registers.a, 0x3C);
    cpu.step_single_instruction().unwrap();
    assert_eq!(cpu.registers.a, 0x42);
    assert!(!cpu.registers.f.carry);
    assert!(!cpu.registers.f.half_carry);
}

#[test]
fn and_immediate_sets_half_carry_and_clears_carry() {
    let mut cpu = machine_running(vec![0xE6, 0x0F]);
    cpu.registers.a = 0x3C;
    cpu.step_single_instruction().unwrap();
    assert_eq!(cpu.registers.a, 0x0C);
    assert!(!cpu.registers.f.zero);
    assert!(!cpu.registers.f.subtract);
    assert!(cpu.registers.f.half_carry);
    assert!(!cpu.registers.f.carry);
}

#[test]
fn and_with_disjoint_bits_sets_zero() {
    let mut cpu = machine_running(vec![0xE6, 0x0F]);
    cpu.registers.a = 0xF0;
    cpu.step_single_instruction().unwrap();
    assert_eq!(cpu.registers.a, 0x00);
    assert!(cpu.registers.f.zero);
    assert!(cpu.registers.f.half_carry);
    assert!(!cpu.registers.f.carry);
}

#[test]
fn stop_enters_the_halt_state() {
    let mut cpu = machine_running(vec![0x10, 0x00]);
    let cycles = cpu.step_single_instruction().unwrap();
    assert_eq!(cycles, 4);
    assert_eq!(cpu.registers.pc, 2);
    assert!(cpu.halted);
}

#[test]
fn halt_wakes_and_services_a_pending_enabled_interrupt() {
    let mut cpu = machine_running(vec![0x76]);
    cpu.registers.sp = 0xFFFE;
    cpu.step_single_instruction().unwrap();
    assert!(cpu.halted);
    cpu.bus.write_byte(0x01, 0xFFFF);
    cpu.bus.write_byte(0x01, 0xFF0F);
    let cycles = cpu.step_single_instruction().unwrap();
    assert_eq!(cycles, 4);
    assert!(!cpu.halted);
    assert_eq!(cpu.registers.pc, 0x40);
    assert_eq!(cpu.bus.read_byte(0xFF0F), 0x00);
    assert!(!cpu.interrupt_master_enable);
}

#[test]
fn halt_wakes_without_servicing_when_master_enable_is_off() {
    let mut cpu = machine_running(vec![0xF3, 0x76, 0x04]);
    cpu.step_single_instruction().unwrap();
    cpu.step_single_instruction().unwrap();
    assert!(cpu.halted);
    cpu.bus.write_byte(0x01, 0xFFFF);
    cpu.bus.write_byte(0x01, 0xFF0F);
    cpu.step_single_instruction().unwrap();
    assert!(!cpu.halted);
    assert_eq!(cpu.registers.pc, 2);
    assert_eq!(cpu.bus.read_byte(0xFF0F), 0x01);
    cpu.step_single_instruction().unwrap();
    assert_eq!(cpu.registers.b, 1);
}

#[test]
fn halt_spends_fixed_ticks_without_fetching() {
    let mut cpu = machine_running(vec![0x76, 0x04]);
    let cycles = cpu.step_single_instruction().unwrap();
    assert_eq!(cycles, 4);
    assert_eq!(cpu.registers.pc, 1);
    for _ in 0..100 {
        assert_eq!(cpu.step_single_instruction(), Ok(4));
        assert_eq!(cpu.registers.pc, 1);
        assert_eq!(cpu.registers.b, 0);
    }
}

#[test]
fn vblank_is_serviced_before_timer_and_only_once() {
    let mut cpu = machine_running(vec![0x00]);
    cpu.registers.sp = 0xFFFE;
    cpu.bus.write_byte(0x05, 0xFFFF);
    cpu.bus.write_byte(0x05, 0xFF0F);
    cpu.step_single_instruction().unwrap();
    assert_eq!(cpu.registers.pc, 0x40);
    assert_eq!(cpu.bus.read_byte(0xFF0F), 0x04);
    assert!(!cpu.interrupt_master_enable);
    assert_eq!(cpu.bus.read_byte(0xFFFD), 0x00);
    assert_eq!(cpu.bus.read_byte(0xFFFC), 0x01);
}

#[test]
fn interrupts_are_not_serviced_with_master_enable_clear() {
    let mut cpu = machine_running(vec![0xF3, 0x00]);
    cpu.bus.write_byte(0x01, 0xFFFF);
    cpu.bus.write_byte(0x01, 0xFF0F);
    cpu.step_single_instruction().unwrap();
    cpu.step_single_instruction().unwrap();
    assert_eq!(cpu.registers.pc, 2);
    assert_eq!(cpu.bus.read_byte(0xFF0F), 0x01);
}

#[test]
fn load_immediate_word_and_memory_write() {
    let mut cpu = machine_running(vec![0x21, 0x00, 0xC0, 0x36, 0x99]);
    cpu.step_single_instruction().unwrap();
    assert_eq!(cpu.registers.get_hl(), 0xC000);
    cpu.step_single_instruction().unwrap();
    assert_eq!(cpu.bus.read_byte(0xC000), 0x99);
}

#[test]
fn add_sp_uses_low_byte_carries() {
    let mut cpu = machine_running(vec![0xE8, 0x01]);
    cpu.registers.sp = 0x00FF;
    let cycles = cpu.step_single_instruction().unwrap();
    assert_eq!(cpu.registers.sp, 0x0100);
    assert!(cpu.registers.f.carry);
    assert!(cpu.registers.f.half_carry);
    assert!(!cpu.registers.f.zero);
    assert_eq!(cycles, 16);
}

#[test]
fn prefixed_bit_test_reads_register_bits() {
    let mut cpu = machine_running(vec![0xCB, 0x7C]);
    cpu.registers.h = 0x80;
    let cycles = cpu.step_single_instruction().unwrap();
    assert!(!cpu.registers.f.zero);
    assert!(cpu.registers.f.half_carry);
    assert_eq!(cpu.registers.pc, 2);
    assert_eq!(cycles, 8);
}

#[test]
fn rotate_left_through_carry_moves_carry_into_bit_zero() {
    let mut cpu = machine_running(vec![0x37, 0x17]);
    cpu.registers.a = 0x80;
    cpu.step_single_instruction().unwrap();
    cpu.step_single_instruction().unwrap();
    assert_eq!(cpu.registers.a, 0x01);
    assert!(cpu.registers.f.carry);
    assert!(!cpu.registers.f.zero);
}

#[test]
fn decoder_matches_the_published_table_corners() {
    assert_eq!(Instruction::from_byte(0x00, false), Some(Instruction::NOP));
    assert_eq!(Instruction::from_byte(0x76, false), Some(Instruction::HALT));
    assert_eq!(Instruction::from_byte(0x80, false), Some(Instruction::ADD(ArithmeticSource::B)));
    assert_eq!(Instruction::from_byte(0xFF, false), Some(Instruction::RST(0x38)));
    assert_eq!(Instruction::from_byte(0xCB, false), None);
    assert_eq!(Instruction::from_byte(0x10, false), Some(Instruction::STOP));
    for byte in [0xD3u8, 0xDB, 0xDD, 0xE3, 0xE4, 0xEB, 0xEC, 0xED, 0xF4, 0xFC, 0xFD] {
        assert_eq!(Instruction::from_byte(byte, false), None);
    }
    for byte in 0..=255u8 {
        assert!(Instruction::from_byte(byte, true).is_some());
    }
    assert_eq!(
        Instruction::from_byte(0x40, true),
        Some(Instruction::BIT(0, ArithmeticSource::B))
    );
    assert_eq!(
        Instruction::from_byte(0xFF, true),
        Some(Instruction::SET(7, ArithmeticSource::A))
    );
}

#[test]
fn set_af_drops_the_low_flag_nibble() {
    let mut cpu = machine_running(vec![0x00]);
    cpu.registers.set_af(0x12FF);
    assert_eq!(cpu.registers.get_af(), 0x12F0);
    assert!(cpu.registers.f.zero);
    assert!(cpu.registers.f.carry);
}

#[test]
fn boot_rom_overlays_low_memory_until_disabled() {
    let cpu = CPU::new(Some(Cartridge { rom: vec![0xAA, 0xBB] }));
    assert_eq!(cpu.bus.read_byte(0x0000), 0x31);
    let mut cpu = cpu;
    cpu.bus.write_byte(1, 0xFF50);
    assert_eq!(cpu.bus.read_byte(0x0000), 0xAA);
    assert_eq!(cpu.bus.read_byte(0x0001), 0xBB);
    assert_eq!(cpu.bus.read_byte(0x0002), 0x00);
}
