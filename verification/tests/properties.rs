use mos6502::instructions;
use mos6502::memory::{Memory, MAX_PROGRAM_LEN, PROGRAM_BASE, RESET_VECTOR};
use mos6502::opcode::{AddressingMode, OpCode, ProcessorAction};
use mos6502::processor::Processor;
use mos6502::state::{CpuFault, ExecutionState};
use mos6502::status_flags::CPUStatusFlags;
use mos6502::table::{cpu_opcodes, find_opcode};

fn ready(program: Vec<u8>) -> Processor {
    let mut cpu = Processor::new();
    assert_eq!(cpu.load(program), Ok(()));
    cpu.reset();
    cpu
}

#[test]
fn zero_negative_for_every_value_and_prior_state() {
    for raw in 0..=255u8 {
        for value in [0u8, 1, 0x7f, 0x80, 0xff, raw] {
            let mut flags = CPUStatusFlags::from_raw(raw);
            flags.zero_negative_flags(value);
            assert_eq!(flags.zero(), value == 0);
            assert_eq!(flags.negative(), value & 0x80 != 0);
            assert_eq!(flags.raw() & 0b0111_1101, raw & 0b0111_1101);
        }
    }
}

#[test]
fn power_up_flags_are_the_always_set_bit() {
    let flags = CPUStatusFlags::default();
    assert_eq!(flags.raw(), 0b0010_0000);
    assert!(flags.dummy_flag());
    assert!(!flags.negative() && !flags.overflow() && !flags.b_flag());
    assert!(!flags.decimal() && !flags.interrupt_disable() && !flags.zero() && !flags.carry());
}

#[test]
fn flags_pack_from_the_top_bit_down() {
    assert_eq!(CPUStatusFlags::new(true, false, false, false, false, false, false, false).raw(), 0x80);
    assert_eq!(CPUStatusFlags::new(false, true, false, false, false, false, false, false).raw(), 0x40);
    assert_eq!(CPUStatusFlags::new(false, false, true, false, false, false, false, false).raw(), 0x20);
    assert_eq!(CPUStatusFlags::new(false, false, false, true, false, false, false, false).raw(), 0x10);
    assert_eq!(CPUStatusFlags::new(false, false, false, false, true, false, false, false).raw(), 0x08);
    assert_eq!(CPUStatusFlags::new(false, false, false, false, false, true, false, false).raw(), 0x04);
    assert_eq!(CPUStatusFlags::new(false, false, false, false, false, false, true, false).raw(), 0x02);
    assert_eq!(CPUStatusFlags::new(false, false, false, false, false, false, false, true).raw(), 0x01);
    assert_eq!(CPUStatusFlags::new(true, true, true, true, true, true, true, true).raw(), 0xff);
}

#[test]
fn flag_reads_follow_the_packed_byte() {
    for raw in 0..=255u8 {
        let flags = CPUStatusFlags::from_raw(raw);
        assert_eq!(flags.raw(), raw);
        assert_eq!(flags.negative(), raw & 0x80 != 0);
        assert_eq!(flags.overflow(), raw & 0x40 != 0);
        assert_eq!(flags.dummy_flag(), raw & 0x20 != 0);
        assert_eq!(flags.b_flag(), raw & 0x10 != 0);
        assert_eq!(flags.decimal(), raw & 0x08 != 0);
        assert_eq!(flags.interrupt_disable(), raw & 0x04 != 0);
        assert_eq!(flags.zero(), raw & 0x02 != 0);
        assert_eq!(flags.carry(), raw & 0x01 != 0);
    }
}

#[test]
fn flag_writes_change_one_bit() {
    for raw in 0..=255u8 {
        for value in [false, true] {
            let bit = u8::from(value);
            let mut flags = CPUStatusFlags::from_raw(raw);
            flags.set_negative(value);
            assert_eq!(flags.raw(), (raw & !0x80) | (bit << 7));
            let mut flags = CPUStatusFlags::from_raw(raw);
            flags.set_overflow(value);
            assert_eq!(flags.raw(), (raw & !0x40) | (bit << 6));
            let mut flags = CPUStatusFlags::from_raw(raw);
            flags.set_dummy_flag(value);
            assert_eq!(flags.raw(), (raw & !0x20) | (bit << 5));
            let mut flags = CPUStatusFlags::from_raw(raw);
            flags.set_b_flag(value);
            assert_eq!(flags.raw(), (raw & !0x10) | (bit << 4));
            let mut flags = CPUStatusFlags::from_raw(raw);
            flags.set_decimal(value);
            assert_eq!(flags.raw(), (raw & !0x08) | (bit << 3));
            let mut flags = CPUStatusFlags::from_raw(raw);
            flags.set_interrupt_disable(value);
            assert_eq!(flags.raw(), (raw & !0x04) | (bit << 2));
            let mut flags = CPUStatusFlags::from_raw(raw);
            flags.set_zero(value);
            assert_eq!(flags.raw(), (raw & !0x02) | (bit << 1));
            let mut flags = CPUStatusFlags::from_raw(raw);
            flags.set_carry(value);
            assert_eq!(flags.raw(), (raw & !0x01) | bit);
        }
    }
}

#[test]
fn new_processor_is_in_power_up_state() {
    let cpu = Processor::new();
    assert_eq!(cpu.register_a, 0);
    assert_eq!(cpu.register_x, 0);
    assert_eq!(cpu.register_y, 0);
    assert_eq!(cpu.register_s, 0);
    assert_eq!(cpu.program_counter, 0);
    assert_eq!(cpu.status.raw(), 0b0010_0000);
    assert_eq!(cpu.mem_read(0x0000), 0);
    assert_eq!(cpu.mem_read(0x8000), 0);
    assert_eq!(cpu.mem_read(0xffff), 0);
}

#[test]
fn memory_is_backed_at_the_top_address() {
    let mut cpu = Processor::new();
    cpu.mem_write(0xffff, 0xab);
    assert_eq!(cpu.mem_read(0xffff), 0xab);
    assert_eq!(cpu.mem_read(0xfffe), 0);
    assert_eq!(cpu.mem_read(0x0000), 0);
    let mut mem = Memory::new();
    mem.write(0xffff, 0x5a);
    assert_eq!(mem.read(0xffff), 0x5a);
}

#[test]
fn words_are_little_endian() {
    let mut cpu = Processor::new();
    cpu.mem_write_u16(0x1234, 0xbeef);
    assert_eq!(cpu.mem_read(0x1234), 0xef);
    assert_eq!(cpu.mem_read(0x1235), 0xbe);
    assert_eq!(cpu.mem_read_u16(0x1234), 0xbeef);
    cpu.mem_write(0x2000, 0x34);
    cpu.mem_write(0x2001, 0x12);
    assert_eq!(cpu.mem_read_u16(0x2000), 0x1234);
    cpu.mem_write_u16(0xfffe, 0xa1b2);
    assert_eq!(cpu.mem_read(0xfffe), 0xb2);
    assert_eq!(cpu.mem_read(0xffff), 0xa1);
    assert_eq!(cpu.mem_read_u16(0xfffe), 0xa1b2);
}

#[test]
fn load_copies_to_the_base_and_sets_the_reset_vector() {
    let mut cpu = Processor::new();
    cpu.mem_write(0x7fff, 0x11);
    cpu.mem_write(0x8003, 0x22);
    assert_eq!(cpu.load(vec![0xa9, 0x05, 0x00]), Ok(()));
    assert_eq!(cpu.mem_read(0x7fff), 0x11);
    assert_eq!(cpu.mem_read(0x8000), 0xa9);
    assert_eq!(cpu.mem_read(0x8001), 0x05);
    assert_eq!(cpu.mem_read(0x8002), 0x00);
    assert_eq!(cpu.mem_read(0x8003), 0x22);
    assert_eq!(cpu.mem_read(RESET_VECTOR), 0x00);
    assert_eq!(cpu.mem_read(RESET_VECTOR + 1), 0x80);
    assert_eq!(cpu.mem_read_u16(RESET_VECTOR), PROGRAM_BASE);
    assert_eq!(cpu.program_counter, 0);
}

#[test]
fn load_takes_a_program_up_to_the_top_of_memory() {
    let mut cpu = Processor::new();
    assert_eq!(cpu.load(vec![0xea; MAX_PROGRAM_LEN]), Ok(()));
    assert_eq!(cpu.mem_read(0x8000), 0xea);
    assert_eq!(cpu.mem_read(0xfffb), 0xea);
    assert_eq!(cpu.mem_read(0xfffc), 0x00);
    assert_eq!(cpu.mem_read(0xfffd), 0x80);
    assert_eq!(cpu.mem_read(0xfffe), 0xea);
    assert_eq!(cpu.mem_read(0xffff), 0xea);
}

#[test]
fn load_refuses_a_program_that_is_too_long() {
    let mut cpu = Processor::new();
    cpu.mem_write(0x8000, 0x77);
    let length = MAX_PROGRAM_LEN + 1;
    assert_eq!(cpu.load(vec![0xea; length]), Err(CpuFault::ProgramTooLarge { length }));
    assert_eq!(cpu.mem_read(0x8000), 0x77);
    assert_eq!(cpu.mem_read_u16(RESET_VECTOR), 0);
    assert_eq!(
        cpu.load_and_run(vec![0xea; length]),
        ExecutionState::Faulted(CpuFault::ProgramTooLarge { length })
    );
    assert_eq!(cpu.mem_read(0x8000), 0x77);
    assert_eq!(cpu.program_counter, 0);
}

#[test]
fn reset_restores_registers_and_keeps_memory() {
    let mut cpu = Processor::new();
    cpu.register_a = 1;
    cpu.register_x = 2;
    cpu.register_y = 3;
    cpu.register_s = 4;
    cpu.status = CPUStatusFlags::from_raw(0xff);
    cpu.mem_write(0x10, 0x99);
    cpu.mem_write_u16(RESET_VECTOR, 0x1234);
    cpu.reset();
    assert_eq!(cpu.register_a, 0);
    assert_eq!(cpu.register_x, 0);
    assert_eq!(cpu.register_y, 0);
    assert_eq!(cpu.register_s, 0);
    assert_eq!(cpu.status.raw(), 0b0010_0000);
    assert_eq!(cpu.program_counter, 0x1234);
    assert_eq!(cpu.mem_read(0x10), 0x99);
}

#[test]
fn zero_page_indexed_wraps_within_page_zero() {
    let mut cpu = Processor::new();
    cpu.program_counter = 0x0200;
    cpu.mem_write(0x0200, 0xff);
    cpu.register_x = 0x02;
    cpu.register_y = 0x03;
    assert_eq!(cpu.get_operand_address(&AddressingMode::ZeroPage_X), 0x0001);
    assert_eq!(cpu.get_operand_address(&AddressingMode::ZeroPage_Y), 0x0002);
    for operand in [0x00u8, 0x7f, 0x80, 0xfe, 0xff] {
        for index in [0x00u8, 0x01, 0x80, 0xff] {
            cpu.mem_write(0x0200, operand);
            cpu.register_x = index;
            let addr = cpu.get_operand_address(&AddressingMode::ZeroPage_X);
            assert!(addr < 0x100);
            assert_eq!(addr, u16::from(operand.wrapping_add(index)));
        }
    }
}

#[test]
fn each_addressing_mode_resolves_its_address() {
    let mut cpu = Processor::new();
    cpu.program_counter = 0x0300;
    cpu.register_x = 0x04;
    cpu.register_y = 0x10;
    cpu.mem_write(0x0300, 0x20);
    cpu.mem_write(0x0301, 0x40);
    assert_eq!(cpu.get_operand_address(&AddressingMode::Immediate), 0x0300);
    assert_eq!(cpu.get_operand_address(&AddressingMode::ZeroPage), 0x0020);
    assert_eq!(cpu.get_operand_address(&AddressingMode::ZeroPage_X), 0x0024);
    assert_eq!(cpu.get_operand_address(&AddressingMode::ZeroPage_Y), 0x0030);
    assert_eq!(cpu.get_operand_address(&AddressingMode::Absolute), 0x4020);
    assert_eq!(cpu.get_operand_address(&AddressingMode::Absolute_X), 0x4024);
    assert_eq!(cpu.get_operand_address(&AddressingMode::Absolute_Y), 0x4030);
    cpu.mem_write(0x0024, 0x74);
    cpu.mem_write(0x0025, 0x20);
    assert_eq!(cpu.get_operand_address(&AddressingMode::Indirect_X), 0x2074);
    cpu.mem_write(0x0020, 0x28);
    cpu.mem_write(0x0021, 0x40);
    assert_eq!(cpu.get_operand_address(&AddressingMode::Indirect_Y), 0x4038);
    assert_eq!(cpu.get_operand_address(&AddressingMode::Relative), 0x0321);
}

#[test]
fn absolute_indexed_wraps_at_sixteen_bits() {
    let mut cpu = Processor::new();
    cpu.program_counter = 0x0300;
    cpu.mem_write_u16(0x0300, 0xffff);
    cpu.register_x = 0x02;
    cpu.register_y = 0xff;
    assert_eq!(cpu.get_operand_address(&AddressingMode::Absolute_X), 0x0001);
    assert_eq!(cpu.get_operand_address(&AddressingMode::Absolute_Y), 0x00fe);
}

#[test]
fn indirect_pointers_stay_in_page_zero() {
    let mut cpu = Processor::new();
    cpu.program_counter = 0x0300;
    cpu.mem_write(0x0300, 0xfe);
    cpu.register_x = 0x01;
    cpu.mem_write(0x00ff, 0x34);
    cpu.mem_write(0x0000, 0x12);
    cpu.mem_write(0x0100, 0x99);
    assert_eq!(cpu.get_operand_address(&AddressingMode::Indirect_X), 0x1234);
    cpu.mem_write(0x0300, 0xff);
    cpu.register_y = 0x01;
    assert_eq!(cpu.get_operand_address(&AddressingMode::Indirect_Y), 0x1235);
    cpu.mem_write(0x00ff, 0xff);
    cpu.mem_write(0x0000, 0xff);
    cpu.register_y = 0x02;
    assert_eq!(cpu.get_operand_address(&AddressingMode::Indirect_Y), 0x0001);
}

#[test]
fn relative_targets_go_both_ways_and_wrap() {
    let mut cpu = Processor::new();
    cpu.program_counter = 0x8001;
    cpu.mem_write(0x8001, 0x02);
    assert_eq!(cpu.get_operand_address(&AddressingMode::Relative), 0x8004);
    cpu.mem_write(0x8001, 0xfe);
    assert_eq!(cpu.get_operand_address(&AddressingMode::Relative), 0x8000);
    cpu.mem_write(0x8001, 0x80);
    assert_eq!(cpu.get_operand_address(&AddressingMode::Relative), 0x7f82);
    cpu.mem_write(0x8001, 0x7f);
    assert_eq!(cpu.get_operand_address(&AddressingMode::Relative), 0x8081);
    cpu.program_counter = 0x0000;
    cpu.mem_write(0x0000, 0xf0);
    assert_eq!(cpu.get_operand_address(&AddressingMode::Relative), 0xfff1);
    cpu.program_counter = 0xfff0;
    cpu.mem_write(0xfff0, 0x7f);
    assert_eq!(cpu.get_operand_address(&AddressingMode::Relative), 0x0070);
}

#[test]
fn branch_moves_past_the_offset_when_not_taken() {
    let mut cpu = Processor::new();
    cpu.program_counter = 0x8001;
    cpu.mem_write(0x8001, 0x10);
    cpu.branch(false);
    assert_eq!(cpu.program_counter, 0x8002);
    cpu.program_counter = 0x8001;
    cpu.branch(true);
    assert_eq!(cpu.program_counter, 0x8012);
}

#[test]
fn branch_not_taken_fetches_the_next_instruction() {
    let mut cpu = Processor::new();
    let outcome = cpu.load_and_run(vec![0xb0, 0x02, 0xa9, 0x05, 0x00]);
    assert_eq!(outcome, ExecutionState::Halted);
    assert_eq!(cpu.register_a, 0x05);
    assert_eq!(cpu.program_counter, 0x8005);

    let mut cpu = Processor::new();
    let outcome = cpu.load_and_run(vec![0xf0, 0xa9, 0xe8, 0x00]);
    assert_eq!(outcome, ExecutionState::Halted);
    assert_eq!(cpu.register_a, 0x00);
    assert_eq!(cpu.register_x, 0x01);

    let mut cpu = Processor::new();
    let outcome = cpu.load_and_run(vec![0xa9, 0xff, 0x69, 0x01, 0x90, 0x02, 0xa9, 0x07, 0x00]);
    assert_eq!(outcome, ExecutionState::Halted);
    assert_eq!(cpu.register_a, 0x07);
}

#[test]
fn branch_not_taken_steps_two_bytes() {
    let mut cpu = ready(vec![0xb0, 0x7f, 0xe8]);
    assert_eq!(cpu.step(), ExecutionState::Running);
    assert_eq!(cpu.program_counter, 0x8002);
    assert_eq!(cpu.register_a, 0);
    assert_eq!(cpu.status.raw(), 0b0010_0000);
    assert_eq!(cpu.step(), ExecutionState::Running);
    assert_eq!(cpu.register_x, 1);
    assert_eq!(cpu.program_counter, 0x8003);
}

#[test]
fn branch_backwards_is_taken() {
    let mut cpu = ready(vec![0xe8, 0xf0, 0xfd, 0x00]);
    cpu.register_x = 0xff;
    assert_eq!(cpu.run_for(100), ExecutionState::Halted);
    assert_eq!(cpu.register_x, 0x01);
}

#[test]
fn adc_carry_and_zero() {
    let mut cpu = Processor::new();
    let outcome = cpu.load_and_run(vec![0xa9, 0xff, 0x69, 0x01, 0x00]);
    assert_eq!(outcome, ExecutionState::Halted);
    assert_eq!(cpu.register_a, 0x00);
    assert!(cpu.status.carry());
    assert!(cpu.status.zero());
    assert!(!cpu.status.negative());
    assert!(!cpu.status.overflow());
}

#[test]
fn adc_signed_overflow() {
    let mut cpu = Processor::new();
    let outcome = cpu.load_and_run(vec![0xa9, 0x40, 0x69, 0x40, 0x00]);
    assert_eq!(outcome, ExecutionState::Halted);
    assert_eq!(cpu.register_a, 0x80);
    assert!(cpu.status.overflow());
    assert!(cpu.status.negative());
    assert!(!cpu.status.carry());
    assert!(!cpu.status.zero());
}

#[test]
fn adc_adds_the_carry_in() {
    let mut cpu = Processor::new();
    let outcome = cpu.load_and_run(vec![0xa9, 0xff, 0x69, 0x01, 0x69, 0x10, 0x00]);
    assert_eq!(outcome, ExecutionState::Halted);
    assert_eq!(cpu.register_a, 0x11);
    assert!(!cpu.status.carry());
}

#[test]
fn addition_matches_arithmetic_for_every_pair() {
    let mut cpu = Processor::new();
    for a in 0..=255u8 {
        for data in [0u8, 1, 0x3f, 0x40, 0x7f, 0x80, 0x81, 0xc0, 0xff, a] {
            for carry in [false, true] {
                cpu.register_a = a;
                cpu.status = CPUStatusFlags::from_raw(0b0010_0000);
                cpu.status.set_carry(carry);
                instructions::register_a_add(&mut cpu, data);
                let sum = u16::from(a) + u16::from(data) + u16::from(carry);
                let signed_sum = i16::from(a as i8) + i16::from(data as i8) + i16::from(carry);
                assert_eq!(cpu.register_a, (sum & 0xff) as u8);
                assert_eq!(cpu.status.carry(), sum > 0xff);
                assert_eq!(cpu.status.overflow(), !(-128..=127).contains(&signed_sum));
            }
        }
    }
}

#[test]
fn sbc_borrows_when_carry_is_clear() {
    let mut cpu = Processor::new();
    let outcome = cpu.load_and_run(vec![0xa9, 0x06, 0xe9, 0x04, 0x00]);
    assert_eq!(outcome, ExecutionState::Halted);
    assert_eq!(cpu.register_a, 0x01);
    assert!(cpu.status.carry());

    let mut cpu = Processor::new();
    let outcome = cpu.load_and_run(vec![0xa9, 0x06, 0xe9, 0x04, 0xe9, 0x01, 0x00]);
    assert_eq!(outcome, ExecutionState::Halted);
    assert_eq!(cpu.register_a, 0x00);
    assert!(cpu.status.zero());

    let mut cpu = Processor::new();
    let outcome = cpu.load_and_run(vec![0xa9, 0x00, 0xe9, 0x00, 0x00]);
    assert_eq!(outcome, ExecutionState::Halted);
    assert_eq!(cpu.register_a, 0xff);
    assert!(!cpu.status.carry());
    assert!(cpu.status.negative());
}

#[test]
fn and_masks_the_accumulator() {
    let mut cpu = Processor::new();
    cpu.mem_write(0x10, 0b0010_0010);
    let outcome = cpu.load_and_run(vec![0xa9, 0xff, 0x25, 0x10, 0x00]);
    assert_eq!(outcome, ExecutionState::Halted);
    assert_eq!(cpu.register_a, 0b0010_0010);
    assert!(!cpu.status.zero());
    let mut cpu = Processor::new();
    let outcome = cpu.load_and_run(vec![0xa9, 0xf0, 0x29, 0x0f, 0x00]);
    assert_eq!(outcome, ExecutionState::Halted);
    assert_eq!(cpu.register_a, 0);
    assert!(cpu.status.zero());
}

#[test]
fn asl_accumulator_shifts_into_carry() {
    let mut cpu = Processor::new();
    let outcome = cpu.load_and_run(vec![0xa9, 0x40, 0x0a, 0x00]);
    assert_eq!(outcome, ExecutionState::Halted);
    assert_eq!(cpu.register_a, 0x80);
    assert!(!cpu.status.carry());
    assert!(cpu.status.negative());
    let mut cpu = Processor::new();
    let outcome = cpu.load_and_run(vec![0xa9, 0x40, 0x0a, 0x0a, 0x00]);
    assert_eq!(outcome, ExecutionState::Halted);
    assert_eq!(cpu.register_a, 0x00);
    assert!(cpu.status.carry());
    assert!(cpu.status.zero());
    assert!(!cpu.status.negative());
}

#[test]
fn asl_memory_writes_back() {
    let mut cpu = Processor::new();
    cpu.mem_write(0x10, 0xc1);
    let outcome = cpu.load_and_run(vec![0xa9, 0x33, 0x06, 0x10, 0x00]);
    assert_eq!(outcome, ExecutionState::Halted);
    assert_eq!(cpu.mem_read(0x10), 0x82);
    assert_eq!(cpu.register_a, 0x33);
    assert!(cpu.status.carry());
    assert!(cpu.status.negative());
    assert!(!cpu.status.zero());
}

#[test]
fn bit_stores_the_result_and_sets_flags() {
    let mut cpu = Processor::new();
    cpu.mem_write(0x10, 0b1100_0000);
    let outcome = cpu.load_and_run(vec![0xa9, 0xff, 0x24, 0x10, 0x00]);
    assert_eq!(outcome, ExecutionState::Halted);
    assert_eq!(cpu.register_a, 0b1100_0000);
    assert!(cpu.status.overflow());
    assert!(cpu.status.negative());
    assert!(!cpu.status.zero());
    let mut cpu = Processor::new();
    cpu.mem_write(0x1234, 0x0f);
    let outcome = cpu.load_and_run(vec![0xa9, 0xf0, 0x2c, 0x34, 0x12, 0x00]);
    assert_eq!(outcome, ExecutionState::Halted);
    assert_eq!(cpu.register_a, 0);
    assert!(cpu.status.zero());
    assert!(!cpu.status.overflow());
    assert!(!cpu.status.negative());
}

#[test]
fn lda_in_every_mode() {
    let mut cpu = Processor::new();
    cpu.mem_write(0x0010, 0x11);
    cpu.mem_write(0x0012, 0x22);
    cpu.mem_write(0x1234, 0x33);
    cpu.mem_write(0x1236, 0x44);
    cpu.mem_write(0x0020, 0x36);
    cpu.mem_write(0x0021, 0x12);
    assert_eq!(cpu.load(vec![0xe8, 0xe8, 0xa5, 0x10, 0xb5, 0x10, 0xad, 0x34, 0x12, 0xbd, 0x34, 0x12, 0xa1, 0x1e, 0xb1, 0x20, 0x00]), Ok(()));
    cpu.reset();
    assert_eq!(cpu.run_for(3), ExecutionState::Running);
    assert_eq!(cpu.register_a, 0x11);
    assert_eq!(cpu.step(), ExecutionState::Running);
    assert_eq!(cpu.register_a, 0x22);
    assert_eq!(cpu.step(), ExecutionState::Running);
    assert_eq!(cpu.register_a, 0x33);
    assert_eq!(cpu.step(), ExecutionState::Running);
    assert_eq!(cpu.register_a, 0x44);
    assert_eq!(cpu.program_counter, 0x800c);
    assert_eq!(cpu.step(), ExecutionState::Running);
    assert_eq!(cpu.register_a, 0x44);
    assert_eq!(cpu.program_counter, 0x800e);
    cpu.register_a = 0;
    assert_eq!(cpu.step(), ExecutionState::Running);
    assert_eq!(cpu.register_a, 0x44);
    assert_eq!(cpu.program_counter, 0x8010);
    assert_eq!(cpu.step(), ExecutionState::Halted);
    assert_eq!(cpu.program_counter, 0x8011);
}

#[test]
fn sta_changes_no_flag() {
    let mut cpu = ready(vec![0x8d, 0x00, 0x02, 0x00]);
    cpu.register_a = 0x80;
    cpu.status = CPUStatusFlags::from_raw(0b0110_0011);
    assert_eq!(cpu.step(), ExecutionState::Running);
    assert_eq!(cpu.mem_read(0x0200), 0x80);
    assert_eq!(cpu.status.raw(), 0b0110_0011);
    assert_eq!(cpu.program_counter, 0x8003);
}

#[test]
fn tax_and_inx_update_zero_and_negative() {
    let mut cpu = Processor::new();
    let outcome = cpu.load_and_run(vec![0xa9, 0xff, 0xaa, 0x00]);
    assert_eq!(outcome, ExecutionState::Halted);
    assert_eq!(cpu.register_x, 0xff);
    assert!(cpu.status.negative());
    let outcome = cpu.load_and_run(vec![0xa9, 0xff, 0xaa, 0xe8, 0x00]);
    assert_eq!(outcome, ExecutionState::Halted);
    assert_eq!(cpu.register_x, 0x00);
    assert!(cpu.status.zero());
    assert!(!cpu.status.negative());
}

#[test]
fn five_ops_halt_with_x_set() {
    let mut cpu = Processor::new();
    let outcome = cpu.load_and_run(vec![0xa9, 0xc0, 0xaa, 0xe8, 0x00]);
    assert_eq!(outcome, ExecutionState::Halted);
    assert_eq!(cpu.register_x, 0xc1);
    assert_eq!(cpu.register_a, 0xc0);
    assert_eq!(cpu.program_counter, 0x8005);
}

#[test]
fn unknown_byte_faults_with_byte_and_address() {
    let mut cpu = Processor::new();
    let outcome = cpu.load_and_run(vec![0xff]);
    assert_eq!(
        outcome,
        ExecutionState::Faulted(CpuFault::UnrecognizedOpcode { byte: 0xff, address: 0x8000 })
    );
    assert_eq!(cpu.program_counter, 0x8000);
    let outcome = cpu.load_and_run(vec![0xa9, 0x01, 0x02, 0x00]);
    assert_eq!(
        outcome,
        ExecutionState::Faulted(CpuFault::UnrecognizedOpcode { byte: 0x02, address: 0x8002 })
    );
    assert_eq!(cpu.register_a, 0x01);
    assert_eq!(cpu.step(), outcome);
}

#[test]
fn unwired_kind_faults_as_unimplemented() {
    let mut cpu = Processor::new();
    cpu.program_counter = 0x0400;
    let opcode = OpCode::new(0x18, ProcessorAction::CLC, 1, 2, AddressingMode::NoneAddressing);
    assert_eq!(
        cpu.execute(&opcode),
        ExecutionState::Faulted(CpuFault::UnimplementedOpcode { byte: 0x18, address: 0x0400 })
    );
    assert_eq!(cpu.program_counter, 0x0400);
}

#[test]
fn resolving_without_a_mode_faults() {
    let mut cpu = Processor::new();
    cpu.program_counter = 0x0400;
    let opcode = OpCode::new(0x69, ProcessorAction::ADC, 1, 2, AddressingMode::NoneAddressing);
    assert_eq!(
        cpu.execute(&opcode),
        ExecutionState::Faulted(CpuFault::InvalidAddressingMode { byte: 0x69, address: 0x0400 })
    );
    assert_eq!(cpu.program_counter, 0x0400);
    assert_eq!(cpu.register_a, 0);
}

#[test]
fn instruction_past_the_top_of_memory_faults() {
    let fault = ExecutionState::Faulted(CpuFault::AddressOutOfRange { address: 0xffff });
    let mut cpu = Processor::new();
    cpu.program_counter = 0xffff;
    assert_eq!(cpu.step(), fault);
    assert_eq!(cpu.program_counter, 0xffff);

    let mut cpu = Processor::new();
    cpu.program_counter = 0xfffe;
    cpu.mem_write(0xfffe, 0xa9);
    cpu.mem_write(0xffff, 0x01);
    assert_eq!(
        cpu.step(),
        ExecutionState::Faulted(CpuFault::AddressOutOfRange { address: 0xfffe })
    );
    assert_eq!(cpu.register_a, 0);
    cpu.program_counter = 0xfffd;
    cpu.mem_write(0xfffd, 0xa9);
    cpu.mem_write(0xfffe, 0x07);
    assert_eq!(cpu.step(), ExecutionState::Running);
    assert_eq!(cpu.register_a, 0x07);
    assert_eq!(cpu.program_counter, 0xffff);

    let mut cpu = Processor::new();
    cpu.program_counter = 0xfffe;
    cpu.mem_write(0xfffe, 0x90);
    assert_eq!(
        cpu.step(),
        ExecutionState::Faulted(CpuFault::AddressOutOfRange { address: 0xfffe })
    );
    cpu.mem_write(0xfffe, 0x00);
    assert_eq!(cpu.step(), ExecutionState::Halted);
    assert_eq!(cpu.program_counter, 0xffff);
}

#[test]
fn fits_tells_when_an_instruction_reaches_past_the_top() {
    let mut cpu = Processor::new();
    let lda = OpCode::new(0xad, ProcessorAction::LDA, 3, 4, AddressingMode::Absolute);
    cpu.program_counter = 0xfffc;
    assert!(cpu.fits(&lda));
    cpu.program_counter = 0xfffd;
    assert!(!cpu.fits(&lda));
    let inx = OpCode::new(0xe8, ProcessorAction::INX, 1, 2, AddressingMode::NoneAddressing);
    cpu.program_counter = 0xfffe;
    assert!(cpu.fits(&inx));
    cpu.program_counter = 0xffff;
    assert!(!cpu.fits(&inx));
    let empty = OpCode::new(0xa9, ProcessorAction::LDA, 0, 2, AddressingMode::Immediate);
    cpu.program_counter = 0x8000;
    assert!(!cpu.fits(&empty));
}

#[test]
fn run_for_stops_at_the_limit() {
    let mut cpu = ready(vec![0xe8, 0x90, 0xfd]);
    assert_eq!(cpu.run_for(0), ExecutionState::Running);
    assert_eq!(cpu.register_x, 0);
    assert_eq!(cpu.program_counter, 0x8000);
    assert_eq!(cpu.run_for(7), ExecutionState::Running);
    assert_eq!(cpu.register_x, 4);
    assert_eq!(cpu.program_counter, 0x8001);
    assert_eq!(cpu.run_for(1), ExecutionState::Running);
    assert_eq!(cpu.program_counter, 0x8000);
}

#[test]
fn a_finished_run_stays_finished() {
    let mut first = ready(vec![0xa9, 0x05, 0x00]);
    let mut second = ready(vec![0xa9, 0x05, 0x00]);
    assert_eq!(first.run_for(2), ExecutionState::Halted);
    assert_eq!(second.run_for(1000), ExecutionState::Halted);
    assert_eq!(first.program_counter, second.program_counter);
    assert_eq!(first.register_a, second.register_a);
    assert_eq!(first.status.raw(), second.status.raw());
}

#[test]
fn a_run_keeps_the_unused_state() {
    let mut cpu = ready(vec![0xa9, 0xff, 0x69, 0x01, 0x0a, 0x85, 0x10, 0x24, 0x10, 0xaa, 0xe8, 0x00]);
    cpu.register_s = 0x42;
    cpu.register_y = 0x24;
    cpu.status = CPUStatusFlags::from_raw(0b0011_1100);
    assert_eq!(cpu.run(), ExecutionState::Halted);
    assert_eq!(cpu.register_s, 0x42);
    assert_eq!(cpu.register_y, 0x24);
    assert_eq!(cpu.status.raw() & 0b0011_1100, 0b0011_1100);
}

#[test]
fn handlers_advance_past_their_operands() {
    let mut cpu = Processor::new();
    cpu.program_counter = 0x8001;
    let opcode = OpCode::new(0x6d, ProcessorAction::ADC, 3, 4, AddressingMode::Absolute);
    instructions::advance_program_counter(&mut cpu, &opcode);
    assert_eq!(cpu.program_counter, 0x8003);
    cpu.mem_write_u16(0x8003, 0x0200);
    cpu.mem_write(0x0200, 0x21);
    instructions::lda(&mut cpu, &opcode);
    assert_eq!(cpu.register_a, 0x21);
    assert_eq!(cpu.program_counter, 0x8005);
    cpu.mem_write_u16(0x8005, 0x0200);
    instructions::adc(&mut cpu, &opcode);
    assert_eq!(cpu.register_a, 0x42);
    assert_eq!(cpu.program_counter, 0x8007);
    cpu.mem_write_u16(0x8007, 0x0200);
    instructions::sbc(&mut cpu, &opcode);
    assert_eq!(cpu.register_a, 0x20);
    cpu.mem_write_u16(0x8009, 0x0200);
    instructions::and(&mut cpu, &opcode);
    assert_eq!(cpu.register_a, 0x20);
    cpu.mem_write_u16(0x800b, 0x0201);
    instructions::sta(&mut cpu, &opcode);
    assert_eq!(cpu.mem_read(0x0201), 0x20);
    cpu.mem_write_u16(0x800d, 0x0201);
    instructions::asl(&mut cpu, &opcode);
    assert_eq!(cpu.mem_read(0x0201), 0x40);
    cpu.mem_write_u16(0x800f, 0x0201);
    cpu.register_a = 0xff;
    instructions::bit(&mut cpu, &opcode);
    assert_eq!(cpu.register_a, 0x40);
    assert!(cpu.status.overflow());
    assert_eq!(cpu.program_counter, 0x8011);
    let implied = OpCode::new(0x0a, ProcessorAction::ASL, 1, 2, AddressingMode::NoneAddressing);
    instructions::asl_accumulator(&mut cpu, &implied);
    assert_eq!(cpu.register_a, 0x80);
    assert_eq!(cpu.program_counter, 0x8011);
    instructions::tax(&mut cpu);
    assert_eq!(cpu.register_x, 0x80);
    instructions::inx(&mut cpu);
    assert_eq!(cpu.register_x, 0x81);
    assert_eq!(cpu.program_counter, 0x8011);
}

#[test]
fn branch_handlers_test_their_flag() {
    let mut cpu = Processor::new();
    cpu.mem_write(0x0400, 0x10);
    cpu.program_counter = 0x0400;
    instructions::bcc(&mut cpu);
    assert_eq!(cpu.program_counter, 0x0411);
    cpu.program_counter = 0x0400;
    instructions::bcs(&mut cpu);
    assert_eq!(cpu.program_counter, 0x0401);
    cpu.program_counter = 0x0400;
    instructions::beq(&mut cpu);
    assert_eq!(cpu.program_counter, 0x0401);
    cpu.status.set_carry(true);
    cpu.status.set_zero(true);
    cpu.program_counter = 0x0400;
    instructions::bcc(&mut cpu);
    assert_eq!(cpu.program_counter, 0x0401);
    cpu.program_counter = 0x0400;
    instructions::bcs(&mut cpu);
    assert_eq!(cpu.program_counter, 0x0411);
    cpu.program_counter = 0x0400;
    instructions::beq(&mut cpu);
    assert_eq!(cpu.program_counter, 0x0411);
}

#[test]
fn the_table_has_one_entry_for_each_encoding() {
    let table = cpu_opcodes();
    assert_eq!(table.len(), 52);
    for (i, a) in table.iter().enumerate() {
        for b in table.iter().skip(i + 1) {
            assert_ne!(a.hex, b.hex);
        }
        assert_eq!(a.bytes, a.mode.length());
        assert!((1..=3).contains(&a.bytes));
        assert!(a.action.is_wired());
        assert_eq!(a.action.is_branch(), a.mode == AddressingMode::Relative);
        assert_eq!(find_opcode(&table, a.hex), Some(*a));
    }
    assert_eq!(table[0], OpCode::new(0x69, ProcessorAction::ADC, 2, 2, AddressingMode::Immediate));
    assert_eq!(table[51], OpCode::new(0xaa, ProcessorAction::TAX, 1, 2, AddressingMode::NoneAddressing));
}

#[test]
fn lookup_finds_the_first_match_or_nothing() {
    let table = cpu_opcodes();
    assert_eq!(
        find_opcode(&table, 0xa9),
        Some(OpCode::new(0xa9, ProcessorAction::LDA, 2, 2, AddressingMode::Immediate))
    );
    assert_eq!(
        find_opcode(&table, 0x00),
        Some(OpCode::new(0x00, ProcessorAction::BRK, 1, 7, AddressingMode::NoneAddressing))
    );
    assert_eq!(find_opcode(&table, 0xff), None);
    assert_eq!(find_opcode(&table, 0xea), None);
    let first = OpCode::new(0x01, ProcessorAction::NOP, 1, 2, AddressingMode::NoneAddressing);
    let second = OpCode::new(0x01, ProcessorAction::CLC, 1, 2, AddressingMode::NoneAddressing);
    assert_eq!(find_opcode(&vec![first, second], 0x01), Some(first));
    assert_eq!(find_opcode(&Vec::new(), 0x01), None);
}

#[test]
fn mode_lengths() {
    assert_eq!(AddressingMode::NoneAddressing.length(), 1);
    assert_eq!(AddressingMode::Immediate.length(), 2);
    assert_eq!(AddressingMode::ZeroPage.length(), 2);
    assert_eq!(AddressingMode::ZeroPage_X.length(), 2);
    assert_eq!(AddressingMode::ZeroPage_Y.length(), 2);
    assert_eq!(AddressingMode::Indirect_X.length(), 2);
    assert_eq!(AddressingMode::Indirect_Y.length(), 2);
    assert_eq!(AddressingMode::Relative.length(), 2);
    assert_eq!(AddressingMode::Absolute.length(), 3);
    assert_eq!(AddressingMode::Absolute_X.length(), 3);
    assert_eq!(AddressingMode::Absolute_Y.length(), 3);
    assert!(AddressingMode::Absolute_Y.reads_word());
    assert!(!AddressingMode::Indirect_Y.reads_word());
}

#[test]
fn opcode_predicates() {
    let shift = OpCode::new(0x0a, ProcessorAction::ASL, 1, 2, AddressingMode::NoneAddressing);
    assert!(shift.advances());
    assert!(!shift.resolves_operand());
    let shift = OpCode::new(0x06, ProcessorAction::ASL, 2, 5, AddressingMode::ZeroPage);
    assert!(shift.resolves_operand());
    let load = OpCode::new(0xa9, ProcessorAction::LDA, 2, 2, AddressingMode::Immediate);
    assert!(load.advances() && load.resolves_operand());
    assert!(ProcessorAction::LDA.needs_address());
    assert!(!ProcessorAction::INX.needs_address());
    assert!(!ProcessorAction::NOP.is_wired());
    assert!(ProcessorAction::BEQ.is_branch());
    assert!(!ProcessorAction::BNE.is_branch());
    let branch = OpCode::new(0x90, ProcessorAction::BCC, 2, 2, AddressingMode::Relative);
    assert!(!branch.advances() && !branch.resolves_operand());
}

#[test]
fn resolving_and_advancing_can_be_tested_first() {
    let mut cpu = Processor::new();
    cpu.program_counter = 0xffff;
    assert!(!cpu.can_resolve(&AddressingMode::NoneAddressing));
    assert!(!cpu.can_resolve(&AddressingMode::Absolute));
    assert!(!cpu.can_resolve(&AddressingMode::Absolute_X));
    assert!(!cpu.can_resolve(&AddressingMode::Absolute_Y));
    assert!(cpu.can_resolve(&AddressingMode::Immediate));
    assert!(cpu.can_resolve(&AddressingMode::Indirect_Y));
    assert!(cpu.can_resolve(&AddressingMode::Relative));
    cpu.program_counter = 0xfffe;
    assert!(cpu.can_resolve(&AddressingMode::Absolute));
    let two = OpCode::new(0xa9, ProcessorAction::LDA, 2, 2, AddressingMode::Immediate);
    let three = OpCode::new(0xad, ProcessorAction::LDA, 3, 4, AddressingMode::Absolute);
    let none = OpCode::new(0xa9, ProcessorAction::LDA, 0, 2, AddressingMode::Immediate);
    assert!(cpu.can_advance(&two));
    assert!(!cpu.can_advance(&three));
    assert!(!cpu.can_advance(&none));
    cpu.program_counter = 0xfffd;
    assert!(cpu.can_advance(&three));
}
