use cpu6502::{AddressingMode, CPUStatus, ExecError, Flag, Flow, OpCode, OpCodeName, OpCodeTable, CPU};

#[test]
fn word_round_trip_inside_memory() {
    let mut cpu = CPU::new();
    cpu.mem_write_u16(0x1234, 0xBEEF);
    assert_eq!(cpu.mem_read_u16(0x1234), 0xBEEF);
}

#[test]
fn word_round_trip_wraps_at_top_of_memory() {
    let mut cpu = CPU::new();
    cpu.mem_write_u16(0xFFFF, 0xA1B2);
    assert_eq!(cpu.mem_read_u16(0xFFFF), 0xA1B2);
    assert_eq!(cpu.mem_read(0xFFFF), 0xB2);
    assert_eq!(cpu.mem_read(0x0000), 0xA1);
}

#[test]
fn word_is_little_endian() {
    let mut cpu = CPU::new();
    cpu.mem_write_u16(0x0010, 0xABCD);
    assert_eq!(cpu.mem_read(0x0010), 0xCD);
    assert_eq!(cpu.mem_read(0x0011), 0xAB);
    cpu.mem_write(0x0020, 0x34);
    cpu.mem_write(0x0021, 0x12);
    assert_eq!(cpu.mem_read_u16(0x0020), 0x1234);
}

#[test]
fn new_machine_is_zeroed() {
    let cpu = CPU::new();
    assert_eq!(cpu.register_a, 0);
    assert_eq!(cpu.register_x, 0);
    assert_eq!(cpu.register_y, 0);
    assert_eq!(cpu.status.bits(), 0);
    assert_eq!(cpu.stack_pointer, 0);
    assert_eq!(cpu.program_counter, 0);
    assert_eq!(cpu.mem_read(0xFFFF), 0);
    assert_eq!(cpu.get_stack_pointer(), 0x01FF);
}

#[test]
fn load_places_program_and_reset_vector() {
    let mut cpu = CPU::new();
    cpu.register_a = 7;
    cpu.load(vec![0xa9, 0x05, 0x00]);
    assert_eq!(cpu.mem_read(0x8000), 0xa9);
    assert_eq!(cpu.mem_read(0x8001), 0x05);
    assert_eq!(cpu.mem_read(0x8002), 0x00);
    assert_eq!(cpu.mem_read_u16(0xFFFC), 0x8000);
    assert_eq!(cpu.register_a, 7);
    assert_eq!(cpu.program_counter, 0);
}

#[test]
fn reset_zeroes_registers_and_reads_vector() {
    let mut cpu = CPU::new();
    cpu.register_a = 1;
    cpu.register_x = 2;
    cpu.register_y = 3;
    cpu.stack_pointer = 4;
    cpu.status = CPUStatus::from_bits(0xFF);
    cpu.mem_write_u16(0xFFFC, 0x1234);
    cpu.reset();
    assert_eq!(cpu.register_a, 0);
    assert_eq!(cpu.register_x, 0);
    assert_eq!(cpu.register_y, 0);
    assert_eq!(cpu.stack_pointer, 0);
    assert_eq!(cpu.status.bits(), 0);
    assert_eq!(cpu.program_counter, 0x1234);
}

#[test]
fn status_flags_are_independent_bits() {
    let mut st = CPUStatus::empty();
    assert!(!st.contains(Flag::Carry));
    st.insert(Flag::Carry);
    st.set(Flag::Negative, true);
    assert_eq!(st.bits(), 0x81);
    st.remove(Flag::Carry);
    st.set(Flag::Zero, false);
    assert_eq!(st.bits(), 0x80);
    let st = CPUStatus::from_bits(0x48);
    assert!(st.contains(Flag::Overflow));
    assert!(st.contains(Flag::Decimal));
    assert!(!st.contains(Flag::Break));
    assert!(!st.contains(Flag::Unused));
    assert!(!st.contains(Flag::InterruptDisable));
}

#[test]
fn unknown_opcode_stops_execution() {
    let mut cpu = CPU::new();
    let r = cpu.load_and_run(vec![0xa9, 0x01, 0x02, 0xa9, 0x09, 0x00]);
    assert_eq!(r, Err(ExecError::UnknownOpcode(0x02)));
    assert_eq!(cpu.register_a, 0x01);
    assert_eq!(cpu.program_counter, 0x8003);
}

#[test]
fn implied_mode_operand_is_illegal() {
    let table = OpCodeTable::from_entries(vec![
        OpCode { byte: 0xA9, name: OpCodeName::LDA, len: 2, cycles: 2, mode: AddressingMode::NonAddressing },
        OpCode { byte: 0x00, name: OpCodeName::BRK, len: 1, cycles: 7, mode: AddressingMode::NonAddressing },
    ])
    .unwrap();
    let mut cpu = CPU::new();
    cpu.load(vec![0xa9, 0x05, 0x00]);
    cpu.reset();
    let r = cpu.run_with(&table);
    assert_eq!(
        r,
        Err(ExecError::IllegalAddressing { opcode: 0xA9, mode: AddressingMode::NonAddressing })
    );
    assert_eq!(cpu.register_a, 0);
    assert_eq!(cpu.program_counter, 0x8001);
}

#[test]
fn shift_in_unsupported_mode_is_illegal() {
    let table = OpCodeTable::from_entries(vec![OpCode {
        byte: 0x0A,
        name: OpCodeName::ASL,
        len: 2,
        cycles: 2,
        mode: AddressingMode::Immediate,
    }])
    .unwrap();
    let mut cpu = CPU::new();
    cpu.load(vec![0x0a, 0x01]);
    cpu.reset();
    let r = cpu.step(&table);
    assert_eq!(
        r,
        Err(ExecError::IllegalAddressing { opcode: 0x0A, mode: AddressingMode::Immediate })
    );
}

#[test]
fn table_rejects_bad_lengths() {
    let entry = |len: usize| OpCode {
        byte: 0xEA,
        name: OpCodeName::TAX,
        len,
        cycles: 2,
        mode: AddressingMode::NonAddressing,
    };
    assert!(OpCodeTable::from_entries(vec![entry(0)]).is_none());
    assert!(OpCodeTable::from_entries(vec![entry(4)]).is_none());
    assert!(OpCodeTable::from_entries(vec![entry(1), entry(3)]).is_some());
}

#[test]
fn standard_table_lookup() {
    let table = OpCodeTable::standard();
    let lda = table.lookup(0xA9).unwrap();
    assert_eq!(lda.name, OpCodeName::LDA);
    assert_eq!(lda.len, 2);
    assert_eq!(lda.mode, AddressingMode::Immediate);
    let asl = table.lookup(0x0E).unwrap();
    assert_eq!(asl.name, OpCodeName::ASL);
    assert_eq!(asl.len, 3);
    assert_eq!(asl.mode, AddressingMode::Absolute);
    assert!(table.lookup(0x02).is_none());
}

#[test]
fn step_reports_next_then_halt() {
    let table = OpCodeTable::standard();
    let mut cpu = CPU::new();
    cpu.load(vec![0xa9, 0x07, 0x00]);
    cpu.reset();
    assert_eq!(cpu.step(&table), Ok(Flow::Next));
    assert_eq!(cpu.register_a, 7);
    assert_eq!(cpu.program_counter, 0x8002);
    assert_eq!(cpu.step(&table), Ok(Flow::Halt));
    assert_eq!(cpu.program_counter, 0x8003);
}

#[test]
fn compare_equal_sets_zero_and_carry() {
    let mut cpu = CPU::new();
    cpu.load_and_run(vec![0xa9, 0x05, 0xc9, 0x05, 0x00]).unwrap();
    assert!(cpu.status.contains(Flag::Zero));
    assert!(cpu.status.contains(Flag::Carry));
    assert!(!cpu.status.contains(Flag::Negative));
}

#[test]
fn compare_less_sets_negative_clears_carry() {
    let mut cpu = CPU::new();
    cpu.load_and_run(vec![0xa9, 0x03, 0xc9, 0x05, 0x00]).unwrap();
    assert!(!cpu.status.contains(Flag::Zero));
    assert!(!cpu.status.contains(Flag::Carry));
    assert!(cpu.status.contains(Flag::Negative));
    assert_eq!(cpu.register_a, 0x03);
}

#[test]
fn compare_greater_sets_carry_only() {
    let mut cpu = CPU::new();
    cpu.load_and_run(vec![0xa9, 0x05, 0xc9, 0x03, 0x00]).unwrap();
    assert!(!cpu.status.contains(Flag::Zero));
    assert!(cpu.status.contains(Flag::Carry));
    assert!(!cpu.status.contains(Flag::Negative));
}

#[test]
fn compare_unsigned_carry_with_negative_difference_bit() {
    // 0xF0 >= 0x10 unsigned, and 0xF0 - 0x10 = 0xE0 has bit 7 set
    let mut cpu = CPU::new();
    cpu.load_and_run(vec![0xa9, 0xF0, 0xc9, 0x10, 0x00]).unwrap();
    assert!(cpu.status.contains(Flag::Carry));
    assert!(cpu.status.contains(Flag::Negative));
    assert!(!cpu.status.contains(Flag::Zero));
}

#[test]
fn cpx_counts_a_backward_loop() {
    // LDX #0; loop: INX; CPX #3; BNE loop; BRK
    let mut cpu = CPU::new();
    cpu.load_and_run(vec![0xa2, 0x00, 0xe8, 0xe0, 0x03, 0xd0, 0xfb, 0x00]).unwrap();
    assert_eq!(cpu.register_x, 3);
    assert!(cpu.status.contains(Flag::Zero));
    assert!(cpu.status.contains(Flag::Carry));
    assert_eq!(cpu.program_counter, 0x8008);
}

#[test]
fn clear_flags() {
    // LDA #$70; ADC #$40 sets Overflow; CLV
    let mut cpu = CPU::new();
    cpu.load_and_run(vec![0xa9, 0x70, 0x69, 0x40, 0xb8, 0x00]).unwrap();
    assert!(!cpu.status.contains(Flag::Overflow));
    // LDA #$80; ASL A sets Carry; CLC
    cpu.load_and_run(vec![0xa9, 0x80, 0x0a, 0x18, 0x00]).unwrap();
    assert!(!cpu.status.contains(Flag::Carry));
    assert!(cpu.status.contains(Flag::Zero));
    // PLP of 0xFF sets every flag, then CLD and CLI clear two of them
    cpu.load_and_run(vec![0xa9, 0xff, 0x48, 0x28, 0xd8, 0x58, 0x00]).unwrap();
    assert_eq!(cpu.status.bits(), 0xF3);
}

#[test]
fn adc_adds_incoming_carry() {
    // LDA #$80; ASL A (A = 0, Carry set); ADC #$01
    let mut cpu = CPU::new();
    cpu.load_and_run(vec![0xa9, 0x80, 0x0a, 0x69, 0x01, 0x00]).unwrap();
    assert_eq!(cpu.register_a, 0x02);
    assert!(!cpu.status.contains(Flag::Carry));
    assert!(!cpu.status.contains(Flag::Overflow));
}

#[test]
fn bpl_bvc_bvs_branch_on_their_flags() {
    // LDA #1; BPL +2; LDA #2; BRK
    let mut cpu = CPU::new();
    cpu.load_and_run(vec![0xa9, 0x01, 0x10, 0x02, 0xa9, 0x02, 0x00]).unwrap();
    assert_eq!(cpu.register_a, 0x01);
    // LDA #1; BVC +2; LDA #2; BRK
    cpu.load_and_run(vec![0xa9, 0x01, 0x50, 0x02, 0xa9, 0x02, 0x00]).unwrap();
    assert_eq!(cpu.register_a, 0x01);
    // LDA #1; BVS +2; LDA #2; BRK: not taken
    cpu.load_and_run(vec![0xa9, 0x01, 0x70, 0x02, 0xa9, 0x02, 0x00]).unwrap();
    assert_eq!(cpu.register_a, 0x02);
    // LDA #$70; ADC #$40 (Overflow); BVS +2; LDA #2; BRK: taken
    cpu.load_and_run(vec![0xa9, 0x70, 0x69, 0x40, 0x70, 0x02, 0xa9, 0x02, 0x00]).unwrap();
    assert_eq!(cpu.register_a, 0xB0);
}

#[test]
fn subroutine_returns_after_call() {
    // JSR $8007; INX; BRK; (pad); $8007: LDX #9; RTS
    let mut cpu = CPU::new();
    cpu.load_and_run(vec![0x20, 0x07, 0x80, 0xe8, 0x00, 0xea, 0xea, 0xa2, 0x09, 0x60]).unwrap();
    assert_eq!(cpu.register_x, 10);
    assert_eq!(cpu.program_counter, 0x8005);
    assert_eq!(cpu.stack_pointer, 0);
    assert_eq!(cpu.get_stack_pointer(), 0x01FF);
}

#[test]
fn jsr_pushes_two_bytes() {
    // JSR $8003; $8003: BRK
    let mut cpu = CPU::new();
    cpu.load_and_run(vec![0x20, 0x03, 0x80, 0x00]).unwrap();
    assert_eq!(cpu.stack_pointer, 2);
    assert_eq!(cpu.get_stack_pointer(), 0x01FD);
    assert_eq!(cpu.mem_read(0x01FF), 0x80);
    assert_eq!(cpu.mem_read(0x01FE), 0x02);
}

#[test]
fn zero_page_x_wraps_within_page_zero() {
    let mut cpu = CPU::new();
    cpu.mem_write(0x000F, 0x42);
    // LDX #$FF; LDA $10,X
    cpu.load_and_run(vec![0xa2, 0xff, 0xb5, 0x10, 0x00]).unwrap();
    assert_eq!(cpu.register_a, 0x42);
}

#[test]
fn absolute_x_crosses_pages() {
    let mut cpu = CPU::new();
    cpu.mem_write(0x0210, 0x99);
    // LDX #$20; LDA $01F0,X
    cpu.load_and_run(vec![0xa2, 0x20, 0xbd, 0xf0, 0x01, 0x00]).unwrap();
    assert_eq!(cpu.register_a, 0x99);
    assert!(cpu.status.contains(Flag::Negative));
}

#[test]
fn indirect_x_reads_pointer_from_zero_page() {
    let mut cpu = CPU::new();
    cpu.mem_write(0x0014, 0x00);
    cpu.mem_write(0x0015, 0x03);
    cpu.mem_write(0x0300, 0x77);
    // LDX #4; LDA ($10,X)
    cpu.load_and_run(vec![0xa2, 0x04, 0xa1, 0x10, 0x00]).unwrap();
    assert_eq!(cpu.register_a, 0x77);
}

#[test]
fn indirect_y_adds_y_to_the_pointer_target() {
    let mut cpu = CPU::new();
    cpu.mem_write(0x0020, 0x00);
    cpu.mem_write(0x0021, 0x03);
    cpu.mem_write(0x0305, 0x66);
    // LDA ($20),Y
    cpu.load(vec![0xb1, 0x20, 0x00]);
    cpu.reset();
    cpu.register_y = 5;
    cpu.run().unwrap();
    assert_eq!(cpu.register_a, 0x66);
}

#[test]
fn store_absolute_and_indexed() {
    let mut cpu = CPU::new();
    // LDA #$3C; STA $0200; LDX #1; STA $0200,X
    cpu.load_and_run(vec![0xa9, 0x3c, 0x8d, 0x00, 0x02, 0xa2, 0x01, 0x9d, 0x00, 0x02, 0x00]).unwrap();
    assert_eq!(cpu.mem_read(0x0200), 0x3c);
    assert_eq!(cpu.mem_read(0x0201), 0x3c);
}

#[test]
fn asl_zero_page_shifts_memory() {
    let mut cpu = CPU::new();
    cpu.mem_write(0x0040, 0x41);
    // ASL $40
    cpu.load_and_run(vec![0x06, 0x40, 0x00]).unwrap();
    assert_eq!(cpu.mem_read(0x0040), 0x82);
    assert!(!cpu.status.contains(Flag::Carry));
    assert!(cpu.status.contains(Flag::Negative));
    assert_eq!(cpu.register_a, 0);
}

#[test]
fn inx_wraps_to_zero() {
    // LDX #$FF; INX
    let mut cpu = CPU::new();
    cpu.load_and_run(vec![0xa2, 0xff, 0xe8, 0x00]).unwrap();
    assert_eq!(cpu.register_x, 0);
    assert!(cpu.status.contains(Flag::Zero));
    assert!(!cpu.status.contains(Flag::Negative));
}

#[test]
fn bit_zero_only_from_and_result() {
    // LDA #$01; BIT #$01: a & m != 0, bits 7 and 6 of m clear
    let mut cpu = CPU::new();
    cpu.load_and_run(vec![0xa9, 0x01, 0x89, 0x01, 0x00]).unwrap();
    assert!(!cpu.status.contains(Flag::Zero));
    assert!(!cpu.status.contains(Flag::Negative));
    assert!(!cpu.status.contains(Flag::Overflow));
    assert_eq!(cpu.register_a, 0x01);
}
