use nes_cpu::bus::Bus;
use nes_cpu::cpu::{Mem, CPU};

fn new_cpu() -> CPU {
    CPU::new(Bus::new())
}

#[test]
fn test_0xa9_lda_load_data() {
    let mut cpu = new_cpu();
    cpu.load_and_run(vec![0xa9, 0x05, 0x00]);
    assert_eq!(cpu.register_a, 0x05);
    assert!(cpu.status.bits() & 0b0000_0010 == 0b00);
    assert!(cpu.status.bits() & 0b1000_0000 == 0);
}

#[test]
fn test_0xa9_lda_zero_flag() {
    let mut cpu = new_cpu();
    cpu.load_and_run(vec![0xa9, 0x00, 0x00]);
    assert!(cpu.status.bits() & 0b0000_0010 == 0b10);
}

#[test]
fn test_lda_from_memory() {
    let mut cpu = new_cpu();
    cpu.mem_write(0x10, 0x55);
    cpu.load_and_run(vec![0xa5, 0x10, 0x00]);
    assert_eq!(cpu.register_a, 0x55);
}

#[test]
fn test_0xaa_tax_move_a_to_x() {
    let mut cpu = new_cpu();
    cpu.load_and_run(vec![0xa9, 0x0a, 0xaa, 0x00]);
    assert_eq!(cpu.register_x, 10)
}

#[test]
fn test_5_ops_working_together() {
    let mut cpu = new_cpu();
    cpu.load_and_run(vec![0xa9, 0xc0, 0xaa, 0xe8, 0x00]);
    assert_eq!(cpu.register_x, 0xc1);
}

#[test]
fn test_inx_overflow() {
    let mut cpu = new_cpu();
    cpu.load_and_run(vec![0xa9, 0xff, 0xaa, 0xe8, 0xe8, 0x00]);
    assert_eq!(cpu.register_x, 0x01);
}

#[test]
fn test_adc_result_carry_and_overflow() {
    // $80 + $80 = $100: result $00, carry out, signed overflow, zero.
    let mut cpu = new_cpu();
    cpu.load_and_run(vec![0xa9, 0x80, 0x69, 0x80, 0x00]);
    assert_eq!(cpu.register_a, 0x00);
    assert!(cpu.status.bits() & 0b0000_0001 != 0);
    assert!(cpu.status.bits() & 0b0100_0000 != 0);
    assert!(cpu.status.bits() & 0b0000_0010 != 0);

    // $50 + $50 = $A0: no carry, signed overflow, negative.
    let mut cpu = new_cpu();
    cpu.load_and_run(vec![0xa9, 0x50, 0x69, 0x50, 0x00]);
    assert_eq!(cpu.register_a, 0xa0);
    assert!(cpu.status.bits() & 0b0000_0001 == 0);
    assert!(cpu.status.bits() & 0b0100_0000 != 0);
    assert!(cpu.status.bits() & 0b1000_0000 != 0);
}

#[test]
fn test_sbc_is_adc_of_complement() {
    // With carry clear, $50 - $F0 computes $50 + !$F0 = $50 + $0F = $5F.
    let mut cpu = new_cpu();
    cpu.load_and_run(vec![0xa9, 0x50, 0xe9, 0xf0, 0x00]);
    assert_eq!(cpu.register_a, 0x5f);
    assert!(cpu.status.bits() & 0b0000_0001 == 0);
}

#[test]
fn test_stack_roundtrip() {
    let mut cpu = new_cpu();
    let sp = cpu.stack_pointer;
    cpu.stack_push(0xab);
    assert_eq!(cpu.stack_pop(), 0xab);
    assert_eq!(cpu.stack_pointer, sp);
    cpu.stack_push_u16(0xbeef);
    assert_eq!(cpu.stack_pop_u16(), 0xbeef);
    assert_eq!(cpu.stack_pointer, sp);
}

#[test]
fn test_stack_pointer_wraps() {
    let mut cpu = new_cpu();
    cpu.stack_pointer = 0x00;
    cpu.stack_push(0x42);
    assert_eq!(cpu.stack_pointer, 0xff);
    assert_eq!(cpu.stack_pop(), 0x42);
    assert_eq!(cpu.stack_pointer, 0x00);
}

#[test]
fn test_php_plp_restores_flags() {
    // SEC; PHP; LDA #$00 (sets Z, clears N); PLP.
    let mut cpu = new_cpu();
    cpu.load_and_run(vec![0x38, 0x08, 0xa9, 0x00, 0x28, 0x00]);
    // P as pushed was $25; PLP forces B clear and the unused bit set.
    assert_eq!(cpu.status.bits(), 0x25);
}

#[test]
fn test_indirect_x_zero_page_wrap() {
    // LDX #$00; LDA ($FF,X): pointer low at $FF, high wraps to $00.
    let mut cpu = new_cpu();
    cpu.mem_write(0x00ff, 0x34);
    cpu.mem_write(0x0000, 0x12);
    cpu.mem_write(0x1234, 0x77);
    cpu.load_and_run(vec![0xa2, 0x00, 0xa1, 0xff, 0x00]);
    assert_eq!(cpu.register_a, 0x77);
}

#[test]
fn test_indirect_y_zero_page_wrap() {
    // LDA ($FF),Y with Y = 0: base pointer high byte comes from $00.
    let mut cpu = new_cpu();
    cpu.mem_write(0x00ff, 0x34);
    cpu.mem_write(0x0000, 0x12);
    cpu.mem_write(0x1234, 0x66);
    cpu.load_and_run(vec![0xa0, 0x00, 0xb1, 0xff, 0x00]);
    assert_eq!(cpu.register_a, 0x66);
}

#[test]
fn test_jmp_indirect_page_bug() {
    // JMP ($02FF): low byte from $02FF, high byte from $0200, not $0300.
    let mut cpu = new_cpu();
    cpu.mem_write(0x02ff, 0x00);
    cpu.mem_write(0x0200, 0x07);
    cpu.mem_write(0x0300, 0x12);
    cpu.mem_write(0x0700, 0xa9);
    cpu.mem_write(0x0701, 0x99);
    cpu.mem_write(0x0702, 0x00);
    cpu.load_and_run(vec![0x6c, 0xff, 0x02, 0x00]);
    assert_eq!(cpu.register_a, 0x99);
}

#[test]
fn test_branch_cycle_costs() {
    // Not taken: LDA #$01 (2) + BEQ (2) = 4 cycles.
    let mut cpu = new_cpu();
    cpu.load_and_run(vec![0xa9, 0x01, 0xf0, 0x05, 0x00]);
    assert_eq!(cpu.bus.cycles, 4);

    // Taken, same page: LDA #$00 (2) + BEQ (2 + 1) = 5 cycles.
    let mut cpu = new_cpu();
    cpu.load_and_run(vec![0xa9, 0x00, 0xf0, 0x00, 0x00]);
    assert_eq!(cpu.bus.cycles, 5);

    // Taken across a page: LDA #$00 (2) + JMP (3) + BEQ (2 + 1 + 1) = 9.
    let mut cpu = new_cpu();
    cpu.mem_write(0x06fc, 0xf0);
    cpu.mem_write(0x06fd, 0x10);
    cpu.load_and_run(vec![0xa9, 0x00, 0x4c, 0xfc, 0x06]);
    assert_eq!(cpu.bus.cycles, 9);
}

#[test]
fn test_page_cross_penalty() {
    // LDX #$01 (2) + LDA $06FF,X crossing into $0700 (4 + 1) = 7.
    let mut cpu = new_cpu();
    cpu.load_and_run(vec![0xa2, 0x01, 0xbd, 0xff, 0x06, 0x00]);
    assert_eq!(cpu.bus.cycles, 7);

    // LDX #$01 (2) + LDA $0700,X staying in page (4) = 6.
    let mut cpu = new_cpu();
    cpu.load_and_run(vec![0xa2, 0x01, 0xbd, 0x00, 0x07, 0x00]);
    assert_eq!(cpu.bus.cycles, 6);

    // LDX #$01 (2) + STA $06FF,X (5, no penalty on stores) = 7.
    let mut cpu = new_cpu();
    cpu.load_and_run(vec![0xa2, 0x01, 0x9d, 0xff, 0x06, 0x00]);
    assert_eq!(cpu.bus.cycles, 7);
}

#[test]
fn test_dcp_decrements_and_compares() {
    // LDA #$05; SEC; DCP $10 with $10 = $10: memory becomes $0F, and
    // since A < $0F the carry set by SEC is cleared; N set on $05 - $0F.
    let mut cpu = new_cpu();
    cpu.mem_write(0x10, 0x10);
    cpu.load_and_run(vec![0xa9, 0x05, 0x38, 0xc7, 0x10, 0x00]);
    assert_eq!(cpu.mem_read(0x10), 0x0f);
    assert!(cpu.status.bits() & 0b0000_0001 == 0);
    assert!(cpu.status.bits() & 0b1000_0000 != 0);

    // LDA #$10; DCP $20 with $20 = $05: memory becomes $04, and since
    // A >= $04 the carry is set.
    let mut cpu = new_cpu();
    cpu.mem_write(0x20, 0x05);
    cpu.load_and_run(vec![0xa9, 0x10, 0xc7, 0x20, 0x00]);
    assert_eq!(cpu.mem_read(0x20), 0x04);
    assert!(cpu.status.bits() & 0b0000_0001 != 0);
}

#[test]
fn test_reset_loads_vector() {
    let mut cpu = new_cpu();
    cpu.mem_write_u16(0xfffc, 0x8000);
    cpu.reset();
    assert_eq!(cpu.program_counter, 0x8000);
    assert_eq!(cpu.register_a, 0);
    assert_eq!(cpu.stack_pointer, 0xfd);
    assert_eq!(cpu.status.bits(), 0x24);
}

#[test]
fn test_rol_memory_updates_only_negative() {
    // SEC; ROL $10 with $10 = $40: stored $81, carry clear, N set, and
    // the stale zero flag from reset is left alone by the memory form.
    let mut cpu = new_cpu();
    cpu.mem_write(0x10, 0x40);
    cpu.load_and_run(vec![0x38, 0x26, 0x10, 0x00]);
    assert_eq!(cpu.mem_read(0x10), 0x81);
    assert!(cpu.status.bits() & 0b0000_0001 == 0);
    assert!(cpu.status.bits() & 0b1000_0000 != 0);
}

#[test]
fn test_nmi_serviced_before_fetch() {
    // With an interrupt latched and the vector pointing at a BRK, the
    // processor pushes state, jumps through $FFFA and stops there.
    let mut cpu = new_cpu();
    cpu.mem_write_u16(0xfffa, 0x0123);
    cpu.mem_write(0x0123, 0x00);
    cpu.load(vec![0x00]);
    cpu.reset();
    cpu.program_counter = 0x0600;
    cpu.bus.nmi_interrupt = Some(1);
    cpu.run();
    // BRK at $0123 leaves PC one past the opcode.
    assert_eq!(cpu.program_counter, 0x0124);
    // The interrupt raised the disable flag and pushed three bytes.
    assert!(cpu.status.bits() & 0b0000_0100 != 0);
    assert_eq!(cpu.stack_pointer, 0xfa);
    assert_eq!(cpu.bus.cycles, 2);
}
