use nes_cpu::bus::Bus;
use nes_cpu::cpu::CPU;
use nes_cpu::mask::{Colour, MaskRegister};
use nes_cpu::trace::trace;

#[test]
fn test_format_trace() {
    let mut bus = Bus::new();
    bus.mem_write(100, 0xa2);
    bus.mem_write(101, 0x01);
    bus.mem_write(102, 0xca);
    bus.mem_write(103, 0x88);
    bus.mem_write(104, 0x00);

    let mut cpu = CPU::new(bus);
    cpu.program_counter = 0x64;
    cpu.register_a = 1;
    cpu.register_x = 2;
    cpu.register_y = 3;
    let mut result: Vec<String> = vec![];
    let hit_brk = cpu.run_with_callback(|cpu| {
        result.push(trace(cpu));
    });
    assert!(hit_brk);
    assert_eq!(
        "0064  A2 01     LDX #$01                        A:01 X:02 Y:03 P:24 SP:FD",
        result[0]
    );
    assert_eq!(
        "0066  CA        DEX                             A:01 X:01 Y:03 P:24 SP:FD",
        result[1]
    );
    assert_eq!(
        "0067  88        DEY                             A:01 X:00 Y:03 P:26 SP:FD",
        result[2]
    );
}

#[test]
fn test_format_mem_access() {
    let mut bus = Bus::new();
    // ORA ($33), Y
    bus.mem_write(100, 0x11);
    bus.mem_write(101, 0x33);

    // data
    bus.mem_write(0x33, 0x00);
    bus.mem_write(0x34, 0x04);

    // target cell
    bus.mem_write(0x400, 0xaa);

    let mut cpu = CPU::new(bus);
    cpu.program_counter = 0x64;
    cpu.register_y = 0;
    let mut result: Vec<String> = vec![];
    cpu.run_with_callback(|cpu| {
        result.push(trace(cpu));
    });
    assert_eq!(
        "0064  11 33     ORA ($33),Y = 0400 @ 0400 = AA  A:00 X:00 Y:00 P:24 SP:FD",
        result[0]
    );
}

#[test]
fn test_format_unofficial_mnemonic() {
    // Unofficial opcodes print a star-prefixed mnemonic that fills the
    // whole four-column field.
    let mut bus = Bus::new();
    bus.mem_write(100, 0xa7);
    bus.mem_write(101, 0x10);
    bus.mem_write(0x10, 0x5a);

    let mut cpu = CPU::new(bus);
    cpu.program_counter = 0x64;
    let mut result: Vec<String> = vec![];
    cpu.run_with_callback(|cpu| {
        result.push(trace(cpu));
    });
    assert_eq!(
        "0064  A7 10    *LAX $10 = 5A                    A:00 X:00 Y:00 P:24 SP:FD",
        result[0]
    );
}

#[test]
fn test_format_accumulator_and_absolute() {
    let mut bus = Bus::new();
    bus.mem_write(100, 0x0a);
    bus.mem_write(101, 0xad);
    bus.mem_write(102, 0x34);
    bus.mem_write(103, 0x12);
    bus.mem_write(0x1234, 0x99);

    let mut cpu = CPU::new(bus);
    cpu.program_counter = 0x64;
    cpu.register_a = 0x80;
    let mut result: Vec<String> = vec![];
    cpu.run_with_callback(|cpu| {
        result.push(trace(cpu));
    });
    assert_eq!(
        "0064  0A        ASL A                           A:80 X:00 Y:00 P:24 SP:FD",
        result[0]
    );
    assert_eq!(
        "0065  AD 34 12  LDA $1234 = 99                  A:00 X:00 Y:00 P:27 SP:FD",
        result[1]
    );
}

#[test]
fn test_mask_register() {
    let mut mask = MaskRegister::new();
    assert!(!mask.is_grayscale());
    assert!(!mask.show_background());
    assert!(mask.emphasise().is_empty());
    mask.update(0b1110_1001);
    assert!(mask.is_grayscale());
    assert!(!mask.leftmost_8pxl_background());
    assert!(!mask.leftmost_8pxl_sprite());
    assert!(mask.show_background());
    assert!(!mask.show_sprites());
    // The emphasis list keeps the fixed order red, blue, green.
    let colours = mask.emphasise();
    assert_eq!(colours.len(), 3);
    assert!(colours[0] == Colour::Red);
    assert!(colours[1] == Colour::Blue);
    assert!(colours[2] == Colour::Green);
}
