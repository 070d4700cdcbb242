use std::cell::RefCell;

use nes_core::bus::Bus;
use nes_core::cartridge::{Mirroring, Rom};
use nes_core::cpu::{Memory, CPU};
use nes_core::trace::trace;

/// A 32 KiB cartridge of zeroes whose reset vector points at 0x0600.
fn test_rom() -> Rom {
    let mut prg_rom = vec![0u8; 0x8000];
    prg_rom[0x7FFC] = 0x00;
    prg_rom[0x7FFD] = 0x06;
    Rom { prg_rom, chr_rom: vec![0u8; 0x2000], screen_mirroring: Mirroring::HORIZONTAL }
}

/// Traces every instruction before it runs, up to and including BRK.
fn run_traced(cpu: &mut CPU) -> Vec<String> {
    let result: RefCell<Vec<String>> = RefCell::new(vec![]);
    cpu.run_with_callback(|cpu| {
        result.borrow_mut().push(trace(&mut cpu.clone()).unwrap());
    })
    .unwrap();
    result.into_inner()
}

#[test]
fn test_format_trace() {
    let mut bus = Bus::new(test_rom());
    bus.mem_write(100, 0xa2).unwrap();
    bus.mem_write(101, 0x01).unwrap();
    bus.mem_write(102, 0xca).unwrap();
    bus.mem_write(103, 0x88).unwrap();
    bus.mem_write(104, 0x00).unwrap();

    let mut cpu = CPU::new(bus);
    cpu.program_counter = 0x64;
    cpu.register_a = 1;
    cpu.register_x = 2;
    cpu.register_y = 3;
    let result = run_traced(&mut cpu);
    assert_eq!(
        "0064  A2 01     LDX #$01                        A:01 X:02 Y:03 P:24 SP:FD",
        result[0]
    );
    assert_eq!(
        "0066  CA        DEX                             A:01 X:01 Y:03 P:24 SP:FD",
        result[1]
    );
    assert_eq!(
        "0067  88        DEY                             A:01 X:00 Y:03 P:26 SP:FD",
        result[2]
    );
}

#[test]
fn test_format_mem_access() {
    let mut bus = Bus::new(test_rom());
    // ORA ($33), Y
    bus.mem_write(100, 0x11).unwrap();
    bus.mem_write(101, 0x33).unwrap();

    //data
    bus.mem_write(0x33, 00).unwrap();
    bus.mem_write(0x34, 04).unwrap();

    //target cell
    bus.mem_write(0x400, 0xAA).unwrap();

    let mut cpu = CPU::new(bus);
    cpu.program_counter = 0x64;
    cpu.register_y = 0;
    let result = run_traced(&mut cpu);
    assert_eq!(
        "0064  11 33     ORA ($33),Y = 0400 @ 0400 = AA  A:00 X:00 Y:00 P:24 SP:FD",
        result[0]
    );
}
