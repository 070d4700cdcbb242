use std::cell::RefCell;

use nes_core::bus::Bus;
use nes_core::cartridge::{Mirroring, Rom};
use nes_core::cpu::{AddressingMode, CPUFlags, Memory, CPU};
use nes_core::fault::{Crash, Fault};
use nes_core::joypad::Joypad;
use nes_core::opcodes::OpCode;
use nes_core::trace::trace;

/// A 32 KiB cartridge holding `program` at 0x8000 and a reset vector that
/// points there.
fn rom_with(program: &[u8]) -> Rom {
    let mut prg_rom = vec![0u8; 0x8000];
    prg_rom[..program.len()].copy_from_slice(program);
    prg_rom[0x7FFC] = 0x00;
    prg_rom[0x7FFD] = 0x80;
    Rom { prg_rom, chr_rom: vec![0u8; 0x2000], screen_mirroring: Mirroring::HORIZONTAL }
}

fn cpu_with(program: &[u8]) -> CPU {
    let mut cpu = CPU::new(Bus::new(rom_with(program)));
    cpu.reset().unwrap();
    cpu
}

#[test]
fn reset_reads_the_reset_vector() {
    let mut cpu = CPU::new(Bus::new(rom_with(&[])));
    cpu.register_a = 7;
    cpu.register_s = 0x10;
    cpu.reset().unwrap();
    assert_eq!(cpu.program_counter, 0x8000);
    assert_eq!(cpu.register_s, 0xFD);
    assert_eq!(cpu.status.bits(), 0x24);
    assert_eq!(cpu.register_a, 0);
}

#[test]
fn lda_tax_inx_chain() {
    let mut cpu = cpu_with(&[0xA9, 0xC0, 0xAA, 0xE8, 0x00]);
    let report = cpu.run().unwrap();
    assert!(report.halted);
    assert_eq!(report.steps, 4);
    assert_eq!(cpu.register_a, 0xC0);
    assert_eq!(cpu.register_x, 0xC1);
    assert!(cpu.status.contains(CPUFlags::NEGATIVE));
    assert!(!cpu.status.contains(CPUFlags::ZERO));
}

#[test]
fn and_with_zero_sets_zero_flag() {
    let mut cpu = cpu_with(&[0xA9, 0x05, 0x29, 0x00, 0x00]);
    cpu.run().unwrap();
    assert_eq!(cpu.register_a, 0);
    assert!(cpu.status.contains(CPUFlags::ZERO));
}

#[test]
fn adc_signed_overflow() {
    // LDA #$7F; ADC #$01
    let mut cpu = cpu_with(&[0xA9, 0x7F, 0x69, 0x01, 0x00]);
    cpu.run().unwrap();
    assert_eq!(cpu.register_a, 0x80);
    assert!(cpu.status.contains(CPUFlags::OVERFLOW));
    assert!(cpu.status.contains(CPUFlags::NEGATIVE));
    assert!(!cpu.status.contains(CPUFlags::CARRY));
    assert!(!cpu.status.contains(CPUFlags::ZERO));
}

#[test]
fn adc_unsigned_carry() {
    // LDA #$FF; ADC #$01
    let mut cpu = cpu_with(&[0xA9, 0xFF, 0x69, 0x01, 0x00]);
    cpu.run().unwrap();
    assert_eq!(cpu.register_a, 0x00);
    assert!(cpu.status.contains(CPUFlags::CARRY));
    assert!(cpu.status.contains(CPUFlags::ZERO));
    assert!(!cpu.status.contains(CPUFlags::OVERFLOW));
    assert!(!cpu.status.contains(CPUFlags::NEGATIVE));
}

#[test]
fn sbc_borrows() {
    // SEC; LDA #$10; SBC #$20
    let mut cpu = cpu_with(&[0x38, 0xA9, 0x10, 0xE9, 0x20, 0x00]);
    cpu.run().unwrap();
    assert_eq!(cpu.register_a, 0xF0);
    assert!(!cpu.status.contains(CPUFlags::CARRY));
    assert!(cpu.status.contains(CPUFlags::NEGATIVE));
}

#[test]
fn compare_sets_carry_when_register_is_not_below_operand() {
    // LDA #$FF; CMP #$00
    let mut cpu = cpu_with(&[0xA9, 0xFF, 0xC9, 0x00, 0x00]);
    cpu.run().unwrap();
    assert!(cpu.status.contains(CPUFlags::CARRY));
    assert!(!cpu.status.contains(CPUFlags::ZERO));
    assert!(cpu.status.contains(CPUFlags::NEGATIVE));
    // LDA #$01; CMP #$02
    let mut cpu = cpu_with(&[0xA9, 0x01, 0xC9, 0x02, 0x00]);
    cpu.run().unwrap();
    assert!(!cpu.status.contains(CPUFlags::CARRY));
    assert!(!cpu.status.contains(CPUFlags::ZERO));
    assert!(cpu.status.contains(CPUFlags::NEGATIVE));
}

#[test]
fn indirect_jump_wraps_inside_the_page() {
    // JMP ($10FF): low byte at 0x10FF, high byte at 0x1000
    let mut cpu = cpu_with(&[0x6C, 0xFF, 0x10]);
    cpu.mem_write(0x10FF, 0x34).unwrap();
    cpu.mem_write(0x1000, 0x12).unwrap();
    cpu.mem_write(0x1100, 0x56).unwrap();
    cpu.step().unwrap();
    assert_eq!(cpu.program_counter, 0x1234);
    assert_eq!(cpu.calculate_jmp_indirect_bug(0x10FF).unwrap(), 0x1234);
    cpu.mem_write(0x00FE, 0x78).unwrap();
    assert_eq!(cpu.calculate_jmp_indirect_bug(0x10FE).unwrap(), 0x3478);
}

#[test]
fn absolute_jump_goes_to_the_operand() {
    // a jump to the byte right after its own opcode
    let mut cpu = cpu_with(&[0x4C, 0x01, 0x80]);
    cpu.step().unwrap();
    assert_eq!(cpu.program_counter, 0x8001);
}

#[test]
fn taken_branch_with_offset_minus_one() {
    // BNE -1 with Z clear: the target is one below the next instruction
    let mut cpu = cpu_with(&[0xD0, 0xFF]);
    cpu.step().unwrap();
    assert_eq!(cpu.program_counter, 0x8001);
}

#[test]
fn branch_not_taken_skips_the_offset() {
    // SEC; BCC +2; LDA #5
    let mut cpu = cpu_with(&[0x38, 0x90, 0x02, 0xA9, 0x05, 0x00]);
    cpu.step().unwrap();
    cpu.step().unwrap();
    assert_eq!(cpu.program_counter, 0x8003);
}

#[test]
fn jsr_and_rts() {
    // JSR $8005; LDA #1; BRK; [8005] LDX #7; RTS
    let mut cpu = cpu_with(&[0x20, 0x06, 0x80, 0xA9, 0x01, 0x00, 0xA2, 0x07, 0x60]);
    cpu.step().unwrap();
    assert_eq!(cpu.program_counter, 0x8006);
    assert_eq!(cpu.register_s, 0xFB);
    assert_eq!(cpu.mem_read(0x01FD).unwrap(), 0x80);
    assert_eq!(cpu.mem_read(0x01FC).unwrap(), 0x02);
    cpu.run().unwrap();
    assert_eq!(cpu.register_x, 7);
    assert_eq!(cpu.register_a, 1);
    assert_eq!(cpu.register_s, 0xFD);
}

#[test]
fn stack_pointer_moves_by_one_per_push_and_pull() {
    // PHA; PHP; PLP; PLA
    let mut cpu = cpu_with(&[0x48, 0x08, 0x28, 0x68, 0x00]);
    cpu.step().unwrap();
    assert_eq!(cpu.register_s, 0xFC);
    cpu.step().unwrap();
    assert_eq!(cpu.register_s, 0xFB);
    cpu.step().unwrap();
    assert_eq!(cpu.register_s, 0xFC);
    cpu.step().unwrap();
    assert_eq!(cpu.register_s, 0xFD);
}

#[test]
fn stack_pointer_wraps() {
    // PLA with S = 0xFF reads 0x0100
    let mut cpu = cpu_with(&[0x68, 0x00]);
    cpu.mem_write(0x0100, 0x5A).unwrap();
    cpu.register_s = 0xFF;
    cpu.step().unwrap();
    assert_eq!(cpu.register_s, 0x00);
    assert_eq!(cpu.register_a, 0x5A);
}

#[test]
fn pha_then_pla_restores_a() {
    // LDA #$42; PHA; LDA #$00; PLA
    let mut cpu = cpu_with(&[0xA9, 0x42, 0x48, 0xA9, 0x00, 0x68, 0x00]);
    cpu.run().unwrap();
    assert_eq!(cpu.register_a, 0x42);
    assert_eq!(cpu.register_s, 0xFD);
}

#[test]
fn php_pushes_both_break_bits_and_plp_restores_the_rest() {
    // SEC; SED; PHP; CLC; CLD; PLP
    let mut cpu = cpu_with(&[0x38, 0xF8, 0x08, 0x18, 0xD8, 0x28, 0x00]);
    cpu.step().unwrap();
    cpu.step().unwrap();
    cpu.step().unwrap();
    assert_eq!(cpu.mem_read(0x01FD).unwrap(), 0x3D);
    cpu.run().unwrap();
    assert_eq!(cpu.status.bits(), 0x2D);
    assert_eq!(cpu.register_s, 0xFD);
}

#[test]
fn break_bit_reads_one_after_every_instruction() {
    // LDA #0; PHA; PLP; SEC; ADC #1: the status byte pulled has both break bits clear
    let mut cpu = cpu_with(&[0xA9, 0x00, 0x48, 0x28, 0x38, 0x69, 0x01, 0x00]);
    loop {
        let report = cpu.step().unwrap();
        assert_eq!(cpu.status.bits() & 0x20, 0x20);
        if report.halted {
            break;
        }
    }
    assert_eq!(cpu.status.bits() & 0x10, 0x00);
}

#[test]
fn rti_restores_status_and_program_counter() {
    let mut cpu = cpu_with(&[0x40]);
    // on the stack, from the top: status, low, high
    cpu.register_s = 0xFA;
    cpu.mem_write(0x01FB, 0xD3).unwrap();
    cpu.mem_write(0x01FC, 0x34).unwrap();
    cpu.mem_write(0x01FD, 0x12).unwrap();
    cpu.step().unwrap();
    assert_eq!(cpu.status.bits(), 0xE3);
    assert_eq!(cpu.program_counter, 0x1234);
    assert_eq!(cpu.register_s, 0xFD);
}

#[test]
fn addressing_modes_resolve() {
    let mut cpu = cpu_with(&[]);
    cpu.register_x = 0x04;
    cpu.register_y = 0x10;
    cpu.mem_write(0x0010, 0xFE).unwrap();
    cpu.mem_write(0x0011, 0x03).unwrap();
    cpu.mem_write(0x0002, 0x00).unwrap();
    cpu.mem_write(0x0003, 0x05).unwrap();
    cpu.mem_write(0x00FF, 0x44).unwrap();
    cpu.mem_write(0x0000, 0x02).unwrap();
    let at = |cpu: &mut CPU, mode: AddressingMode| {
        cpu.get_operand_address_from_base(&mode, 0x0010).unwrap()
    };
    assert_eq!(at(&mut cpu, AddressingMode::Immediate), 0x0010);
    assert_eq!(at(&mut cpu, AddressingMode::ZeroPage), 0x00FE);
    assert_eq!(at(&mut cpu, AddressingMode::ZeroPage_X), 0x0002);
    assert_eq!(at(&mut cpu, AddressingMode::ZeroPage_Y), 0x000E);
    assert_eq!(at(&mut cpu, AddressingMode::Absolute), 0x03FE);
    assert_eq!(at(&mut cpu, AddressingMode::Absolute_X), 0x0402);
    assert_eq!(at(&mut cpu, AddressingMode::Absolute_Y), 0x040E);
    // pointer 0xFE + 4 = 0x02: target 0x0500
    assert_eq!(at(&mut cpu, AddressingMode::Indirect_X), 0x0500);
    // pointer byte 0xFF: low from 0x00FF, high from 0x0000, plus Y
    cpu.mem_write(0x0010, 0xFF).unwrap();
    assert_eq!(at(&mut cpu, AddressingMode::Indirect_Y), 0x0254);
}

#[test]
fn sixteen_bit_access_is_little_endian() {
    let mut cpu = cpu_with(&[]);
    cpu.mem_write_u16(0x0040, 0xBEEF).unwrap();
    assert_eq!(cpu.mem_read(0x0040).unwrap(), 0xEF);
    assert_eq!(cpu.mem_read(0x0041).unwrap(), 0xBE);
    assert_eq!(cpu.mem_read_u16(0x0040).unwrap(), 0xBEEF);
}

#[test]
fn ram_is_mirrored_every_0x800() {
    let mut bus = Bus::new(rom_with(&[]));
    bus.mem_write(0x0005, 0x11).unwrap();
    assert_eq!(bus.mem_read(0x0805).unwrap(), 0x11);
    assert_eq!(bus.mem_read(0x1805).unwrap(), 0x11);
    bus.mem_write(0x1FFF, 0x22).unwrap();
    assert_eq!(bus.mem_read(0x07FF).unwrap(), 0x22);
}

#[test]
fn video_registers_are_mirrored_every_8() {
    let mut bus = Bus::new(rom_with(&[]));
    // 0x3FFE is the address port, 0x3FFF the data port
    bus.mem_write(0x3FFE, 0x21).unwrap();
    bus.mem_write(0x3FFE, 0x08).unwrap();
    bus.mem_write(0x3FFF, 0x99).unwrap();
    assert_eq!(bus.ppu.vram[0x0108], 0x99);
    // write-only registers read as zero, and the status port ignores writes
    assert_eq!(bus.mem_read(0x2000).unwrap(), 0);
    bus.ppu.status.set_vertical_blank(true);
    bus.mem_write(0x2002, 0x00).unwrap();
    assert_eq!(bus.mem_read(0x200A).unwrap(), 0x80);
}

#[test]
fn audio_and_second_controller_are_ignored() {
    let mut bus = Bus::new(rom_with(&[]));
    bus.mem_write(0x4000, 0xFF).unwrap();
    bus.mem_write(0x4015, 0xFF).unwrap();
    bus.mem_write(0x4017, 0xFF).unwrap();
    assert_eq!(bus.mem_read(0x4000).unwrap(), 0);
    assert_eq!(bus.mem_read(0x4015).unwrap(), 0);
    assert_eq!(bus.mem_read(0x4017).unwrap(), 0);
    assert_eq!(bus.mem_read(0x5000).unwrap(), 0);
}

#[test]
fn small_program_rom_shows_twice() {
    let mut prg_rom = vec![0u8; 0x4000];
    prg_rom[0x0000] = 0xAB;
    prg_rom[0x3FFF] = 0xCD;
    let rom = Rom { prg_rom, chr_rom: vec![0u8; 0x2000], screen_mirroring: Mirroring::VERTICAL };
    let mut bus = Bus::new(rom);
    assert_eq!(bus.mem_read(0x8000).unwrap(), 0xAB);
    assert_eq!(bus.mem_read(0xC000).unwrap(), 0xAB);
    assert_eq!(bus.mem_read(0xBFFF).unwrap(), 0xCD);
    assert_eq!(bus.mem_read(0xFFFF).unwrap(), 0xCD);
}

#[test]
fn writing_program_rom_faults() {
    let mut bus = Bus::new(rom_with(&[]));
    assert_eq!(bus.mem_write(0x8000, 1), Err(Fault::ProgramRomWrite { addr: 0x8000 }));
    assert_eq!(bus.mem_write(0xFFFF, 1), Err(Fault::ProgramRomWrite { addr: 0xFFFF }));
    // STA $8000
    let mut cpu = cpu_with(&[0x8D, 0x00, 0x80]);
    assert_eq!(cpu.step(), Err(Crash { fault: Fault::ProgramRomWrite { addr: 0x8000 }, pc: 0x8000 }));
}

#[test]
fn reading_past_a_short_program_rom_faults() {
    let rom = Rom {
        prg_rom: vec![0u8; 0x100],
        chr_rom: vec![0u8; 0x2000],
        screen_mirroring: Mirroring::HORIZONTAL,
    };
    let mut bus = Bus::new(rom);
    assert_eq!(bus.mem_read(0x80FF), Ok(0));
    assert_eq!(bus.mem_read(0x8100), Err(Fault::ProgramRomRead { addr: 0x8100 }));
    let mut cpu = CPU::new(bus);
    assert_eq!(cpu.reset(), Err(Fault::ProgramRomRead { addr: 0xFFFC }));
}

#[test]
fn unknown_opcode_faults() {
    let mut cpu = cpu_with(&[0xEA, 0x02]);
    assert!(cpu.step().is_ok());
    assert_eq!(
        cpu.step(),
        Err(Crash { fault: Fault::UnknownOpcode { code: 0x02, pc: 0x8001 }, pc: 0x8001 })
    );
    let mut cpu = cpu_with(&[0x02]);
    assert_eq!(trace(&mut cpu), Err(Fault::UnknownOpcode { code: 0x02, pc: 0x8000 }));
    assert_eq!(
        cpu.run(),
        Err(Crash { fault: Fault::UnknownOpcode { code: 0x02, pc: 0x8000 }, pc: 0x8000 })
    );
}

#[test]
fn load_stops_at_program_rom() {
    let mut cpu = cpu_with(&[]);
    assert_eq!(cpu.load(vec![0xEA; 0x7A01]), Err(Fault::ProgramRomWrite { addr: 0x8000 }));
    let mut cpu = cpu_with(&[]);
    assert_eq!(cpu.load(vec![0xEA; 0x7A00]), Ok(()));
    assert_eq!(cpu.mem_read(0x0600).unwrap(), 0xEA);
    assert_eq!(cpu.mem_read(0x07FF).unwrap(), 0xEA);
}

#[test]
fn run_for_gives_up_after_its_steps() {
    // JMP $8000
    let mut cpu = cpu_with(&[0x4C, 0x00, 0x80]);
    let report = cpu.run_for(10).unwrap();
    assert!(!report.halted);
    assert_eq!(report.steps, 10);
    assert_eq!(cpu.bus.cycles, 30);
    let report = cpu.run_for(0).unwrap();
    assert_eq!(report.steps, 0);
}

#[test]
fn step_charges_the_base_cycles() {
    // LDA #1 (2 cycles); STA $10 (3); INC $10 (5); BRK (none)
    let mut cpu = cpu_with(&[0xA9, 0x01, 0x85, 0x10, 0xE6, 0x10, 0x00]);
    cpu.step().unwrap();
    assert_eq!(cpu.bus.cycles, 2);
    assert_eq!(cpu.bus.ppu.cycles, 6);
    cpu.step().unwrap();
    assert_eq!(cpu.bus.cycles, 5);
    cpu.step().unwrap();
    assert_eq!(cpu.bus.cycles, 10);
    assert_eq!(cpu.mem_read(0x10).unwrap(), 2);
    let report = cpu.step().unwrap();
    assert!(report.halted);
    assert_eq!(cpu.bus.cycles, 10);
    assert_eq!(cpu.program_counter, 0x8007);
}

#[test]
fn vblank_nmi_is_serviced_once() {
    // the program: set the NMI enable bit, then spin; the handler: RTI
    let mut program = vec![0xA9, 0x80, 0x8D, 0x00, 0x20, 0x4C, 0x05, 0x80];
    program.resize(0x100, 0xEA);
    program[0x80] = 0x40;
    let mut rom = rom_with(&program);
    rom.prg_rom[0x7FFA] = 0x80;
    rom.prg_rom[0x7FFB] = 0x80;
    let mut cpu = CPU::new(Bus::new(rom));
    cpu.reset().unwrap();
    let mut serviced = 0;
    let mut pushed_status = 0;
    while cpu.bus.cycles <= (341 * 241) / 3 + 20 {
        let before = cpu.register_s;
        let report = cpu.step().unwrap();
        if report.nmi_serviced {
            serviced += 1;
            pushed_status = cpu.bus.cpu_vram[0x0100 + before.wrapping_sub(2) as usize];
        }
    }
    assert_eq!(serviced, 1);
    assert_eq!(pushed_status & 0x30, 0x20);
    assert_eq!(cpu.bus.ppu.scanlines, 241);
    let status = cpu.mem_read(0x2002).unwrap();
    assert_eq!(status & 0x80, 0x80);
    assert_eq!(cpu.mem_read(0x2002).unwrap() & 0x80, 0x00);
}

#[test]
fn frame_completion_is_reported() {
    // JMP $8000, three cycles a step
    let mut cpu = cpu_with(&[0x4C, 0x00, 0x80]);
    let mut frames = 0;
    let mut steps = 0u32;
    while frames == 0 {
        if cpu.step().unwrap().frame_completed {
            frames += 1;
        }
        steps += 1;
    }
    // one scanline boundary is crossed for every 341 dots, 9 dots a step
    assert_eq!(cpu.bus.ppu.scanlines, 0);
    assert_eq!(steps, (341 * 262 + 8) / 9);
}

#[test]
fn oam_dma_copies_a_page() {
    let mut bus = Bus::new(rom_with(&[]));
    for i in 0..256u16 {
        bus.mem_write(0x0200 + i, i as u8).unwrap();
    }
    bus.mem_write(0x2003, 0x10).unwrap();
    bus.mem_write(0x4014, 0x02).unwrap();
    assert_eq!(bus.ppu.oam_addr, 0x10);
    assert_eq!(bus.ppu.oam_data[0x10], 0x00);
    assert_eq!(bus.ppu.oam_data[0x11], 0x01);
    assert_eq!(bus.ppu.oam_data[0xFF], 0xEF);
    assert_eq!(bus.ppu.oam_data[0x00], 0xF0);
    assert_eq!(bus.ppu.oam_data[0x0F], 0xFF);
    // a page of program ROM is a source like any other
    let mut bus = Bus::new(rom_with(&[0x77; 0x100]));
    bus.mem_write(0x4014, 0x80).unwrap();
    assert_eq!(bus.ppu.oam_data[0x00], 0x77);
    assert_eq!(bus.ppu.oam_data[0xFF], 0x77);
}

#[test]
fn controller_serialises_its_buttons() {
    let mut bus = Bus::new(rom_with(&[]));
    bus.joypad.set_button_pressed_status(Joypad::BUTTON_A, true);
    bus.joypad.set_button_pressed_status(Joypad::START, true);
    bus.joypad.set_button_pressed_status(Joypad::RIGHT, true);
    assert_eq!(bus.joypad.button_status, 0b1000_1001);
    bus.joypad.set_button_pressed_status(Joypad::START, false);
    bus.joypad.set_button_pressed_status(Joypad::SELECT, true);
    // while the strobe is high every read returns button A
    bus.mem_write(0x4016, 1).unwrap();
    assert_eq!(bus.mem_read(0x4016).unwrap(), 1);
    assert_eq!(bus.mem_read(0x4016).unwrap(), 1);
    bus.mem_write(0x4016, 0).unwrap();
    let bits: Vec<u8> = (0..8).map(|_| bus.mem_read(0x4016).unwrap()).collect();
    assert_eq!(bits, vec![1, 0, 1, 0, 0, 0, 0, 1]);
    // past the eighth button the port reads 1
    assert_eq!(bus.mem_read(0x4016).unwrap(), 1);
    assert_eq!(bus.mem_read(0x4016).unwrap(), 1);
    assert_eq!(bus.joypad.button_index, 8);
}

#[test]
fn opcode_table_lookup() {
    let op = OpCode::lookup(0xA9).unwrap();
    assert_eq!(op.code, 0xA9);
    assert_eq!(op.mnemonic, "LDA");
    assert_eq!(op.len, 2);
    assert_eq!(op.cycles, 2);
    let op = OpCode::lookup(0x1F).unwrap();
    assert_eq!(op.mnemonic, "*SLO");
    assert_eq!(op.len, 3);
    assert_eq!(op.cycles, 7);
    assert!(OpCode::lookup(0x02).is_none());
    assert!(OpCode::lookup(0xFF).is_some());
    let known = (0..=255u8).filter(|code| OpCode::lookup(*code).is_some()).count();
    assert_eq!(known, 234);
    for code in 0..=255u8 {
        if let Some(op) = OpCode::lookup(code) {
            assert_eq!(op.code, code);
        }
    }
}

#[test]
fn unofficial_opcodes_compose_their_parts() {
    // LDA #$0F; STA $10; LDA #$F1; SLO $10: memory 0x1E, A = 0xF1 | 0x1E
    let mut cpu = cpu_with(&[0xA9, 0x0F, 0x85, 0x10, 0xA9, 0xF1, 0x07, 0x10, 0x00]);
    cpu.run().unwrap();
    assert_eq!(cpu.mem_read(0x10).unwrap(), 0x1E);
    assert_eq!(cpu.register_a, 0xFF);
    // LAX $20 loads A and X; SAX $21 stores A & X
    let mut cpu = cpu_with(&[0xA7, 0x20, 0xA2, 0x0F, 0x87, 0x21, 0x00]);
    cpu.mem_write(0x20, 0x3C).unwrap();
    cpu.step().unwrap();
    assert_eq!((cpu.register_a, cpu.register_x), (0x3C, 0x3C));
    cpu.run().unwrap();
    assert_eq!(cpu.mem_read(0x21).unwrap(), 0x0C);
    // DCP $30: memory 5 -> 4, compared with A = 4
    let mut cpu = cpu_with(&[0xA9, 0x04, 0xC7, 0x30, 0x00]);
    cpu.mem_write(0x30, 0x05).unwrap();
    cpu.run().unwrap();
    assert_eq!(cpu.mem_read(0x30).unwrap(), 0x04);
    assert!(cpu.status.contains(CPUFlags::ZERO));
    assert!(cpu.status.contains(CPUFlags::CARRY));
    // ISB $30: memory 4 -> 5, A = 9 - 5 with carry set
    let mut cpu = cpu_with(&[0x38, 0xA9, 0x09, 0xE7, 0x30, 0x00]);
    cpu.mem_write(0x30, 0x04).unwrap();
    cpu.run().unwrap();
    assert_eq!(cpu.register_a, 0x04);
    // ANC #$80 copies bit 7 of A into the carry
    let mut cpu = cpu_with(&[0xA9, 0xFF, 0x0B, 0x80, 0x00]);
    cpu.run().unwrap();
    assert_eq!(cpu.register_a, 0x80);
    assert!(cpu.status.contains(CPUFlags::CARRY));
    // ALR #$03: A = (7 & 3) >> 1, carry from bit 0
    let mut cpu = cpu_with(&[0xA9, 0x07, 0x4B, 0x03, 0x00]);
    cpu.run().unwrap();
    assert_eq!(cpu.register_a, 0x01);
    assert!(cpu.status.contains(CPUFlags::CARRY));
    // RLA $40 / RRA $41 / SRE $42
    let mut cpu = cpu_with(&[0xA9, 0xFF, 0x27, 0x40, 0x00]);
    cpu.mem_write(0x40, 0x81).unwrap();
    cpu.run().unwrap();
    assert_eq!(cpu.mem_read(0x40).unwrap(), 0x02);
    assert_eq!(cpu.register_a, 0x02);
    let mut cpu = cpu_with(&[0xA9, 0x01, 0x67, 0x41, 0x00]);
    cpu.mem_write(0x41, 0x03).unwrap();
    cpu.run().unwrap();
    assert_eq!(cpu.mem_read(0x41).unwrap(), 0x01);
    assert_eq!(cpu.register_a, 0x03);
    let mut cpu = cpu_with(&[0xA9, 0xFF, 0x47, 0x42, 0x00]);
    cpu.mem_write(0x42, 0x03).unwrap();
    cpu.run().unwrap();
    assert_eq!(cpu.mem_read(0x42).unwrap(), 0x01);
    assert_eq!(cpu.register_a, 0xFE);
}

#[test]
fn nop_forms_skip_their_operands() {
    // NOP; *NOP $10; *NOP $1234; *NOP #$FF; LDA #9
    let mut cpu = cpu_with(&[0xEA, 0x04, 0x10, 0x0C, 0x34, 0x12, 0x80, 0xFF, 0xA9, 0x09, 0x00]);
    let report = cpu.run().unwrap();
    assert_eq!(report.steps, 6);
    assert_eq!(cpu.register_a, 9);
    assert_eq!(cpu.status.bits(), 0x24);
}

#[test]
fn rotate_right_through_carry() {
    // SEC; LDA #$01; ROR A: A = 0x80, carry set, not zero
    let mut cpu = cpu_with(&[0x38, 0xA9, 0x01, 0x6A, 0x00]);
    cpu.run().unwrap();
    assert_eq!(cpu.register_a, 0x80);
    assert!(cpu.status.contains(CPUFlags::CARRY));
    assert!(cpu.status.contains(CPUFlags::NEGATIVE));
    assert!(!cpu.status.contains(CPUFlags::ZERO));
    // LDA #$01; LSR A: A = 0, zero and carry set
    let mut cpu = cpu_with(&[0xA9, 0x01, 0x4A, 0x00]);
    cpu.run().unwrap();
    assert_eq!(cpu.register_a, 0x00);
    assert!(cpu.status.contains(CPUFlags::CARRY));
    assert!(cpu.status.contains(CPUFlags::ZERO));
}

#[test]
fn transfers_follow_the_flag_rule() {
    // LDX #$00; TXS; LDA #$80; TAY; TSX
    let mut cpu = cpu_with(&[0xA2, 0x00, 0x9A, 0xA9, 0x80, 0xA8, 0xBA, 0x00]);
    cpu.step().unwrap();
    cpu.step().unwrap();
    assert_eq!(cpu.register_s, 0x00);
    assert!(cpu.status.contains(CPUFlags::ZERO));
    cpu.step().unwrap();
    cpu.step().unwrap();
    assert_eq!(cpu.register_y, 0x80);
    assert!(cpu.status.contains(CPUFlags::NEGATIVE));
    assert!(!cpu.status.contains(CPUFlags::ZERO));
    cpu.step().unwrap();
    assert_eq!(cpu.register_x, 0x00);
    assert!(cpu.status.contains(CPUFlags::ZERO));
    assert!(!cpu.status.contains(CPUFlags::NEGATIVE));
}

#[test]
fn trace_formats_every_operand_form() {
    let mut cpu = cpu_with(&[]);
    cpu.register_x = 0x02;
    cpu.register_y = 0x03;
    cpu.mem_write(0x0010, 0x55).unwrap();
    cpu.mem_write(0x0012, 0x66).unwrap();
    cpu.mem_write(0x0013, 0x77).unwrap();
    cpu.mem_write(0x0300, 0x88).unwrap();
    cpu.mem_write(0x0302, 0x99).unwrap();
    cpu.mem_write(0x0303, 0xAA).unwrap();
    cpu.mem_write(0x0080, 0x00).unwrap();
    cpu.mem_write(0x0081, 0x03).unwrap();
    let cases: [(&[u8], &str); 14] = [
        (&[0xA5, 0x10], "0700  A5 10     LDA $10 = 55"),
        (&[0xB5, 0x10], "0700  B5 10     LDA $10,X @ 12 = 66"),
        (&[0xB6, 0x10], "0700  B6 10     LDX $10,Y @ 13 = 77"),
        (&[0xAD, 0x00, 0x03], "0700  AD 00 03  LDA $0300 = 88"),
        (&[0xBD, 0x00, 0x03], "0700  BD 00 03  LDA $0300,X @ 0302 = 99"),
        (&[0xB9, 0x00, 0x03], "0700  B9 00 03  LDA $0300,Y @ 0303 = AA"),
        (&[0xA1, 0x7E], "0700  A1 7E     LDA ($7E,X) @ 80 = 0300 = 88"),
        (&[0xB1, 0x80], "0700  B1 80     LDA ($80),Y = 0300 @ 0303 = AA"),
        (&[0x4C, 0x00, 0x03], "0700  4C 00 03  JMP $0300"),
        (&[0x20, 0x00, 0x03], "0700  20 00 03  JSR $0300"),
        (&[0x6C, 0x80, 0x00], "0700  6C 80 00  JMP ($0080) = 0300"),
        (&[0xD0, 0xFC], "0700  D0 FC     BNE $06FE"),
        (&[0x0A], "0700  0A        ASL A"),
        (&[0xA7, 0x10], "0700  A7 10    *LAX $10 = 55"),
    ];
    for (bytes, assembly) in cases {
        for (i, byte) in bytes.iter().enumerate() {
            cpu.mem_write(0x0700 + i as u16, *byte).unwrap();
        }
        cpu.program_counter = 0x0700;
        let line = trace(&mut cpu).unwrap();
        assert_eq!(line, format!("{:47} A:00 X:02 Y:03 P:24 SP:FD", assembly));
        assert_eq!(cpu.program_counter, 0x0700);
    }
}

#[test]
fn a_fault_names_the_instruction_that_ran_into_it() {
    // NOP; LDA $2007 with the video address at 0x3000
    let mut cpu = cpu_with(&[0xEA, 0xAD, 0x07, 0x20]);
    cpu.mem_write(0x2006, 0x30).unwrap();
    cpu.mem_write(0x2006, 0x00).unwrap();
    cpu.step().unwrap();
    assert_eq!(cpu.step(), Err(Crash { fault: Fault::VideoRead { addr: 0x3000 }, pc: 0x8001 }));
    // a program too long to load
    let mut cpu = cpu_with(&[]);
    cpu.program_counter = 0x1234;
    assert_eq!(
        cpu.load_and_run(vec![0xEA; 0x7A01]),
        Err(Crash { fault: Fault::ProgramRomWrite { addr: 0x8000 }, pc: 0x1234 })
    );
}

#[test]
fn running_where_nothing_is_mapped_faults() {
    // JMP $5000
    let mut cpu = cpu_with(&[0x4C, 0x00, 0x50]);
    cpu.step().unwrap();
    assert_eq!(cpu.program_counter, 0x5000);
    assert_eq!(cpu.step(), Err(Crash { fault: Fault::UnmappedFetch { addr: 0x5000 }, pc: 0x5000 }));
    // the registers of the audio unit read 0, which is BRK
    cpu.program_counter = 0x4000;
    assert!(cpu.step().unwrap().halted);
    // data reads of the unmapped part return 0
    assert_eq!(cpu.mem_read(0x5000), Ok(0));
}

#[test]
fn callback_sees_every_instruction_before_it_runs() {
    // LDA #1; TAX; INX; BRK
    let mut cpu = cpu_with(&[0xA9, 0x01, 0xAA, 0xE8, 0x00]);
    let seen: RefCell<Vec<(u16, u8)>> = RefCell::new(vec![]);
    let report = cpu
        .run_with_callback(|cpu| seen.borrow_mut().push((cpu.program_counter, cpu.register_x)))
        .unwrap();
    assert!(report.halted);
    assert_eq!(report.steps, 4);
    assert_eq!(seen.into_inner(), vec![(0x8000, 0), (0x8002, 0), (0x8003, 1), (0x8004, 2)]);
    // a bounded run stops the callback with it
    let mut cpu = cpu_with(&[0x4C, 0x00, 0x80]);
    let calls = RefCell::new(0);
    let report = cpu.run_with_callback_for(|_| *calls.borrow_mut() += 1, 7).unwrap();
    assert!(!report.halted);
    assert_eq!(calls.into_inner(), 7);
}
