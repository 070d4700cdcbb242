use nes_core::bus::Bus;
use nes_core::cartridge::{Mirroring, Rom};
use nes_core::cpu::{CPUFlags, Memory, CPU};

/// A 32 KiB cartridge of zeroes whose reset vector points at 0x0600.
fn test_rom() -> Rom {
    let mut prg_rom = vec![0u8; 0x8000];
    prg_rom[0x7FFC] = 0x00;
    prg_rom[0x7FFD] = 0x06;
    Rom { prg_rom, chr_rom: vec![0u8; 0x2000], screen_mirroring: Mirroring::HORIZONTAL }
}

#[test]
fn test_set_flags() {
    let bus = Bus::new(test_rom());
    let mut cpu = CPU::new(bus);
    cpu.load_and_run(vec![0x38, 0xF8, 0x78, 0x00]).unwrap(); // SEC SED SEI BRK
    assert!(cpu.status.contains(CPUFlags::CARRY));

    assert!(cpu.status.contains(CPUFlags::DECIMAL));
    assert!(cpu.status.contains(CPUFlags::INTERRUPT));
}

#[test]
fn test_clear_flags() {
    let bus = Bus::new(test_rom());
    let mut cpu = CPU::new(bus);
    cpu.load_and_run(vec![0x38, 0xF8, 0x78, 0x18, 0xD8, 0x58, 0x00]).unwrap(); // SEC SED SEI CLC CLD CLI BRK

    assert!(!cpu.status.contains(CPUFlags::CARRY));
    assert!(!cpu.status.contains(CPUFlags::DECIMAL));
    assert!(!cpu.status.contains(CPUFlags::INTERRUPT));
}


#[test]
fn test_adc_immediate_without_carry() {
    let bus = Bus::new(test_rom());
    let mut cpu = CPU::new(bus);
    cpu.load_and_run(vec![0x69, 0x01, 0x00]).unwrap(); // ADC #01 BRK
    assert_eq!(cpu.register_a, 0x01); // Check if A = 1
    assert!(!cpu.status.contains(CPUFlags::ZERO)); // Check the Z flag is off
    assert!(!cpu.status.contains(CPUFlags::NEGATIVE)); // Check the N flag is off
}

#[test]
fn test_adc_immediate_with_carry() {
    let bus = Bus::new(test_rom());
    let mut cpu = CPU::new(bus);
    cpu.load_and_run(vec![0x38, 0x69, 0x01, 0x00]).unwrap(); // SEC ADC #01 BRK
    assert_eq!(cpu.register_a, 0x02); // Check if A = 2
}

#[test]
fn test_adc_carry_and_overflow_flags() {
    let bus = Bus::new(test_rom());
    let mut cpu = CPU::new(bus);
    cpu.load_and_run(vec![0xa9, 0x80, 0x69, 0x80, 0x00]).unwrap(); // LDA #80 ADC #80 BRK
    assert!(cpu.status.contains(CPUFlags::CARRY));

    assert!(cpu.status.contains(CPUFlags::OVERFLOW));
}

#[test]
fn test_asl() {
    let bus = Bus::new(test_rom());
    let mut cpu = CPU::new(bus);
    cpu.load_and_run(vec![0xa9, 0x42, 0x0A, 0x00]).unwrap(); // LDA #42 ASL A BRK
    assert!(cpu.register_a == 0x84);
}

#[test]
fn test_asl_memory() {
    let bus = Bus::new(test_rom());
    let mut cpu = CPU::new(bus);
    cpu.load_and_run(vec![0xa9, 0x42, 0x85, 0x00, 0x06, 0x00, 0x00]).unwrap(); // LDA #42 STA $00 ASL $00 BRK
    assert!(cpu.mem_read(0x00).unwrap() == 0x84);
}

#[test]
fn test_asl_carry() {
    let bus = Bus::new(test_rom());
    let mut cpu = CPU::new(bus);
    cpu.load_and_run(vec![0xa9, 0xFF, 0x0A, 0x00]).unwrap(); // LDA #FF ASL BRK
    assert!(cpu.status.contains(CPUFlags::CARRY));
}

#[test]
fn test_bit_clear_all() {
    let bus = Bus::new(test_rom());
    let mut cpu = CPU::new(bus);
    cpu.load_and_run(vec![0xa9, 0x0F, 0x85, 0x00, 0x24, 0x00, 0x00]).unwrap(); // LDA #0F STA $00 BIT $00 BRK
    assert!(!cpu.status.contains(CPUFlags::ZERO));
    assert!(!cpu.status.contains(CPUFlags::OVERFLOW));
    assert!(!cpu.status.contains(CPUFlags::NEGATIVE));
}


#[test]
fn test_bit_set_all() {
    let bus = Bus::new(test_rom());
    let mut cpu = CPU::new(bus);
    cpu.load_and_run(vec![0xa9, 0xF0, 0x85, 0x00, 0xa9, 0x0F, 0x24, 0x00, 0x00]).unwrap(); // LDA #F0 STA $00 LDA #0F BIT $00 BRK
    assert!(cpu.status.contains(CPUFlags::ZERO));
    assert!(cpu.status.contains(CPUFlags::OVERFLOW));
    assert!(cpu.status.contains(CPUFlags::NEGATIVE));
}

#[test]
fn test_sbc_immediate_without_carry() {
    let bus = Bus::new(test_rom());
    let mut cpu = CPU::new(bus);
    cpu.load_and_run(vec![0xE9, 0x01, 0x00]).unwrap(); // SBC #01 BRK

    assert_eq!(cpu.register_a, 0xFE); // Check if A = -2
    assert!(!cpu.status.contains(CPUFlags::ZERO)); // Check the Z flag is off
    assert!(cpu.status.contains(CPUFlags::NEGATIVE)); // Check the N flag is on
}

#[test]
fn test_sbc_immediate_with_carry() {
    let bus = Bus::new(test_rom());
    let mut cpu = CPU::new(bus);
    cpu.load_and_run(vec![0x38, 0xE9, 0x00, 0x00]).unwrap(); // SEC SBC #00 BRK
    assert_eq!(cpu.register_a, 0x00); // Check if A = 0
}

#[test]
fn test_and_immediate() {
    let bus = Bus::new(test_rom());
    let mut cpu = CPU::new(bus);
    cpu.load_and_run(vec![0xa9, 0x05, 0x29, 0x01, 0x00]).unwrap(); // Load 5 into acc and AND with 1
    assert_eq!(cpu.register_a, 0x01); // Check if A = 1
    assert!(!cpu.status.contains(CPUFlags::ZERO)); // Check the Z flag is off
    assert!(!cpu.status.contains(CPUFlags::NEGATIVE)); // Check the N flag is off
}

#[test]
fn test_and_zero_flag() {
    let bus = Bus::new(test_rom());
    let mut cpu = CPU::new(bus);
    cpu.load_and_run(vec![0xa9, 0x05, 0x29, 0x00, 0x00]).unwrap(); // Load 5 into acc and AND with 0
    assert!(cpu.status.contains(CPUFlags::ZERO)) // Check Z flag is on
}

#[test]
fn test_and_from_memory() {

    let bus = Bus::new(test_rom());
    let mut cpu = CPU::new(bus);
    cpu.mem_write(0x10, 0x51).unwrap();

    cpu.load_and_run(vec![0xa9, 0x55, 0x25, 0x10, 0x00]).unwrap(); // Load 5 into acc and AND with location in
    assert!(cpu.register_a == 0x51)
}

#[test]
fn test_bcc_fail_branch() {
    let bus = Bus::new(test_rom());
    let mut cpu = CPU::new(bus);
    cpu.load_and_run(vec![0x38, 0x90, 0x02, 0xa9, 0x05, 0x00]).unwrap(); // BCC #02 LDA #$0x05 BRK

    assert_eq!(cpu.register_a, 0x05);
}

#[test]
fn test_bcc_branch() {
    let bus = Bus::new(test_rom());
    let mut cpu = CPU::new(bus);
    cpu.load_and_run(vec![0x18, 0x90, 0x02, 0xa9, 0x05, 0x00]).unwrap(); // CLC BCC #02 LDA #$0x05 BRK

    assert_eq!(cpu.register_a, 0x00);
}

#[test]
fn test_cmp_greater_than() {
    let bus = Bus::new(test_rom());
    let mut cpu = CPU::new(bus);
    cpu.load_and_run(vec![0xa9, 0x01, 0xc9, 0x00, 0x00]).unwrap(); // LDA #$01 CMP #$00 BRK
    assert!(cpu.status.contains(CPUFlags::CARRY));
    assert!(!cpu.status.contains(CPUFlags::ZERO));
    assert!(!cpu.status.contains(CPUFlags::NEGATIVE));
}

#[test]
fn test_cmp_equal_to() {
    let bus = Bus::new(test_rom());
    let mut cpu = CPU::new(bus);
    cpu.load_and_run(vec![0xc9, 0x00, 0x00]).unwrap(); // CMP #$00 BRK
    assert!(cpu.status.contains(CPUFlags::CARRY));
    assert!(cpu.status.contains(CPUFlags::ZERO));
    assert!(!cpu.status.contains(CPUFlags::NEGATIVE));

}

#[test]
fn test_0xa9_lda_immediate_load_data() {
    let bus = Bus::new(test_rom());
    let mut cpu = CPU::new(bus);
    cpu.load_and_run(vec![0xa9, 0x05, 0x00]).unwrap(); // Load in 5 into the Accumulator
    assert_eq!(cpu.register_a, 0x05); // Check if A = 5
    assert!(!cpu.status.contains(CPUFlags::ZERO)); // Check the Z flag is off
    assert!(!cpu.status.contains(CPUFlags::NEGATIVE)); // Check the N flag is off
}

#[test]
fn test_0xa9_lda_zero_flag() {
    let bus = Bus::new(test_rom());
    let mut cpu = CPU::new(bus);
    cpu.load_and_run(vec![0xa9, 0x00, 0x00]).unwrap(); // Load 0 into accumulator
    assert!(cpu.status.contains(CPUFlags::ZERO)) // Check Z flag is on
}

#[test]
fn test_lda_from_memory() {

    let bus = Bus::new(test_rom());
    let mut cpu = CPU::new(bus);
    cpu.mem_write(0x10, 0x55).unwrap();

    cpu.load_and_run(vec![0xa5, 0x10, 0x00]).unwrap(); // LDA from 0x10
    assert!(cpu.register_a == 0x55)
}

#[test]
fn test_sta() {
    let bus = Bus::new(test_rom());
    let mut cpu = CPU::new(bus);
    cpu.register_a = 0x60;

    cpu.load(vec![0x85, 0x10, 0x00]).unwrap(); // STA to 0x10
    cpu.reset().unwrap();
    cpu.register_a = 0x60;
    cpu.run().unwrap();
    let mem = cpu.mem_read(0x10).unwrap();
    assert_eq!(mem, 0x60)
}

#[test]
fn test_0xaa_tax_move_a_to_x() {
    let bus = Bus::new(test_rom());
    let mut cpu = CPU::new(bus);
    cpu.load(vec![0xaa, 0x00]).unwrap(); // TAX
    cpu.reset().unwrap();
    cpu.register_a = 5;
    cpu.run().unwrap();
    assert_eq!(cpu.register_x, 5)
}

#[test]
fn test_5_ops_working_together() {
    let bus = Bus::new(test_rom());
    let mut cpu = CPU::new(bus);
    cpu.load_and_run(vec![0xa9, 0xc0, 0xaa, 0xe8, 0x00]).unwrap(); // Load C0 into A, transfer to X, then increment

    assert_eq!(cpu.register_x, 0xc1) // 0xc0 + 1 = 0xc1
}

#[test]
fn test_inx_overflow() {
    let bus = Bus::new(test_rom());
    let mut cpu = CPU::new(bus);
    cpu.load(vec![0xe8, 0xe8, 0x00]).unwrap(); // Already at 0xff, +1 overflow to 0, +1 = 1

    cpu.reset().unwrap();
    cpu.register_x = 0xff;
    cpu.run().unwrap();
    assert_eq!(cpu.register_x, 1)
}

#[test]
fn test_rol() {
    let bus = Bus::new(test_rom());
    let mut cpu = CPU::new(bus);
    cpu.load_and_run(vec![0xa9, 0xFF, 0x2A, 0x00]).unwrap(); // LDA #$FF ROL BRK

    assert_eq!(cpu.register_a, 0xFE);
    assert!(cpu.status.contains(CPUFlags::CARRY));
}

#[test]
fn test_rol_with_carry() {
    let bus = Bus::new(test_rom());
    let mut cpu = CPU::new(bus);
    cpu.load_and_run(vec![0x38, 0xa9, 0x7F, 0x2A, 0x00]).unwrap(); // SEC, LDA #$FF ROL BRK

    assert_eq!(cpu.register_a, 0xFF);
    assert!(!cpu.status.contains(CPUFlags::CARRY));
}
