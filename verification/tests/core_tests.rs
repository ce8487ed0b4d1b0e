//! Registers, modes, memory, PRNG and ROM loading.

use chip8_core::common::Chip8Mode;
use chip8_core::common::Chip8ModeParseError;
use chip8_core::common::Error;
use chip8_core::cpu::CHIP8_MEM_SIZE;
use chip8_core::cpu::CPU;
use chip8_core::font;
use chip8_core::prng::Prng;
use chip8_core::register::Register;
use chip8_core::register::RegisterOutOfRange;
use chip8_core::debugger::parse_number_u16;
use chip8_core::debugger::parse_number_u8;
use chip8_core::debugger::parse_register;

#[test]
fn test_register_from_index() {
    for i in 0u8..16 {
        let reg = Register::from_index(i).unwrap();
        assert_eq!(reg.index(), i);
    }
    assert!(Register::from_index(16).is_none());
    assert!(Register::from_index(255).is_none());
    assert_eq!(Register::try_from_index(16), Err(RegisterOutOfRange));
    assert_eq!(Register::try_from_index(3), Ok(Register::V3));
}

#[test]
fn test_register_by_name() {
    assert_eq!(Register::by_name("v0"), Some(Register::V0));
    assert_eq!(Register::by_name("V9"), Some(Register::V9));
    assert_eq!(Register::by_name("vA"), Some(Register::VA));
    assert_eq!(Register::by_name("VF"), Some(Register::VF));
    assert_eq!(Register::by_name("vB"), Some(Register::VB));
    // The digit letter must be upper-case.
    assert_eq!(Register::by_name("va"), None);
    assert_eq!(Register::by_name("Vb"), None);
    assert_eq!(Register::by_name("w1"), None);
    assert_eq!(Register::by_name("v"), None);
    assert_eq!(Register::by_name("v10"), None);
    assert_eq!(Register::by_name("vg"), None);
    assert_eq!(Register::by_name(""), None);
}

#[test]
fn test_mode_by_name() {
    assert_eq!(Chip8Mode::by_name("cosmac"), Ok(Chip8Mode::Cosmac));
    assert_eq!(Chip8Mode::by_name("Cosmac"), Ok(Chip8Mode::Cosmac));
    assert_eq!(Chip8Mode::by_name("SUPER-CHIP"), Ok(Chip8Mode::SuperChip));
    assert_eq!(Chip8Mode::by_name("xo-chip"), Ok(Chip8Mode::XoChip));
    assert_eq!(Chip8Mode::by_name("chip-16"), Err(Chip8ModeParseError::InvalidMode));
    assert_eq!(Chip8Mode::by_name(""), Err(Chip8ModeParseError::InvalidMode));
    assert_eq!(Chip8Mode::default(), Chip8Mode::Cosmac);
    assert_eq!(Chip8Mode::Cosmac.index(), 0);
    assert_eq!(Chip8Mode::SuperChip.index(), 1);
    assert_eq!(Chip8Mode::XoChip.index(), 2);
}

#[test]
fn test_register_idempotence() {
    // Setting VX to NN and reading it back yields NN, for every X and NN.
    let mut cpu = CPU::new(Chip8Mode::Cosmac);
    for x in 0u8..16 {
        let reg = Register::from_index(x).unwrap();
        for nn in 0u16..256 {
            cpu.set_register(reg, nn as u8);
            assert_eq!(cpu.get_register(reg), nn as u8);
        }
    }
}

#[test]
fn test_memory_word_bounds() {
    // Word access fails exactly on the last byte; byte access covers the
    // whole 16-bit range.
    let mut cpu = CPU::new(Chip8Mode::XoChip);
    assert_eq!(cpu.read_memory_word(0xFFFF), Err(Error::OutOfBounds));
    assert_eq!(cpu.write_memory_word(0xFFFF, 0x1234), Err(Error::OutOfBounds));
    assert!(cpu.read_memory_word(0xFFFE).is_ok());
    assert!(cpu.write_memory_word(0xFFFE, 0xABCD).is_ok());
    assert_eq!(cpu.read_memory_word(0xFFFE), Ok(0xABCD));
    assert_eq!(cpu.read_memory_byte(0xFFFF).unwrap(), 0xCD);
}

#[test]
fn test_memory_byte_roundtrip() {
    let mut cpu = CPU::new(Chip8Mode::Cosmac);
    cpu.write_memory_byte(0x300, 0x5A).unwrap();
    assert_eq!(cpu.read_memory_byte(0x300), Ok(0x5A));
    cpu.write_memory_word(0x400, 0xBEEF).unwrap();
    assert_eq!(cpu.read_memory_byte(0x400), Ok(0xBE));
    assert_eq!(cpu.read_memory_byte(0x401), Ok(0xEF));
}

#[test]
fn test_prng_determinism() {
    let mut a = Prng::new_seed(0x1234_5678_9ABC_DEF0);
    let mut b = Prng::new_seed(0x1234_5678_9ABC_DEF0);
    for _ in 0..64 {
        assert_eq!(a.next_u64(), b.next_u64());
    }
    let first = Prng::new_seed(42).next_u64();
    a.reseed(42);
    assert_eq!(a.next_u64(), first);
}

#[test]
fn test_load_rom_too_large() {
    let mut cpu = CPU::new(Chip8Mode::XoChip);
    let too_big = vec![0u8; CHIP8_MEM_SIZE - 0x200 + 1];
    assert_eq!(cpu.load_rom(&too_big), Err(Error::InvalidFile));
    let just_fits = vec![0u8; CHIP8_MEM_SIZE - 0x200];
    assert!(cpu.load_rom(&just_fits).is_ok());
}

#[test]
fn test_load_rom_promotes_mode() {
    // A ROM beyond 4 KiB only fits the XO-CHIP memory map.
    let mut cpu = CPU::new(Chip8Mode::Cosmac);
    let big = vec![0u8; 0x1001];
    assert!(cpu.load_rom(&big).is_ok());
    assert_eq!(cpu.mode, Chip8Mode::XoChip);

    let mut cpu2 = CPU::new(Chip8Mode::Cosmac);
    let small = vec![0u8; 0x1000];
    assert!(cpu2.load_rom(&small).is_ok());
    assert_eq!(cpu2.mode, Chip8Mode::Cosmac);
}

#[test]
fn test_load_rom_places_image() {
    let mut cpu = CPU::new(Chip8Mode::Cosmac);
    let rom = vec![0xDE, 0xAD, 0xBE, 0xEF];
    cpu.load_rom(&rom).unwrap();
    assert_eq!(cpu.read_memory_byte(0x200), Ok(0xDE));
    assert_eq!(cpu.read_memory_byte(0x203), Ok(0xEF));
    assert_eq!(cpu.read_memory_byte(0x204), Ok(0));
    assert_eq!(cpu.pc, 0x200);
}

#[test]
fn test_load_rom_keeps_persistent_registers() {
    // The FX75/FX85 shadow file survives the software reset of a load.
    let mut cpu = CPU::new(Chip8Mode::SuperChip);
    cpu.load_rom(&[0xF1, 0x75]).unwrap();
    cpu.set_register(Register::V0, 0xAB);
    cpu.set_register(Register::V1, 0xCD);
    cpu.step().unwrap();
    cpu.load_rom(&[0xF1, 0x85]).unwrap();
    assert_eq!(cpu.get_register(Register::V0), 0);
    cpu.step().unwrap();
    assert_eq!(cpu.get_register(Register::V0), 0xAB);
    assert_eq!(cpu.get_register(Register::V1), 0xCD);
}

#[test]
fn test_hotswap_keeps_state() {
    let mut cpu = CPU::new(Chip8Mode::Cosmac);
    cpu.load_rom(&[0x60, 0x07]).unwrap();
    cpu.step().unwrap();
    assert_eq!(cpu.get_register(Register::V0), 7);
    let pc_before = cpu.pc;
    cpu.hotswap(&[0x61, 0x08]).unwrap();
    assert_eq!(cpu.get_register(Register::V0), 7);
    assert_eq!(cpu.pc, pc_before);
    assert_eq!(cpu.read_memory_byte(0x200), Ok(0x61));
}

#[test]
fn test_fonts_installed() {
    let cpu = CPU::new(Chip8Mode::SuperChip);
    // Glyph 0 of the small font starts with 0xF0; the big font with 0xFF.
    assert_eq!(cpu.read_memory_byte(0x50), Ok(0xF0));
    assert_eq!(cpu.read_memory_byte(0xA0), Ok(0xFF));
    assert_eq!(font::sprite_addr(0), 0x50);
    assert_eq!(font::sprite_addr(0xF), 0x50 + 75);
    assert_eq!(font::big_sprite_addr(0), 0xA0);
    assert_eq!(font::big_sprite_addr(0xF), 0xA0 + 150);
    assert_eq!(font::font_set().len(), 80);
    assert_eq!(font::big_font_set().len(), 160);
}

#[test]
fn test_parse_number_formats() {
    assert_eq!(parse_number_u16("1234"), Some(1234));
    assert_eq!(parse_number_u16("#1f"), Some(0x1F));
    assert_eq!(parse_number_u16("#1F"), Some(0x1F));
    assert_eq!(parse_number_u16("0x200"), Some(0x200));
    assert_eq!(parse_number_u16("0X200"), Some(0x200));
    assert_eq!(parse_number_u16("0b1010"), Some(10));
    assert_eq!(parse_number_u16("0"), Some(0));
    assert_eq!(parse_number_u16("65535"), Some(65535));
    assert_eq!(parse_number_u16("65536"), None);
    assert_eq!(parse_number_u16(""), None);
    assert_eq!(parse_number_u16("0x"), None);
    assert_eq!(parse_number_u16("12g"), None);
    assert_eq!(parse_number_u16("0b102"), None);
    // A leading minus takes the two's complement.
    assert_eq!(parse_number_u16("-1"), Some(0xFFFF));
    assert_eq!(parse_number_u16("-0x10"), Some(0xFFF0));
    assert_eq!(parse_number_u16("-32768"), None);
    assert_eq!(parse_number_u16("-32767"), Some(0x8001));
    assert_eq!(parse_number_u8("255"), Some(255));
    assert_eq!(parse_number_u8("256"), None);
}

#[test]
fn test_parse_register_names_and_numbers() {
    assert_eq!(parse_register("vA"), Some(Register::VA));
    assert_eq!(parse_register("15"), Some(Register::VF));
    assert_eq!(parse_register("#0f"), Some(Register::VF));
    assert_eq!(parse_register("16"), None);
    assert_eq!(parse_register("-1"), None);
    assert_eq!(parse_register("pc"), None);
}

#[test]
fn test_disassemble() {
    let mut cpu = CPU::new(Chip8Mode::Cosmac);
    cpu.load_rom(&[0x60, 0x42, 0xFF, 0xFF]).unwrap();
    assert_eq!(cpu.disassemble_next(), Some("Vx = NN;"));
    assert_eq!(cpu.disassemble(0x202), None);
    assert_eq!(cpu.disassemble(0xFFFF), None);
}
