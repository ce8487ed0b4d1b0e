//! Per-opcode semantics, including the dialect quirks.

use chip8_core::common::Chip8Mode;
use chip8_core::common::Error;
use chip8_core::cpu::CPU;
use chip8_core::register::Register;

fn rom(words: &[u16]) -> Vec<u8> {
    let mut out = Vec::new();
    for w in words {
        out.push((w >> 8) as u8);
        out.push((w & 0xFF) as u8);
    }
    out
}

fn cpu_with(mode: Chip8Mode, words: &[u16]) -> CPU {
    let mut cpu = CPU::new(mode);
    cpu.reseed(0);
    cpu.load_rom(&rom(words)).unwrap();
    cpu
}

#[test]
fn test_7xnn_wraps_without_flag() {
    // 7XNN wraps at 256 and leaves VF alone.
    let mut cpu = cpu_with(Chip8Mode::Cosmac, &[0x70FF, 0x7002]);
    cpu.set_register(Register::V0, 0xFE);
    cpu.set_register(Register::VF, 0x77);
    cpu.step().unwrap();
    assert_eq!(cpu.get_register(Register::V0), 0xFD);
    assert_eq!(cpu.get_register(Register::VF), 0x77);
    cpu.step().unwrap();
    assert_eq!(cpu.get_register(Register::V0), 0xFF);
    assert_eq!(cpu.get_register(Register::VF), 0x77);
}

#[test]
fn test_8xy4_flag_written_after_result() {
    // With VF as the destination, the carry flag wins over the sum.
    let mut cpu = cpu_with(Chip8Mode::Cosmac, &[0x8F14]);
    cpu.set_register(Register::VF, 200);
    cpu.set_register(Register::V1, 100);
    cpu.step().unwrap();
    assert_eq!(cpu.get_register(Register::VF), 1);

    let mut cpu2 = cpu_with(Chip8Mode::Cosmac, &[0x8F14]);
    cpu2.set_register(Register::VF, 3);
    cpu2.set_register(Register::V1, 4);
    cpu2.step().unwrap();
    assert_eq!(cpu2.get_register(Register::VF), 0);
}

#[test]
fn test_8xy4_carry() {
    let mut cpu = cpu_with(Chip8Mode::Cosmac, &[0x8014, 0x8014]);
    cpu.set_register(Register::V0, 250);
    cpu.set_register(Register::V1, 10);
    cpu.step().unwrap();
    assert_eq!(cpu.get_register(Register::V0), 4);
    assert_eq!(cpu.get_register(Register::VF), 1);
    cpu.step().unwrap();
    assert_eq!(cpu.get_register(Register::V0), 14);
    assert_eq!(cpu.get_register(Register::VF), 0);
}

#[test]
fn test_8xy5_8xy7_borrow_flags() {
    let mut cpu = cpu_with(Chip8Mode::Cosmac, &[0x8015, 0x8017]);
    cpu.set_register(Register::V0, 5);
    cpu.set_register(Register::V1, 7);
    cpu.step().unwrap();
    // 5 - 7 borrows: result wraps, VF = 0.
    assert_eq!(cpu.get_register(Register::V0), 254);
    assert_eq!(cpu.get_register(Register::VF), 0);
    // V0 = V1 - V0 = 7 - 254 borrows again.
    cpu.step().unwrap();
    assert_eq!(cpu.get_register(Register::V0), 9);
    assert_eq!(cpu.get_register(Register::VF), 0);

    let mut cpu2 = cpu_with(Chip8Mode::Cosmac, &[0x8017]);
    cpu2.set_register(Register::V0, 2);
    cpu2.set_register(Register::V1, 9);
    cpu2.step().unwrap();
    assert_eq!(cpu2.get_register(Register::V0), 7);
    assert_eq!(cpu2.get_register(Register::VF), 1);
}

#[test]
fn test_shift_source_depends_on_mode() {
    // 8XY6: the original and XO-CHIP dialects shift VY into VX; the
    // Super-CHIP dialect shifts VX in place.
    for (mode, expect_v0, expect_vf) in [
        (Chip8Mode::Cosmac, 0b0101, 0),
        (Chip8Mode::SuperChip, 0b0110, 1),
        (Chip8Mode::XoChip, 0b0101, 0),
    ] {
        let mut cpu = cpu_with(mode, &[0x8016]);
        cpu.set_register(Register::V0, 0b1101);
        cpu.set_register(Register::V1, 0b1010);
        cpu.step().unwrap();
        assert_eq!(cpu.get_register(Register::V0), expect_v0);
        assert_eq!(cpu.get_register(Register::VF), expect_vf);
    }
    // 8XYE mirrors it on the left shift, VF taking the top bit.
    for (mode, expect_v0, expect_vf) in [
        (Chip8Mode::Cosmac, 0b0101_0100, 1),
        (Chip8Mode::SuperChip, 0b1010_0010, 0),
        (Chip8Mode::XoChip, 0b0101_0100, 1),
    ] {
        let mut cpu = cpu_with(mode, &[0x801E]);
        cpu.set_register(Register::V0, 0b0101_0001);
        cpu.set_register(Register::V1, 0b1010_1010);
        cpu.step().unwrap();
        assert_eq!(cpu.get_register(Register::V0), expect_v0);
        assert_eq!(cpu.get_register(Register::VF), expect_vf);
    }
}

#[test]
fn test_logic_ops_clear_flag_on_cosmac() {
    for (mode, expect_vf) in [(Chip8Mode::Cosmac, 0), (Chip8Mode::SuperChip, 0x55)] {
        let mut cpu = cpu_with(mode, &[0x8011]);
        cpu.set_register(Register::V0, 0b1100);
        cpu.set_register(Register::V1, 0b1010);
        cpu.set_register(Register::VF, 0x55);
        cpu.step().unwrap();
        assert_eq!(cpu.get_register(Register::V0), 0b1110);
        assert_eq!(cpu.get_register(Register::VF), expect_vf);
    }
}

#[test]
fn test_fx55_fx65_index_quirk() {
    // FX55 leaves I advanced by X+1 in the original and XO-CHIP dialects
    // and untouched in the Super-CHIP dialect.
    for (mode, expect_index) in [
        (Chip8Mode::Cosmac, 0x303),
        (Chip8Mode::SuperChip, 0x300),
        (Chip8Mode::XoChip, 0x303),
    ] {
        let mut cpu = cpu_with(mode, &[0xA300, 0xF255, 0xA300, 0xF265]);
        cpu.set_register(Register::V0, 11);
        cpu.set_register(Register::V1, 22);
        cpu.set_register(Register::V2, 33);
        cpu.step().unwrap();
        cpu.step().unwrap();
        assert_eq!(cpu.index, expect_index);
        assert_eq!(cpu.read_memory_byte(0x300), Ok(11));
        assert_eq!(cpu.read_memory_byte(0x301), Ok(22));
        assert_eq!(cpu.read_memory_byte(0x302), Ok(33));
        // Load them back into fresh registers.
        cpu.set_register(Register::V0, 0);
        cpu.set_register(Register::V1, 0);
        cpu.set_register(Register::V2, 0);
        cpu.step().unwrap();
        cpu.step().unwrap();
        assert_eq!(cpu.get_register(Register::V0), 11);
        assert_eq!(cpu.get_register(Register::V1), 22);
        assert_eq!(cpu.get_register(Register::V2), 33);
        assert_eq!(cpu.index, expect_index);
    }
}

#[test]
fn test_bnnn_offset_register_by_mode() {
    // BNNN jumps to NNN + V0, except the Super-CHIP dialect adds VX.
    for (mode, expect_pc) in [
        (Chip8Mode::Cosmac, 0x305),
        (Chip8Mode::SuperChip, 0x30A),
        (Chip8Mode::XoChip, 0x305),
    ] {
        let mut cpu = cpu_with(mode, &[0xB300]);
        cpu.set_register(Register::V0, 5);
        cpu.set_register(Register::V3, 10);
        cpu.step().unwrap();
        assert_eq!(cpu.pc, expect_pc);
    }
}

#[test]
fn test_bcd() {
    let mut cpu = cpu_with(Chip8Mode::Cosmac, &[0xA400, 0xF733]);
    cpu.set_register(Register::V7, 234);
    cpu.step().unwrap();
    cpu.step().unwrap();
    assert_eq!(cpu.read_memory_byte(0x400), Ok(2));
    assert_eq!(cpu.read_memory_byte(0x401), Ok(3));
    assert_eq!(cpu.read_memory_byte(0x402), Ok(4));
}

#[test]
fn test_call_and_return() {
    let mut cpu = cpu_with(Chip8Mode::Cosmac, &[0x2300]);
    cpu.write_memory_word(0x300, 0x00EE).unwrap();
    cpu.step().unwrap();
    assert_eq!(cpu.pc, 0x300);
    assert_eq!(cpu.call_stack, vec![0x202]);
    cpu.step().unwrap();
    assert_eq!(cpu.pc, 0x202);
    assert!(cpu.call_stack.is_empty());
    // Returning with an empty stack is a quiet no-op.
    cpu.write_memory_word(0x202, 0x00EE).unwrap();
    cpu.step().unwrap();
    assert_eq!(cpu.pc, 0x204);
}

#[test]
fn test_conditional_skips() {
    let mut cpu = cpu_with(Chip8Mode::Cosmac, &[0x3007]);
    cpu.set_register(Register::V0, 7);
    cpu.step().unwrap();
    assert_eq!(cpu.pc, 0x204);
    let mut cpu2 = cpu_with(Chip8Mode::Cosmac, &[0x3007]);
    cpu2.set_register(Register::V0, 8);
    cpu2.step().unwrap();
    assert_eq!(cpu2.pc, 0x202);
    let mut cpu3 = cpu_with(Chip8Mode::Cosmac, &[0x5120]);
    cpu3.set_register(Register::V1, 9);
    cpu3.set_register(Register::V2, 9);
    cpu3.step().unwrap();
    assert_eq!(cpu3.pc, 0x204);
    let mut cpu4 = cpu_with(Chip8Mode::Cosmac, &[0x9120]);
    cpu4.set_register(Register::V1, 9);
    cpu4.set_register(Register::V2, 9);
    cpu4.step().unwrap();
    assert_eq!(cpu4.pc, 0x202);
}

#[test]
fn test_xochip_skip_jumps_over_long_form() {
    // A taken skip in the XO-CHIP dialect hops over all four bytes of the
    // long-index form; in the older dialects only over two.
    let mut xo = cpu_with(Chip8Mode::XoChip, &[0x3007, 0xF000, 0x1234]);
    xo.set_register(Register::V0, 7);
    xo.step().unwrap();
    assert_eq!(xo.pc, 0x206);
    let mut cosmac = cpu_with(Chip8Mode::Cosmac, &[0x3007, 0xF000, 0x1234]);
    cosmac.set_register(Register::V0, 7);
    cosmac.step().unwrap();
    assert_eq!(cosmac.pc, 0x204);
}

#[test]
fn test_long_index_form() {
    let mut cpu = cpu_with(Chip8Mode::XoChip, &[0xF000, 0x1234]);
    cpu.step().unwrap();
    assert_eq!(cpu.index, 0x1234);
    assert_eq!(cpu.pc, 0x204);
    // The older dialects do not define F000.
    let mut cosmac = cpu_with(Chip8Mode::Cosmac, &[0xF000, 0x1234]);
    assert!(matches!(cosmac.step(), Err(Error::NotDefined(_, Chip8Mode::Cosmac))));
}

#[test]
fn test_unknown_opcode() {
    let mut cpu = cpu_with(Chip8Mode::Cosmac, &[0x5004]);
    assert_eq!(cpu.step(), Err(Error::UnknownOpcode(0x5004)));
    // PC does not move past a word that failed to decode.
    assert_eq!(cpu.pc, 0x200);
}

#[test]
fn test_not_defined_carries_mode() {
    let mut cpu = cpu_with(Chip8Mode::Cosmac, &[0x00FD]);
    match cpu.step() {
        Err(Error::NotDefined(_, mode)) => assert_eq!(mode, Chip8Mode::Cosmac),
        other => panic!("expected NotDefined, got {:?}", other),
    }
    // PC has already advanced past the decoded word.
    assert_eq!(cpu.pc, 0x202);
}

#[test]
fn test_exit_latches() {
    let mut cpu = cpu_with(Chip8Mode::SuperChip, &[0x00FD, 0x6001]);
    cpu.step().unwrap();
    assert!(cpu.exited);
    assert_eq!(cpu.step(), Err(Error::Exited));
    assert_eq!(cpu.emulate_for(1000), Err(Error::Exited));
    // Loading a ROM resets the latch.
    cpu.load_rom(&rom(&[0x6001])).unwrap();
    assert!(!cpu.exited);
    cpu.step().unwrap();
    assert_eq!(cpu.get_register(Register::V0), 1);
}

#[test]
fn test_fx1e_overflow_flag() {
    let mut cpu = cpu_with(Chip8Mode::Cosmac, &[0xAFFF, 0xF01E]);
    cpu.set_register(Register::V0, 1);
    cpu.step().unwrap();
    cpu.step().unwrap();
    assert_eq!(cpu.index, 0);
    assert_eq!(cpu.get_register(Register::VF), 1);

    let mut cpu2 = cpu_with(Chip8Mode::Cosmac, &[0xA100, 0xF01E]);
    cpu2.set_register(Register::V0, 1);
    cpu2.step().unwrap();
    cpu2.step().unwrap();
    assert_eq!(cpu2.index, 0x101);
    assert_eq!(cpu2.get_register(Register::VF), 0);
}

#[test]
fn test_random_respects_mask_and_seed() {
    // CX00 masks every random bit away.
    let mut cpu = cpu_with(Chip8Mode::Cosmac, &[0xC000]);
    cpu.set_register(Register::V0, 0xAA);
    cpu.step().unwrap();
    assert_eq!(cpu.get_register(Register::V0), 0);
    // Equal seeds draw equal bytes.
    let mut a = cpu_with(Chip8Mode::Cosmac, &[0xC1FF, 0xC2FF]);
    let mut b = cpu_with(Chip8Mode::Cosmac, &[0xC1FF, 0xC2FF]);
    a.reseed(7);
    b.reseed(7);
    for _ in 0..2 {
        a.step().unwrap();
        b.step().unwrap();
    }
    assert_eq!(a.get_register(Register::V1), b.get_register(Register::V1));
    assert_eq!(a.get_register(Register::V2), b.get_register(Register::V2));
}

#[test]
fn test_timer_instructions() {
    let mut cpu = cpu_with(Chip8Mode::Cosmac, &[0xF115, 0xF218, 0xF307]);
    cpu.set_register(Register::V1, 42);
    cpu.set_register(Register::V2, 9);
    cpu.step().unwrap();
    cpu.step().unwrap();
    assert_eq!(cpu.delay_timer, 42);
    assert_eq!(cpu.sound_timer, 9);
    assert!(cpu.should_beep());
    cpu.step().unwrap();
    assert_eq!(cpu.get_register(Register::V3), 42);
}

#[test]
fn test_persistent_registers_roundtrip() {
    let mut cpu = cpu_with(Chip8Mode::SuperChip, &[0xF275, 0x6000, 0x6100, 0x6200, 0xF285]);
    cpu.set_register(Register::V0, 1);
    cpu.set_register(Register::V1, 2);
    cpu.set_register(Register::V2, 3);
    for _ in 0..5 {
        cpu.step().unwrap();
    }
    assert_eq!(cpu.get_register(Register::V0), 1);
    assert_eq!(cpu.get_register(Register::V1), 2);
    assert_eq!(cpu.get_register(Register::V2), 3);
}

#[test]
fn test_reg_dump_load_range_xochip() {
    // 5XY2 stores VX..=VY at [I..]; 5XY3 loads them back; I never moves.
    let mut cpu = cpu_with(Chip8Mode::XoChip, &[0xA500, 0x5232, 0x6200, 0x6300, 0x5233]);
    cpu.set_register(Register::V2, 77);
    cpu.set_register(Register::V3, 88);
    for _ in 0..5 {
        cpu.step().unwrap();
    }
    assert_eq!(cpu.index, 0x500);
    assert_eq!(cpu.read_memory_byte(0x500), Ok(77));
    assert_eq!(cpu.read_memory_byte(0x501), Ok(88));
    assert_eq!(cpu.get_register(Register::V2), 77);
    assert_eq!(cpu.get_register(Register::V3), 88);
}

#[test]
fn test_font_address_instructions() {
    let mut cpu = cpu_with(Chip8Mode::SuperChip, &[0xF029, 0xF030]);
    cpu.set_register(Register::V0, 0x0A);
    cpu.step().unwrap();
    assert_eq!(cpu.index, 0x50 + 5 * 0xA);
    cpu.step().unwrap();
    assert_eq!(cpu.index, 0xA0 + 10 * 0xA);
}

#[test]
fn test_key_skips() {
    let mut cpu = cpu_with(Chip8Mode::Cosmac, &[0xE19E]);
    cpu.set_register(Register::V1, 4);
    cpu.press_key(4);
    cpu.step().unwrap();
    assert_eq!(cpu.pc, 0x204);
    let mut cpu2 = cpu_with(Chip8Mode::Cosmac, &[0xE1A1]);
    cpu2.set_register(Register::V1, 4);
    cpu2.press_key(4);
    cpu2.step().unwrap();
    assert_eq!(cpu2.pc, 0x202);
    cpu2.release_key(4);
    assert!(!cpu2.is_key_down(4));
}
