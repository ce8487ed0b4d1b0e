//! The driver: pacing, gates, snapshots, determinism, the debugger.

use chip8_core::common::Chip8Mode;
use chip8_core::common::Error;
use chip8_core::cpu::CPU;
use chip8_core::debugger::Chip8Debugger;
use chip8_core::register::Register;

fn rom(words: &[u16]) -> Vec<u8> {
    let mut out = Vec::new();
    for w in words {
        out.push((w >> 8) as u8);
        out.push((w & 0xFF) as u8);
    }
    out
}

fn cpu_with(mode: Chip8Mode, words: &[u16]) -> CPU {
    let mut cpu = CPU::new(mode);
    cpu.reseed(0);
    cpu.load_rom(&rom(words)).unwrap();
    cpu
}

fn assert_obs_eq(a: &CPU, b: &CPU) {
    assert_eq!(a.mode, b.mode);
    assert_eq!(a.pc, b.pc);
    assert_eq!(a.index, b.index);
    assert_eq!(a.registers, b.registers);
    assert_eq!(a.memory, b.memory);
    assert_eq!(a.call_stack, b.call_stack);
    assert_eq!(a.delay_timer, b.delay_timer);
    assert_eq!(a.sound_timer, b.sound_timer);
    assert_eq!(a.awaiting_key(), b.awaiting_key());
    assert_eq!(a.exited, b.exited);
}

#[test]
fn test_await_key_round_trip() {
    // The ROM sets V0, awaits a key, and loops back to the await.
    let mut cpu = cpu_with(Chip8Mode::Cosmac, &[0x6000, 0xF00A, 0x1202]);
    cpu.emulate_for(1_000_000).unwrap();
    assert_eq!(cpu.awaiting_key(), Some(Register::V0));
    assert_eq!(cpu.pc, 0x204);
    // A press alone does not satisfy the latch; the release does.
    cpu.press_key(5);
    assert_eq!(cpu.awaiting_key(), Some(Register::V0));
    cpu.release_key(5);
    assert_eq!(cpu.get_register(Register::V0), 5);
    assert_eq!(cpu.awaiting_key(), None);
    // Execution continues without hanging.
    cpu.emulate_for(1_000_000).unwrap();
    assert_eq!(cpu.awaiting_key(), Some(Register::V0));
}

#[test]
fn test_await_key_pauses_stepping() {
    let mut cpu = cpu_with(Chip8Mode::Cosmac, &[0xF30A, 0x6001]);
    cpu.step().unwrap();
    let pc = cpu.pc;
    // While the latch is engaged a step charges one cycle and does nothing.
    assert_eq!(cpu.step(), Ok(1));
    assert_eq!(cpu.pc, pc);
    assert_eq!(cpu.get_register(Register::V0), 0);
}

#[test]
fn test_vblank_wait_gate() {
    // The original dialect waits for a 60 Hz tick after a draw.
    let mut cpu = cpu_with(Chip8Mode::Cosmac, &[0xD001, 0x6055]);
    cpu.step().unwrap();
    // Under one sixtieth of a second: the interpreter stays put.
    cpu.emulate_for(1_000).unwrap();
    assert_eq!(cpu.pc, 0x202);
    assert_eq!(cpu.get_register(Register::V0), 0);
    // After a full sixtieth of a second the draw wait is over.
    cpu.emulate_for(20_000).unwrap();
    assert_eq!(cpu.get_register(Register::V0), 0x55);
}

#[test]
fn test_emulate_for_paces_instructions() {
    // At 500 instructions per second, 10 ms runs five of them.
    let mut cpu = cpu_with(
        Chip8Mode::SuperChip,
        &[0x7001, 0x7001, 0x7001, 0x7001, 0x7001, 0x7001, 0x7001, 0x7001],
    );
    cpu.emulate_for(10_000).unwrap();
    assert_eq!(cpu.get_register(Register::V0), 5);
    // Another 2 ms buys one more.
    cpu.emulate_for(2_000).unwrap();
    assert_eq!(cpu.get_register(Register::V0), 6);
}

#[test]
fn test_timers_discharge_at_sixty_hertz() {
    let mut cpu = cpu_with(Chip8Mode::SuperChip, &[0x1200]);
    cpu.delay_timer = 30;
    cpu.sound_timer = 4;
    // Half a second is thirty ticks.
    cpu.emulate_for(500_000).unwrap();
    assert_eq!(cpu.delay_timer, 0);
    assert_eq!(cpu.sound_timer, 0);

    let mut cpu2 = cpu_with(Chip8Mode::SuperChip, &[0x1200]);
    cpu2.delay_timer = 30;
    cpu2.emulate_for(100_000).unwrap();
    assert_eq!(cpu2.delay_timer, 24);
}

#[test]
fn test_save_load_round_trip() {
    // Run a program for a while, snapshot, replay: the restored interpreter
    // and the original agree on every later step.
    let program = [0x6007u16, 0x7103, 0xC2FF, 0xA300, 0xF155, 0x1202];
    let mut cpu = cpu_with(Chip8Mode::Cosmac, &program);
    for _ in 0..25 {
        cpu.step().unwrap();
    }
    let snap = cpu.save_state().unwrap();
    let mut other = CPU::new(Chip8Mode::SuperChip);
    other.load_state(snap);
    assert_obs_eq(&cpu, &other);
    for _ in 0..1000 {
        cpu.step().unwrap();
        other.step().unwrap();
    }
    assert_obs_eq(&cpu, &other);
}

#[test]
fn test_save_state_refuses_after_exit() {
    let mut cpu = cpu_with(Chip8Mode::SuperChip, &[0x00FD]);
    cpu.step().unwrap();
    assert!(matches!(cpu.save_state(), Err(Error::Exited)));
}

#[test]
fn test_load_state_clears_exit_latch() {
    let mut cpu = cpu_with(Chip8Mode::SuperChip, &[0x6001, 0x00FD]);
    let snap = cpu.save_state().unwrap();
    cpu.step().unwrap();
    cpu.step().unwrap();
    assert!(cpu.exited);
    cpu.load_state(snap);
    assert!(!cpu.exited);
    assert_eq!(cpu.pc, 0x200);
    cpu.step().unwrap();
    assert_eq!(cpu.get_register(Register::V0), 1);
}

#[test]
fn test_determinism_with_equal_seeds() {
    // Two fresh interpreters with the same seed, ROM and inputs agree on
    // every public field after every step.
    let program = [0xC0FFu16, 0xC1FF, 0x8014, 0xA300, 0xF055, 0x1200];
    let mut a = cpu_with(Chip8Mode::Cosmac, &program);
    let mut b = cpu_with(Chip8Mode::Cosmac, &program);
    a.reseed(0xFEED);
    b.reseed(0xFEED);
    for i in 0..500 {
        a.press_key((i % 16) as u8);
        b.press_key((i % 16) as u8);
        assert_eq!(a.step().is_ok(), b.step().is_ok());
        assert_obs_eq(&a, &b);
        a.release_key((i % 16) as u8);
        b.release_key((i % 16) as u8);
    }
}

#[test]
fn test_beep_samples_only_while_sounding() {
    let mut cpu = cpu_with(Chip8Mode::XoChip, &[0x1200]);
    assert!(cpu.read_beep_samples(8).is_none());
    cpu.sound_timer = 2;
    let bits = cpu.read_beep_samples(16).unwrap();
    assert_eq!(bits.len(), 16);
    // The default pattern starts with nine on-samples and seven off.
    assert_eq!(&bits[..], &[
        true, true, true, true, true, true, true, true, true, false, false, false, false, false,
        false, false,
    ]);
    // The cursor advanced, so the next window continues the loop.
    let next = cpu.read_beep_samples(16).unwrap();
    assert_eq!(next[0], true);
}

#[test]
fn test_audio_pattern_and_pitch_instructions() {
    // FX02 loads a fresh pattern from [I..I+16]; FX3A sets the pitch.
    let mut cpu = cpu_with(Chip8Mode::XoChip, &[0xA300, 0xF002, 0xF53A]);
    for k in 0..16 {
        cpu.write_memory_byte(0x300 + k, 0xAA).unwrap();
    }
    cpu.set_register(Register::V5, 100);
    for _ in 0..3 {
        cpu.step().unwrap();
    }
    assert_eq!(cpu.audio.pitch(), Some(100));
    cpu.sound_timer = 1;
    let bits = cpu.read_beep_samples(8).unwrap();
    assert_eq!(&bits[..], &[true, false, true, false, true, false, true, false]);
}

#[test]
fn test_breakpoints_stop_execution() {
    let mut cpu = cpu_with(Chip8Mode::Cosmac, &[0x6001, 0x6102, 0x6203, 0x1200]);
    let breaks = vec![0x204u16];
    let r = cpu.emulate_breakpoints(1_000_000, &breaks);
    assert_eq!(r, Err(Error::Breakpoint(0x204)));
    assert_eq!(cpu.pc, 0x204);
    // The instruction leading onto the breakpoint has already run; the one
    // at the breakpoint has not.
    assert_eq!(cpu.get_register(Register::V0), 1);
    assert_eq!(cpu.get_register(Register::V1), 2);
    assert_eq!(cpu.get_register(Register::V2), 0);
    // The budget was cleared: running again stops at the same place.
    let r2 = cpu.emulate_breakpoints(1_000, &breaks);
    assert!(r2.is_ok() || r2 == Err(Error::Breakpoint(0x204)));
}

#[test]
fn test_emulate_for_until_halt_predicate() {
    let mut cpu = cpu_with(Chip8Mode::Cosmac, &[0x7001, 0x1200]);
    let r = cpu.emulate_for_until(1_000_000, |c: &CPU| c.pc == 0x202);
    assert_eq!(r, Err(Error::EarlyExitRequested));
    assert_eq!(cpu.pc, 0x202);
}

#[test]
fn test_debugger_gates_and_breakpoints() {
    let mut dbg = Chip8Debugger::new(Chip8Mode::Cosmac);
    assert!(dbg.paused);
    assert!(matches!(dbg.step(), Err(Error::NoRomLoaded)));
    dbg.load_rom(&rom(&[0x6001, 0x6102, 0x1200])).unwrap();
    assert!(dbg.has_rom);
    // Paused: running does nothing.
    dbg.emulate_until_breakpoints(1_000_000).unwrap();
    assert_eq!(dbg.cpu.pc, 0x200);
    // A breakpoint pauses the debugger when reached.
    dbg.add_breakpoint(0x204);
    dbg.add_breakpoint(0x204);
    assert_eq!(dbg.breakpoints().len(), 1);
    dbg.resume();
    let r = dbg.emulate_until_breakpoints(1_000_000);
    assert_eq!(r, Err(Error::Breakpoint(0x204)));
    assert!(dbg.paused);
    assert_eq!(dbg.cpu.get_register(Register::V0), 1);
    assert!(dbg.remove_breakpoint(0x204));
    assert!(!dbg.remove_breakpoint(0x204));
    assert!(dbg.breakpoints().is_empty());
}

#[test]
fn test_debugger_run_to_return() {
    // A call, a nested call, and a body of two instructions: finishing from
    // inside the outer routine steps through the inner one and stops on the
    // outer routine's own return, leaving it unexecuted.
    let mut dbg = Chip8Debugger::new(Chip8Mode::Cosmac);
    let image = rom(&[
        0x2204, // 0x200: call 0x204
        0x1202, // 0x202: spin
        0x6001, // 0x204: V0 = 1
        0x220C, // 0x206: call 0x20C
        0x6102, // 0x208: V1 = 2
        0x00EE, // 0x20A: return of the outer routine
        0x6203, // 0x20C: V2 = 3
        0x00EE, // 0x20E: return of the inner routine
    ]);
    dbg.load_rom(&image).unwrap();
    dbg.step().unwrap();
    assert_eq!(dbg.cpu.pc, 0x204);
    let cycles = dbg.run_to_return(1000).unwrap().unwrap();
    assert_eq!(dbg.cpu.pc, 0x20A);
    assert_eq!(cycles, 5);
    assert_eq!(dbg.cpu.get_register(Register::V0), 1);
    assert_eq!(dbg.cpu.get_register(Register::V1), 2);
    assert_eq!(dbg.cpu.get_register(Register::V2), 3);
    // The return itself has not run yet.
    assert_eq!(dbg.cpu.call_stack, vec![0x202]);
    // A ROM that never returns exhausts the cap.
    let mut spin = Chip8Debugger::new(Chip8Mode::Cosmac);
    spin.load_rom(&rom(&[0x1200])).unwrap();
    assert_eq!(spin.run_to_return(50), Ok(None));
    // Without a ROM the command is refused.
    let mut empty = Chip8Debugger::new(Chip8Mode::Cosmac);
    assert_eq!(empty.run_to_return(10), Err(Error::NoRomLoaded));
}

#[test]
fn test_debugger_remove_breakpoint_keeps_others() {
    let mut dbg = Chip8Debugger::new(Chip8Mode::Cosmac);
    dbg.add_breakpoint(0x210);
    dbg.add_breakpoint(0x220);
    dbg.add_breakpoint(0x230);
    assert!(dbg.remove_breakpoint(0x220));
    assert!(dbg.breakpoints().contains(&0x210));
    assert!(dbg.breakpoints().contains(&0x230));
    assert!(!dbg.breakpoints().contains(&0x220));
    assert_eq!(dbg.breakpoints().len(), 2);
}

#[test]
fn test_debugger_single_step_and_reboot() {
    let mut dbg = Chip8Debugger::new(Chip8Mode::Cosmac);
    dbg.load_rom(&rom(&[0x6001])).unwrap();
    dbg.step().unwrap();
    assert_eq!(dbg.cpu.get_register(Register::V0), 1);
    dbg.reboot();
    assert!(!dbg.has_rom);
    assert!(dbg.paused);
    assert_eq!(dbg.cpu.pc, 0x200);
    assert_eq!(dbg.cpu.get_register(Register::V0), 0);
    dbg.reboot_with_mode(Chip8Mode::XoChip);
    assert_eq!(dbg.cpu.mode, Chip8Mode::XoChip);
}

#[test]
fn test_debugger_receive_key() {
    let mut dbg = Chip8Debugger::new(Chip8Mode::Cosmac);
    dbg.load_rom(&rom(&[0xF60A, 0x1200])).unwrap();
    dbg.step().unwrap();
    assert_eq!(dbg.cpu.awaiting_key(), Some(Register::V6));
    dbg.receive_key(0xB);
    assert_eq!(dbg.cpu.get_register(Register::V6), 0xB);
    assert_eq!(dbg.cpu.awaiting_key(), None);
}
