//! Framebuffer behaviour: toggles, planes, scrolls, rendering.

use chip8_core::common::Chip8Mode;
use chip8_core::cpu::CPU;
use chip8_core::display::Display;
use chip8_core::register::Register;

fn rom(words: &[u16]) -> Vec<u8> {
    let mut out = Vec::new();
    for w in words {
        out.push((w >> 8) as u8);
        out.push((w & 0xFF) as u8);
    }
    out
}

fn cpu_with(mode: Chip8Mode, words: &[u16]) -> CPU {
    let mut cpu = CPU::new(mode);
    cpu.reseed(0);
    cpu.load_rom(&rom(words)).unwrap();
    cpu
}

#[test]
fn test_pixel_toggle_and_collision() {
    let mut d = Display::new();
    assert_eq!(d.read_pixel(3, 5), 0);
    assert!(!d.write_pixel(3, 5));
    assert_eq!(d.read_pixel(3, 5), 1);
    // Toggling a lit pixel reports the collision and turns it off.
    assert!(d.write_pixel(3, 5));
    assert_eq!(d.read_pixel(3, 5), 0);
    // Out-of-range coordinates do nothing.
    assert!(!d.write_pixel(200, 5));
    assert_eq!(d.read_pixel(200, 5), 0);
}

#[test]
fn test_write_mask_targets_planes() {
    let mut d = Display::new();
    d.write_mask = 2;
    d.write_pixel(1, 1);
    assert_eq!(d.read_pixel(1, 1), 2);
    d.write_mask = 3;
    d.write_pixel(1, 1);
    // The secondary plane toggled off, the primary on.
    assert_eq!(d.read_pixel(1, 1), 1);
}

#[test]
fn test_clear_preserves_secondary_plane() {
    let mut d = Display::new();
    d.write_mask = 3;
    d.write_pixel(2, 2);
    assert_eq!(d.read_pixel(2, 2), 3);
    d.clear();
    assert_eq!(d.read_pixel(2, 2), 2);
}

#[test]
fn test_write_to_screen_low_res_blocks() {
    // In low resolution one logical pixel is a 2x2 block of grid cells.
    let mut d = Display::new();
    assert!(!d.write_to_screen(3, 2));
    for (x, y) in [(6, 4), (7, 4), (6, 5), (7, 5)] {
        assert_eq!(d.read_pixel(x, y), 1);
    }
    assert_eq!(d.read_pixel(8, 4), 0);
    // The same toggle again collides and clears the block.
    assert!(d.write_to_screen(3, 2));
    assert_eq!(d.read_pixel(6, 4), 0);
}

#[test]
fn test_write_to_screen_high_res() {
    let mut d = Display::new();
    d.high_res = true;
    assert!(!d.write_to_screen(100, 60));
    assert_eq!(d.read_pixel(100, 60), 1);
    assert_eq!(d.read_pixel(101, 60), 0);
}

#[test]
fn test_scroll_right_and_back() {
    let mut d = Display::new();
    d.write_pixel(10, 7);
    d.scroll(4, 0);
    assert_eq!(d.read_pixel(14, 7), 1);
    assert_eq!(d.read_pixel(10, 7), 0);
    // Scrolling back restores content that never left the grid.
    d.scroll(-4, 0);
    assert_eq!(d.read_pixel(10, 7), 1);
    assert_eq!(d.read_pixel(14, 7), 0);
}

#[test]
fn test_scroll_vertical_directions() {
    let mut d = Display::new();
    d.write_pixel(5, 10);
    // A negative y argument moves content toward the bottom of the screen.
    d.scroll(0, -3);
    assert_eq!(d.read_pixel(5, 13), 1);
    assert_eq!(d.read_pixel(5, 10), 0);
    // A positive y argument moves it back up.
    d.scroll(0, 3);
    assert_eq!(d.read_pixel(5, 10), 1);
    assert_eq!(d.read_pixel(5, 13), 0);
}

#[test]
fn test_scroll_clears_vacated_cells() {
    let mut d = Display::new();
    d.write_pixel(127, 0);
    d.write_pixel(0, 0);
    d.scroll(2, 0);
    // The rightmost cell fell off; the vacated left edge is dark.
    assert_eq!(d.read_pixel(0, 0), 0);
    assert_eq!(d.read_pixel(1, 0), 0);
    assert_eq!(d.read_pixel(2, 0), 1);
}

#[test]
fn test_scroll_moves_both_planes() {
    let mut d = Display::new();
    d.write_mask = 2;
    d.write_pixel(4, 4);
    d.write_mask = 1;
    d.write_pixel(5, 4);
    d.scroll(1, 0);
    assert_eq!(d.read_pixel(5, 4), 2);
    assert_eq!(d.read_pixel(6, 4), 1);
}

#[test]
fn test_to_buffer_palette_and_scaling() {
    let mut d = Display::new();
    d.write_pixel(0, 0);
    d.write_mask = 2;
    d.write_pixel(1, 0);
    d.write_mask = 3;
    d.write_pixel(2, 0);
    let buf = d.to_buffer(1, 1);
    assert_eq!(buf.len(), 128 * 64);
    assert_eq!(buf[0], 0x00A9A9A9);
    assert_eq!(buf[1], 0x00545454);
    assert_eq!(buf[2], 0x00FFFFFF);
    assert_eq!(buf[3], 0x00000000);
    // Integer scaling repeats cells across and down.
    let buf2 = d.to_buffer(2, 3);
    assert_eq!(buf2.len(), 128 * 64 * 6);
    assert_eq!(buf2[0], 0x00A9A9A9);
    assert_eq!(buf2[1], 0x00A9A9A9);
    assert_eq!(buf2[2], 0x00545454);
    assert_eq!(buf2[256], 0x00A9A9A9);
    // A zero scale gives an empty image.
    assert!(d.to_buffer(0, 5).is_empty());
}

#[test]
fn test_to_buffer_mono_palette() {
    // The two-color rendering keys on the primary plane alone.
    let mut d = Display::new();
    d.write_pixel(0, 0);
    d.write_mask = 2;
    d.write_pixel(1, 0);
    let buf = d.to_buffer_mono(1, 1);
    assert_eq!(buf.len(), 128 * 64);
    assert_eq!(buf[0], 0x00FFFFFF);
    assert_eq!(buf[1], 0x00000000);
    assert_eq!(buf[2], 0x00000000);
    assert!(d.to_buffer_mono(3, 0).is_empty());
}

#[test]
fn test_draw_collision_flag_on_redraw() {
    // Drawing the same sprite twice toggles everything off and sets VF.
    let mut cpu = cpu_with(Chip8Mode::Cosmac, &[0xA300, 0xD005, 0xD005]);
    cpu.write_memory_byte(0x300, 0xF0).unwrap();
    cpu.step().unwrap();
    cpu.step().unwrap();
    assert_eq!(cpu.get_register(Register::VF), 0);
    assert_eq!(cpu.screen.read_pixel(0, 0), 1);
    cpu.step().unwrap();
    assert_eq!(cpu.get_register(Register::VF), 1);
    assert_eq!(cpu.screen.read_pixel(0, 0), 0);
}

#[test]
fn test_draw_schip_lowres_blocks() {
    // A low-resolution Super-CHIP draw paints 2x2 blocks per sprite bit.
    let mut cpu = cpu_with(Chip8Mode::SuperChip, &[0xA300, 0xD001]);
    cpu.write_memory_byte(0x300, 0x80).unwrap();
    cpu.set_register(Register::V0, 1);
    cpu.step().unwrap();
    cpu.step().unwrap();
    for (x, y) in [(2, 2), (3, 2), (2, 3), (3, 3)] {
        assert_eq!(cpu.screen.read_pixel(x, y), 1);
    }
    assert_eq!(cpu.screen.read_pixel(4, 2), 0);
}

#[test]
fn test_draw_xochip_wraps_cosmac_clips() {
    // A sprite crossing the right edge wraps in the XO-CHIP dialect and is
    // clipped in the original dialect.
    let mut xo = cpu_with(Chip8Mode::XoChip, &[0xA300, 0xD011]);
    xo.write_memory_byte(0x300, 0xC0).unwrap();
    xo.set_register(Register::V0, 63);
    xo.step().unwrap();
    xo.step().unwrap();
    // Logical pixels (63, 0) and (0, 0), stored as 2x2 blocks.
    assert_eq!(xo.screen.read_pixel(126, 0), 1);
    assert_eq!(xo.screen.read_pixel(0, 0), 1);

    let mut cosmac = cpu_with(Chip8Mode::Cosmac, &[0xA300, 0xD011]);
    cosmac.write_memory_byte(0x300, 0xC0).unwrap();
    cosmac.set_register(Register::V0, 63);
    cosmac.step().unwrap();
    cosmac.step().unwrap();
    assert_eq!(cosmac.screen.read_pixel(126, 0), 1);
    assert_eq!(cosmac.screen.read_pixel(0, 0), 0);
}

#[test]
fn test_draw_highres_single_cells() {
    let mut cpu = cpu_with(Chip8Mode::SuperChip, &[0x00FF, 0xA300, 0xD011]);
    cpu.write_memory_byte(0x300, 0x80).unwrap();
    cpu.set_register(Register::V0, 100);
    cpu.set_register(Register::V1, 50);
    for _ in 0..3 {
        cpu.step().unwrap();
    }
    assert!(cpu.screen.high_res);
    assert_eq!(cpu.screen.read_pixel(100, 50), 1);
    assert_eq!(cpu.screen.read_pixel(101, 50), 0);
}

#[test]
fn test_resolution_switch_instructions() {
    let mut cpu = cpu_with(Chip8Mode::SuperChip, &[0x00FF, 0x00FE]);
    assert!(!cpu.screen.high_res);
    cpu.step().unwrap();
    assert!(cpu.screen.high_res);
    cpu.step().unwrap();
    assert!(!cpu.screen.high_res);
}

#[test]
fn test_scroll_instructions() {
    // 00CN in high resolution moves the image down by N rows.
    let mut cpu = cpu_with(Chip8Mode::XoChip, &[0x00FF, 0xA300, 0xD001, 0x00C2]);
    cpu.write_memory_byte(0x300, 0x80).unwrap();
    cpu.set_register(Register::V0, 10);
    cpu.set_register(Register::V1, 10);
    for _ in 0..4 {
        cpu.step().unwrap();
    }
    assert_eq!(cpu.screen.read_pixel(10, 12), 1);
    assert_eq!(cpu.screen.read_pixel(10, 10), 0);
}

#[test]
fn test_bitplane_select_instruction() {
    let mut cpu = cpu_with(Chip8Mode::XoChip, &[0xF201, 0xA300, 0xD001]);
    cpu.write_memory_byte(0x300, 0x80).unwrap();
    for _ in 0..3 {
        cpu.step().unwrap();
    }
    assert_eq!(cpu.screen.write_mask, 2);
    // The draw toggled the secondary plane only (a 2x2 block in low res).
    assert_eq!(cpu.screen.read_pixel(0, 0), 2);
}
