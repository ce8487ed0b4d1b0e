//! The meaning of every operation, as functions on the observable state.
//!
//! Each executable handler is proved to realise the spec function of the
//! same name; the driver's own spec, `spec_step`, composes them.  Together
//! they pin the interpreter down as a mathematical function, which is what
//! makes replay determinism and snapshot round-trips provable.

use vstd::prelude::*;

use crate::audio::AudioView;
use crate::audio::expand_pattern;
use crate::audio::bit_of_byte;
use crate::common::Chip8Mode;
use crate::common::ErrorV;
use crate::cpu::CHIP8_MEM_SIZE;
use crate::cpu::ObsView;
use crate::cpu::spec_word_at;
use crate::display::DisplayView;
use crate::display::SCREEN_HEIGHT;
use crate::display::SCREEN_WIDTH;
use crate::display::spec_scroll;
use crate::display::spec_screen_toggled_high;
use crate::display::spec_screen_toggled_low;
use crate::display::spec_write_screen_high;
use crate::display::spec_write_screen_low;
use crate::instruction::Op;
use crate::instruction::spec_decode;
use crate::instruction::spec_decode_for_mode;
use crate::prng::wyrand_advance;
use crate::prng::wyrand_output;
use crate::register::Register;

verus! {

/// Second nibble of an opcode: the X register index.
pub open spec fn nib_x(inst: u16) -> int {
    ((inst >> 8) & 0xF) as int
}

/// Third nibble of an opcode: the Y register index.
pub open spec fn nib_y(inst: u16) -> int {
    ((inst >> 4) & 0xF) as int
}

/// Low nibble of an opcode: the N immediate.
pub open spec fn nib_n(inst: u16) -> int {
    (inst & 0xF) as int
}

/// Low byte of an opcode: the NN immediate.
pub open spec fn imm_nn(inst: u16) -> u8 {
    (inst & 0xFF) as u8
}

/// Low 12 bits of an opcode: the NNN address.
pub open spec fn addr_nnn(inst: u16) -> u16 {
    inst & 0xFFF
}

/// The state with one register changed.
pub open spec fn upd_reg(o: ObsView, i: int, v: u8) -> ObsView {
    ObsView { registers: o.registers.update(i, v), ..o }
}

/// The state after skipping one instruction: PC advances by 2, and in the
/// XO-CHIP dialect by 2 more when the skipped word is the long-index form
/// (which occupies four bytes).
pub open spec fn spec_skip(o: ObsView) -> ObsView {
    let pc2 = o.pc.wrapping_add(2);
    if o.mode is XoChip && o.pc < CHIP8_MEM_SIZE - 1 && spec_word_at(o.memory, o.pc as int)
        == 0xF000 {
        ObsView { pc: pc2.wrapping_add(2), ..o }
    } else {
        ObsView { pc: pc2, ..o }
    }
}

pub open spec fn spec_inst_nop(o: ObsView, inst: u16) -> ObsView {
    o
}

/// 00E0: darken the primary plane.
pub open spec fn spec_inst_clear(o: ObsView, inst: u16) -> ObsView {
    ObsView {
        screen: DisplayView {
            buffer: Seq::new((SCREEN_WIDTH * SCREEN_HEIGHT) as nat, |i: int| false),
            ..o.screen
        },
        ..o
    }
}

/// 00EE: pop the call stack into PC; a no-op on an empty stack.
pub open spec fn spec_inst_return(o: ObsView, inst: u16) -> ObsView {
    if o.call_stack.len() == 0 {
        o
    } else {
        ObsView { pc: o.call_stack.last(), call_stack: o.call_stack.drop_last(), ..o }
    }
}

/// 00CN: scroll down by N rows (N/2 logical rows in low resolution).
pub open spec fn spec_inst_scroll_down(o: ObsView, inst: u16) -> ObsView {
    let eff = if o.screen.high_res {
        nib_n(inst)
    } else {
        nib_n(inst) / 2
    };
    ObsView { screen: spec_scroll(o.screen, 0, (-eff) as i8), ..o }
}

/// 00DN: scroll up by N rows (N/2 logical rows in low resolution).
pub open spec fn spec_inst_scroll_up(o: ObsView, inst: u16) -> ObsView {
    let eff = if o.screen.high_res {
        nib_n(inst)
    } else {
        nib_n(inst) / 2
    };
    ObsView { screen: spec_scroll(o.screen, 0, eff as i8), ..o }
}

/// 00FB: scroll right by 4 cells (2 logical pixels in low resolution).
pub open spec fn spec_inst_scroll_right(o: ObsView, inst: u16) -> ObsView {
    let amt: i8 = if o.screen.high_res {
        4
    } else {
        2
    };
    ObsView { screen: spec_scroll(o.screen, amt, 0), ..o }
}

/// 00FC: scroll left by 4 cells (2 logical pixels in low resolution).
pub open spec fn spec_inst_scroll_left(o: ObsView, inst: u16) -> ObsView {
    let amt: i8 = if o.screen.high_res {
        (-4) as i8
    } else {
        (-2) as i8
    };
    ObsView { screen: spec_scroll(o.screen, amt, 0), ..o }
}

/// 00FD: latch the exit flag.
pub open spec fn spec_inst_exit(o: ObsView, inst: u16) -> ObsView {
    ObsView { exited: true, ..o }
}

/// 00FE: leave high resolution.
pub open spec fn spec_inst_low_res(o: ObsView, inst: u16) -> ObsView {
    ObsView { screen: DisplayView { high_res: false, ..o.screen }, ..o }
}

/// 00FF: enter high resolution.
pub open spec fn spec_inst_high_res(o: ObsView, inst: u16) -> ObsView {
    ObsView { screen: DisplayView { high_res: true, ..o.screen }, ..o }
}

/// 1NNN: jump.
pub open spec fn spec_inst_goto(o: ObsView, inst: u16) -> ObsView {
    ObsView { pc: addr_nnn(inst), ..o }
}

/// 2NNN: call, pushing the return address.
pub open spec fn spec_inst_call(o: ObsView, inst: u16) -> ObsView {
    ObsView { call_stack: o.call_stack.push(o.pc), pc: addr_nnn(inst), ..o }
}

/// 3XNN: skip when VX == NN.
pub open spec fn spec_inst_if_equal(o: ObsView, inst: u16) -> ObsView {
    if o.registers[nib_x(inst)] == imm_nn(inst) {
        spec_skip(o)
    } else {
        o
    }
}

/// 4XNN: skip when VX != NN.
pub open spec fn spec_inst_if_inequal(o: ObsView, inst: u16) -> ObsView {
    if o.registers[nib_x(inst)] != imm_nn(inst) {
        spec_skip(o)
    } else {
        o
    }
}

/// 5XY0: skip when VX == VY.
pub open spec fn spec_inst_if_equal_register(o: ObsView, inst: u16) -> ObsView {
    if o.registers[nib_x(inst)] == o.registers[nib_y(inst)] {
        spec_skip(o)
    } else {
        o
    }
}

/// 9XY0: skip when VX != VY.
pub open spec fn spec_inst_if_inequal_register(o: ObsView, inst: u16) -> ObsView {
    if o.registers[nib_x(inst)] != o.registers[nib_y(inst)] {
        spec_skip(o)
    } else {
        o
    }
}

/// 6XNN: VX = NN.
pub open spec fn spec_inst_set_register(o: ObsView, inst: u16) -> ObsView {
    upd_reg(o, nib_x(inst), imm_nn(inst))
}

/// 7XNN: VX += NN, wrapping, flags untouched.
pub open spec fn spec_inst_pluseq_immediate(o: ObsView, inst: u16) -> ObsView {
    upd_reg(o, nib_x(inst), o.registers[nib_x(inst)].wrapping_add(imm_nn(inst)))
}

/// 8XY0: VX = VY.
pub open spec fn spec_inst_move_register(o: ObsView, inst: u16) -> ObsView {
    upd_reg(o, nib_x(inst), o.registers[nib_y(inst)])
}

/// 8XY1, original dialect: VX |= VY, then VF cleared.
pub open spec fn spec_inst_oreq_register_cosmac(o: ObsView, inst: u16) -> ObsView {
    upd_reg(upd_reg(o, nib_x(inst), o.registers[nib_x(inst)] | o.registers[nib_y(inst)]), 15, 0)
}

/// 8XY1, later dialects: VX |= VY.
pub open spec fn spec_inst_oreq_register(o: ObsView, inst: u16) -> ObsView {
    upd_reg(o, nib_x(inst), o.registers[nib_x(inst)] | o.registers[nib_y(inst)])
}

/// 8XY2, original dialect: VX &= VY, then VF cleared.
pub open spec fn spec_inst_andeq_register_cosmac(o: ObsView, inst: u16) -> ObsView {
    upd_reg(upd_reg(o, nib_x(inst), o.registers[nib_x(inst)] & o.registers[nib_y(inst)]), 15, 0)
}

/// 8XY2, later dialects: VX &= VY.
pub open spec fn spec_inst_andeq_register(o: ObsView, inst: u16) -> ObsView {
    upd_reg(o, nib_x(inst), o.registers[nib_x(inst)] & o.registers[nib_y(inst)])
}

/// 8XY3, original dialect: VX ^= VY, then VF cleared.
pub open spec fn spec_inst_xoreq_register_cosmac(o: ObsView, inst: u16) -> ObsView {
    upd_reg(upd_reg(o, nib_x(inst), o.registers[nib_x(inst)] ^ o.registers[nib_y(inst)]), 15, 0)
}

/// 8XY3, later dialects: VX ^= VY.
pub open spec fn spec_inst_xoreq_register(o: ObsView, inst: u16) -> ObsView {
    upd_reg(o, nib_x(inst), o.registers[nib_x(inst)] ^ o.registers[nib_y(inst)])
}

/// 8XY4: VX += VY; VF then takes the carry, winning on aliasing.
pub open spec fn spec_inst_pluseq_register(o: ObsView, inst: u16) -> ObsView {
    let a = o.registers[nib_x(inst)];
    let b = o.registers[nib_y(inst)];
    upd_reg(
        upd_reg(o, nib_x(inst), a.wrapping_add(b)),
        15,
        if a + b > 255 {
            1
        } else {
            0
        },
    )
}

/// 8XY5: VX -= VY; VF then takes not-borrow, winning on aliasing.
pub open spec fn spec_inst_minuseq_register(o: ObsView, inst: u16) -> ObsView {
    let a = o.registers[nib_x(inst)];
    let b = o.registers[nib_y(inst)];
    upd_reg(
        upd_reg(o, nib_x(inst), a.wrapping_sub(b)),
        15,
        if a >= b {
            1
        } else {
            0
        },
    )
}

/// 8XY7: VX = VY - VX; VF then takes not-borrow, winning on aliasing.
pub open spec fn spec_inst_subtract_register(o: ObsView, inst: u16) -> ObsView {
    let a = o.registers[nib_x(inst)];
    let b = o.registers[nib_y(inst)];
    upd_reg(
        upd_reg(o, nib_x(inst), b.wrapping_sub(a)),
        15,
        if b >= a {
            1
        } else {
            0
        },
    )
}

/// 8XY6, original and XO-CHIP dialects: VX = VY >> 1, VF the shifted-out bit.
pub open spec fn spec_inst_shift_right(o: ObsView, inst: u16) -> ObsView {
    let v = o.registers[nib_y(inst)];
    upd_reg(upd_reg(o, nib_x(inst), v >> 1), 15, v & 1)
}

/// 8XY6, Super-CHIP dialect: VX = VX >> 1, VF the shifted-out bit.
pub open spec fn spec_inst_shift_right_schip(o: ObsView, inst: u16) -> ObsView {
    let v = o.registers[nib_x(inst)];
    upd_reg(upd_reg(o, nib_x(inst), v >> 1), 15, v & 1)
}

/// 8XYE, original and XO-CHIP dialects: VX = VY << 1, VF the shifted-out bit.
pub open spec fn spec_inst_shift_left(o: ObsView, inst: u16) -> ObsView {
    let v = o.registers[nib_y(inst)];
    upd_reg(upd_reg(o, nib_x(inst), (v << 1) as u8), 15, v >> 7)
}

/// 8XYE, Super-CHIP dialect: VX = VX << 1, VF the shifted-out bit.
pub open spec fn spec_inst_shift_left_schip(o: ObsView, inst: u16) -> ObsView {
    let v = o.registers[nib_x(inst)];
    upd_reg(upd_reg(o, nib_x(inst), (v << 1) as u8), 15, v >> 7)
}

/// ANNN: I = NNN.
pub open spec fn spec_inst_set_index(o: ObsView, inst: u16) -> ObsView {
    ObsView { index: addr_nnn(inst), ..o }
}

/// BNNN, original and XO-CHIP dialects: PC = V0 + NNN.
pub open spec fn spec_inst_jump_v0(o: ObsView, inst: u16) -> ObsView {
    ObsView { pc: (addr_nnn(inst) + o.registers[0]) as u16, ..o }
}

/// BNNN, Super-CHIP dialect: PC = VX + NNN.
pub open spec fn spec_inst_jump_v0_schip(o: ObsView, inst: u16) -> ObsView {
    ObsView { pc: (addr_nnn(inst) + o.registers[nib_x(inst)]) as u16, ..o }
}

/// CXNN: VX = random byte AND NN; advances the generator by one step.
pub open spec fn spec_inst_random(o: ObsView, inst: u16) -> ObsView {
    let s2 = wyrand_advance(o.prng);
    ObsView {
        prng: s2,
        registers: o.registers.update(nib_x(inst), (wyrand_output(s2) as u8) & imm_nn(inst)),
        ..o
    }
}

/// EX9E: skip when the key named by VX is held.
pub open spec fn spec_inst_key_equal(o: ObsView, inst: u16) -> ObsView {
    let k = o.registers[nib_x(inst)];
    if k <= 0xF && o.input[k as int] {
        spec_skip(o)
    } else {
        o
    }
}

/// EXA1: skip when the key named by VX is not held.
pub open spec fn spec_inst_key_inequal(o: ObsView, inst: u16) -> ObsView {
    let k = o.registers[nib_x(inst)];
    if !(k <= 0xF && o.input[k as int]) {
        spec_skip(o)
    } else {
        o
    }
}

/// FX0A: engage the await-key latch on VX.
pub open spec fn spec_inst_get_key(o: ObsView, inst: u16) -> ObsView {
    ObsView { awaiting_key: Some(Register::spec_from_index(nib_x(inst))), ..o }
}

/// FX07: VX = delay timer.
pub open spec fn spec_inst_get_delay(o: ObsView, inst: u16) -> ObsView {
    upd_reg(o, nib_x(inst), o.delay_timer)
}

/// FX15: delay timer = VX.
pub open spec fn spec_inst_set_delay(o: ObsView, inst: u16) -> ObsView {
    ObsView { delay_timer: o.registers[nib_x(inst)], ..o }
}

/// FX18: sound timer = VX.
pub open spec fn spec_inst_set_sound(o: ObsView, inst: u16) -> ObsView {
    ObsView { sound_timer: o.registers[nib_x(inst)], ..o }
}

/// FX1E: I = (I + VX) AND 0xFFF; VF flags overflow past 0xFFF.
pub open spec fn spec_inst_add_to_index(o: ObsView, inst: u16) -> ObsView {
    let s = o.index + o.registers[nib_x(inst)];
    upd_reg(
        ObsView { index: (s % 0x1000) as u16, ..o },
        15,
        if s > 0xFFF {
            1
        } else {
            0
        },
    )
}

/// FX29: I = address of the 4x5 glyph for the low nibble of VX.
pub open spec fn spec_inst_sprite_addr_index(o: ObsView, inst: u16) -> ObsView {
    ObsView { index: (crate::font::FONT_BASE + 5 * (o.registers[nib_x(inst)] & 0xF)) as u16, ..o }
}

/// FX30: I = address of the 8x10 glyph for the low nibble of VX.
pub open spec fn spec_inst_big_sprite_addr_index(o: ObsView, inst: u16) -> ObsView {
    ObsView {
        index: (crate::font::BIG_FONT_BASE + 10 * (o.registers[nib_x(inst)] & 0xF)) as u16,
        ..o
    }
}

/// FX33: the three decimal digits of VX at [I], [I+1], [I+2].
pub open spec fn spec_inst_bcd(o: ObsView, inst: u16) -> ObsView {
    let v = o.registers[nib_x(inst)];
    ObsView {
        memory: o.memory.update(o.index as int, (v / 100) as u8).update(
            o.index.wrapping_add(1) as int,
            ((v / 10) % 10) as u8,
        ).update(o.index.wrapping_add(2) as int, (v % 10) as u8),
        ..o
    }
}

/// FX01: write mask = the low two bits of X.
pub open spec fn spec_inst_set_bitplane(o: ObsView, inst: u16) -> ObsView {
    ObsView {
        screen: DisplayView { write_mask: ((inst >> 8) & 0x3) as u8, ..o.screen },
        ..o
    }
}

/// FX3A: audio pitch = VX.
pub open spec fn spec_inst_set_audio_pitch(o: ObsView, inst: u16) -> ObsView {
    ObsView {
        audio: AudioView { pitch: Some(o.registers[nib_x(inst)]), ..o.audio },
        ..o
    }
}

/// FX02: audio pattern = the 16 bytes at [I..I+16].  Only meaningful when
/// the range lies inside memory; the driver rejects it otherwise.
pub open spec fn spec_inst_set_audio_buffer(o: ObsView, inst: u16) -> ObsView {
    ObsView {
        audio: AudioView {
            pattern: expand_pattern(o.memory.subrange(o.index as int, o.index as int + 16)),
            ..o.audio
        },
        ..o
    }
}

/// F000 NNNN: I = the next word; PC advances past it.  Only meaningful when
/// the next word lies inside memory; the driver rejects it otherwise.
pub open spec fn spec_inst_set_long_index(o: ObsView, inst: u16) -> ObsView {
    ObsView { index: spec_word_at(o.memory, o.pc as int), pc: o.pc.wrapping_add(2), ..o }
}

/// Memory after registers V0..=V(k-1) have been dumped at [I..].
pub open spec fn spec_dump_upto(mem: Seq<u8>, regs: Seq<u8>, idx: u16, k: int) -> Seq<u8>
    decreases k,
{
    if k <= 0 {
        mem
    } else {
        spec_dump_upto(mem, regs, idx, k - 1).update(
            idx.wrapping_add((k - 1) as u16) as int,
            regs[k - 1],
        )
    }
}

/// Registers after V0..=V(k-1) have been loaded from [I..].
pub open spec fn spec_load_upto(regs: Seq<u8>, mem: Seq<u8>, idx: u16, k: int) -> Seq<u8>
    decreases k,
{
    if k <= 0 {
        regs
    } else {
        spec_load_upto(regs, mem, idx, k - 1).update(
            k - 1,
            mem[idx.wrapping_add((k - 1) as u16) as int],
        )
    }
}

/// FX55, original and XO-CHIP dialects: dump V0..=VX at [I..]; I then
/// advances by X+1 (within the low 12 bits).
pub open spec fn spec_inst_reg_dump(o: ObsView, inst: u16) -> ObsView {
    ObsView {
        memory: spec_dump_upto(o.memory, o.registers, o.index, nib_x(inst) + 1),
        index: ((o.index + nib_x(inst) + 1) % 0x1000) as u16,
        ..o
    }
}

/// FX55, Super-CHIP dialect: dump V0..=VX at [I..]; I unchanged.
pub open spec fn spec_inst_reg_dump_schip(o: ObsView, inst: u16) -> ObsView {
    ObsView { memory: spec_dump_upto(o.memory, o.registers, o.index, nib_x(inst) + 1), ..o }
}

/// FX65, original and XO-CHIP dialects: load V0..=VX from [I..]; I then
/// advances by X+1 (within the low 12 bits).
pub open spec fn spec_inst_reg_load(o: ObsView, inst: u16) -> ObsView {
    ObsView {
        registers: spec_load_upto(o.registers, o.memory, o.index, nib_x(inst) + 1),
        index: ((o.index + nib_x(inst) + 1) % 0x1000) as u16,
        ..o
    }
}

/// FX65, Super-CHIP dialect: load V0..=VX from [I..]; I unchanged.
pub open spec fn spec_inst_reg_load_schip(o: ObsView, inst: u16) -> ObsView {
    ObsView { registers: spec_load_upto(o.registers, o.memory, o.index, nib_x(inst) + 1), ..o }
}

/// Memory after registers VX..=V(X+k-1) have been dumped at [I..].
pub open spec fn spec_dump_xy_upto(mem: Seq<u8>, regs: Seq<u8>, idx: u16, x: int, k: int) -> Seq<
    u8,
>
    decreases k,
{
    if k <= 0 {
        mem
    } else {
        spec_dump_xy_upto(mem, regs, idx, x, k - 1).update(
            idx.wrapping_add((k - 1) as u16) as int,
            regs[x + k - 1],
        )
    }
}

/// Registers after VX..=V(X+k-1) have been loaded from [I..].
pub open spec fn spec_load_xy_upto(regs: Seq<u8>, mem: Seq<u8>, idx: u16, x: int, k: int) -> Seq<
    u8,
>
    decreases k,
{
    if k <= 0 {
        regs
    } else {
        spec_load_xy_upto(regs, mem, idx, x, k - 1).update(
            x + k - 1,
            mem[idx.wrapping_add((k - 1) as u16) as int],
        )
    }
}

/// 5XY2: dump VX..=VY at [I..]; I unchanged; nothing happens when X > Y.
pub open spec fn spec_inst_reg_dump_xy(o: ObsView, inst: u16) -> ObsView {
    let x = nib_x(inst);
    let y = nib_y(inst);
    if x <= y {
        ObsView {
            memory: spec_dump_xy_upto(o.memory, o.registers, o.index, x, y - x + 1),
            ..o
        }
    } else {
        o
    }
}

/// 5XY3: load VX..=VY from [I..]; I unchanged; nothing happens when X > Y.
pub open spec fn spec_inst_reg_load_xy(o: ObsView, inst: u16) -> ObsView {
    let x = nib_x(inst);
    let y = nib_y(inst);
    if x <= y {
        ObsView {
            registers: spec_load_xy_upto(o.registers, o.memory, o.index, x, y - x + 1),
            ..o
        }
    } else {
        o
    }
}

/// Persistent registers after 0..=k-1 have been copied from the register
/// file.
pub open spec fn spec_persist_dump_upto(pers: Seq<u8>, regs: Seq<u8>, k: int) -> Seq<u8>
    decreases k,
{
    if k <= 0 {
        pers
    } else {
        spec_persist_dump_upto(pers, regs, k - 1).update(k - 1, regs[k - 1])
    }
}

/// FX75: persistent registers 0..=X = V0..=VX.
pub open spec fn spec_inst_persist_dump(o: ObsView, inst: u16) -> ObsView {
    ObsView {
        persistent: spec_persist_dump_upto(o.persistent, o.registers, nib_x(inst) + 1),
        ..o
    }
}

/// FX85: V0..=VX = persistent registers 0..=X.
pub open spec fn spec_inst_persist_load(o: ObsView, inst: u16) -> ObsView {
    ObsView {
        registers: spec_persist_dump_upto(o.registers, o.persistent, nib_x(inst) + 1),
        ..o
    }
}

/// One sprite bit: when set, toggles one logical pixel (wrapping the
/// coordinates inside the logical dimensions in the XO-CHIP dialect,
/// clipping otherwise); reports the collision signal.
pub open spec fn spec_draw_bit(
    d: DisplayView,
    set: bool,
    x: int,
    y: int,
    wrap: bool,
    w: int,
    h: int,
) -> (DisplayView, bool) {
    if !set {
        (d, false)
    } else {
        let tx = if wrap {
            x % w
        } else {
            x
        };
        let ty = if wrap {
            y % h
        } else {
            y
        };
        if d.high_res {
            (spec_write_screen_high(d, tx, ty), spec_screen_toggled_high(d, tx, ty))
        } else {
            (spec_write_screen_low(d, tx, ty), spec_screen_toggled_low(d, tx, ty))
        }
    }
}

/// The display and collision signal after the first `bits` bits of one
/// sprite row have been drawn.
pub open spec fn spec_draw_row_upto(
    d: DisplayView,
    byte: u8,
    x0: int,
    y: int,
    bits: int,
    wrap: bool,
    w: int,
    h: int,
) -> (DisplayView, bool)
    decreases bits,
{
    if bits <= 0 {
        (d, false)
    } else {
        let prev = spec_draw_row_upto(d, byte, x0, y, bits - 1, wrap, w, h);
        let b = bits - 1;
        let st = spec_draw_bit(prev.0, bit_of_byte(byte, b), x0 + b, y, wrap, w, h);
        (st.0, prev.1 || st.1)
    }
}

/// The display and collision signal after the first `rows` rows of a sprite
/// at [I..] have been drawn.
pub open spec fn spec_draw_rows_upto(
    d: DisplayView,
    mem: Seq<u8>,
    idx: u16,
    x0: int,
    y0: int,
    rows: int,
    wrap: bool,
    w: int,
    h: int,
) -> (DisplayView, bool)
    decreases rows,
{
    if rows <= 0 {
        (d, false)
    } else {
        let prev = spec_draw_rows_upto(d, mem, idx, x0, y0, rows - 1, wrap, w, h);
        let i = rows - 1;
        let byte = mem[idx.wrapping_add(i as u16) as int];
        let st = spec_draw_row_upto(prev.0, byte, x0, y0 + i, 8, wrap, w, h);
        (st.0, prev.1 || st.1)
    }
}

/// The logical sprite width for a draw: the original dialect always draws
/// on the 64x32 grid; the later dialects follow the resolution flag.
pub open spec fn draw_width(o: ObsView, variant: Chip8Mode) -> int {
    if variant is Cosmac {
        crate::display::LOWRES_SCREEN_WIDTH as int
    } else if o.screen.high_res {
        crate::display::HIGHRES_SCREEN_WIDTH as int
    } else {
        crate::display::LOWRES_SCREEN_WIDTH as int
    }
}

/// The logical sprite height for a draw.
pub open spec fn draw_height(o: ObsView, variant: Chip8Mode) -> int {
    if variant is Cosmac {
        crate::display::LOWRES_SCREEN_HEIGHT as int
    } else if o.screen.high_res {
        crate::display::HIGHRES_SCREEN_HEIGHT as int
    } else {
        crate::display::LOWRES_SCREEN_HEIGHT as int
    }
}

/// DXYN with explicit wrap flag and logical dimensions: draw an N-row
/// sprite from [I..] at (VX mod W, VY mod H); VF takes the collision flag.
pub open spec fn spec_draw_generic(o: ObsView, inst: u16, wrap: bool, w: int, h: int) -> ObsView {
    let x0 = o.registers[nib_x(inst)] as int % w;
    let y0 = o.registers[nib_y(inst)] as int % h;
    let st = spec_draw_rows_upto(o.screen, o.memory, o.index, x0, y0, nib_n(inst), wrap, w, h);
    ObsView {
        screen: st.0,
        registers: o.registers.update(
            15,
            if st.1 {
                1u8
            } else {
                0u8
            },
        ),
        ..o
    }
}

/// DXYN: draw an N-row sprite from [I..] at (VX mod W, VY mod H); VF takes
/// the collision flag.  The XO-CHIP variant wraps pixels inside the logical
/// dimensions; the others clip.
pub open spec fn spec_inst_draw(o: ObsView, inst: u16, variant: Chip8Mode) -> ObsView {
    spec_draw_generic(o, inst, variant is XoChip, draw_width(o, variant), draw_height(o, variant))
}

/// Drawing one sprite row preserves well-formedness, the resolution flag
/// and the write mask.
pub proof fn lemma_draw_row_shape(
    d: DisplayView,
    byte: u8,
    x0: int,
    y: int,
    bits: int,
    wrap: bool,
    w: int,
    h: int,
)
    requires
        d.wf(),
    ensures
        spec_draw_row_upto(d, byte, x0, y, bits, wrap, w, h).0.wf(),
        spec_draw_row_upto(d, byte, x0, y, bits, wrap, w, h).0.high_res == d.high_res,
        spec_draw_row_upto(d, byte, x0, y, bits, wrap, w, h).0.write_mask == d.write_mask,
    decreases bits,
{
    if bits > 0 {
        lemma_draw_row_shape(d, byte, x0, y, bits - 1, wrap, w, h);
    }
}

/// Drawing sprite rows preserves well-formedness, the resolution flag and
/// the write mask.
pub proof fn lemma_draw_rows_shape(
    d: DisplayView,
    mem: Seq<u8>,
    idx: u16,
    x0: int,
    y0: int,
    rows: int,
    wrap: bool,
    w: int,
    h: int,
)
    requires
        d.wf(),
    ensures
        spec_draw_rows_upto(d, mem, idx, x0, y0, rows, wrap, w, h).0.wf(),
        spec_draw_rows_upto(d, mem, idx, x0, y0, rows, wrap, w, h).0.high_res == d.high_res,
        spec_draw_rows_upto(d, mem, idx, x0, y0, rows, wrap, w, h).0.write_mask == d.write_mask,
    decreases rows,
{
    if rows > 0 {
        lemma_draw_rows_shape(d, mem, idx, x0, y0, rows - 1, wrap, w, h);
        let prev = spec_draw_rows_upto(d, mem, idx, x0, y0, rows - 1, wrap, w, h);
        let i = rows - 1;
        let byte = mem[idx.wrapping_add(i as u16) as int];
        lemma_draw_row_shape(prev.0, byte, x0, y0 + i, 8, wrap, w, h);
    }
}

/// What one dispatched operation does: the next observable state, whether
/// the VBlank gate engages, and the extra cycles or error it produces.
pub ghost struct ExecEffect {
    pub obs: ObsView,
    pub set_vblank: bool,
    pub res: Result<u32, ErrorV>,
}

/// Effect of an operation that only transforms the state.
pub open spec fn plain(o: ObsView) -> ExecEffect {
    ExecEffect { obs: o, set_vblank: false, res: Ok(0) }
}

/// The meaning of every operation.
#[verifier::opaque]
pub open spec fn spec_execute(o: ObsView, op: Op, inst: u16) -> ExecEffect {
    match op {
        Op::Nop => plain(spec_inst_nop(o, inst)),
        Op::ScrollDown => plain(spec_inst_scroll_down(o, inst)),
        Op::ScrollUp => plain(spec_inst_scroll_up(o, inst)),
        Op::Clear => plain(spec_inst_clear(o, inst)),
        Op::Return => plain(spec_inst_return(o, inst)),
        Op::ScrollRight => plain(spec_inst_scroll_right(o, inst)),
        Op::ScrollLeft => plain(spec_inst_scroll_left(o, inst)),
        Op::Exit => plain(spec_inst_exit(o, inst)),
        Op::LowRes => plain(spec_inst_low_res(o, inst)),
        Op::HighRes => plain(spec_inst_high_res(o, inst)),
        Op::Goto => plain(spec_inst_goto(o, inst)),
        Op::Call => plain(spec_inst_call(o, inst)),
        Op::IfEqual => plain(spec_inst_if_equal(o, inst)),
        Op::IfInequal => plain(spec_inst_if_inequal(o, inst)),
        Op::IfEqualRegister => plain(spec_inst_if_equal_register(o, inst)),
        Op::RegDumpXY => plain(spec_inst_reg_dump_xy(o, inst)),
        Op::RegLoadXY => plain(spec_inst_reg_load_xy(o, inst)),
        Op::SetRegister => plain(spec_inst_set_register(o, inst)),
        Op::PluseqImmediate => plain(spec_inst_pluseq_immediate(o, inst)),
        Op::MoveRegister => plain(spec_inst_move_register(o, inst)),
        Op::OreqRegisterCosmac => plain(spec_inst_oreq_register_cosmac(o, inst)),
        Op::OreqRegister => plain(spec_inst_oreq_register(o, inst)),
        Op::AndeqRegisterCosmac => plain(spec_inst_andeq_register_cosmac(o, inst)),
        Op::AndeqRegister => plain(spec_inst_andeq_register(o, inst)),
        Op::XoreqRegisterCosmac => plain(spec_inst_xoreq_register_cosmac(o, inst)),
        Op::XoreqRegister => plain(spec_inst_xoreq_register(o, inst)),
        Op::PluseqRegister => plain(spec_inst_pluseq_register(o, inst)),
        Op::MinuseqRegister => plain(spec_inst_minuseq_register(o, inst)),
        Op::ShiftRight => plain(spec_inst_shift_right(o, inst)),
        Op::ShiftRightSchip => plain(spec_inst_shift_right_schip(o, inst)),
        Op::SubtractRegister => plain(spec_inst_subtract_register(o, inst)),
        Op::ShiftLeft => plain(spec_inst_shift_left(o, inst)),
        Op::ShiftLeftSchip => plain(spec_inst_shift_left_schip(o, inst)),
        Op::IfInequalRegister => plain(spec_inst_if_inequal_register(o, inst)),
        Op::SetIndex => plain(spec_inst_set_index(o, inst)),
        Op::JumpV0 => plain(spec_inst_jump_v0(o, inst)),
        Op::JumpV0Schip => plain(spec_inst_jump_v0_schip(o, inst)),
        Op::Random => plain(spec_inst_random(o, inst)),
        Op::DrawCosmac => ExecEffect {
            obs: spec_inst_draw(o, inst, Chip8Mode::Cosmac),
            set_vblank: true,
            res: Ok(0),
        },
        Op::DrawSchip => plain(spec_inst_draw(o, inst, Chip8Mode::SuperChip)),
        Op::DrawXochip => plain(spec_inst_draw(o, inst, Chip8Mode::XoChip)),
        Op::KeyEqual => plain(spec_inst_key_equal(o, inst)),
        Op::KeyInequal => plain(spec_inst_key_inequal(o, inst)),
        Op::SetLongIndex => if o.pc >= CHIP8_MEM_SIZE - 1 {
            ExecEffect { obs: o, set_vblank: false, res: Err(ErrorV::OutOfBounds) }
        } else {
            plain(spec_inst_set_long_index(o, inst))
        },
        Op::SetBitplane => plain(spec_inst_set_bitplane(o, inst)),
        Op::SetAudioBuffer => if o.index + 16 > CHIP8_MEM_SIZE {
            ExecEffect { obs: o, set_vblank: false, res: Err(ErrorV::OutOfBounds) }
        } else {
            plain(spec_inst_set_audio_buffer(o, inst))
        },
        Op::GetDelay => plain(spec_inst_get_delay(o, inst)),
        Op::GetKey => plain(spec_inst_get_key(o, inst)),
        Op::SetDelay => plain(spec_inst_set_delay(o, inst)),
        Op::SetSound => plain(spec_inst_set_sound(o, inst)),
        Op::AddToIndex => plain(spec_inst_add_to_index(o, inst)),
        Op::SpriteAddrIndex => plain(spec_inst_sprite_addr_index(o, inst)),
        Op::BigSpriteAddrIndex => plain(spec_inst_big_sprite_addr_index(o, inst)),
        Op::Bcd => plain(spec_inst_bcd(o, inst)),
        Op::SetAudioPitch => plain(spec_inst_set_audio_pitch(o, inst)),
        Op::RegDump => plain(spec_inst_reg_dump(o, inst)),
        Op::RegDumpSchip => plain(spec_inst_reg_dump_schip(o, inst)),
        Op::RegLoad => plain(spec_inst_reg_load(o, inst)),
        Op::RegLoadSchip => plain(spec_inst_reg_load_schip(o, inst)),
        Op::PersistDump => plain(spec_inst_persist_dump(o, inst)),
        Op::PersistLoad => plain(spec_inst_persist_load(o, inst)),
    }
}

/// One driver step: the gates, the fetch, the decode, the dispatch.
pub open spec fn spec_step(o: ObsView) -> ExecEffect {
    if o.exited {
        ExecEffect { obs: o, set_vblank: false, res: Err(ErrorV::Exited) }
    } else if o.awaiting_key is Some {
        ExecEffect { obs: o, set_vblank: false, res: Ok(1) }
    } else if o.pc >= CHIP8_MEM_SIZE - 1 {
        ExecEffect { obs: o, set_vblank: false, res: Err(ErrorV::OutOfBounds) }
    } else {
        let w = spec_word_at(o.memory, o.pc as int);
        match spec_decode(w) {
            None => ExecEffect { obs: o, set_vblank: false, res: Err(ErrorV::UnknownOpcode(w)) },
            Some(e) => {
                let o2 = ObsView { pc: o.pc.wrapping_add(2), ..o };
                match spec_decode_for_mode(e, o.mode) {
                    None => ExecEffect {
                        obs: o2,
                        set_vblank: false,
                        res: Err(ErrorV::NotDefined(o.mode)),
                    },
                    Some(op) => {
                        let ef = spec_execute(o2, op, w);
                        ExecEffect {
                            obs: ef.obs,
                            set_vblank: ef.set_vblank,
                            res: match ef.res {
                                Ok(extra) => Ok((1 + extra) as u32),
                                Err(e) => Err(e),
                            },
                        }
                    },
                }
            },
        }
    }
}

/// The only failure a dispatched operation can produce is an
/// out-of-bounds memory access.
pub proof fn lemma_execute_errors(o: ObsView, op: Op, inst: u16)
    ensures
        spec_execute(o, op, inst).res matches Err(e) ==> e is OutOfBounds,
{
    reveal(crate::instruction::semantics::spec_execute);
}

/// A successfully dispatched operation consumes no extra cycles.
pub proof fn lemma_execute_cycles(o: ObsView, op: Op, inst: u16)
    ensures
        spec_execute(o, op, inst).res matches Ok(c) ==> c == 0,
{
    reveal(crate::instruction::semantics::spec_execute);
}

/// A successful step costs exactly one cycle.
pub proof fn lemma_step_cycles(o: ObsView)
    ensures
        spec_step(o).res matches Ok(c) ==> c == 1,
{
    if !o.exited && o.awaiting_key is None && o.pc < CHIP8_MEM_SIZE - 1 {
        let w = spec_word_at(o.memory, o.pc as int);
        match spec_decode(w) {
            Some(e) => {
                let o2 = ObsView { pc: o.pc.wrapping_add(2), ..o };
                match spec_decode_for_mode(e, o.mode) {
                    Some(op) => {
                        lemma_execute_cycles(o2, op, w);
                    },
                    None => {},
                }
            },
            None => {},
        }
    }
}

/// Whether `n` successful steps lead from `o1` to `o2`.
pub open spec fn spec_steps_to(o1: ObsView, o2: ObsView, n: nat) -> bool
    decreases n,
{
    if n == 0 {
        o1 == o2
    } else {
        spec_step(o1).res is Ok && spec_steps_to(spec_step(o1).obs, o2, (n - 1) as nat)
    }
}

/// Extending a successful run by one more successful step.
pub proof fn lemma_steps_to_snoc(a: ObsView, b: ObsView, n: nat)
    requires
        spec_steps_to(a, b, n),
        spec_step(b).res is Ok,
    ensures
        spec_steps_to(a, spec_step(b).obs, n + 1),
    decreases n,
{
    if n == 0 {
        assert(a == b);
        assert(spec_steps_to(spec_step(a).obs, spec_step(b).obs, 0nat));
    } else {
        lemma_steps_to_snoc(spec_step(a).obs, b, (n - 1) as nat);
        assert(spec_steps_to(spec_step(a).obs, spec_step(b).obs, ((n - 1) + 1) as nat));
    }
}

/// The errors a step can produce: the exit latch, a fetch or in-handler
/// bounds failure, an unknown opcode, or an opcode foreign to the dialect.
pub proof fn lemma_step_errors(o: ObsView)
    ensures
        spec_step(o).res matches Err(e) ==> (e is Exited || e is OutOfBounds || e
            is UnknownOpcode || e is NotDefined),
{
    reveal(crate::instruction::semantics::spec_execute);
}

} // verus!
