//! Executable instruction handlers, each proved to realise the spec
//! function of the same name in `semantics`.

use vstd::prelude::*;

use crate::common::Chip8Mode;
use crate::common::Error;
use crate::cpu::CHIP8_MEM_SIZE;
use crate::cpu::CPU;
use crate::cpu::CpuView;
use crate::cpu::ObsView;
use crate::instruction::Op;
use crate::instruction::semantics::nib_x;
use crate::instruction::semantics::nib_y;
use crate::instruction::semantics::nib_n;
use crate::instruction::semantics::spec_skip;
use crate::instruction::semantics::spec_inst_nop;
use crate::instruction::semantics::spec_inst_clear;
use crate::instruction::semantics::spec_inst_return;
use crate::instruction::semantics::spec_inst_scroll_down;
use crate::instruction::semantics::spec_inst_scroll_up;
use crate::instruction::semantics::spec_inst_scroll_right;
use crate::instruction::semantics::spec_inst_scroll_left;
use crate::instruction::semantics::spec_inst_exit;
use crate::instruction::semantics::spec_inst_low_res;
use crate::instruction::semantics::spec_inst_high_res;
use crate::instruction::semantics::spec_inst_goto;
use crate::instruction::semantics::spec_inst_call;
use crate::instruction::semantics::spec_inst_if_equal;
use crate::instruction::semantics::spec_inst_if_inequal;
use crate::instruction::semantics::spec_inst_if_equal_register;
use crate::instruction::semantics::spec_inst_if_inequal_register;
use crate::instruction::semantics::spec_inst_set_register;
use crate::instruction::semantics::spec_inst_pluseq_immediate;
use crate::instruction::semantics::spec_inst_move_register;
use crate::instruction::semantics::spec_inst_oreq_register_cosmac;
use crate::instruction::semantics::spec_inst_oreq_register;
use crate::instruction::semantics::spec_inst_andeq_register_cosmac;
use crate::instruction::semantics::spec_inst_andeq_register;
use crate::instruction::semantics::spec_inst_xoreq_register_cosmac;
use crate::instruction::semantics::spec_inst_xoreq_register;
use crate::instruction::semantics::spec_inst_pluseq_register;
use crate::instruction::semantics::spec_inst_minuseq_register;
use crate::instruction::semantics::spec_inst_subtract_register;
use crate::instruction::semantics::spec_inst_shift_right;
use crate::instruction::semantics::spec_inst_shift_right_schip;
use crate::instruction::semantics::spec_inst_shift_left;
use crate::instruction::semantics::spec_inst_shift_left_schip;
use crate::instruction::semantics::spec_inst_set_index;
use crate::instruction::semantics::spec_inst_jump_v0;
use crate::instruction::semantics::spec_inst_jump_v0_schip;
use crate::instruction::semantics::spec_inst_random;
use crate::instruction::semantics::spec_inst_key_equal;
use crate::instruction::semantics::spec_inst_key_inequal;
use crate::instruction::semantics::spec_inst_get_key;
use crate::instruction::semantics::spec_inst_get_delay;
use crate::instruction::semantics::spec_inst_set_delay;
use crate::instruction::semantics::spec_inst_set_sound;
use crate::instruction::semantics::spec_inst_add_to_index;
use crate::instruction::semantics::spec_inst_sprite_addr_index;
use crate::instruction::semantics::spec_inst_big_sprite_addr_index;
use crate::instruction::semantics::spec_inst_bcd;
use crate::instruction::semantics::spec_inst_set_bitplane;
use crate::instruction::semantics::spec_inst_set_audio_pitch;
use crate::instruction::semantics::spec_inst_reg_dump;
use crate::instruction::semantics::spec_inst_reg_dump_schip;
use crate::instruction::semantics::spec_inst_reg_load;
use crate::instruction::semantics::spec_inst_reg_load_schip;
use crate::instruction::semantics::spec_inst_reg_dump_xy;
use crate::instruction::semantics::spec_inst_reg_load_xy;
use crate::instruction::semantics::spec_inst_persist_dump;
use crate::instruction::semantics::spec_inst_persist_load;
use crate::instruction::semantics::spec_inst_set_audio_buffer;
use crate::instruction::semantics::spec_inst_set_long_index;
use crate::instruction::semantics::spec_inst_draw;
use crate::instruction::semantics::spec_draw_generic;
use crate::instruction::semantics::spec_draw_rows_upto;
use crate::instruction::semantics::spec_draw_row_upto;
use crate::instruction::semantics::spec_draw_bit;
use crate::instruction::semantics::lemma_draw_rows_shape;
use crate::instruction::semantics::lemma_draw_row_shape;
use crate::instruction::semantics::spec_execute;
use crate::instruction::semantics::ExecEffect;
use crate::common::res_view;
use crate::audio::bit_of_byte;
use crate::instruction::semantics::spec_dump_upto;
use crate::instruction::semantics::spec_load_upto;
use crate::instruction::semantics::spec_dump_xy_upto;
use crate::instruction::semantics::spec_load_xy_upto;
use crate::instruction::semantics::spec_persist_dump_upto;
use crate::register::Register;

verus! {

/// The X nibble as an index.
pub(crate) fn nib_x_exec(inst: u16) -> (r: usize)
    ensures
        r == nib_x(inst),
        r < 16,
{
    proof {
        assert(((inst >> 8) & 0xF) < 16) by (bit_vector);
    }
    ((inst >> 8) & 0xF) as usize
}

/// The Y nibble as an index.
pub(crate) fn nib_y_exec(inst: u16) -> (r: usize)
    ensures
        r == nib_y(inst),
        r < 16,
{
    proof {
        assert(((inst >> 4) & 0xF) < 16) by (bit_vector);
    }
    ((inst >> 4) & 0xF) as usize
}

/// The N nibble.
pub(crate) fn nib_n_exec(inst: u16) -> (r: u8)
    ensures
        r == nib_n(inst),
        r < 16,
{
    proof {
        assert((inst & 0xF) < 16) by (bit_vector);
    }
    (inst & 0xF) as u8
}

/// Advances PC past one instruction, skipping the trailing word of a
/// long-index form in the XO-CHIP dialect.
pub(crate) fn skip_instruction(cpu: &mut CPU)
    requires
        old(cpu)@.wf(),
    ensures
        final(cpu)@.wf(),
        final(cpu)@ == (CpuView { obs: spec_skip(old(cpu)@.obs), ..old(cpu)@ }),
{
    let mut double: bool = false;
    if cpu.mode == Chip8Mode::XoChip {
        match cpu.read_memory_word(cpu.pc) {
            Ok(w) => {
                if w == 0xF000 {
                    double = true;
                }
            },
            Err(_) => {},
        }
    }
    cpu.pc = cpu.pc.wrapping_add(2);
    if double {
        cpu.pc = cpu.pc.wrapping_add(2);
    }
}

pub(crate) fn inst_nop(cpu: &mut CPU, inst: u16)
    requires
        old(cpu)@.wf(),
    ensures
        final(cpu)@.wf(),
        final(cpu)@ == (CpuView { obs: spec_inst_nop(old(cpu)@.obs, inst), ..old(cpu)@ }),
{
}

pub(crate) fn inst_clear(cpu: &mut CPU, inst: u16)
    requires
        old(cpu)@.wf(),
    ensures
        final(cpu)@.wf(),
        final(cpu)@ == (CpuView { obs: spec_inst_clear(old(cpu)@.obs, inst), ..old(cpu)@ }),
{
    cpu.screen.clear();
    proof {
        assert(cpu@.obs.screen.buffer =~= Seq::new(
            (crate::display::SCREEN_WIDTH * crate::display::SCREEN_HEIGHT) as nat,
            |i: int| false,
        ));
    }
}

pub(crate) fn inst_return(cpu: &mut CPU, inst: u16)
    requires
        old(cpu)@.wf(),
    ensures
        final(cpu)@.wf(),
        final(cpu)@ == (CpuView { obs: spec_inst_return(old(cpu)@.obs, inst), ..old(cpu)@ }),
{
    cpu.return_routine();
}

pub(crate) fn inst_scroll_down(cpu: &mut CPU, inst: u16)
    requires
        old(cpu)@.wf(),
    ensures
        final(cpu)@.wf(),
        final(cpu)@ == (CpuView { obs: spec_inst_scroll_down(old(cpu)@.obs, inst), ..old(cpu)@ }),
{
    let n: u8 = nib_n_exec(inst);
    let eff: i8 = if cpu.screen.high_res {
        n as i8
    } else {
        (n / 2) as i8
    };
    cpu.screen.scroll(0, -eff);
}

pub(crate) fn inst_scroll_up(cpu: &mut CPU, inst: u16)
    requires
        old(cpu)@.wf(),
    ensures
        final(cpu)@.wf(),
        final(cpu)@ == (CpuView { obs: spec_inst_scroll_up(old(cpu)@.obs, inst), ..old(cpu)@ }),
{
    let n: u8 = nib_n_exec(inst);
    let eff: i8 = if cpu.screen.high_res {
        n as i8
    } else {
        (n / 2) as i8
    };
    cpu.screen.scroll(0, eff);
}

pub(crate) fn inst_scroll_right(cpu: &mut CPU, inst: u16)
    requires
        old(cpu)@.wf(),
    ensures
        final(cpu)@.wf(),
        final(cpu)@ == (CpuView { obs: spec_inst_scroll_right(old(cpu)@.obs, inst), ..old(cpu)@ }),
{
    let amt: i8 = if cpu.screen.high_res {
        4
    } else {
        2
    };
    cpu.screen.scroll(amt, 0);
}

pub(crate) fn inst_scroll_left(cpu: &mut CPU, inst: u16)
    requires
        old(cpu)@.wf(),
    ensures
        final(cpu)@.wf(),
        final(cpu)@ == (CpuView { obs: spec_inst_scroll_left(old(cpu)@.obs, inst), ..old(cpu)@ }),
{
    let amt: i8 = if cpu.screen.high_res {
        -4
    } else {
        -2
    };
    cpu.screen.scroll(amt, 0);
}

pub(crate) fn inst_exit(cpu: &mut CPU, inst: u16)
    requires
        old(cpu)@.wf(),
    ensures
        final(cpu)@.wf(),
        final(cpu)@ == (CpuView { obs: spec_inst_exit(old(cpu)@.obs, inst), ..old(cpu)@ }),
{
    cpu.exited = true;
}

pub(crate) fn inst_low_res(cpu: &mut CPU, inst: u16)
    requires
        old(cpu)@.wf(),
    ensures
        final(cpu)@.wf(),
        final(cpu)@ == (CpuView { obs: spec_inst_low_res(old(cpu)@.obs, inst), ..old(cpu)@ }),
{
    cpu.screen.high_res = false;
}

pub(crate) fn inst_high_res(cpu: &mut CPU, inst: u16)
    requires
        old(cpu)@.wf(),
    ensures
        final(cpu)@.wf(),
        final(cpu)@ == (CpuView { obs: spec_inst_high_res(old(cpu)@.obs, inst), ..old(cpu)@ }),
{
    cpu.screen.high_res = true;
}

pub(crate) fn inst_goto(cpu: &mut CPU, inst: u16)
    requires
        old(cpu)@.wf(),
    ensures
        final(cpu)@.wf(),
        final(cpu)@ == (CpuView { obs: spec_inst_goto(old(cpu)@.obs, inst), ..old(cpu)@ }),
{
    cpu.pc = inst & 0xFFF;
}

pub(crate) fn inst_call(cpu: &mut CPU, inst: u16)
    requires
        old(cpu)@.wf(),
    ensures
        final(cpu)@.wf(),
        final(cpu)@ == (CpuView { obs: spec_inst_call(old(cpu)@.obs, inst), ..old(cpu)@ }),
{
    cpu.call_routine(inst & 0xFFF);
}

pub(crate) fn inst_if_equal(cpu: &mut CPU, inst: u16)
    requires
        old(cpu)@.wf(),
    ensures
        final(cpu)@.wf(),
        final(cpu)@ == (CpuView { obs: spec_inst_if_equal(old(cpu)@.obs, inst), ..old(cpu)@ }),
{
    let x: usize = nib_x_exec(inst);
    let value: u8 = (inst & 0xFF) as u8;
    if cpu.registers[x] == value {
        skip_instruction(cpu);
    }
}

pub(crate) fn inst_if_inequal(cpu: &mut CPU, inst: u16)
    requires
        old(cpu)@.wf(),
    ensures
        final(cpu)@.wf(),
        final(cpu)@ == (CpuView { obs: spec_inst_if_inequal(old(cpu)@.obs, inst), ..old(cpu)@ }),
{
    let x: usize = nib_x_exec(inst);
    let value: u8 = (inst & 0xFF) as u8;
    if cpu.registers[x] != value {
        skip_instruction(cpu);
    }
}

pub(crate) fn inst_if_equal_register(cpu: &mut CPU, inst: u16)
    requires
        old(cpu)@.wf(),
    ensures
        final(cpu)@.wf(),
        final(cpu)@ == (CpuView {
            obs: spec_inst_if_equal_register(old(cpu)@.obs, inst),
            ..old(cpu)@
        }),
{
    let x: usize = nib_x_exec(inst);
    let y: usize = nib_y_exec(inst);
    if cpu.registers[x] == cpu.registers[y] {
        skip_instruction(cpu);
    }
}

pub(crate) fn inst_if_inequal_register(cpu: &mut CPU, inst: u16)
    requires
        old(cpu)@.wf(),
    ensures
        final(cpu)@.wf(),
        final(cpu)@ == (CpuView {
            obs: spec_inst_if_inequal_register(old(cpu)@.obs, inst),
            ..old(cpu)@
        }),
{
    let x: usize = nib_x_exec(inst);
    let y: usize = nib_y_exec(inst);
    if cpu.registers[x] != cpu.registers[y] {
        skip_instruction(cpu);
    }
}

pub(crate) fn inst_set_register(cpu: &mut CPU, inst: u16)
    requires
        old(cpu)@.wf(),
    ensures
        final(cpu)@.wf(),
        final(cpu)@ == (CpuView { obs: spec_inst_set_register(old(cpu)@.obs, inst), ..old(cpu)@ }),
{
    let x: usize = nib_x_exec(inst);
    cpu.registers.set(x, (inst & 0xFF) as u8);
}

pub(crate) fn inst_pluseq_immediate(cpu: &mut CPU, inst: u16)
    requires
        old(cpu)@.wf(),
    ensures
        final(cpu)@.wf(),
        final(cpu)@ == (CpuView {
            obs: spec_inst_pluseq_immediate(old(cpu)@.obs, inst),
            ..old(cpu)@
        }),
{
    let x: usize = nib_x_exec(inst);
    let value: u8 = (inst & 0xFF) as u8;
    let sum: u8 = cpu.registers[x].wrapping_add(value);
    cpu.registers.set(x, sum);
}

pub(crate) fn inst_move_register(cpu: &mut CPU, inst: u16)
    requires
        old(cpu)@.wf(),
    ensures
        final(cpu)@.wf(),
        final(cpu)@ == (CpuView { obs: spec_inst_move_register(old(cpu)@.obs, inst), ..old(cpu)@ }),
{
    let x: usize = nib_x_exec(inst);
    let y: usize = nib_y_exec(inst);
    let v: u8 = cpu.registers[y];
    cpu.registers.set(x, v);
}

pub(crate) fn inst_oreq_register_cosmac(cpu: &mut CPU, inst: u16)
    requires
        old(cpu)@.wf(),
    ensures
        final(cpu)@.wf(),
        final(cpu)@ == (CpuView {
            obs: spec_inst_oreq_register_cosmac(old(cpu)@.obs, inst),
            ..old(cpu)@
        }),
{
    let x: usize = nib_x_exec(inst);
    let y: usize = nib_y_exec(inst);
    let v: u8 = cpu.registers[x] | cpu.registers[y];
    cpu.registers.set(x, v);
    cpu.registers.set(15, 0);
}

pub(crate) fn inst_oreq_register(cpu: &mut CPU, inst: u16)
    requires
        old(cpu)@.wf(),
    ensures
        final(cpu)@.wf(),
        final(cpu)@ == (CpuView { obs: spec_inst_oreq_register(old(cpu)@.obs, inst), ..old(cpu)@ }),
{
    let x: usize = nib_x_exec(inst);
    let y: usize = nib_y_exec(inst);
    let v: u8 = cpu.registers[x] | cpu.registers[y];
    cpu.registers.set(x, v);
}

pub(crate) fn inst_andeq_register_cosmac(cpu: &mut CPU, inst: u16)
    requires
        old(cpu)@.wf(),
    ensures
        final(cpu)@.wf(),
        final(cpu)@ == (CpuView {
            obs: spec_inst_andeq_register_cosmac(old(cpu)@.obs, inst),
            ..old(cpu)@
        }),
{
    let x: usize = nib_x_exec(inst);
    let y: usize = nib_y_exec(inst);
    let v: u8 = cpu.registers[x] & cpu.registers[y];
    cpu.registers.set(x, v);
    cpu.registers.set(15, 0);
}

pub(crate) fn inst_andeq_register(cpu: &mut CPU, inst: u16)
    requires
        old(cpu)@.wf(),
    ensures
        final(cpu)@.wf(),
        final(cpu)@ == (CpuView {
            obs: spec_inst_andeq_register(old(cpu)@.obs, inst),
            ..old(cpu)@
        }),
{
    let x: usize = nib_x_exec(inst);
    let y: usize = nib_y_exec(inst);
    let v: u8 = cpu.registers[x] & cpu.registers[y];
    cpu.registers.set(x, v);
}

pub(crate) fn inst_xoreq_register_cosmac(cpu: &mut CPU, inst: u16)
    requires
        old(cpu)@.wf(),
    ensures
        final(cpu)@.wf(),
        final(cpu)@ == (CpuView {
            obs: spec_inst_xoreq_register_cosmac(old(cpu)@.obs, inst),
            ..old(cpu)@
        }),
{
    let x: usize = nib_x_exec(inst);
    let y: usize = nib_y_exec(inst);
    let v: u8 = cpu.registers[x] ^ cpu.registers[y];
    cpu.registers.set(x, v);
    cpu.registers.set(15, 0);
}

pub(crate) fn inst_xoreq_register(cpu: &mut CPU, inst: u16)
    requires
        old(cpu)@.wf(),
    ensures
        final(cpu)@.wf(),
        final(cpu)@ == (CpuView {
            obs: spec_inst_xoreq_register(old(cpu)@.obs, inst),
            ..old(cpu)@
        }),
{
    let x: usize = nib_x_exec(inst);
    let y: usize = nib_y_exec(inst);
    let v: u8 = cpu.registers[x] ^ cpu.registers[y];
    cpu.registers.set(x, v);
}

pub(crate) fn inst_pluseq_register(cpu: &mut CPU, inst: u16)
    requires
        old(cpu)@.wf(),
    ensures
        final(cpu)@.wf(),
        final(cpu)@ == (CpuView {
            obs: spec_inst_pluseq_register(old(cpu)@.obs, inst),
            ..old(cpu)@
        }),
{
    let x: usize = nib_x_exec(inst);
    let y: usize = nib_y_exec(inst);
    let a: u8 = cpu.registers[x];
    let b: u8 = cpu.registers[y];
    let carry: u8 = if (a as u16) + (b as u16) > 255 {
        1
    } else {
        0
    };
    cpu.registers.set(x, a.wrapping_add(b));
    cpu.registers.set(15, carry);
}

pub(crate) fn inst_minuseq_register(cpu: &mut CPU, inst: u16)
    requires
        old(cpu)@.wf(),
    ensures
        final(cpu)@.wf(),
        final(cpu)@ == (CpuView {
            obs: spec_inst_minuseq_register(old(cpu)@.obs, inst),
            ..old(cpu)@
        }),
{
    let x: usize = nib_x_exec(inst);
    let y: usize = nib_y_exec(inst);
    let a: u8 = cpu.registers[x];
    let b: u8 = cpu.registers[y];
    let no_borrow: u8 = if a >= b {
        1
    } else {
        0
    };
    cpu.registers.set(x, a.wrapping_sub(b));
    cpu.registers.set(15, no_borrow);
}

pub(crate) fn inst_subtract_register(cpu: &mut CPU, inst: u16)
    requires
        old(cpu)@.wf(),
    ensures
        final(cpu)@.wf(),
        final(cpu)@ == (CpuView {
            obs: spec_inst_subtract_register(old(cpu)@.obs, inst),
            ..old(cpu)@
        }),
{
    let x: usize = nib_x_exec(inst);
    let y: usize = nib_y_exec(inst);
    let a: u8 = cpu.registers[x];
    let b: u8 = cpu.registers[y];
    let no_borrow: u8 = if b >= a {
        1
    } else {
        0
    };
    cpu.registers.set(x, b.wrapping_sub(a));
    cpu.registers.set(15, no_borrow);
}

pub(crate) fn inst_shift_right(cpu: &mut CPU, inst: u16)
    requires
        old(cpu)@.wf(),
    ensures
        final(cpu)@.wf(),
        final(cpu)@ == (CpuView { obs: spec_inst_shift_right(old(cpu)@.obs, inst), ..old(cpu)@ }),
{
    let x: usize = nib_x_exec(inst);
    let y: usize = nib_y_exec(inst);
    let v: u8 = cpu.registers[y];
    cpu.registers.set(x, v >> 1);
    cpu.registers.set(15, v & 1);
}

pub(crate) fn inst_shift_right_schip(cpu: &mut CPU, inst: u16)
    requires
        old(cpu)@.wf(),
    ensures
        final(cpu)@.wf(),
        final(cpu)@ == (CpuView {
            obs: spec_inst_shift_right_schip(old(cpu)@.obs, inst),
            ..old(cpu)@
        }),
{
    let x: usize = nib_x_exec(inst);
    let v: u8 = cpu.registers[x];
    cpu.registers.set(x, v >> 1);
    cpu.registers.set(15, v & 1);
}

pub(crate) fn inst_shift_left(cpu: &mut CPU, inst: u16)
    requires
        old(cpu)@.wf(),
    ensures
        final(cpu)@.wf(),
        final(cpu)@ == (CpuView { obs: spec_inst_shift_left(old(cpu)@.obs, inst), ..old(cpu)@ }),
{
    let x: usize = nib_x_exec(inst);
    let y: usize = nib_y_exec(inst);
    let v: u8 = cpu.registers[y];
    cpu.registers.set(x, v << 1);
    cpu.registers.set(15, v >> 7);
}

pub(crate) fn inst_shift_left_schip(cpu: &mut CPU, inst: u16)
    requires
        old(cpu)@.wf(),
    ensures
        final(cpu)@.wf(),
        final(cpu)@ == (CpuView {
            obs: spec_inst_shift_left_schip(old(cpu)@.obs, inst),
            ..old(cpu)@
        }),
{
    let x: usize = nib_x_exec(inst);
    let v: u8 = cpu.registers[x];
    cpu.registers.set(x, v << 1);
    cpu.registers.set(15, v >> 7);
}

pub(crate) fn inst_set_index(cpu: &mut CPU, inst: u16)
    requires
        old(cpu)@.wf(),
    ensures
        final(cpu)@.wf(),
        final(cpu)@ == (CpuView { obs: spec_inst_set_index(old(cpu)@.obs, inst), ..old(cpu)@ }),
{
    cpu.index = inst & 0xFFF;
}

pub(crate) fn inst_jump_v0(cpu: &mut CPU, inst: u16)
    requires
        old(cpu)@.wf(),
    ensures
        final(cpu)@.wf(),
        final(cpu)@ == (CpuView { obs: spec_inst_jump_v0(old(cpu)@.obs, inst), ..old(cpu)@ }),
{
    let base: u16 = inst & 0xFFF;
    proof {
        assert((inst & 0xFFF) <= 0xFFF) by (bit_vector);
    }
    cpu.pc = base + (cpu.registers[0] as u16);
}

pub(crate) fn inst_jump_v0_schip(cpu: &mut CPU, inst: u16)
    requires
        old(cpu)@.wf(),
    ensures
        final(cpu)@.wf(),
        final(cpu)@ == (CpuView {
            obs: spec_inst_jump_v0_schip(old(cpu)@.obs, inst),
            ..old(cpu)@
        }),
{
    let base: u16 = inst & 0xFFF;
    let x: usize = nib_x_exec(inst);
    proof {
        assert((inst & 0xFFF) <= 0xFFF) by (bit_vector);
    }
    cpu.pc = base + (cpu.registers[x] as u16);
}

pub(crate) fn inst_random(cpu: &mut CPU, inst: u16)
    requires
        old(cpu)@.wf(),
    ensures
        final(cpu)@.wf(),
        final(cpu)@ == (CpuView { obs: spec_inst_random(old(cpu)@.obs, inst), ..old(cpu)@ }),
{
    let x: usize = nib_x_exec(inst);
    let mask: u8 = (inst & 0xFF) as u8;
    let b: u8 = cpu.random();
    cpu.registers.set(x, b & mask);
}

pub(crate) fn inst_key_equal(cpu: &mut CPU, inst: u16)
    requires
        old(cpu)@.wf(),
    ensures
        final(cpu)@.wf(),
        final(cpu)@ == (CpuView { obs: spec_inst_key_equal(old(cpu)@.obs, inst), ..old(cpu)@ }),
{
    let x: usize = nib_x_exec(inst);
    let k: u8 = cpu.registers[x];
    if cpu.is_key_down(k) {
        skip_instruction(cpu);
    }
}

pub(crate) fn inst_key_inequal(cpu: &mut CPU, inst: u16)
    requires
        old(cpu)@.wf(),
    ensures
        final(cpu)@.wf(),
        final(cpu)@ == (CpuView { obs: spec_inst_key_inequal(old(cpu)@.obs, inst), ..old(cpu)@ }),
{
    let x: usize = nib_x_exec(inst);
    let k: u8 = cpu.registers[x];
    if !cpu.is_key_down(k) {
        skip_instruction(cpu);
    }
}

pub(crate) fn inst_get_key(cpu: &mut CPU, inst: u16)
    requires
        old(cpu)@.wf(),
    ensures
        final(cpu)@.wf(),
        final(cpu)@ == (CpuView { obs: spec_inst_get_key(old(cpu)@.obs, inst), ..old(cpu)@ }),
{
    let x: usize = nib_x_exec(inst);
    if let Some(reg) = Register::from_index(x as u8) {
        cpu.await_key(reg);
    }
}

pub(crate) fn inst_get_delay(cpu: &mut CPU, inst: u16)
    requires
        old(cpu)@.wf(),
    ensures
        final(cpu)@.wf(),
        final(cpu)@ == (CpuView { obs: spec_inst_get_delay(old(cpu)@.obs, inst), ..old(cpu)@ }),
{
    let x: usize = nib_x_exec(inst);
    let v: u8 = cpu.delay_timer;
    cpu.registers.set(x, v);
}

pub(crate) fn inst_set_delay(cpu: &mut CPU, inst: u16)
    requires
        old(cpu)@.wf(),
    ensures
        final(cpu)@.wf(),
        final(cpu)@ == (CpuView { obs: spec_inst_set_delay(old(cpu)@.obs, inst), ..old(cpu)@ }),
{
    let x: usize = nib_x_exec(inst);
    cpu.delay_timer = cpu.registers[x];
}

pub(crate) fn inst_set_sound(cpu: &mut CPU, inst: u16)
    requires
        old(cpu)@.wf(),
    ensures
        final(cpu)@.wf(),
        final(cpu)@ == (CpuView { obs: spec_inst_set_sound(old(cpu)@.obs, inst), ..old(cpu)@ }),
{
    let x: usize = nib_x_exec(inst);
    cpu.sound_timer = cpu.registers[x];
}

pub(crate) fn inst_add_to_index(cpu: &mut CPU, inst: u16)
    requires
        old(cpu)@.wf(),
    ensures
        final(cpu)@.wf(),
        final(cpu)@ == (CpuView { obs: spec_inst_add_to_index(old(cpu)@.obs, inst), ..old(cpu)@ }),
{
    let x: usize = nib_x_exec(inst);
    let s: u32 = (cpu.index as u32) + (cpu.registers[x] as u32);
    let overflow: u8 = if s > 0xFFF {
        1
    } else {
        0
    };
    cpu.index = (s % 0x1000) as u16;
    cpu.registers.set(15, overflow);
}

pub(crate) fn inst_sprite_addr_index(cpu: &mut CPU, inst: u16)
    requires
        old(cpu)@.wf(),
    ensures
        final(cpu)@.wf(),
        final(cpu)@ == (CpuView {
            obs: spec_inst_sprite_addr_index(old(cpu)@.obs, inst),
            ..old(cpu)@
        }),
{
    let x: usize = nib_x_exec(inst);
    let digit: u8 = cpu.registers[x] & 0xF;
    cpu.index = 0x50 + 5 * (digit as u16);
}

pub(crate) fn inst_big_sprite_addr_index(cpu: &mut CPU, inst: u16)
    requires
        old(cpu)@.wf(),
    ensures
        final(cpu)@.wf(),
        final(cpu)@ == (CpuView {
            obs: spec_inst_big_sprite_addr_index(old(cpu)@.obs, inst),
            ..old(cpu)@
        }),
{
    let x: usize = nib_x_exec(inst);
    let digit: u8 = cpu.registers[x] & 0xF;
    cpu.index = 0xA0 + 10 * (digit as u16);
}

pub(crate) fn inst_bcd(cpu: &mut CPU, inst: u16)
    requires
        old(cpu)@.wf(),
    ensures
        final(cpu)@.wf(),
        final(cpu)@ == (CpuView { obs: spec_inst_bcd(old(cpu)@.obs, inst), ..old(cpu)@ }),
{
    let x: usize = nib_x_exec(inst);
    let v: u8 = cpu.registers[x];
    let i0: usize = cpu.index as usize;
    let i1: usize = cpu.index.wrapping_add(1) as usize;
    let i2: usize = cpu.index.wrapping_add(2) as usize;
    cpu.memory.set(i0, v / 100);
    cpu.memory.set(i1, (v / 10) % 10);
    cpu.memory.set(i2, v % 10);
}

pub(crate) fn inst_set_bitplane(cpu: &mut CPU, inst: u16)
    requires
        old(cpu)@.wf(),
    ensures
        final(cpu)@.wf(),
        final(cpu)@ == (CpuView { obs: spec_inst_set_bitplane(old(cpu)@.obs, inst), ..old(cpu)@ }),
{
    proof {
        assert(((inst >> 8) & 0x3) < 4) by (bit_vector);
    }
    cpu.screen.write_mask = ((inst >> 8) & 0x3) as u8;
}

pub(crate) fn inst_set_audio_pitch(cpu: &mut CPU, inst: u16)
    requires
        old(cpu)@.wf(),
    ensures
        final(cpu)@.wf(),
        final(cpu)@ == (CpuView {
            obs: spec_inst_set_audio_pitch(old(cpu)@.obs, inst),
            ..old(cpu)@
        }),
{
    let x: usize = nib_x_exec(inst);
    let pitch: u8 = cpu.registers[x];
    cpu.audio.set_pitch(pitch);
}

pub(crate) fn inst_reg_dump(cpu: &mut CPU, inst: u16)
    requires
        old(cpu)@.wf(),
    ensures
        final(cpu)@.wf(),
        final(cpu)@ == (CpuView { obs: spec_inst_reg_dump(old(cpu)@.obs, inst), ..old(cpu)@ }),
{
    inst_reg_dump_schip(cpu, inst);
    let x: usize = nib_x_exec(inst);
    cpu.index = (((cpu.index as u32) + (x as u32) + 1) % 0x1000) as u16;
}

pub(crate) fn inst_reg_dump_schip(cpu: &mut CPU, inst: u16)
    requires
        old(cpu)@.wf(),
    ensures
        final(cpu)@.wf(),
        final(cpu)@ == (CpuView {
            obs: spec_inst_reg_dump_schip(old(cpu)@.obs, inst),
            ..old(cpu)@
        }),
{
    let x: usize = nib_x_exec(inst);
    let mut i: usize = 0;
    while i <= x
        invariant
            old(cpu)@.wf(),
            cpu@.wf(),
            x < 16,
            0 <= i <= x + 1,
            cpu@ == (CpuView {
                obs: ObsView {
                    memory: spec_dump_upto(
                        old(cpu)@.obs.memory,
                        old(cpu)@.obs.registers,
                        old(cpu)@.obs.index,
                        i as int,
                    ),
                    ..old(cpu)@.obs
                },
                ..old(cpu)@
            }),
        decreases x + 1 - i,
    {
        let b: u8 = cpu.registers[i];
        let pos: usize = cpu.index.wrapping_add(i as u16) as usize;
        cpu.memory.set(pos, b);
        i = i + 1;
    }
}

pub(crate) fn inst_reg_load(cpu: &mut CPU, inst: u16)
    requires
        old(cpu)@.wf(),
    ensures
        final(cpu)@.wf(),
        final(cpu)@ == (CpuView { obs: spec_inst_reg_load(old(cpu)@.obs, inst), ..old(cpu)@ }),
{
    inst_reg_load_schip(cpu, inst);
    let x: usize = nib_x_exec(inst);
    cpu.index = (((cpu.index as u32) + (x as u32) + 1) % 0x1000) as u16;
}

pub(crate) fn inst_reg_load_schip(cpu: &mut CPU, inst: u16)
    requires
        old(cpu)@.wf(),
    ensures
        final(cpu)@.wf(),
        final(cpu)@ == (CpuView {
            obs: spec_inst_reg_load_schip(old(cpu)@.obs, inst),
            ..old(cpu)@
        }),
{
    let x: usize = nib_x_exec(inst);
    let mut i: usize = 0;
    while i <= x
        invariant
            old(cpu)@.wf(),
            cpu@.wf(),
            x < 16,
            0 <= i <= x + 1,
            cpu@ == (CpuView {
                obs: ObsView {
                    registers: spec_load_upto(
                        old(cpu)@.obs.registers,
                        old(cpu)@.obs.memory,
                        old(cpu)@.obs.index,
                        i as int,
                    ),
                    ..old(cpu)@.obs
                },
                ..old(cpu)@
            }),
        decreases x + 1 - i,
    {
        let pos: usize = cpu.index.wrapping_add(i as u16) as usize;
        let b: u8 = cpu.memory[pos];
        cpu.registers.set(i, b);
        i = i + 1;
    }
}

pub(crate) fn inst_reg_dump_xy(cpu: &mut CPU, inst: u16)
    requires
        old(cpu)@.wf(),
    ensures
        final(cpu)@.wf(),
        final(cpu)@ == (CpuView { obs: spec_inst_reg_dump_xy(old(cpu)@.obs, inst), ..old(cpu)@ }),
{
    let x: usize = nib_x_exec(inst);
    let y: usize = nib_y_exec(inst);
    if x > y {
        return;
    }
    let count: usize = y - x + 1;
    let mut j: usize = 0;
    while j < count
        invariant
            old(cpu)@.wf(),
            cpu@.wf(),
            x < 16,
            y < 16,
            x <= y,
            count == y - x + 1,
            0 <= j <= count,
            cpu@ == (CpuView {
                obs: ObsView {
                    memory: spec_dump_xy_upto(
                        old(cpu)@.obs.memory,
                        old(cpu)@.obs.registers,
                        old(cpu)@.obs.index,
                        x as int,
                        j as int,
                    ),
                    ..old(cpu)@.obs
                },
                ..old(cpu)@
            }),
        decreases count - j,
    {
        let b: u8 = cpu.registers[x + j];
        let pos: usize = cpu.index.wrapping_add(j as u16) as usize;
        cpu.memory.set(pos, b);
        j = j + 1;
    }
}

pub(crate) fn inst_reg_load_xy(cpu: &mut CPU, inst: u16)
    requires
        old(cpu)@.wf(),
    ensures
        final(cpu)@.wf(),
        final(cpu)@ == (CpuView { obs: spec_inst_reg_load_xy(old(cpu)@.obs, inst), ..old(cpu)@ }),
{
    let x: usize = nib_x_exec(inst);
    let y: usize = nib_y_exec(inst);
    if x > y {
        return;
    }
    let count: usize = y - x + 1;
    let mut j: usize = 0;
    while j < count
        invariant
            old(cpu)@.wf(),
            cpu@.wf(),
            x < 16,
            y < 16,
            x <= y,
            count == y - x + 1,
            0 <= j <= count,
            cpu@ == (CpuView {
                obs: ObsView {
                    registers: spec_load_xy_upto(
                        old(cpu)@.obs.registers,
                        old(cpu)@.obs.memory,
                        old(cpu)@.obs.index,
                        x as int,
                        j as int,
                    ),
                    ..old(cpu)@.obs
                },
                ..old(cpu)@
            }),
        decreases count - j,
    {
        let pos: usize = cpu.index.wrapping_add(j as u16) as usize;
        let b: u8 = cpu.memory[pos];
        cpu.registers.set(x + j, b);
        j = j + 1;
    }
}

pub(crate) fn inst_persist_dump(cpu: &mut CPU, inst: u16)
    requires
        old(cpu)@.wf(),
    ensures
        final(cpu)@.wf(),
        final(cpu)@ == (CpuView { obs: spec_inst_persist_dump(old(cpu)@.obs, inst), ..old(cpu)@ }),
{
    let x: usize = nib_x_exec(inst);
    let mut i: usize = 0;
    while i <= x
        invariant
            old(cpu)@.wf(),
            cpu@.wf(),
            x < 16,
            0 <= i <= x + 1,
            cpu@ == (CpuView {
                obs: ObsView {
                    persistent: spec_persist_dump_upto(
                        old(cpu)@.obs.persistent,
                        old(cpu)@.obs.registers,
                        i as int,
                    ),
                    ..old(cpu)@.obs
                },
                ..old(cpu)@
            }),
        decreases x + 1 - i,
    {
        let b: u8 = cpu.registers[i];
        cpu.persistent_registers.set(i, b);
        i = i + 1;
    }
}

pub(crate) fn inst_persist_load(cpu: &mut CPU, inst: u16)
    requires
        old(cpu)@.wf(),
    ensures
        final(cpu)@.wf(),
        final(cpu)@ == (CpuView { obs: spec_inst_persist_load(old(cpu)@.obs, inst), ..old(cpu)@ }),
{
    let x: usize = nib_x_exec(inst);
    let mut i: usize = 0;
    while i <= x
        invariant
            old(cpu)@.wf(),
            cpu@.wf(),
            x < 16,
            0 <= i <= x + 1,
            cpu@ == (CpuView {
                obs: ObsView {
                    registers: spec_persist_dump_upto(
                        old(cpu)@.obs.registers,
                        old(cpu)@.obs.persistent,
                        i as int,
                    ),
                    ..old(cpu)@.obs
                },
                ..old(cpu)@
            }),
        decreases x + 1 - i,
    {
        let b: u8 = cpu.persistent_registers[i];
        cpu.registers.set(i, b);
        i = i + 1;
    }
}

/// Draws an N-row sprite at (VX mod w, VY mod h), toggling logical pixels
/// through the framebuffer's current resolution, and leaves the collision
/// flag in VF.
pub(crate) fn draw_sprite(cpu: &mut CPU, inst: u16, wrap: bool, w: u16, h: u16)
    requires
        old(cpu)@.wf(),
        (w == 64 && h == 32) || (w == 128 && h == 64),
    ensures
        final(cpu)@.wf(),
        final(cpu)@ == (CpuView {
            obs: spec_draw_generic(old(cpu)@.obs, inst, wrap, w as int, h as int),
            ..old(cpu)@
        }),
{
    let x: usize = nib_x_exec(inst);
    let y: usize = nib_y_exec(inst);
    let x0: u8 = cpu.registers[x] % (w as u8);
    let y0: u8 = cpu.registers[y] % (h as u8);
    let n: u8 = nib_n_exec(inst);
    let mut flag: bool = false;
    let mut i: u8 = 0;
    while i < n
        invariant
            old(cpu)@.wf(),
            cpu@.wf(),
            (w == 64 && h == 32) || (w == 128 && h == 64),
            x0 < w,
            y0 < h,
            x0 == old(cpu)@.obs.registers[nib_x(inst)] as int % (w as int),
            y0 == old(cpu)@.obs.registers[nib_y(inst)] as int % (h as int),
            n == nib_n(inst),
            n < 16,
            0 <= i <= n,
            cpu@ == (CpuView {
                obs: ObsView {
                    screen: spec_draw_rows_upto(
                        old(cpu)@.obs.screen,
                        old(cpu)@.obs.memory,
                        old(cpu)@.obs.index,
                        x0 as int,
                        y0 as int,
                        i as int,
                        wrap,
                        w as int,
                        h as int,
                    ).0,
                    ..old(cpu)@.obs
                },
                ..old(cpu)@
            }),
            flag == spec_draw_rows_upto(
                old(cpu)@.obs.screen,
                old(cpu)@.obs.memory,
                old(cpu)@.obs.index,
                x0 as int,
                y0 as int,
                i as int,
                wrap,
                w as int,
                h as int,
            ).1,
        decreases n - i,
    {
        let ghost row_start = cpu@.obs.screen;
        let ghost row_flag = flag;
        proof {
            lemma_draw_rows_shape(
                old(cpu)@.obs.screen,
                old(cpu)@.obs.memory,
                old(cpu)@.obs.index,
                x0 as int,
                y0 as int,
                i as int,
                wrap,
                w as int,
                h as int,
            );
        }
        let byte: u8 = cpu.memory[cpu.index.wrapping_add(i as u16) as usize];
        let mut b: u8 = 0;
        while b < 8
            invariant
                old(cpu)@.wf(),
                cpu@.wf(),
                (w == 64 && h == 32) || (w == 128 && h == 64),
                x0 < w,
                y0 < h,
                i < n,
                n < 16,
                0 <= b <= 8,
                row_start.wf(),
                byte == old(cpu)@.obs.memory[old(cpu)@.obs.index.wrapping_add(i as u16) as int],
                cpu@ == (CpuView {
                    obs: ObsView {
                        screen: spec_draw_row_upto(
                            row_start,
                            byte,
                            x0 as int,
                            y0 as int + i as int,
                            b as int,
                            wrap,
                            w as int,
                            h as int,
                        ).0,
                        ..old(cpu)@.obs
                    },
                    ..old(cpu)@
                }),
                flag == (row_flag || spec_draw_row_upto(
                    row_start,
                    byte,
                    x0 as int,
                    y0 as int + i as int,
                    b as int,
                    wrap,
                    w as int,
                    h as int,
                ).1),
            decreases 8 - b,
        {
            proof {
                lemma_draw_row_shape(
                    row_start,
                    byte,
                    x0 as int,
                    y0 as int + i as int,
                    b as int,
                    wrap,
                    w as int,
                    h as int,
                );
            }
            let set: bool = (byte >> (7 - b)) & 1 == 1;
            if set {
                let cx: u8 = x0 + b;
                let cy: u8 = y0 + i;
                let tx: u8 = if wrap {
                    cx % (w as u8)
                } else {
                    cx
                };
                let ty: u8 = if wrap {
                    cy % (h as u8)
                } else {
                    cy
                };
                let t: bool = cpu.screen.write_to_screen(tx, ty);
                flag = flag || t;
            }
            b = b + 1;
        }
        i = i + 1;
    }
    cpu.registers.set(15, if flag { 1 } else { 0 });
}

/// Dispatches one decoded operation; realises `spec_execute`.
pub(crate) fn execute(cpu: &mut CPU, op: Op, inst: u16) -> (r: Result<u32, Error>)
    requires
        old(cpu)@.wf(),
    ensures
        final(cpu)@.wf(),
        ({
            let ef = spec_execute(old(cpu)@.obs, op, inst);
            final(cpu)@ == (CpuView {
                obs: ef.obs,
                vblank_wait: old(cpu)@.vblank_wait || ef.set_vblank,
                ..old(cpu)@
            }) && res_view(r) == ef.res
        }),
{
    proof {
        reveal(crate::instruction::semantics::spec_execute);
    }
    match op {
        Op::Nop => {
            inst_nop(cpu, inst);
            Ok(0)
        },
        Op::ScrollDown => {
            inst_scroll_down(cpu, inst);
            Ok(0)
        },
        Op::ScrollUp => {
            inst_scroll_up(cpu, inst);
            Ok(0)
        },
        Op::Clear => {
            inst_clear(cpu, inst);
            Ok(0)
        },
        Op::Return => {
            inst_return(cpu, inst);
            Ok(0)
        },
        Op::ScrollRight => {
            inst_scroll_right(cpu, inst);
            Ok(0)
        },
        Op::ScrollLeft => {
            inst_scroll_left(cpu, inst);
            Ok(0)
        },
        Op::Exit => {
            inst_exit(cpu, inst);
            Ok(0)
        },
        Op::LowRes => {
            inst_low_res(cpu, inst);
            Ok(0)
        },
        Op::HighRes => {
            inst_high_res(cpu, inst);
            Ok(0)
        },
        Op::Goto => {
            inst_goto(cpu, inst);
            Ok(0)
        },
        Op::Call => {
            inst_call(cpu, inst);
            Ok(0)
        },
        Op::IfEqual => {
            inst_if_equal(cpu, inst);
            Ok(0)
        },
        Op::IfInequal => {
            inst_if_inequal(cpu, inst);
            Ok(0)
        },
        Op::IfEqualRegister => {
            inst_if_equal_register(cpu, inst);
            Ok(0)
        },
        Op::RegDumpXY => {
            inst_reg_dump_xy(cpu, inst);
            Ok(0)
        },
        Op::RegLoadXY => {
            inst_reg_load_xy(cpu, inst);
            Ok(0)
        },
        Op::SetRegister => {
            inst_set_register(cpu, inst);
            Ok(0)
        },
        Op::PluseqImmediate => {
            inst_pluseq_immediate(cpu, inst);
            Ok(0)
        },
        Op::MoveRegister => {
            inst_move_register(cpu, inst);
            Ok(0)
        },
        Op::OreqRegisterCosmac => {
            inst_oreq_register_cosmac(cpu, inst);
            Ok(0)
        },
        Op::OreqRegister => {
            inst_oreq_register(cpu, inst);
            Ok(0)
        },
        Op::AndeqRegisterCosmac => {
            inst_andeq_register_cosmac(cpu, inst);
            Ok(0)
        },
        Op::AndeqRegister => {
            inst_andeq_register(cpu, inst);
            Ok(0)
        },
        Op::XoreqRegisterCosmac => {
            inst_xoreq_register_cosmac(cpu, inst);
            Ok(0)
        },
        Op::XoreqRegister => {
            inst_xoreq_register(cpu, inst);
            Ok(0)
        },
        Op::PluseqRegister => {
            inst_pluseq_register(cpu, inst);
            Ok(0)
        },
        Op::MinuseqRegister => {
            inst_minuseq_register(cpu, inst);
            Ok(0)
        },
        Op::ShiftRight => {
            inst_shift_right(cpu, inst);
            Ok(0)
        },
        Op::ShiftRightSchip => {
            inst_shift_right_schip(cpu, inst);
            Ok(0)
        },
        Op::SubtractRegister => {
            inst_subtract_register(cpu, inst);
            Ok(0)
        },
        Op::ShiftLeft => {
            inst_shift_left(cpu, inst);
            Ok(0)
        },
        Op::ShiftLeftSchip => {
            inst_shift_left_schip(cpu, inst);
            Ok(0)
        },
        Op::IfInequalRegister => {
            inst_if_inequal_register(cpu, inst);
            Ok(0)
        },
        Op::SetIndex => {
            inst_set_index(cpu, inst);
            Ok(0)
        },
        Op::JumpV0 => {
            inst_jump_v0(cpu, inst);
            Ok(0)
        },
        Op::JumpV0Schip => {
            inst_jump_v0_schip(cpu, inst);
            Ok(0)
        },
        Op::Random => {
            inst_random(cpu, inst);
            Ok(0)
        },
        Op::DrawCosmac => {
            cpu.vblank_wait = true;
            draw_sprite(cpu, inst, false, 64, 32);
            Ok(0)
        },
        Op::DrawSchip => {
            if cpu.screen.high_res {
                draw_sprite(cpu, inst, false, 128, 64);
            } else {
                draw_sprite(cpu, inst, false, 64, 32);
            }
            Ok(0)
        },
        Op::DrawXochip => {
            if cpu.screen.high_res {
                draw_sprite(cpu, inst, true, 128, 64);
            } else {
                draw_sprite(cpu, inst, true, 64, 32);
            }
            Ok(0)
        },
        Op::KeyEqual => {
            inst_key_equal(cpu, inst);
            Ok(0)
        },
        Op::KeyInequal => {
            inst_key_inequal(cpu, inst);
            Ok(0)
        },
        Op::SetLongIndex => {
            if cpu.pc as usize >= CHIP8_MEM_SIZE - 1 {
                Err(Error::OutOfBounds)
            } else {
                match cpu.read_memory_word(cpu.pc) {
                    Ok(word) => {
                        cpu.index = word;
                        cpu.pc = cpu.pc.wrapping_add(2);
                        Ok(0)
                    },
                    Err(e) => Err(e),
                }
            }
        },
        Op::SetBitplane => {
            inst_set_bitplane(cpu, inst);
            Ok(0)
        },
        Op::SetAudioBuffer => {
            if cpu.index as usize + 16 > CHIP8_MEM_SIZE {
                Err(Error::OutOfBounds)
            } else {
                let mut bytes: Vec<u8> = Vec::new();
                let mut k: usize = 0;
                while k < 16
                    invariant
                        cpu@.wf(),
                        cpu@ == old(cpu)@,
                        cpu@.obs.index as int + 16 <= CHIP8_MEM_SIZE,
                        0 <= k <= 16,
                        bytes@.len() == k,
                        forall|j: int|
                            0 <= j < k ==> bytes@[j] == cpu@.obs.memory[cpu@.obs.index + j],
                    decreases 16 - k,
                {
                    let b: u8 = cpu.memory[cpu.index as usize + k];
                    bytes.push(b);
                    k = k + 1;
                }
                proof {
                    assert(bytes@ =~= old(cpu)@.obs.memory.subrange(
                        old(cpu)@.obs.index as int,
                        old(cpu)@.obs.index as int + 16,
                    ));
                    assert(bytes@.subrange(0, 16) =~= bytes@);
                }
                cpu.audio.write_pattern(&bytes);
                Ok(0)
            }
        },
        Op::GetDelay => {
            inst_get_delay(cpu, inst);
            Ok(0)
        },
        Op::GetKey => {
            inst_get_key(cpu, inst);
            Ok(0)
        },
        Op::SetDelay => {
            inst_set_delay(cpu, inst);
            Ok(0)
        },
        Op::SetSound => {
            inst_set_sound(cpu, inst);
            Ok(0)
        },
        Op::AddToIndex => {
            inst_add_to_index(cpu, inst);
            Ok(0)
        },
        Op::SpriteAddrIndex => {
            inst_sprite_addr_index(cpu, inst);
            Ok(0)
        },
        Op::BigSpriteAddrIndex => {
            inst_big_sprite_addr_index(cpu, inst);
            Ok(0)
        },
        Op::Bcd => {
            inst_bcd(cpu, inst);
            Ok(0)
        },
        Op::SetAudioPitch => {
            inst_set_audio_pitch(cpu, inst);
            Ok(0)
        },
        Op::RegDump => {
            inst_reg_dump(cpu, inst);
            Ok(0)
        },
        Op::RegDumpSchip => {
            inst_reg_dump_schip(cpu, inst);
            Ok(0)
        },
        Op::RegLoad => {
            inst_reg_load(cpu, inst);
            Ok(0)
        },
        Op::RegLoadSchip => {
            inst_reg_load_schip(cpu, inst);
            Ok(0)
        },
        Op::PersistDump => {
            inst_persist_dump(cpu, inst);
            Ok(0)
        },
        Op::PersistLoad => {
            inst_persist_load(cpu, inst);
            Ok(0)
        },
    }
}

} // verus!
