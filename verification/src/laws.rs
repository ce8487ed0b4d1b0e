//! Laws of the interpreter: properties that hold of every state, proved
//! from the spec functions the executable code is verified against.

use vstd::prelude::*;

use crate::common::Chip8Mode;
use crate::cpu::CpuView;
use crate::cpu::ObsView;
use crate::cpu::spec_loaded;
use crate::cpu::spec_refreshed_seed;
use crate::cpu::spec_saved_of;
use crate::cpu::spec_emulate;
use crate::display::DisplayView;
use crate::display::SCREEN_HEIGHT;
use crate::display::SCREEN_WIDTH;
use crate::display::pix;
use crate::display::shift_plane;
use crate::display::spec_write_pixel;
use crate::display::spec_write_screen_low;
use crate::instruction::semantics::nib_n;
use crate::instruction::semantics::nib_x;
use crate::instruction::semantics::nib_y;
use crate::instruction::semantics::spec_draw_bit;
use crate::instruction::semantics::spec_draw_rows_upto;
use crate::instruction::semantics::spec_inst_draw;
use crate::instruction::semantics::spec_inst_jump_v0;
use crate::instruction::semantics::spec_inst_jump_v0_schip;
use crate::instruction::semantics::spec_inst_minuseq_register;
use crate::instruction::semantics::spec_inst_pluseq_immediate;
use crate::instruction::semantics::spec_inst_pluseq_register;
use crate::instruction::semantics::spec_inst_reg_dump;
use crate::instruction::semantics::spec_inst_reg_dump_schip;
use crate::instruction::semantics::spec_inst_reg_load;
use crate::instruction::semantics::spec_inst_reg_load_schip;
use crate::instruction::semantics::spec_inst_set_register;
use crate::instruction::semantics::spec_inst_shift_left;
use crate::instruction::semantics::spec_inst_shift_left_schip;
use crate::instruction::semantics::spec_inst_shift_right;
use crate::instruction::semantics::spec_inst_shift_right_schip;
use crate::instruction::semantics::spec_inst_subtract_register;
use crate::instruction::semantics::spec_step;
use crate::instruction::semantics::draw_width;
use crate::instruction::semantics::draw_height;

verus! {

/// Snapshot round-trip: restoring the snapshot a save produced, onto the
/// interpreter the save left behind, reproduces that interpreter's whole
/// observable state — only the pending-time accumulators and the VBlank
/// gate are reset, exactly as restoring promises.  Together with
/// `lemma_step_deterministic`, every later step of the restored
/// interpreter agrees with the original's.
pub proof fn lemma_save_load_round_trip(v: CpuView)
    requires
        v.wf(),
        !v.obs.exited,
    ensures
        ({
            let seed = spec_refreshed_seed(v.obs.prng);
            let after_save = CpuView { obs: ObsView { prng: seed, ..v.obs }, ..v };
            let restored = spec_loaded(after_save, spec_saved_of(v.obs, seed));
            restored.obs == after_save.obs && restored.vblank_wait == false
                && restored.cycle_budget == 0 && restored.timer_acc == 0
        }),
{
}

/// Replay determinism, per step: the outcome of a step is a function of
/// the observable state alone — two interpreters that agree on it agree on
/// the next state, the VBlank signal and the result.  The driver's
/// `step` is proved to realise `spec_step`, so equal interpreters fed
/// equal inputs stay equal.
pub proof fn lemma_step_deterministic(a: ObsView, b: ObsView)
    requires
        a == b,
    ensures
        spec_step(a) == spec_step(b),
{
}

/// Replay determinism, per driver call: a whole `emulate_for` or
/// `emulate_breakpoints` call is a function of the starting state, the
/// time slice and the breakpoint set.
pub proof fn lemma_emulate_deterministic(
    a: CpuView,
    b: CpuView,
    dt: u64,
    bps: Seq<u16>,
    use_bps: bool,
)
    requires
        a == b,
    ensures
        spec_emulate(a, dt, bps, use_bps) == spec_emulate(b, dt, bps, use_bps),
{
}

/// Register idempotence: setting VX to NN makes reading VX yield NN, for
/// every X and NN, and touches no other register.
pub proof fn lemma_register_idempotent(o: ObsView, inst: u16)
    requires
        o.wf(),
    ensures
        spec_inst_set_register(o, inst).registers[nib_x(inst)] == (inst & 0xFF) as u8,
        forall|j: int|
            0 <= j < 16 && j != nib_x(inst) ==> spec_inst_set_register(o, inst).registers[j]
                == o.registers[j],
{
    assert(0 <= nib_x(inst) < 16) by (bit_vector);
}

/// Scroll reversibility: scrolling a plane by some displacement and then
/// by the opposite one restores every cell whose displaced position stayed
/// on the grid; only cells vacated by the first scroll (and cleared) are
/// beyond recovery.
pub proof fn lemma_shift_plane_reversible(b: Seq<bool>, dx: int, dy: int, x: int, y: int)
    requires
        b.len() == SCREEN_WIDTH * SCREEN_HEIGHT,
        0 <= x < SCREEN_WIDTH,
        0 <= y < SCREEN_HEIGHT,
        0 <= x + dx < SCREEN_WIDTH,
        0 <= y + dy < SCREEN_HEIGHT,
    ensures
        shift_plane(shift_plane(b, dx, dy), -dx, -dy)[pix(x, y)] == b[pix(x, y)],
{
    let w = SCREEN_WIDTH as int;
    let p = pix(x, y);
    vstd::arithmetic::div_mod::lemma_fundamental_div_mod_converse(p, w, y, x);
    let q = pix(x + dx, y + dy);
    vstd::arithmetic::div_mod::lemma_fundamental_div_mod_converse(q, w, y + dy, x + dx);
    assert(shift_plane(b, dx, dy)[q] == b[p]);
    assert(shift_plane(shift_plane(b, dx, dy), -dx, -dy)[p] == shift_plane(b, dx, dy)[q]);
}

/// Scroll reversibility at the framebuffer: scrolling by some amounts and
/// then by the opposite ones restores every cell of both planes whose
/// displaced position stayed on the grid; cells the first scroll pushed
/// off (and the cells it cleared) are beyond recovery.
pub proof fn lemma_scroll_round_trip(d: DisplayView, sx: i8, sy: i8, x: int, y: int)
    requires
        d.wf(),
        -127 <= sx <= 127,
        -127 <= sy <= 127,
        0 <= x < SCREEN_WIDTH,
        0 <= y < SCREEN_HEIGHT,
        0 <= x + crate::display::scroll_dx(sx) < SCREEN_WIDTH,
        0 <= y + crate::display::scroll_dy(sy) < SCREEN_HEIGHT,
    ensures
        ({
            let back = crate::display::spec_scroll(
                crate::display::spec_scroll(d, sx, sy),
                (-sx) as i8,
                (-sy) as i8,
            );
            back.buffer[pix(x, y)] == d.buffer[pix(x, y)] && back.secondary[pix(x, y)]
                == d.secondary[pix(x, y)]
        }),
{
    let dx = crate::display::scroll_dx(sx);
    let dy = crate::display::scroll_dy(sy);
    assert(crate::display::scroll_dx((-sx) as i8) == -dx);
    assert(crate::display::scroll_dy((-sy) as i8) == -dy);
    lemma_shift_plane_reversible(d.buffer, dx, dy, x, y);
    lemma_shift_plane_reversible(d.secondary, dx, dy, x, y);
}

/// Collision flag: after a draw, VF is 0 or 1, and it is 1 exactly when
/// some sprite bit toggled a lit pixel off.
pub proof fn lemma_draw_collision_flag(o: ObsView, inst: u16, variant: Chip8Mode)
    requires
        o.wf(),
    ensures
        ({
            let o2 = spec_inst_draw(o, inst, variant);
            let toggled = spec_draw_rows_upto(
                o.screen,
                o.memory,
                o.index,
                o.registers[nib_x(inst)] as int % draw_width(o, variant),
                o.registers[nib_y(inst)] as int % draw_height(o, variant),
                nib_n(inst),
                variant is XoChip,
                draw_width(o, variant),
                draw_height(o, variant),
            ).1;
            (o2.registers[15] == 0 || o2.registers[15] == 1) && (o2.registers[15] == 1
                <==> toggled)
        }),
{
    assert(0 <= nib_x(inst) < 16) by (bit_vector);
}

/// 7XNN wraps at 256 and never touches the flag register (unless VF is the
/// destination itself).
pub proof fn lemma_pluseq_immediate_no_flag(o: ObsView, inst: u16)
    requires
        o.wf(),
    ensures
        spec_inst_pluseq_immediate(o, inst).registers[nib_x(inst)] == o.registers[nib_x(
            inst,
        )].wrapping_add((inst & 0xFF) as u8),
        nib_x(inst) != 15 ==> spec_inst_pluseq_immediate(o, inst).registers[15] == o.registers[15],
{
    assert(0 <= nib_x(inst) < 16) by (bit_vector);
}

/// 8XY4, 8XY5 and 8XY7 write the flag after the result, so when VF is the
/// destination the flag wins.
pub proof fn lemma_arith_flag_wins_aliasing(o: ObsView, inst: u16)
    requires
        o.wf(),
    ensures
        ({
            let a = o.registers[nib_x(inst)];
            let b = o.registers[nib_y(inst)];
            &&& spec_inst_pluseq_register(o, inst).registers[15] == (if a + b > 255 {
                1u8
            } else {
                0u8
            })
            &&& spec_inst_minuseq_register(o, inst).registers[15] == (if a >= b {
                1u8
            } else {
                0u8
            })
            &&& spec_inst_subtract_register(o, inst).registers[15] == (if b >= a {
                1u8
            } else {
                0u8
            })
        }),
{
    assert(0 <= nib_x(inst) < 16) by (bit_vector);
}

/// 8XY6 and 8XYE take their source from VY in the original and XO-CHIP
/// dialects but from VX in the Super-CHIP dialect; VF takes the shifted-out
/// bit of the source either way.
pub proof fn lemma_shift_source_by_mode(o: ObsView, inst: u16)
    requires
        o.wf(),
        nib_x(inst) != 15,
    ensures
        spec_inst_shift_right(o, inst).registers[nib_x(inst)] == o.registers[nib_y(inst)] >> 1,
        spec_inst_shift_right_schip(o, inst).registers[nib_x(inst)] == o.registers[nib_x(inst)]
            >> 1,
        spec_inst_shift_right(o, inst).registers[15] == o.registers[nib_y(inst)] & 1,
        spec_inst_shift_right_schip(o, inst).registers[15] == o.registers[nib_x(inst)] & 1,
        spec_inst_shift_left(o, inst).registers[nib_x(inst)] == (o.registers[nib_y(inst)]
            << 1) as u8,
        spec_inst_shift_left_schip(o, inst).registers[nib_x(inst)] == (o.registers[nib_x(inst)]
            << 1) as u8,
        spec_inst_shift_left(o, inst).registers[15] == o.registers[nib_y(inst)] >> 7,
        spec_inst_shift_left_schip(o, inst).registers[15] == o.registers[nib_x(inst)] >> 7,
{
    assert(0 <= nib_x(inst) < 16) by (bit_vector);
    assert(0 <= nib_y(inst) < 16) by (bit_vector);
}

/// FX55 and FX65 advance I by X+1 (within the low 12 bits) in the original
/// and XO-CHIP dialects; the Super-CHIP dialect leaves I unchanged.
pub proof fn lemma_reg_dump_load_index_by_mode(o: ObsView, inst: u16)
    requires
        o.wf(),
    ensures
        spec_inst_reg_dump(o, inst).index == ((o.index + nib_x(inst) + 1) % 0x1000) as u16,
        spec_inst_reg_load(o, inst).index == ((o.index + nib_x(inst) + 1) % 0x1000) as u16,
        spec_inst_reg_dump_schip(o, inst).index == o.index,
        spec_inst_reg_load_schip(o, inst).index == o.index,
        spec_inst_reg_dump(o, inst).memory == spec_inst_reg_dump_schip(o, inst).memory,
        spec_inst_reg_load(o, inst).registers == spec_inst_reg_load_schip(o, inst).registers,
{
}

/// BNNN jumps to NNN plus V0 in the original and XO-CHIP dialects, but
/// plus VX in the Super-CHIP dialect.
pub proof fn lemma_jump_offset_by_mode(o: ObsView, inst: u16)
    requires
        o.wf(),
    ensures
        spec_inst_jump_v0(o, inst).pc == ((inst & 0xFFF) + o.registers[0]) as u16,
        spec_inst_jump_v0_schip(o, inst).pc == ((inst & 0xFFF) + o.registers[nib_x(inst)]) as u16,
{
    assert(0 <= nib_x(inst) < 16) by (bit_vector);
}

/// A low-resolution logical pixel on a high-resolution grid is a 2x2
/// block: toggling (x, y) with only the primary plane targeted toggles the
/// four cells at the doubled coordinates and nothing else.
pub proof fn lemma_lowres_draws_blocks(d: DisplayView, x: int, y: int)
    requires
        d.wf(),
        !d.high_res,
        d.write_mask == 1,
        0 <= x < SCREEN_WIDTH / 2,
        0 <= y < SCREEN_HEIGHT / 2,
    ensures
        ({
            let d2 = spec_write_screen_low(d, x, y);
            &&& d2.buffer[pix(2 * x, 2 * y)] == !d.buffer[pix(2 * x, 2 * y)]
            &&& d2.buffer[pix(2 * x + 1, 2 * y)] == !d.buffer[pix(2 * x + 1, 2 * y)]
            &&& d2.buffer[pix(2 * x, 2 * y + 1)] == !d.buffer[pix(2 * x, 2 * y + 1)]
            &&& d2.buffer[pix(2 * x + 1, 2 * y + 1)] == !d.buffer[pix(2 * x + 1, 2 * y + 1)]
            &&& forall|p: int|
                0 <= p < SCREEN_WIDTH * SCREEN_HEIGHT && p != pix(2 * x, 2 * y) && p != pix(
                    2 * x + 1,
                    2 * y,
                ) && p != pix(2 * x, 2 * y + 1) && p != pix(2 * x + 1, 2 * y + 1)
                    ==> d2.buffer[p] == d.buffer[p]
            &&& d2.secondary == d.secondary
        }),
{
    let p1 = pix(2 * x, 2 * y);
    let p2 = pix(2 * x + 1, 2 * y);
    let p3 = pix(2 * x, 2 * y + 1);
    let p4 = pix(2 * x + 1, 2 * y + 1);
    let d1 = spec_write_pixel(d, 2 * x, 2 * y);
    let d2 = spec_write_pixel(d1, 2 * x + 1, 2 * y);
    let d3 = spec_write_pixel(d2, 2 * x, 2 * y + 1);
    let d4 = spec_write_pixel(d3, 2 * x + 1, 2 * y + 1);
    assert(p1 != p2 && p1 != p3 && p1 != p4 && p2 != p3 && p2 != p4 && p3 != p4);
    let m = d.write_mask;
    assert(m & 1 == 1 && m & 2 == 0) by (bit_vector)
        requires
            m == 1,
    ;
    assert(d1.buffer == d.buffer.update(p1, !d.buffer[p1]));
    assert(d2.buffer == d1.buffer.update(p2, !d1.buffer[p2]));
    assert(d3.buffer == d2.buffer.update(p3, !d2.buffer[p3]));
    assert(d4.buffer == d3.buffer.update(p4, !d3.buffer[p4]));
    assert(spec_write_screen_low(d, x, y) == d4);
    assert(d4.buffer[p1] == !d.buffer[p1]);
    assert(d4.buffer[p2] == !d.buffer[p2]);
    assert(d4.buffer[p3] == !d.buffer[p3]);
    assert(d4.buffer[p4] == !d.buffer[p4]);
    assert forall|p: int|
        0 <= p < SCREEN_WIDTH * SCREEN_HEIGHT && p != p1 && p != p2 && p != p3 && p != p4
            implies d4.buffer[p] == d.buffer[p] by {}
}

/// In the XO-CHIP dialect a sprite bit wraps inside the logical
/// dimensions: the toggled coordinates are the originals reduced modulo
/// width and height, and therefore always land on the grid.
pub proof fn lemma_xochip_draw_wraps(
    d: DisplayView,
    x: int,
    y: int,
    w: int,
    h: int,
)
    requires
        d.wf(),
        (w == 64 && h == 32) || (w == 128 && h == 64),
        0 <= x,
        0 <= y,
    ensures
        0 <= x % w < SCREEN_WIDTH,
        0 <= y % h < SCREEN_HEIGHT,
        spec_draw_bit(d, true, x, y, true, w, h) == spec_draw_bit(d, true, x % w, y % h, true, w, h),
{
    vstd::arithmetic::div_mod::lemma_mod_twice(x, w);
    vstd::arithmetic::div_mod::lemma_mod_twice(y, h);
    vstd::arithmetic::div_mod::lemma_mod_division_less_than_divisor(x, w);
    vstd::arithmetic::div_mod::lemma_mod_division_less_than_divisor(y, h);
    assert((x % w) % w == x % w);
    assert((y % h) % h == y % h);
}

} // verus!
