//! The debugger layer: breakpoints, pause state and single-stepping on top
//! of the interpreter.  Command-line parsing and output formatting belong
//! to the host shell; this module owns the state the commands act on.

use vstd::prelude::*;

use crate::common::Chip8Mode;
use crate::common::Error;
use crate::cpu::CPU;
use crate::cpu::spec_emulate;
use crate::cpu::spec_fresh_obs;

verus! {

/// A paused-by-default interpreter with a breakpoint list.
#[derive(Debug)]
pub struct Chip8Debugger {
    /// The interpreter under inspection.
    pub cpu: CPU,
    /// Breakpoint addresses, each held at most once.
    pub breaks: Vec<u16>,
    /// While paused, `emulate_until_breakpoints` does nothing.
    pub paused: bool,
    /// Whether a ROM has been loaded since the last reboot.
    pub has_rom: bool,
}

impl Chip8Debugger {
    /// A fresh, paused debugger with no ROM and no breakpoints.
    pub fn new(mode: Chip8Mode) -> (r: Chip8Debugger)
        ensures
            r.cpu@.wf(),
            spec_fresh_obs(r.cpu@.obs, mode),
            r.breaks@ == Seq::<u16>::empty(),
            r.paused == true,
            r.has_rom == false,
    {
        Chip8Debugger { cpu: CPU::new(mode), breaks: Vec::new(), paused: true, has_rom: false }
    }

    /// Loads a ROM into the interpreter and marks one present: the
    /// interpreter is re-initialized exactly as `CPU::load_rom` promises
    /// (PC 0x200, registers, stack, timers, screen, keypad and audio
    /// cleared; the PRNG state and the persistent registers kept; the
    /// dialect promoted for an image beyond 4 KiB).
    pub fn load_rom(&mut self, contents: &[u8]) -> (r: Result<(), Error>)
        requires
            old(self).cpu@.wf(),
        ensures
            final(self).cpu@.wf(),
            final(self).breaks == old(self).breaks,
            final(self).paused == old(self).paused,
            contents@.len() > crate::cpu::CHIP8_MEM_SIZE - 0x200 ==> r == Err::<(), Error>(
                Error::InvalidFile,
            ) && final(self).has_rom == old(self).has_rom && final(self).cpu@ == old(self).cpu@,
            contents@.len() <= crate::cpu::CHIP8_MEM_SIZE - 0x200 ==> r is Ok
                && final(self).has_rom == true && spec_fresh_obs(
                (crate::cpu::ObsView {
                    memory: crate::cpu::spec_initial_memory(),
                    mode: final(self).cpu@.obs.mode,
                    prng: old(self).cpu@.obs.prng,
                    persistent: Seq::new(16, |i: int| 0u8),
                    ..final(self).cpu@.obs
                }),
                if contents@.len() > 0x1000 && old(self).cpu@.obs.mode != Chip8Mode::XoChip {
                    Chip8Mode::XoChip
                } else {
                    old(self).cpu@.obs.mode
                },
            ) && final(self).cpu@.obs.memory == crate::cpu::spec_rom_memory(contents@)
                && final(self).cpu@.obs.prng == old(self).cpu@.obs.prng
                && final(self).cpu@.obs.persistent == old(self).cpu@.obs.persistent
                && final(self).cpu@.vblank_wait == false && final(self).cpu@.cycle_budget == 0
                && final(self).cpu@.timer_acc == 0,
    {
        match self.cpu.load_rom(contents) {
            Ok(()) => {
                self.has_rom = true;
                Ok(())
            },
            Err(e) => Err(e),
        }
    }

    /// Performs one instruction; refuses with `NoRomLoaded` when no ROM is
    /// loaded.
    pub fn step(&mut self) -> (r: Result<u32, Error>)
        requires
            old(self).cpu@.wf(),
        ensures
            final(self).cpu@.wf(),
            final(self).breaks == old(self).breaks,
            final(self).paused == old(self).paused,
            final(self).has_rom == old(self).has_rom,
            !old(self).has_rom ==> r == Err::<u32, Error>(Error::NoRomLoaded) && final(self).cpu@
                == old(self).cpu@,
            old(self).has_rom ==> ({
                let st = crate::instruction::semantics::spec_step(old(self).cpu@.obs);
                final(self).cpu@ == (crate::cpu::CpuView {
                    obs: st.obs,
                    vblank_wait: old(self).cpu@.vblank_wait || st.set_vblank,
                    ..old(self).cpu@
                }) && crate::common::res_view(r) == st.res
            }),
    {
        if !self.has_rom {
            return Err(Error::NoRomLoaded);
        }
        self.cpu.step()
    }

    /// Arms a breakpoint; already-armed addresses are kept once.
    pub fn add_breakpoint(&mut self, addr: u16)
        ensures
            final(self).cpu == old(self).cpu,
            final(self).paused == old(self).paused,
            final(self).has_rom == old(self).has_rom,
            final(self).breaks@.contains(addr),
            forall|a: u16| #[trigger]
                final(self).breaks@.contains(a) <==> (old(self).breaks@.contains(a) || a == addr),
    {
        if !vec_has(&self.breaks, addr) {
            self.breaks.push(addr);
            proof {
                assert(self.breaks@.last() == addr);
                assert(self.breaks@.contains(addr));
                assert forall|a: u16| #[trigger]
                    self.breaks@.contains(a) implies (old(self).breaks@.contains(a) || a == addr) by {
                    let i = choose|i: int| 0 <= i < self.breaks@.len() && self.breaks@[i] == a;
                    if i < old(self).breaks@.len() {
                        assert(old(self).breaks@[i] == a);
                    }
                }
                assert forall|a: u16|
                    (old(self).breaks@.contains(a) || a == addr) implies #[trigger] self.breaks@.contains(
                    a,
                ) by {
                    if old(self).breaks@.contains(a) {
                        let i = choose|i: int|
                            0 <= i < old(self).breaks@.len() && old(self).breaks@[i] == a;
                        assert(self.breaks@[i] == a);
                    }
                }
            }
        }
    }

    /// Disarms a breakpoint; reports whether it was armed.
    pub fn remove_breakpoint(&mut self, addr: u16) -> (r: bool)
        ensures
            final(self).cpu == old(self).cpu,
            final(self).paused == old(self).paused,
            final(self).has_rom == old(self).has_rom,
            r == old(self).breaks@.contains(addr),
            forall|j: int|
                0 <= j < final(self).breaks@.len() ==> #[trigger] final(self).breaks@[j] != addr
                    && old(self).breaks@.contains(final(self).breaks@[j]),
            forall|a: u16|
                a != addr ==> (#[trigger] final(self).breaks@.contains(a) <==> old(
                    self,
                ).breaks@.contains(a)),
    {
        let mut kept: Vec<u16> = Vec::new();
        let mut found: bool = false;
        let mut i: usize = 0;
        while i < self.breaks.len()
            invariant
                0 <= i <= self.breaks@.len(),
                self.breaks == old(self).breaks,
                found == exists|j: int| 0 <= j < i && old(self).breaks@[j] == addr,
                forall|j: int|
                    0 <= j < kept@.len() ==> #[trigger] kept@[j] != addr && old(
                        self,
                    ).breaks@.contains(kept@[j]),
                forall|j: int|
                    0 <= j < i && old(self).breaks@[j] != addr ==> kept@.contains(
                        #[trigger] old(self).breaks@[j],
                    ),
            decreases self.breaks@.len() - i,
        {
            let b: u16 = self.breaks[i];
            let ghost kept0 = kept@;
            if b == addr {
                found = true;
            } else {
                kept.push(b);
                proof {
                    assert(old(self).breaks@[i as int] == b);
                    assert(kept@.last() == b);
                    assert(kept@.contains(b));
                    assert forall|j: int|
                        0 <= j < i && old(self).breaks@[j] != addr implies kept@.contains(
                        #[trigger] old(self).breaks@[j],
                    ) by {
                        let k = choose|k: int|
                            0 <= k < kept0.len() && kept0[k] == old(self).breaks@[j];
                        assert(kept@[k] == old(self).breaks@[j]);
                    }
                }
            }
            i = i + 1;
        }
        proof {
            if old(self).breaks@.contains(addr) {
                let j = choose|j: int|
                    0 <= j < old(self).breaks@.len() && old(self).breaks@[j] == addr;
                assert(found);
            }
            assert forall|a: u16|
                a != addr && old(self).breaks@.contains(a) implies kept@.contains(a) by {
                let j = choose|j: int|
                    0 <= j < old(self).breaks@.len() && old(self).breaks@[j] == a;
            }
        }
        self.breaks = kept;
        found
    }

    /// The armed breakpoints.
    pub fn breakpoints(&self) -> (r: &Vec<u16>)
        ensures
            r == &self.breaks,
    {
        &self.breaks
    }

    /// Pauses execution.
    pub fn pause(&mut self)
        ensures
            final(self).cpu == old(self).cpu,
            final(self).breaks == old(self).breaks,
            final(self).has_rom == old(self).has_rom,
            final(self).paused == true,
    {
        self.paused = true;
    }

    /// Starts or continues execution.
    pub fn resume(&mut self)
        ensures
            final(self).cpu == old(self).cpu,
            final(self).breaks == old(self).breaks,
            final(self).has_rom == old(self).has_rom,
            final(self).paused == false,
    {
        self.paused = false;
    }

    /// Shuts the interpreter down and restarts it in the given dialect,
    /// unloading the ROM.
    pub fn reboot_with_mode(&mut self, mode: Chip8Mode)
        ensures
            final(self).cpu@.wf(),
            spec_fresh_obs(final(self).cpu@.obs, mode),
            final(self).breaks == old(self).breaks,
            final(self).paused == true,
            final(self).has_rom == false,
    {
        self.cpu = CPU::new(mode);
        self.has_rom = false;
        self.paused = true;
    }

    /// Shuts the interpreter down and reboots it in its current dialect.
    pub fn reboot(&mut self)
        requires
            old(self).cpu@.wf(),
        ensures
            final(self).cpu@.wf(),
            spec_fresh_obs(final(self).cpu@.obs, old(self).cpu@.obs.mode),
            final(self).breaks == old(self).breaks,
            final(self).paused == true,
            final(self).has_rom == false,
    {
        let mode: Chip8Mode = self.cpu.mode;
        self.reboot_with_mode(mode);
    }

    /// Presses and releases a key in one motion.  The release edge
    /// satisfies an engaged await-key latch: the key lands in the latched
    /// register and the latch clears.
    pub fn receive_key(&mut self, key: u8)
        requires
            old(self).cpu@.wf(),
            key <= 0xF,
        ensures
            final(self).cpu@.wf(),
            final(self).breaks == old(self).breaks,
            final(self).paused == old(self).paused,
            final(self).has_rom == old(self).has_rom,
            old(self).cpu@.obs.awaiting_key is None ==> final(self).cpu@ == (crate::cpu::CpuView {
                obs: crate::cpu::ObsView {
                    input: old(self).cpu@.obs.input.update(key as int, false),
                    ..old(self).cpu@.obs
                },
                ..old(self).cpu@
            }),
            old(self).cpu@.obs.awaiting_key matches Some(reg) ==> final(self).cpu@ == (
            crate::cpu::CpuView {
                obs: crate::cpu::ObsView {
                    input: old(self).cpu@.obs.input.update(key as int, false),
                    registers: old(self).cpu@.obs.registers.update(reg.spec_index(), key),
                    awaiting_key: None,
                    ..old(self).cpu@.obs
                },
                ..old(self).cpu@
            }),
    {
        self.cpu.press_key(key);
        self.cpu.release_key(key);
        proof {
            assert(self.cpu@.obs.input =~= old(self).cpu@.obs.input.update(key as int, false));
        }
    }

    /// Steps until the next instruction is the return instruction of the
    /// current routine — calls entered on the way are stepped through to
    /// their own returns — or until `max_steps` instructions have run
    /// (`Ok(None)`).  On success the cycles consumed are returned and the
    /// instruction at PC is the return itself, not yet executed.  Refuses
    /// with `NoRomLoaded` when no ROM is loaded.
    pub fn run_to_return(&mut self, max_steps: u32) -> (r: Result<Option<u32>, Error>)
        requires
            old(self).cpu@.wf(),
        ensures
            final(self).cpu@.wf(),
            final(self).breaks == old(self).breaks,
            final(self).paused == old(self).paused,
            final(self).has_rom == old(self).has_rom,
            !old(self).has_rom ==> r == Err::<Option<u32>, Error>(Error::NoRomLoaded)
                && final(self).cpu@ == old(self).cpu@,
            old(self).has_rom ==> final(self).cpu@.cycle_budget == old(self).cpu@.cycle_budget
                && final(self).cpu@.timer_acc == old(self).cpu@.timer_acc,
            r matches Ok(c) ==> c is Some ==> final(self).cpu@.obs.pc
                < crate::cpu::CHIP8_MEM_SIZE - 1 && crate::cpu::spec_word_at(
                final(self).cpu@.obs.memory,
                final(self).cpu@.obs.pc as int,
            ) == 0x00EE,
            old(self).has_rom ==> exists|n: nat, mid: crate::cpu::ObsView|
                #[trigger] crate::instruction::semantics::spec_steps_to(
                    old(self).cpu@.obs,
                    mid,
                    n,
                ) && n <= max_steps && (final(self).cpu@.obs == mid || final(self).cpu@.obs
                    == crate::instruction::semantics::spec_step(mid).obs),
    {
        if !self.has_rom {
            return Err(Error::NoRomLoaded);
        }
        let ghost start = self.cpu@.obs;
        let ghost mut steps: nat = 0;
        proof {
            assert(crate::instruction::semantics::spec_steps_to(start, start, 0nat));
        }
        let mut nested: u32 = 0;
        let mut cycles_total: u32 = 0;
        let mut i: u32 = 0;
        while i < max_steps
            invariant
                self.cpu@.wf(),
                start == old(self).cpu@.obs,
                old(self).has_rom,
                self.breaks == old(self).breaks,
                self.paused == old(self).paused,
                self.has_rom == old(self).has_rom,
                self.cpu@.cycle_budget == old(self).cpu@.cycle_budget,
                self.cpu@.timer_acc == old(self).cpu@.timer_acc,
                0 <= i <= max_steps,
                steps <= i,
                nested <= i,
                cycles_total <= i,
                crate::instruction::semantics::spec_steps_to(start, self.cpu@.obs, steps),
            decreases max_steps - i,
        {
            let word: u16 = match self.cpu.read_memory_word(self.cpu.pc) {
                Ok(w) => w,
                Err(e) => {
                    return Err(e);
                },
            };
            if word == 0x00EE {
                if nested == 0 {
                    return Ok(Some(cycles_total));
                }
                nested = nested - 1;
            } else if (word & 0xF000) == 0x2000 {
                nested = nested + 1;
            }
            proof {
                crate::instruction::semantics::lemma_step_cycles(self.cpu@.obs);
            }
            let ghost before = self.cpu@.obs;
            let c: u32 = match self.cpu.step() {
                Ok(c) => c,
                Err(e) => {
                    return Err(e);
                },
            };
            proof {
                crate::instruction::semantics::lemma_steps_to_snoc(start, before, steps);
                steps = steps + 1;
            }
            cycles_total = cycles_total + c;
            i = i + 1;
        }
        Ok(None)
    }

    /// Runs the interpreter for a slice of emulated time, stopping at any
    /// armed breakpoint; a stop pauses the debugger.  Does nothing while
    /// paused; refuses with `NoRomLoaded` when no ROM is loaded.
    pub fn emulate_until_breakpoints(&mut self, dt_micros: u64) -> (r: Result<(), Error>)
        requires
            old(self).cpu@.wf(),
        ensures
            final(self).cpu@.wf(),
            final(self).breaks == old(self).breaks,
            final(self).has_rom == old(self).has_rom,
            old(self).paused ==> r is Ok && final(self).cpu@ == old(self).cpu@
                && final(self).paused,
            !old(self).paused && !old(self).has_rom ==> r == Err::<(), Error>(Error::NoRomLoaded)
                && final(self).cpu@ == old(self).cpu@,
            !old(self).paused && old(self).has_rom ==> ({
                let em = spec_emulate(old(self).cpu@, dt_micros, old(self).breaks@, true);
                final(self).cpu@ == em.cpu && crate::common::res_view(r) == em.res && (
                final(self).paused == (em.res matches Err(e) && e is Breakpoint))
            }),
    {
        if self.paused {
            return Ok(());
        }
        if !self.has_rom {
            return Err(Error::NoRomLoaded);
        }
        let r: Result<(), Error> = self.cpu.emulate_breakpoints(dt_micros, &self.breaks);
        match r {
            Err(Error::Breakpoint(pc)) => {
                self.paused = true;
                Err(Error::Breakpoint(pc))
            },
            other => {
                self.paused = false;
                other
            },
        }
    }
}

impl Default for Chip8Debugger {
    /// A fresh, paused debugger in the default dialect.
    fn default() -> (r: Chip8Debugger)
        ensures
            r.cpu@.wf(),
            spec_fresh_obs(r.cpu@.obs, Chip8Mode::Cosmac),
            r.breaks@ == Seq::<u16>::empty(),
            r.paused == true,
            r.has_rom == false,
    {
        Chip8Debugger::new(Chip8Mode::Cosmac)
    }
}

/// Whether `c` is the ASCII character with code `b`.
pub open spec fn is_ch(c: char, b: u8) -> bool {
    (c as nat) < 128 && (c as u8) == b
}

/// Value of `c` as a digit under `radix`, or -1.  Both letter cases count
/// for the hexadecimal digits.
pub open spec fn digit_of(c: char, radix: int) -> int {
    if (c as nat) >= 128 {
        -1
    } else {
        let b = c as u8;
        let v = if 48 <= b <= 57 {
            b - 48
        } else if 97 <= b <= 102 {
            b - 97 + 10
        } else if 65 <= b <= 70 {
            b - 65 + 10
        } else {
            -1
        };
        if 0 <= v < radix {
            v
        } else {
            -1
        }
    }
}

/// Value of the first `upto` characters of `s` read as digits under
/// `radix`; -1 when one of them is no digit.
pub open spec fn digits_val(s: Seq<char>, upto: int, radix: int) -> int
    decreases upto,
{
    if upto <= 0 {
        0
    } else {
        let prev = digits_val(s, upto - 1, radix);
        let d = digit_of(s[upto - 1], radix);
        if prev < 0 || d < 0 {
            -1
        } else {
            prev * radix + d
        }
    }
}

/// The number a whole digit string denotes under `radix`; -1 when the
/// string is empty or holds a non-digit.
pub open spec fn spec_number(s: Seq<char>, radix: int) -> int {
    if s.len() == 0 {
        -1
    } else {
        digits_val(s, s.len() as int, radix)
    }
}

/// The unsigned magnitude a numeral denotes: `#` and `0x` prefixes read
/// hexadecimal, `0b` binary, anything else decimal; -1 when malformed.
pub open spec fn spec_magnitude(s: Seq<char>) -> int {
    if s.len() >= 1 && is_ch(s[0], 35) {
        spec_number(s.skip(1), 16)
    } else if s.len() >= 2 && is_ch(s[0], 48) && (is_ch(s[1], 120) || is_ch(s[1], 88)) {
        spec_number(s.skip(2), 16)
    } else if s.len() >= 2 && is_ch(s[0], 48) && (is_ch(s[1], 98) || is_ch(s[1], 66)) {
        spec_number(s.skip(2), 2)
    } else {
        spec_number(s, 10)
    }
}

/// The 16-bit value a numeral denotes, or -1: a leading minus takes the
/// two's complement of the rest, refusing a magnitude with the top bit
/// set; an unsigned numeral must fit in 16 bits.
pub open spec fn spec_parse_u16(s: Seq<char>) -> int
    decreases s.len(),
{
    if s.len() >= 1 && is_ch(s[0], 45) {
        let v = spec_parse_u16(s.skip(1));
        if v < 0 || v >= 0x8000 {
            -1
        } else if v == 0 {
            0
        } else {
            0x10000 - v
        }
    } else {
        let m = spec_magnitude(s);
        if 0 <= m <= 0xFFFF {
            m
        } else {
            -1
        }
    }
}

/// A digit string with an invalid prefix stays invalid however far it is
/// read.
proof fn lemma_digits_invalid_propagates(s: Seq<char>, i: int, j: int, radix: int)
    requires
        0 <= i <= j,
        digits_val(s, i, radix) < 0,
    ensures
        digits_val(s, j, radix) < 0,
    decreases j - i,
{
    if j > i {
        lemma_digits_invalid_propagates(s, i, j - 1, radix);
    }
}

/// Reading further digits never shrinks the value.
proof fn lemma_digits_monotone(s: Seq<char>, i: int, j: int, radix: int)
    requires
        2 <= radix,
        0 <= i <= j,
        digits_val(s, i, radix) >= 0,
    ensures
        digits_val(s, j, radix) < 0 || digits_val(s, j, radix) >= digits_val(s, i, radix),
    decreases j - i,
{
    if j > i {
        lemma_digits_monotone(s, i, j - 1, radix);
        let prev = digits_val(s, j - 1, radix);
        let d = digit_of(s[j - 1], radix);
        if prev >= 0 && d >= 0 {
            assert(prev * radix >= prev) by (nonlinear_arith)
                requires
                    prev >= 0,
                    radix >= 2,
            ;
        }
    }
}

/// Reads a whole digit string under `radix`, refusing non-digits and
/// values beyond 16 bits.
fn parse_digits(src: &str, radix: u16) -> (r: Option<u16>)
    requires
        src.is_ascii(),
        radix == 2 || radix == 10 || radix == 16,
    ensures
        0 <= spec_number(src@, radix as int) <= 0xFFFF ==> r == Some(
            spec_number(src@, radix as int) as u16,
        ),
        !(0 <= spec_number(src@, radix as int) <= 0xFFFF) ==> r is None,
{
    let n: usize = src.unicode_len();
    if n == 0 {
        return None;
    }
    let mut acc: u32 = 0;
    let mut i: usize = 0;
    while i < n
        invariant
            src.is_ascii(),
            radix == 2 || radix == 10 || radix == 16,
            n == src@.len(),
            0 <= i <= n,
            acc == digits_val(src@, i as int, radix as int),
            0 <= acc <= 0xFFFF,
        decreases n - i,
    {
        let b: u8 = src.get_ascii(i);
        let v: i8 = if 48 <= b && b <= 57 {
            (b - 48) as i8
        } else if 97 <= b && b <= 102 {
            (b - 97 + 10) as i8
        } else if 65 <= b && b <= 70 {
            (b - 65 + 10) as i8
        } else {
            -1
        };
        let d: i8 = if 0 <= v && (v as u16) < radix {
            v
        } else {
            -1
        };
        proof {
            vstd::utf8::is_ascii_chars_nat_bound(src@);
            assert(digit_of(src@[i as int], radix as int) == d);
        }
        if d < 0 {
            proof {
                lemma_digits_invalid_propagates(src@, i as int + 1, n as int, radix as int);
            }
            return None;
        }
        proof {
            assert(acc * radix <= 0xFFFF * 16) by (nonlinear_arith)
                requires
                    0 <= acc <= 0xFFFF,
                    0 <= radix <= 16,
            ;
        }
        acc = acc * (radix as u32) + (d as u32);
        if acc > 0xFFFF {
            proof {
                lemma_digits_monotone(src@, i as int + 1, n as int, radix as int);
            }
            return None;
        }
        i = i + 1;
    }
    Some(acc as u16)
}

/// Reads a numeral: `#hex`, `0x`/`0b` prefixes, decimal, and a leading
/// minus as two's complement.
pub fn parse_number_u16(src: &str) -> (r: Option<u16>)
    ensures
        src.is_ascii() && spec_parse_u16(src@) >= 0 ==> r == Some(spec_parse_u16(src@) as u16),
        src.is_ascii() && spec_parse_u16(src@) < 0 ==> r is None,
        !src.is_ascii() ==> r is None,
    decreases src@.len(),
{
    if !src.is_ascii() {
        return None;
    }
    let n: usize = src.unicode_len();
    if n >= 1 && src.get_ascii(0) == 45 {
        let rest: &str = src.substring_ascii(1, n);
        proof {
            assert(rest@ =~= src@.skip(1));
        }
        return match parse_number_u16(rest) {
            Some(m) => {
                if m >= 0x8000 {
                    None
                } else if m == 0 {
                    Some(0)
                } else {
                    Some((0x10000u32 - m as u32) as u16)
                }
            },
            None => None,
        };
    }
    if n >= 1 && src.get_ascii(0) == 35 {
        let rest: &str = src.substring_ascii(1, n);
        proof {
            assert(rest@ =~= src@.skip(1));
        }
        return parse_digits(rest, 16);
    }
    if n >= 2 && src.get_ascii(0) == 48 {
        let b1: u8 = src.get_ascii(1);
        if b1 == 120 || b1 == 88 {
            let rest: &str = src.substring_ascii(2, n);
            proof {
                assert(rest@ =~= src@.skip(2));
            }
            return parse_digits(rest, 16);
        }
        if b1 == 98 || b1 == 66 {
            let rest: &str = src.substring_ascii(2, n);
            proof {
                assert(rest@ =~= src@.skip(2));
            }
            return parse_digits(rest, 2);
        }
    }
    parse_digits(src, 10)
}

/// Reads a numeral that must fit in a byte.
pub fn parse_number_u8(src: &str) -> (r: Option<u8>)
    ensures
        src.is_ascii() && 0 <= spec_parse_u16(src@) <= 0xFF ==> r == Some(
            spec_parse_u16(src@) as u8,
        ),
        src.is_ascii() && !(0 <= spec_parse_u16(src@) <= 0xFF) ==> r is None,
        !src.is_ascii() ==> r is None,
{
    match parse_number_u16(src) {
        Some(v) => {
            if v <= 0xFF {
                Some(v as u8)
            } else {
                None
            }
        },
        None => None,
    }
}

/// Reads a register: a name such as `vA`, or a numeral 0..=15.
pub fn parse_register(src: &str) -> (r: Option<crate::register::Register>)
    ensures
        crate::register::reg_name_ok(src) ==> (r matches Some(reg) && reg.spec_index()
            == crate::register::reg_digit_val(src@[1] as u8)),
        src.is_ascii() && !crate::register::reg_name_ok(src) && 0 <= spec_parse_u16(src@) < 16
            ==> r == Some(crate::register::Register::spec_from_index(spec_parse_u16(src@))),
        src.is_ascii() && !crate::register::reg_name_ok(src) && !(0 <= spec_parse_u16(src@) < 16)
            ==> r is None,
        !src.is_ascii() ==> r is None,
{
    match crate::register::Register::by_name(src) {
        Some(reg) => Some(reg),
        None => {
            match parse_number_u8(src) {
                Some(v) => {
                    if v < 16 {
                        crate::register::Register::from_index(v)
                    } else {
                        None
                    }
                },
                None => None,
            }
        },
    }
}

/// Whether a vector of addresses holds `x`.
fn vec_has(v: &Vec<u16>, x: u16) -> (r: bool)
    ensures
        r == v@.contains(x),
{
    let mut i: usize = 0;
    while i < v.len()
        invariant
            0 <= i <= v@.len(),
            forall|j: int| 0 <= j < i ==> v@[j] != x,
        decreases v@.len() - i,
    {
        if v[i] == x {
            return true;
        }
        i = i + 1;
    }
    proof {
        assert(!v@.contains(x));
    }
    false
}

} // verus!
