//! The virtual CPU: registers, memory, timers, keypad, call stack, audio,
//! PRNG, and the driver that fetches, decodes and dispatches instructions.

use vstd::prelude::*;

use crate::audio::Audio;
use crate::audio::AudioView;
use crate::common::Chip8Mode;
use crate::common::Error;
use crate::display::Display;
use crate::display::DisplayView;
use crate::font;
use crate::prng::Prng;
use crate::register::Register;

verus! {

/// Size of the byte-addressable memory.  The XO-CHIP dialect addresses all
/// of it; the older dialects use the low 4 KiB.
pub const CHIP8_MEM_SIZE: usize = 0x10000;

/// Instructions executed per second of emulated time.
pub const CLOCK_SPEED: u64 = 500;

/// Timer ticks per second of emulated time.
pub const TIMER_SPEED: u64 = 60;

/// Micro-units per whole cycle or tick in the pending-time accumulators.
pub const TIME_SCALE: u64 = 1_000_000;

/// The observable interpreter state: everything an instruction can read or
/// write.  The driver's pacing state (pending-time accumulators and the
/// VBlank gate) lives outside it, in `CpuView`.
pub ghost struct ObsView {
    pub mode: Chip8Mode,
    pub pc: u16,
    pub index: u16,
    pub registers: Seq<u8>,
    pub memory: Seq<u8>,
    pub screen: DisplayView,
    pub call_stack: Seq<u16>,
    pub delay_timer: u8,
    pub sound_timer: u8,
    pub audio: AudioView,
    pub input: Seq<bool>,
    pub awaiting_key: Option<Register>,
    pub prng: u64,
    pub exited: bool,
    pub persistent: Seq<u8>,
}

impl ObsView {
    pub open spec fn wf(self) -> bool {
        &&& self.registers.len() == 16
        &&& self.memory.len() == CHIP8_MEM_SIZE
        &&& self.screen.wf()
        &&& self.audio.wf()
        &&& self.input.len() == 16
        &&& self.persistent.len() == 16
    }
}

/// Mathematical image of a `CPU`: the observable state plus the driver's
/// pacing state.
pub ghost struct CpuView {
    pub obs: ObsView,
    pub vblank_wait: bool,
    pub cycle_budget: i64,
    pub timer_acc: u64,
}

impl CpuView {
    pub open spec fn wf(self) -> bool {
        &&& self.obs.wf()
        &&& self.timer_acc < TIME_SCALE
    }
}

/// The interpreter.
#[derive(Debug)]
pub struct CPU {
    pub cycle_budget: i64,
    pub timer_acc: u64,
    /// The dialect instructions dispatch under.
    pub mode: Chip8Mode,
    /// The program counter.
    pub pc: u16,
    /// The address register I.
    pub index: u16,
    pub registers: Vec<u8>,
    pub memory: Vec<u8>,
    /// The framebuffer.
    pub screen: Display,
    /// Return addresses, innermost last.
    pub call_stack: Vec<u16>,
    /// Decremented at 60 Hz until zero.
    pub delay_timer: u8,
    /// Decremented at 60 Hz until zero; the beep sounds while it is nonzero.
    pub sound_timer: u8,
    /// The beep pattern generator.
    pub audio: Audio,
    pub input: Vec<bool>,
    pub awaiting_key: Option<Register>,
    pub random_state: Prng,
    pub vblank_wait: bool,
    /// Latched by the exit instruction; every later driver call fails.
    pub exited: bool,
    pub persistent_registers: Vec<u8>,
}

impl View for CPU {
    type V = CpuView;

    open spec fn view(&self) -> CpuView {
        CpuView {
            obs: ObsView {
                mode: self.mode,
                pc: self.pc,
                index: self.index,
                registers: self.registers@,
                memory: self.memory@,
                screen: self.screen@,
                call_stack: self.call_stack@,
                delay_timer: self.delay_timer,
                sound_timer: self.sound_timer,
                audio: self.audio@,
                input: self.input@,
                awaiting_key: self.awaiting_key,
                prng: self.random_state@,
                exited: self.exited,
                persistent: self.persistent_registers@,
            },
            vblank_wait: self.vblank_wait,
            cycle_budget: self.cycle_budget,
            timer_acc: self.timer_acc,
        }
    }
}

/// Memory as fresh construction leaves it: fonts installed, all else zero.
pub open spec fn spec_initial_memory() -> Seq<u8> {
    Seq::new(
        CHIP8_MEM_SIZE as nat,
        |p: int|
            {
                if font::FONT_BASE <= p < font::FONT_BASE + 80 {
                    font::spec_font_set()[p - font::FONT_BASE]
                } else if font::BIG_FONT_BASE <= p < font::BIG_FONT_BASE + 160 {
                    font::spec_big_font_set()[p - font::BIG_FONT_BASE]
                } else {
                    0u8
                }
            },
    )
}

/// Initial memory with a ROM image overlaid at 0x200.
pub open spec fn spec_rom_memory(rom: Seq<u8>) -> Seq<u8> {
    Seq::new(
        CHIP8_MEM_SIZE as nat,
        |p: int|
            {
                if 0x200 <= p < 0x200 + rom.len() {
                    rom[p - 0x200]
                } else {
                    spec_initial_memory()[p]
                }
            },
    )
}

/// The observable state of a freshly constructed interpreter, up to the
/// PRNG seed (which construction draws from entropy).
pub open spec fn spec_fresh_obs(o: ObsView, mode: Chip8Mode) -> bool {
    &&& o.mode == mode
    &&& o.pc == 0x200
    &&& o.index == 0
    &&& o.registers == Seq::<u8>::new(16, |i: int| 0u8)
    &&& o.memory == spec_initial_memory()
    &&& o.screen.buffer == Seq::<bool>::new((crate::display::SCREEN_WIDTH
        * crate::display::SCREEN_HEIGHT) as nat, |i: int| false)
    &&& o.screen.secondary == Seq::<bool>::new((crate::display::SCREEN_WIDTH
        * crate::display::SCREEN_HEIGHT) as nat, |i: int| false)
    &&& o.screen.write_mask == 1
    &&& o.screen.high_res == false
    &&& o.call_stack == Seq::<u16>::empty()
    &&& o.delay_timer == 0
    &&& o.sound_timer == 0
    &&& o.audio.pattern == crate::audio::expand_pattern(crate::audio::spec_default_pattern_bytes())
    &&& o.audio.pitch is None
    &&& o.audio.cursor == 0
    &&& o.input == Seq::<bool>::new(16, |i: int| false)
    &&& o.awaiting_key is None
    &&& o.exited == false
    &&& o.persistent == Seq::<u8>::new(16, |i: int| 0u8)
}

/// The 16-bit big-endian word stored at `pos`.
pub open spec fn spec_word_at(mem: Seq<u8>, pos: int) -> u16 {
    ((mem[pos] as u16) << 8) | (mem[pos + 1] as u16)
}

impl CPU {
    /// A fresh interpreter in the given dialect: memory cleared and fonts
    /// installed, PC at 0x200, PRNG seeded from entropy.
    pub fn new(mode: Chip8Mode) -> (r: CPU)
        ensures
            r@.wf(),
            spec_fresh_obs(r@.obs, mode),
            r@.vblank_wait == false,
            r@.cycle_budget == 0,
            r@.timer_acc == 0,
    {
        let mut cpu = CPU {
            cycle_budget: 0,
            timer_acc: 0,
            mode,
            pc: 0x200,
            index: 0,
            registers: vec![0u8; 16],
            memory: vec![0u8; CHIP8_MEM_SIZE],
            screen: Display::new(),
            call_stack: Vec::new(),
            delay_timer: 0,
            sound_timer: 0,
            audio: Audio::new(),
            input: vec![false; 16],
            awaiting_key: None,
            random_state: Prng::new(),
            vblank_wait: false,
            exited: false,
            persistent_registers: vec![0u8; 16],
        };
        cpu.clear_memory();
        proof {
            assert(cpu@.obs.registers =~= Seq::<u8>::new(16, |i: int| 0u8));
            assert(cpu@.obs.input =~= Seq::<bool>::new(16, |i: int| false));
            assert(cpu@.obs.persistent =~= Seq::<u8>::new(16, |i: int| 0u8));
            assert(cpu@.obs.call_stack =~= Seq::<u16>::empty());
            assert(cpu@.obs.screen.buffer =~= Seq::<bool>::new(
                (crate::display::SCREEN_WIDTH * crate::display::SCREEN_HEIGHT) as nat,
                |i: int| false,
            ));
            assert(cpu@.obs.screen.secondary =~= Seq::<bool>::new(
                (crate::display::SCREEN_WIDTH * crate::display::SCREEN_HEIGHT) as nat,
                |i: int| false,
            ));
        }
        cpu
    }

    /// Zeroes memory and installs both fonts.
    fn clear_memory(&mut self)
        requires
            old(self)@.wf(),
        ensures
            final(self)@ == (CpuView {
                obs: ObsView { memory: spec_initial_memory(), ..old(self)@.obs },
                ..old(self)@
            }),
            final(self)@.wf(),
    {
        self.memory = vec![0u8; CHIP8_MEM_SIZE];
        let low: Vec<u8> = font::font_set();
        let mut i: usize = 0;
        while i < 80
            invariant
                0 <= i <= 80,
                self@.wf(),
                low@ == font::spec_font_set(),
                self@.obs.memory.len() == CHIP8_MEM_SIZE,
                forall|p: int|
                    0 <= p < CHIP8_MEM_SIZE && !(font::FONT_BASE <= p < font::FONT_BASE + i)
                        ==> self@.obs.memory[p] == 0,
                forall|p: int|
                    font::FONT_BASE <= p < font::FONT_BASE + i ==> self@.obs.memory[p]
                        == font::spec_font_set()[p - font::FONT_BASE],
                self@.obs.mode == old(self)@.obs.mode,
                self@ == (CpuView {
                    obs: ObsView { memory: self@.obs.memory, ..old(self)@.obs },
                    ..old(self)@
                }),
            decreases 80 - i,
        {
            let b: u8 = low[i];
            self.memory.set(0x50 + i, b);
            i = i + 1;
        }
        let big: Vec<u8> = font::big_font_set();
        let mut j: usize = 0;
        while j < 160
            invariant
                0 <= j <= 160,
                self@.wf(),
                big@ == font::spec_big_font_set(),
                self@.obs.memory.len() == CHIP8_MEM_SIZE,
                forall|p: int|
                    0 <= p < CHIP8_MEM_SIZE && !(font::FONT_BASE <= p < font::FONT_BASE + 80) && !(
                    font::BIG_FONT_BASE <= p < font::BIG_FONT_BASE + j) ==> self@.obs.memory[p]
                        == 0,
                forall|p: int|
                    font::FONT_BASE <= p < font::FONT_BASE + 80 ==> self@.obs.memory[p]
                        == font::spec_font_set()[p - font::FONT_BASE],
                forall|p: int|
                    font::BIG_FONT_BASE <= p < font::BIG_FONT_BASE + j ==> self@.obs.memory[p]
                        == font::spec_big_font_set()[p - font::BIG_FONT_BASE],
                self@ == (CpuView {
                    obs: ObsView { memory: self@.obs.memory, ..old(self)@.obs },
                    ..old(self)@
                }),
            decreases 160 - j,
        {
            let b: u8 = big[j];
            self.memory.set(0xA0 + j, b);
            j = j + 1;
        }
        proof {
            assert(self@.obs.memory =~= spec_initial_memory());
        }
    }

    /// Reads the byte at `pos`.  Every 16-bit position is inside memory, so
    /// this always succeeds; the `Result` shape mirrors the word accessors.
    pub fn read_memory_byte(&self, pos: u16) -> (r: Result<u8, Error>)
        requires
            self@.wf(),
        ensures
            r matches Ok(b) && b == self@.obs.memory[pos as int],
    {
        Ok(self.memory[pos as usize])
    }

    /// Reads the big-endian word at `pos`; fails with `OutOfBounds` when the
    /// second byte would fall outside memory.
    pub fn read_memory_word(&self, pos: u16) -> (r: Result<u16, Error>)
        requires
            self@.wf(),
        ensures
            pos < CHIP8_MEM_SIZE - 1 ==> (r matches Ok(w) && w == spec_word_at(
                self@.obs.memory,
                pos as int,
            )),
            pos >= CHIP8_MEM_SIZE - 1 ==> r == Err::<u16, Error>(Error::OutOfBounds),
    {
        if pos as usize >= CHIP8_MEM_SIZE - 1 {
            Err(Error::OutOfBounds)
        } else {
            let hi: u8 = self.memory[pos as usize];
            let lo: u8 = self.memory[pos as usize + 1];
            Ok(((hi as u16) << 8) | (lo as u16))
        }
    }

    /// Writes the byte at `pos`.  Every 16-bit position is inside memory, so
    /// this always succeeds; the `Result` shape mirrors the word accessors.
    pub fn write_memory_byte(&mut self, pos: u16, byte: u8) -> (r: Result<(), Error>)
        requires
            old(self)@.wf(),
        ensures
            final(self)@.wf(),
            r is Ok,
            final(self)@ == (CpuView {
                obs: ObsView {
                    memory: old(self)@.obs.memory.update(pos as int, byte),
                    ..old(self)@.obs
                },
                ..old(self)@
            }),
    {
        self.memory.set(pos as usize, byte);
        Ok(())
    }

    /// Writes the big-endian word at `pos`; fails with `OutOfBounds` when the
    /// second byte would fall outside memory.
    pub fn write_memory_word(&mut self, pos: u16, word: u16) -> (r: Result<(), Error>)
        requires
            old(self)@.wf(),
        ensures
            final(self)@.wf(),
            pos < CHIP8_MEM_SIZE - 1 ==> r is Ok && final(self)@ == (CpuView {
                obs: ObsView {
                    memory: old(self)@.obs.memory.update(pos as int, (word >> 8) as u8).update(
                        pos as int + 1,
                        (word & 0xFF) as u8,
                    ),
                    ..old(self)@.obs
                },
                ..old(self)@
            }),
            pos >= CHIP8_MEM_SIZE - 1 ==> r == Err::<(), Error>(Error::OutOfBounds) && final(self)@
                == old(self)@,
    {
        if pos as usize >= CHIP8_MEM_SIZE - 1 {
            Err(Error::OutOfBounds)
        } else {
            self.memory.set(pos as usize, (word >> 8) as u8);
            self.memory.set(pos as usize + 1, (word & 0xFF) as u8);
            Ok(())
        }
    }

    /// Value of a register.
    pub fn get_register(&self, reg: Register) -> (r: u8)
        requires
            self@.wf(),
        ensures
            r == self@.obs.registers[reg.spec_index()],
    {
        let i: u8 = reg.index();
        self.registers[i as usize]
    }

    /// Sets a register.
    pub fn set_register(&mut self, reg: Register, value: u8)
        requires
            old(self)@.wf(),
        ensures
            final(self)@.wf(),
            final(self)@ == (CpuView {
                obs: ObsView {
                    registers: old(self)@.obs.registers.update(reg.spec_index(), value),
                    ..old(self)@.obs
                },
                ..old(self)@
            }),
    {
        let i: u8 = reg.index();
        self.registers.set(i as usize, value);
    }

    /// Whether key `key` (0x0..=0xF) is held; out-of-range keys read as up.
    pub fn is_key_down(&self, key: u8) -> (r: bool)
        requires
            self@.wf(),
        ensures
            key <= 0xF ==> r == self@.obs.input[key as int],
            key > 0xF ==> r == false,
    {
        if key > 0xF {
            false
        } else {
            self.input[key as usize]
        }
    }

    /// Marks key `key` as held; out-of-range keys are ignored.
    pub fn press_key(&mut self, key: u8)
        requires
            old(self)@.wf(),
        ensures
            final(self)@.wf(),
            key <= 0xF ==> final(self)@ == (CpuView {
                obs: ObsView {
                    input: old(self)@.obs.input.update(key as int, true),
                    ..old(self)@.obs
                },
                ..old(self)@
            }),
            key > 0xF ==> final(self)@ == old(self)@,
    {
        if key <= 0xF {
            self.input.set(key as usize, true);
        }
    }

    /// Marks key `key` as released.  A release is the edge that satisfies an
    /// engaged await-key latch: the key lands in the latched register and
    /// the latch clears.  Out-of-range keys are ignored.
    pub fn release_key(&mut self, key: u8)
        requires
            old(self)@.wf(),
        ensures
            final(self)@.wf(),
            key > 0xF ==> final(self)@ == old(self)@,
            key <= 0xF && old(self)@.obs.awaiting_key is None ==> final(self)@ == (CpuView {
                obs: ObsView {
                    input: old(self)@.obs.input.update(key as int, false),
                    ..old(self)@.obs
                },
                ..old(self)@
            }),
            old(self)@.obs.awaiting_key matches Some(reg) ==> key <= 0xF ==> final(self)@
                == (CpuView {
                obs: ObsView {
                    input: old(self)@.obs.input.update(key as int, false),
                    registers: old(self)@.obs.registers.update(reg.spec_index(), key),
                    awaiting_key: None,
                    ..old(self)@.obs
                },
                ..old(self)@
            }),
    {
        if key <= 0xF {
            self.input.set(key as usize, false);
            if let Some(reg) = self.awaiting_key {
                let i: u8 = reg.index();
                self.registers.set(i as usize, key);
                self.awaiting_key = None;
            }
        }
    }

    /// The engaged await-key latch, if any.
    pub fn awaiting_key(&self) -> (r: Option<Register>)
        ensures
            r == self@.obs.awaiting_key,
    {
        self.awaiting_key
    }

    /// Engages the await-key latch on `reg`.
    pub(crate) fn await_key(&mut self, reg: Register)
        requires
            old(self)@.wf(),
        ensures
            final(self)@.wf(),
            final(self)@ == (CpuView {
                obs: ObsView { awaiting_key: Some(reg), ..old(self)@.obs },
                ..old(self)@
            }),
    {
        self.awaiting_key = Some(reg);
    }

    /// Pushes the current PC and jumps to `pos`.
    pub(crate) fn call_routine(&mut self, pos: u16)
        requires
            old(self)@.wf(),
        ensures
            final(self)@.wf(),
            final(self)@ == (CpuView {
                obs: ObsView {
                    call_stack: old(self)@.obs.call_stack.push(old(self)@.obs.pc),
                    pc: pos,
                    ..old(self)@.obs
                },
                ..old(self)@
            }),
    {
        self.call_stack.push(self.pc);
        self.pc = pos;
    }

    /// Pops a return address into PC; an empty stack is a no-op.
    pub(crate) fn return_routine(&mut self)
        requires
            old(self)@.wf(),
        ensures
            final(self)@.wf(),
            old(self)@.obs.call_stack.len() == 0 ==> final(self)@ == old(self)@,
            old(self)@.obs.call_stack.len() > 0 ==> final(self)@ == (CpuView {
                obs: ObsView {
                    call_stack: old(self)@.obs.call_stack.drop_last(),
                    pc: old(self)@.obs.call_stack.last(),
                    ..old(self)@.obs
                },
                ..old(self)@
            }),
    {
        match self.call_stack.pop() {
            Some(addr) => {
                self.pc = addr;
            },
            None => {},
        }
    }

    /// A pseudo-random byte; advances the generator by one step.
    pub fn random(&mut self) -> (r: u8)
        requires
            old(self)@.wf(),
        ensures
            final(self)@.wf(),
            final(self)@ == (CpuView {
                obs: ObsView {
                    prng: crate::prng::wyrand_advance(old(self)@.obs.prng),
                    ..old(self)@.obs
                },
                ..old(self)@
            }),
            r == crate::prng::wyrand_output(crate::prng::wyrand_advance(old(self)@.obs.prng)) as u8,
    {
        self.random_state.next_byte()
    }

    /// Restarts the generator from `seed`; replay from here is a function of
    /// the state alone.
    pub fn reseed(&mut self, seed: u64)
        requires
            old(self)@.wf(),
        ensures
            final(self)@.wf(),
            final(self)@ == (CpuView {
                obs: ObsView { prng: seed, ..old(self)@.obs },
                ..old(self)@
            }),
    {
        self.random_state.reseed(seed);
    }

    /// Disassembly of the instruction at `idx`, where one is stored.
    pub fn disassemble(&self, idx: u16) -> (r: Option<&'static str>)
        requires
            self@.wf(),
        ensures
            r is Some <==> idx < CHIP8_MEM_SIZE - 1 && crate::instruction::spec_decode(
                spec_word_at(self@.obs.memory, idx as int),
            ) is Some,
            r matches Some(text) ==> text@ == crate::instruction::spec_mnemonic(
                spec_word_at(self@.obs.memory, idx as int),
            )@,
    {
        match self.read_memory_word(idx) {
            Ok(word) => crate::instruction::Instruction::disassemble(word),
            Err(_) => None,
        }
    }

    /// Disassembly of the next instruction.
    pub fn disassemble_next(&self) -> (r: Option<&'static str>)
        requires
            self@.wf(),
        ensures
            r is Some <==> self@.obs.pc < CHIP8_MEM_SIZE - 1 && crate::instruction::spec_decode(
                spec_word_at(self@.obs.memory, self@.obs.pc as int),
            ) is Some,
            r matches Some(text) ==> text@ == crate::instruction::spec_mnemonic(
                spec_word_at(self@.obs.memory, self@.obs.pc as int),
            )@,
    {
        self.disassemble(self.pc)
    }

    /// Whole memory, for inspection.
    pub fn memory(&self) -> (r: &Vec<u8>)
        ensures
            r@ == self@.obs.memory,
    {
        &self.memory
    }

    /// One-bit beep samples for the next `samples` output samples, advancing
    /// the pattern cursor — or nothing when the sound timer is idle (the
    /// cursor then holds still).
    pub fn read_beep_samples(&mut self, samples: usize) -> (r: Option<Vec<bool>>)
        requires
            old(self)@.wf(),
        ensures
            final(self)@.wf(),
            old(self)@.obs.sound_timer == 0 ==> final(self)@ == old(self)@ && r is None,
            old(self)@.obs.sound_timer > 0 ==> final(self)@ == (CpuView {
                obs: ObsView {
                    audio: (AudioView {
                        cursor: (old(self)@.obs.audio.cursor + samples) % (
                        crate::audio::AUDIO_BUFFER_SIZE as int),
                        ..old(self)@.obs.audio
                    }),
                    ..old(self)@.obs
                },
                ..old(self)@
            }) && (r matches Some(v) && v@.len() == samples && forall|i: int|
                0 <= i < samples ==> v@[i] == old(self)@.obs.audio.pattern[(old(
                    self,
                )@.obs.audio.cursor + i) % (crate::audio::AUDIO_BUFFER_SIZE as int)]),
    {
        if self.sound_timer > 0 {
            Some(self.audio.pattern_window(samples))
        } else {
            None
        }
    }

    /// Whether the beep is sounding.
    pub fn should_beep(&self) -> (r: bool)
        ensures
            r == (self@.obs.sound_timer > 0),
    {
        self.sound_timer > 0
    }

    /// Loads a ROM image: re-initializes every register, memory, the screen,
    /// timers, stack, keypad and audio (the PRNG state and the persistent
    /// FX75/FX85 registers survive this software reset), then copies the
    /// image to 0x200.  An image larger than the memory beyond 0x200 is
    /// refused with `InvalidFile`; one larger than 4 KiB promotes the
    /// dialect to XO-CHIP.
    pub fn load_rom(&mut self, buf: &[u8]) -> (r: Result<(), Error>)
        requires
            old(self)@.wf(),
        ensures
            final(self)@.wf(),
            buf@.len() > CHIP8_MEM_SIZE - 0x200 ==> r == Err::<(), Error>(Error::InvalidFile)
                && final(self)@ == old(self)@,
            buf@.len() <= CHIP8_MEM_SIZE - 0x200 ==> r is Ok && spec_fresh_obs(
                (ObsView {
                    memory: spec_initial_memory(),
                    mode: final(self)@.obs.mode,
                    prng: old(self)@.obs.prng,
                    persistent: Seq::new(16, |i: int| 0u8),
                    ..final(self)@.obs
                }),
                if buf@.len() > 0x1000 && old(self)@.obs.mode != Chip8Mode::XoChip {
                    Chip8Mode::XoChip
                } else {
                    old(self)@.obs.mode
                },
            ) && final(self)@.obs.memory == spec_rom_memory(buf@) && final(self)@.obs.prng == old(
                self,
            )@.obs.prng && final(self)@.obs.persistent == old(self)@.obs.persistent
                && final(self)@.vblank_wait == false && final(self)@.cycle_budget == 0
                && final(self)@.timer_acc == 0,
    {
        if buf.len() > CHIP8_MEM_SIZE - 0x200 {
            return Err(Error::InvalidFile);
        }
        let mode: Chip8Mode = if buf.len() > 0x1000 && self.mode != Chip8Mode::XoChip {
            Chip8Mode::XoChip
        } else {
            self.mode
        };
        self.cycle_budget = 0;
        self.timer_acc = 0;
        self.mode = mode;
        self.pc = 0x200;
        self.index = 0;
        self.registers = vec![0u8; 16];
        self.screen = Display::new();
        self.call_stack = Vec::new();
        self.delay_timer = 0;
        self.sound_timer = 0;
        self.audio = Audio::new();
        self.input = vec![false; 16];
        self.awaiting_key = None;
        self.vblank_wait = false;
        self.exited = false;
        self.clear_memory();
        proof {
            assert(self@.obs.registers =~= Seq::<u8>::new(16, |i: int| 0u8));
            assert(self@.obs.input =~= Seq::<bool>::new(16, |i: int| false));
            assert(self@.obs.call_stack =~= Seq::<u16>::empty());
            assert(self@.obs.screen.buffer =~= Seq::<bool>::new(
                (crate::display::SCREEN_WIDTH * crate::display::SCREEN_HEIGHT) as nat,
                |i: int| false,
            ));
            assert(self@.obs.screen.secondary =~= Seq::<bool>::new(
                (crate::display::SCREEN_WIDTH * crate::display::SCREEN_HEIGHT) as nat,
                |i: int| false,
            ));
        }
        let mut i: usize = 0;
        while i < buf.len()
            invariant
                self@.wf(),
                buf@.len() <= CHIP8_MEM_SIZE - 0x200,
                0 <= i <= buf@.len(),
                self@.obs.memory.len() == CHIP8_MEM_SIZE,
                forall|p: int|
                    0 <= p < CHIP8_MEM_SIZE && !(0x200 <= p < 0x200 + i) ==> self@.obs.memory[p]
                        == spec_initial_memory()[p],
                forall|p: int|
                    0x200 <= p < 0x200 + i ==> self@.obs.memory[p] == buf@[p - 0x200],
                spec_fresh_obs(
                    (ObsView {
                        memory: spec_initial_memory(),
                        persistent: Seq::new(16, |i: int| 0u8),
                        ..self@.obs
                    }),
                    self@.obs.mode,
                ),
                self@.obs.persistent == old(self)@.obs.persistent,
                self@.obs.mode == if buf@.len() > 0x1000 && old(self)@.obs.mode != Chip8Mode::XoChip {
                    Chip8Mode::XoChip
                } else {
                    old(self)@.obs.mode
                },
                self@.obs.prng == old(self)@.obs.prng,
                self@.vblank_wait == false,
                self@.cycle_budget == 0,
                self@.timer_acc == 0,
            decreases buf@.len() - i,
        {
            let b: u8 = buf[i];
            self.memory.set(0x200 + i, b);
            i = i + 1;
        }
        proof {
            assert(self@.obs.memory =~= spec_rom_memory(buf@));
        }
        Ok(())
    }

    /// Replaces the ROM bytes at 0x200 without touching any other state.
    pub fn hotswap(&mut self, buf: &[u8]) -> (r: Result<(), Error>)
        requires
            old(self)@.wf(),
        ensures
            final(self)@.wf(),
            buf@.len() > CHIP8_MEM_SIZE - 0x200 ==> r == Err::<(), Error>(Error::InvalidFile)
                && final(self)@ == old(self)@,
            buf@.len() <= CHIP8_MEM_SIZE - 0x200 ==> r is Ok && final(self)@ == (CpuView {
                obs: ObsView {
                    memory: Seq::new(
                        CHIP8_MEM_SIZE as nat,
                        |p: int|
                            if 0x200 <= p < 0x200 + buf@.len() {
                                buf@[p - 0x200]
                            } else {
                                old(self)@.obs.memory[p]
                            },
                    ),
                    ..old(self)@.obs
                },
                ..old(self)@
            }),
    {
        if buf.len() > CHIP8_MEM_SIZE - 0x200 {
            return Err(Error::InvalidFile);
        }
        let mut i: usize = 0;
        while i < buf.len()
            invariant
                self@.wf(),
                buf@.len() <= CHIP8_MEM_SIZE - 0x200,
                0 <= i <= buf@.len(),
                self@.obs.memory.len() == CHIP8_MEM_SIZE,
                forall|p: int|
                    0 <= p < CHIP8_MEM_SIZE && !(0x200 <= p < 0x200 + i) ==> self@.obs.memory[p]
                        == old(self)@.obs.memory[p],
                forall|p: int|
                    0x200 <= p < 0x200 + i ==> self@.obs.memory[p] == buf@[p - 0x200],
                self@ == (CpuView {
                    obs: ObsView { memory: self@.obs.memory, ..old(self)@.obs },
                    ..old(self)@
                }),
            decreases buf@.len() - i,
        {
            let b: u8 = buf[i];
            self.memory.set(0x200 + i, b);
            i = i + 1;
        }
        proof {
            assert(self@.obs.memory =~= Seq::new(
                CHIP8_MEM_SIZE as nat,
                |p: int|
                    if 0x200 <= p < 0x200 + buf@.len() {
                        buf@[p - 0x200]
                    } else {
                        old(self)@.obs.memory[p]
                    },
            ));
        }
        Ok(())
    }
}

impl Default for CPU {
    /// A fresh interpreter in the default dialect.
    fn default() -> (r: CPU)
        ensures
            r@.wf(),
            spec_fresh_obs(r@.obs, Chip8Mode::Cosmac),
            r@.vblank_wait == false,
            r@.cycle_budget == 0,
            r@.timer_acc == 0,
    {
        CPU::new(Chip8Mode::Cosmac)
    }
}

/// Saturating subtraction of a tick count from a timer byte.
pub open spec fn sat_sub_u8(a: u8, d: int) -> u8 {
    if a >= d {
        (a - d) as u8
    } else {
        0
    }
}

/// The pacing state after one timer discharge: the accumulator gains
/// `dt * 60` micro-ticks and discharges up to 255 whole ticks from both
/// timers (enough to zero any timer value); whole ticks beyond the 255th
/// are discarded along with the fractional carry, and any tick drained
/// clears the VBlank gate.
pub open spec fn spec_tick_timers(v: CpuView, dt: u64) -> CpuView {
    let total = v.timer_acc + dt * TIMER_SPEED;
    let ticks = total / (TIME_SCALE as int);
    let diff = if ticks > 255 {
        255int
    } else {
        ticks
    };
    let acc2 = if ticks <= 255 {
        total % (TIME_SCALE as int)
    } else {
        0int
    };
    CpuView {
        obs: ObsView {
            delay_timer: sat_sub_u8(v.obs.delay_timer, diff),
            sound_timer: sat_sub_u8(v.obs.sound_timer, diff),
            ..v.obs
        },
        vblank_wait: if diff > 0 {
            false
        } else {
            v.vblank_wait
        },
        timer_acc: acc2 as u64,
        ..v
    }
}

/// The cycle budget after gaining `dt * 500` micro-cycles, saturating at
/// the top of the range.
pub open spec fn spec_add_budget(b: i64, dt: u64) -> i64 {
    let add = dt * CLOCK_SPEED;
    let add2 = if add > i64::MAX {
        i64::MAX as int
    } else {
        add
    };
    if b + add2 > i64::MAX {
        i64::MAX
    } else {
        (b + add2) as i64
    }
}

/// Outcome of the driver's step loop.
pub ghost struct RunOut {
    pub obs: ObsView,
    pub vblank: bool,
    pub budget: i64,
    pub res: Result<(), crate::common::ErrorV>,
}

/// The driver's step loop: steps until the budget runs out, the VBlank gate
/// engages, the await-key latch engages, a breakpoint is reached (when
/// `use_bps` is set), or a step fails.  A failing step leaves the budget
/// as it stood; a breakpoint clears it.
pub open spec fn spec_run(o: ObsView, vblank: bool, budget: i64, bps: Seq<u16>, use_bps: bool) -> RunOut
    decreases
            (if budget > 0 {
                budget as int
            } else {
                0
            }),
{
    if budget <= 0 {
        RunOut { obs: o, vblank, budget, res: Ok(()) }
    } else {
        let st = crate::instruction::semantics::spec_step(o);
        match st.res {
            Err(e) => RunOut { obs: st.obs, vblank: vblank || st.set_vblank, budget, res: Err(e) },
            Ok(c) => {
                let used = if c < 1 {
                    1int
                } else {
                    c as int
                };
                let b2 = (budget - used * (TIME_SCALE as int)) as i64;
                let vb2 = vblank || st.set_vblank;
                if use_bps && bps.contains(st.obs.pc) {
                    RunOut {
                        obs: st.obs,
                        vblank: vb2,
                        budget: 0,
                        res: Err(crate::common::ErrorV::Breakpoint(st.obs.pc)),
                    }
                } else if vb2 {
                    RunOut { obs: st.obs, vblank: vb2, budget: b2, res: Ok(()) }
                } else if st.obs.awaiting_key is Some {
                    RunOut { obs: st.obs, vblank: vb2, budget: b2, res: Ok(()) }
                } else {
                    spec_run(st.obs, vb2, b2, bps, use_bps)
                }
            },
        }
    }
}

/// Outcome of a whole driver call.
pub ghost struct EmuOut {
    pub cpu: CpuView,
    pub res: Result<(), crate::common::ErrorV>,
}

/// A whole driver call: the exit gate, the timer discharge, the VBlank and
/// await-key gates, then the budgeted step loop.
pub open spec fn spec_emulate(v: CpuView, dt: u64, bps: Seq<u16>, use_bps: bool) -> EmuOut {
    if v.obs.exited {
        EmuOut { cpu: v, res: Err(crate::common::ErrorV::Exited) }
    } else {
        let v1 = spec_tick_timers(v, dt);
        if v1.vblank_wait {
            EmuOut { cpu: v1, res: Ok(()) }
        } else if v1.obs.awaiting_key is Some {
            EmuOut { cpu: v1, res: Ok(()) }
        } else {
            let b = spec_add_budget(v1.cycle_budget, dt);
            let run = spec_run(v1.obs, false, b, bps, use_bps);
            EmuOut {
                cpu: CpuView {
                    obs: run.obs,
                    vblank_wait: run.vblank,
                    cycle_budget: run.budget,
                    timer_acc: v1.timer_acc,
                },
                res: run.res,
            }
        }
    }
}

impl CPU {
    /// Performs one instruction: gates on the exit latch and the await-key
    /// latch, fetches the word at PC, decodes it, advances PC and
    /// dispatches the dialect's handler.  Returns the cycles consumed.
    pub fn step(&mut self) -> (r: Result<u32, Error>)
        requires
            old(self)@.wf(),
        ensures
            final(self)@.wf(),
            ({
                let st = crate::instruction::semantics::spec_step(old(self)@.obs);
                final(self)@ == (CpuView {
                    obs: st.obs,
                    vblank_wait: old(self)@.vblank_wait || st.set_vblank,
                    ..old(self)@
                }) && crate::common::res_view(r) == st.res
            }),
            r matches Err(e) ==> (e matches Error::NotDefined(text, m) ==> m == old(
                self,
            )@.obs.mode && text@ == crate::instruction::spec_mnemonic(
                spec_word_at(old(self)@.obs.memory, old(self)@.obs.pc as int),
            )@),
    {
        if self.exited {
            return Err(Error::Exited);
        }
        if self.awaiting_key.is_some() {
            return Ok(1);
        }
        let opcode: u16 = match self.read_memory_word(self.pc) {
            Ok(w) => w,
            Err(e) => {
                return Err(e);
            },
        };
        match crate::instruction::Instruction::lookup(opcode) {
            Some(inst) => {
                let cycles: u32 = inst.cycles;
                self.pc = self.pc.wrapping_add(2);
                let op: Option<crate::instruction::Op> = match self.mode {
                    Chip8Mode::Cosmac => inst.cosmac,
                    Chip8Mode::SuperChip => inst.schip,
                    Chip8Mode::XoChip => inst.xochip,
                };
                match op {
                    Some(op) => {
                        let ghost o2 = self@.obs;
                        proof {
                            crate::instruction::semantics::lemma_execute_errors(o2, op, opcode);
                        }
                        match crate::instruction::handlers::execute(self, op, opcode) {
                            Ok(extra) => {
                                proof {
                                    crate::instruction::semantics::lemma_execute_cycles(
                                        o2,
                                        op,
                                        opcode,
                                    );
                                }
                                Ok(cycles + extra)
                            },
                            Err(e) => Err(e),
                        }
                    },
                    None => Err(Error::NotDefined(inst.disassembly, self.mode)),
                }
            },
            None => Err(Error::UnknownOpcode(opcode)),
        }
    }

    fn tick_timers(&mut self, dt_micros: u64)
        requires
            old(self)@.wf(),
        ensures
            final(self)@.wf(),
            final(self)@ == spec_tick_timers(old(self)@, dt_micros),
    {
        let total: u128 = (self.timer_acc as u128) + (dt_micros as u128) * (TIMER_SPEED as u128);
        let ticks: u128 = total / (TIME_SCALE as u128);
        let diff: u8 = if ticks > 255 {
            255
        } else {
            ticks as u8
        };
        self.delay_timer = if self.delay_timer >= diff {
            self.delay_timer - diff
        } else {
            0
        };
        self.sound_timer = if self.sound_timer >= diff {
            self.sound_timer - diff
        } else {
            0
        };
        self.timer_acc = if ticks <= 255 {
            (total % (TIME_SCALE as u128)) as u64
        } else {
            0
        };
        if diff > 0 {
            self.vblank_wait = false;
        }
    }

    /// Adds `dt * 500` micro-cycles to the budget, saturating.
    fn add_budget(&mut self, dt_micros: u64)
        requires
            old(self)@.wf(),
        ensures
            final(self)@.wf(),
            final(self)@ == (CpuView {
                cycle_budget: spec_add_budget(old(self)@.cycle_budget, dt_micros),
                ..old(self)@
            }),
    {
        let add128: u128 = (dt_micros as u128) * (CLOCK_SPEED as u128);
        let add: i64 = if add128 > i64::MAX as u128 {
            i64::MAX
        } else {
            add128 as i64
        };
        self.cycle_budget = if self.cycle_budget > i64::MAX - add {
            i64::MAX
        } else {
            self.cycle_budget + add
        };
    }

    /// Runs the interpreter for `dt_micros` microseconds of emulated time:
    /// discharges timers at 60 Hz and executes instructions at 500 Hz until
    /// the budget is spent or a gate (exit, VBlank-wait, await-key) stops
    /// the loop early.
    pub fn emulate_for(&mut self, dt_micros: u64) -> (r: Result<(), Error>)
        requires
            old(self)@.wf(),
        ensures
            final(self)@.wf(),
            ({
                let em = spec_emulate(old(self)@, dt_micros, Seq::empty(), false);
                final(self)@ == em.cpu && crate::common::res_view(r) == em.res
            }),
    {
        self.run_driver_loop(dt_micros, &Vec::new(), false)
    }

    /// Like `emulate_for`, but additionally stops with `Breakpoint` (and a
    /// cleared budget) as soon as a step lands PC on one of the given
    /// addresses.
    pub fn emulate_breakpoints(&mut self, dt_micros: u64, breakpoints: &Vec<u16>) -> (r: Result<
        (),
        Error,
    >)
        requires
            old(self)@.wf(),
        ensures
            final(self)@.wf(),
            ({
                let em = spec_emulate(old(self)@, dt_micros, breakpoints@, true);
                final(self)@ == em.cpu && crate::common::res_view(r) == em.res
            }),
    {
        self.run_driver_loop(dt_micros, breakpoints, true)
    }

    /// Like `emulate_for`, but after every step evaluates `halt` against
    /// the interpreter; when it answers true the remaining budget is
    /// cleared and the call fails with `EarlyExitRequested`.  The halt
    /// predicate is arbitrary code, so what it decides cannot be stated
    /// here beyond the witness clause; `emulate_breakpoints` is the
    /// variant with an exact contract.
    #[verifier::rlimit(100)]
    pub fn emulate_for_until<F: Fn(&CPU) -> bool>(&mut self, dt_micros: u64, halt: F) -> (r:
        Result<(), Error>)
        requires
            old(self)@.wf(),
            forall|c: &CPU| #[trigger] call_requires(halt, (c,)),
        ensures
            final(self)@.wf(),
            old(self)@.obs.exited ==> r == Err::<(), Error>(Error::Exited) && final(self)@ == old(
                self,
            )@,
            !old(self)@.obs.exited ==> r is Ok || (r matches Err(e) && !(e@ is Breakpoint)),
            !old(self)@.obs.exited && spec_tick_timers(old(self)@, dt_micros).vblank_wait ==> r
                is Ok && final(self)@ == spec_tick_timers(old(self)@, dt_micros),
            !old(self)@.obs.exited && !spec_tick_timers(old(self)@, dt_micros).vblank_wait
                && spec_tick_timers(old(self)@, dt_micros).obs.awaiting_key is Some ==> r is Ok
                && final(self)@ == spec_tick_timers(old(self)@, dt_micros),
            !old(self)@.obs.exited ==> final(self)@.timer_acc == spec_tick_timers(
                old(self)@,
                dt_micros,
            ).timer_acc,
            !old(self)@.obs.exited && r is Ok ==> final(self)@.cycle_budget <= 0
                || final(self)@.vblank_wait || final(self)@.obs.awaiting_key is Some,
            (r matches Err(e) && e@ is EarlyExitRequested) ==> final(self)@.cycle_budget == 0
                && exists|c: CPU| call_ensures(halt, (&c,), true),
            !old(self)@.obs.exited && !spec_tick_timers(old(self)@, dt_micros).vblank_wait
                && spec_tick_timers(old(self)@, dt_micros).obs.awaiting_key is None ==> ({
                let start = spec_tick_timers(old(self)@, dt_micros).obs;
                let budget0 = spec_add_budget(
                    spec_tick_timers(old(self)@, dt_micros).cycle_budget,
                    dt_micros,
                );
                exists|n: nat, mid: ObsView|
                    #[trigger] crate::instruction::semantics::spec_steps_to(start, mid, n) && ({
                        ||| (r is Ok && final(self)@.obs == mid && final(self)@.cycle_budget
                            == budget0 - n * (TIME_SCALE as int))
                        ||| (r matches Err(e) && e@ is EarlyExitRequested && final(self)@.obs
                            == mid && final(self)@.cycle_budget == 0)
                        ||| (r matches Err(e) && !(e@ is EarlyExitRequested) && final(self)@.obs
                            == crate::instruction::semantics::spec_step(mid).obs
                            && crate::instruction::semantics::spec_step(mid).res == Err::<
                            u32,
                            crate::common::ErrorV,
                        >(e@) && final(self)@.cycle_budget == budget0 - n * (TIME_SCALE as int))
                    })
            }),
    {
        if self.exited {
            return Err(Error::Exited);
        }
        self.tick_timers(dt_micros);
        proof {
            assert(crate::instruction::semantics::spec_steps_to(self@.obs, self@.obs, 0nat));
        }
        if self.vblank_wait {
            return Ok(());
        }
        if self.awaiting_key.is_some() {
            return Ok(());
        }
        self.add_budget(dt_micros);
        let ghost start = self@.obs;
        let ghost budget0 = self@.cycle_budget as int;
        let ghost mut steps: nat = 0;
        proof {
            assert(crate::instruction::semantics::spec_steps_to(start, start, 0nat));
        }
        while self.cycle_budget > 0
            invariant
                self@.wf(),
                old(self)@.obs.exited == false,
                start == spec_tick_timers(old(self)@, dt_micros).obs,
                !spec_tick_timers(old(self)@, dt_micros).vblank_wait,
                spec_tick_timers(old(self)@, dt_micros).obs.awaiting_key is None,
                budget0 == spec_add_budget(
                    spec_tick_timers(old(self)@, dt_micros).cycle_budget,
                    dt_micros,
                ),
                self@.timer_acc == spec_tick_timers(old(self)@, dt_micros).timer_acc,
                self@.vblank_wait == false,
                crate::instruction::semantics::spec_steps_to(start, self@.obs, steps),
                self@.cycle_budget == budget0 - steps * (TIME_SCALE as int),
                forall|c: &CPU| #[trigger] call_requires(halt, (c,)),
            decreases
                    (if self@.cycle_budget > 0 {
                        self@.cycle_budget as int
                    } else {
                        0
                    }),
        {
            proof {
                crate::instruction::semantics::lemma_step_cycles(self@.obs);
                crate::instruction::semantics::lemma_step_errors(self@.obs);
            }
            let ghost before = self@.obs;
            let b0: i64 = self.cycle_budget;
            let cycles: u32 = match self.step() {
                Ok(c) => c,
                Err(e) => {
                    return Err(e);
                },
            };
            let spend: i64 = (cycles as i64) * (TIME_SCALE as i64);
            self.cycle_budget = b0 - spend;
            proof {
                crate::instruction::semantics::lemma_steps_to_snoc(start, before, steps);
                steps = steps + 1;
            }
            let stop: bool = halt(&*self);
            if stop {
                proof {
                    let ghost witness = *self;
                    assert(call_ensures(halt, (&witness,), true));
                }
                self.cycle_budget = 0;
                return Err(Error::EarlyExitRequested);
            }
            if self.vblank_wait {
                return Ok(());
            }
            if self.awaiting_key.is_some() {
                return Ok(());
            }
        }
        Ok(())
    }

    /// The shared driver loop behind `emulate_for` and
    /// `emulate_breakpoints`.
    fn run_driver_loop(&mut self, dt_micros: u64, breakpoints: &Vec<u16>, use_bps: bool) -> (r:
        Result<(), Error>)
        requires
            old(self)@.wf(),
        ensures
            final(self)@.wf(),
            ({
                let em = spec_emulate(old(self)@, dt_micros, breakpoints@, use_bps);
                final(self)@ == em.cpu && crate::common::res_view(r) == em.res
            }),
    {
        if self.exited {
            return Err(Error::Exited);
        }
        self.tick_timers(dt_micros);
        if self.vblank_wait {
            return Ok(());
        }
        if self.awaiting_key.is_some() {
            return Ok(());
        }
        self.add_budget(dt_micros);
        let ghost entry = self@;
        while self.cycle_budget > 0
            invariant
                self@.wf(),
                entry.wf(),
                old(self)@.obs.exited == false,
                !spec_tick_timers(old(self)@, dt_micros).vblank_wait,
                spec_tick_timers(old(self)@, dt_micros).obs.awaiting_key is None,
                entry.obs == spec_tick_timers(old(self)@, dt_micros).obs,
                entry.timer_acc == spec_tick_timers(old(self)@, dt_micros).timer_acc,
                entry.cycle_budget == spec_add_budget(
                    spec_tick_timers(old(self)@, dt_micros).cycle_budget,
                    dt_micros,
                ),
                self@.vblank_wait == false,
                self@.obs.awaiting_key is None,
                self@.timer_acc == entry.timer_acc,
                spec_run(entry.obs, false, entry.cycle_budget, breakpoints@, use_bps) == spec_run(
                    self@.obs,
                    false,
                    self@.cycle_budget,
                    breakpoints@,
                    use_bps,
                ),
            decreases
                    (if self@.cycle_budget > 0 {
                        self@.cycle_budget as int
                    } else {
                        0
                    }),
        {
            proof {
                crate::instruction::semantics::lemma_step_cycles(self@.obs);
            }
            let cycles: u32 = match self.step() {
                Ok(c) => c,
                Err(e) => {
                    return Err(e);
                },
            };
            self.cycle_budget = self.cycle_budget - (cycles as i64) * (TIME_SCALE as i64);
            if use_bps && vec_contains_u16(breakpoints, self.pc) {
                self.cycle_budget = 0;
                return Err(Error::Breakpoint(self.pc));
            }
            if self.vblank_wait {
                return Ok(());
            }
            if self.awaiting_key.is_some() {
                return Ok(());
            }
        }
        Ok(())
    }
}

/// Whether a vector of addresses holds `x`.
fn vec_contains_u16(v: &Vec<u16>, x: u16) -> (r: bool)
    ensures
        r == v@.contains(x),
{
    let mut i: usize = 0;
    while i < v.len()
        invariant
            0 <= i <= v@.len(),
            forall|j: int| 0 <= j < i ==> v@[j] != x,
        decreases v@.len() - i,
    {
        if v[i] == x {
            return true;
        }
        i = i + 1;
    }
    proof {
        assert(!v@.contains(x));
    }
    false
}

/// Mathematical image of a `SavedState`.
pub ghost struct SavedStateView {
    pub mode: Chip8Mode,
    pub pc: u16,
    pub index: u16,
    pub registers: Seq<u8>,
    pub memory: Seq<u8>,
    pub screen: DisplayView,
    pub call_stack: Seq<u16>,
    pub delay_timer: u8,
    pub sound_timer: u8,
    pub awaiting_key: Option<Register>,
    pub seed: u64,
    pub persistent: Seq<u8>,
}

impl SavedStateView {
    pub open spec fn wf(self) -> bool {
        &&& self.registers.len() == 16
        &&& self.memory.len() == CHIP8_MEM_SIZE
        &&& self.screen.wf()
        &&& self.persistent.len() == 16
    }
}

/// The snapshot a given observable state and seed produce.
pub open spec fn spec_saved_of(o: ObsView, seed: u64) -> SavedStateView {
    SavedStateView {
        mode: o.mode,
        pc: o.pc,
        index: o.index,
        registers: o.registers,
        memory: o.memory,
        screen: o.screen,
        call_stack: o.call_stack,
        delay_timer: o.delay_timer,
        sound_timer: o.sound_timer,
        awaiting_key: o.awaiting_key,
        seed,
        persistent: o.persistent,
    }
}

/// The interpreter state that restoring a snapshot onto `v` produces: every
/// snapshot field overwritten, the exit latch, VBlank gate and pending-time
/// accumulators cleared, keypad and audio left as they were.
pub open spec fn spec_loaded(v: CpuView, s: SavedStateView) -> CpuView {
    CpuView {
        obs: ObsView {
            mode: s.mode,
            pc: s.pc,
            index: s.index,
            registers: s.registers,
            memory: s.memory,
            screen: s.screen,
            call_stack: s.call_stack,
            delay_timer: s.delay_timer,
            sound_timer: s.sound_timer,
            awaiting_key: s.awaiting_key,
            prng: s.seed,
            exited: false,
            audio: v.obs.audio,
            input: v.obs.input,
            persistent: s.persistent,
        },
        vblank_wait: false,
        cycle_budget: 0,
        timer_acc: 0,
    }
}

/// The PRNG state (and stored seed) after the refresh-then-reseed that
/// taking a snapshot performs.
pub open spec fn spec_refreshed_seed(prng: u64) -> u64 {
    crate::prng::wyrand_output(crate::prng::wyrand_advance(prng))
}

/// A deep snapshot of the interpreter: everything an instruction can
/// observe except the momentary keypad and the audio cursor.
#[derive(Debug)]
pub struct SavedState {
    pub mode: Chip8Mode,
    pub pc: u16,
    pub index: u16,
    pub registers: Vec<u8>,
    pub memory: Vec<u8>,
    pub screen: Display,
    pub call_stack: Vec<u16>,
    pub delay_timer: u8,
    pub sound_timer: u8,
    pub awaiting_key: Option<Register>,
    pub seed: u64,
    pub persistent_registers: Vec<u8>,
}

impl View for SavedState {
    type V = SavedStateView;

    open spec fn view(&self) -> SavedStateView {
        SavedStateView {
            mode: self.mode,
            pc: self.pc,
            index: self.index,
            registers: self.registers@,
            memory: self.memory@,
            screen: self.screen@,
            call_stack: self.call_stack@,
            delay_timer: self.delay_timer,
            sound_timer: self.sound_timer,
            awaiting_key: self.awaiting_key,
            seed: self.seed,
            persistent: self.persistent_registers@,
        }
    }
}

impl CPU {
    /// Takes a snapshot.  The PRNG is first asked for a fresh seed and
    /// restarted from it, so that replay from the snapshot and the
    /// interpreter's own future agree.  Fails with `Exited` after the exit
    /// instruction.
    pub fn save_state(&mut self) -> (r: Result<SavedState, Error>)
        requires
            old(self)@.wf(),
        ensures
            final(self)@.wf(),
            old(self)@.obs.exited ==> r == Err::<SavedState, Error>(Error::Exited) && final(self)@
                == old(self)@,
            !old(self)@.obs.exited ==> final(self)@ == (CpuView {
                obs: ObsView {
                    prng: spec_refreshed_seed(old(self)@.obs.prng),
                    ..old(self)@.obs
                },
                ..old(self)@
            }) && (r matches Ok(s) && s@ == spec_saved_of(
                old(self)@.obs,
                spec_refreshed_seed(old(self)@.obs.prng),
            ) && s@.wf()),
    {
        if self.exited {
            return Err(Error::Exited);
        }
        let seed: u64 = self.random_state.next_u64();
        self.random_state.reseed(seed);
        Ok(SavedState {
            mode: self.mode,
            pc: self.pc,
            index: self.index,
            registers: crate::common::copy_vec(&self.registers),
            memory: crate::common::copy_vec(&self.memory),
            screen: self.screen.duplicate(),
            call_stack: crate::common::copy_vec(&self.call_stack),
            delay_timer: self.delay_timer,
            sound_timer: self.sound_timer,
            awaiting_key: self.awaiting_key,
            seed,
            persistent_registers: crate::common::copy_vec(&self.persistent_registers),
        })
    }

    /// Restores a snapshot: every snapshot field is overwritten, the exit
    /// latch, VBlank gate and pending-time accumulators are cleared, and the
    /// PRNG restarts from the stored seed.
    pub fn load_state(&mut self, state: SavedState)
        requires
            old(self)@.wf(),
            state@.wf(),
        ensures
            final(self)@.wf(),
            final(self)@ == spec_loaded(old(self)@, state@),
    {
        self.mode = state.mode;
        self.exited = false;
        self.cycle_budget = 0;
        self.timer_acc = 0;
        self.vblank_wait = false;
        self.pc = state.pc;
        self.index = state.index;
        self.registers = state.registers;
        self.memory = state.memory;
        self.screen = state.screen;
        self.call_stack = state.call_stack;
        self.delay_timer = state.delay_timer;
        self.sound_timer = state.sound_timer;
        self.awaiting_key = state.awaiting_key;
        self.random_state.reseed(state.seed);
        self.persistent_registers = state.persistent_registers;
    }
}

} // verus!
