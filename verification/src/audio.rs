//! The XO-CHIP audio pattern generator.
//!
//! The beep is a 128-sample one-bit pattern played in a loop, with an
//! optional pitch byte that the host turns into a playback frequency
//! (`4000 * 2^((pitch - 64) / 48)` Hz, resampled at 48 kHz).  This module
//! owns the pattern, the pitch and the rotating cursor; turning bits into
//! amplitudes is the host's business.

use vstd::prelude::*;

verus! {

/// Nominal output sample rate, in Hz.
pub const SAMPLE_RATE: u32 = 48000;

/// Number of one-bit samples in the looped pattern.
pub const AUDIO_BUFFER_SIZE: usize = 128;

/// Mathematical image of an `Audio`.
pub ghost struct AudioView {
    pub pattern: Seq<bool>,
    pub pitch: Option<u8>,
    pub cursor: int,
}

impl AudioView {
    pub open spec fn wf(self) -> bool {
        &&& self.pattern.len() == AUDIO_BUFFER_SIZE
        &&& 0 <= self.cursor < AUDIO_BUFFER_SIZE
    }
}

/// Bit `j` (0 is the most significant) of a pattern byte.
pub open spec fn bit_of_byte(b: u8, j: int) -> bool {
    (b >> ((7 - j) as u8)) & 1 == 1
}

/// The 128 pattern samples encoded by 16 bytes, most significant bit first.
pub open spec fn expand_pattern(bytes: Seq<u8>) -> Seq<bool> {
    Seq::new(AUDIO_BUFFER_SIZE as nat, |i: int| bit_of_byte(bytes[i / 8], i % 8))
}

/// The default pattern bytes: a square wave of nine on-samples in every
/// sixteen, which the default pitch turns into roughly 440 Hz.
pub open spec fn spec_default_pattern_bytes() -> Seq<u8> {
    seq![
        0xFFu8, 0x80u8, 0xFFu8, 0x80u8, 0xFFu8, 0x80u8, 0xFFu8, 0x80u8,
        0xFFu8, 0x80u8, 0xFFu8, 0x80u8, 0xFFu8, 0x80u8, 0xFFu8, 0x80u8,
    ]
}

/// The audio state: pattern, pitch and cursor.
#[derive(Clone, Debug)]
pub struct Audio {
    pub pattern: Vec<bool>,
    pub pitch: Option<u8>,
    pub cursor: usize,
}

impl View for Audio {
    type V = AudioView;

    open spec fn view(&self) -> AudioView {
        AudioView { pattern: self.pattern@, pitch: self.pitch, cursor: self.cursor as int }
    }
}

impl Audio {
    /// The default beep: square-wave pattern, no pitch override, cursor at
    /// the start.
    pub fn new() -> (r: Audio)
        ensures
            r@.wf(),
            r@.pattern == expand_pattern(spec_default_pattern_bytes()),
            r@.pitch is None,
            r@.cursor == 0,
    {
        let mut bytes: Vec<u8> = Vec::new();
        let mut i: usize = 0;
        while i < 8
            invariant
                0 <= i <= 8,
                bytes@.len() == 2 * i,
                forall|j: int|
                    0 <= j < 2 * i ==> bytes@[j] == spec_default_pattern_bytes()[j],
            decreases 8 - i,
        {
            bytes.push(0xFF);
            bytes.push(0x80);
            i = i + 1;
        }
        proof {
            assert(bytes@ =~= spec_default_pattern_bytes());
        }
        let mut audio = Audio { pattern: Vec::new(), pitch: None, cursor: 0 };
        audio.install_pattern(&bytes);
        audio
    }

    /// Overrides the pitch byte.
    pub fn set_pitch(&mut self, pitch: u8)
        ensures
            final(self)@ == (AudioView { pitch: Some(pitch), ..old(self)@ }),
    {
        self.pitch = Some(pitch);
    }

    /// The pitch byte, if one has been set.
    pub fn pitch(&self) -> (r: Option<u8>)
        ensures
            r == self@.pitch,
    {
        self.pitch
    }

    /// Loads a fresh 128-sample pattern from the first 16 bytes given, most
    /// significant bit first.
    pub fn write_pattern(&mut self, bytes: &Vec<u8>)
        requires
            bytes@.len() >= 16,
        ensures
            final(self)@ == (AudioView {
                pattern: expand_pattern(bytes@.subrange(0, 16)),
                ..old(self)@
            }),
            final(self)@.pattern.len() == AUDIO_BUFFER_SIZE,
    {
        self.install_pattern(bytes);
    }

    /// Replaces the whole pattern from the first 16 bytes of `bytes`.
    fn install_pattern(&mut self, bytes: &Vec<u8>)
        requires
            bytes@.len() >= 16,
        ensures
            final(self)@ == (AudioView {
                pattern: expand_pattern(bytes@.subrange(0, 16)),
                ..old(self)@
            }),
            final(self)@.pattern.len() == AUDIO_BUFFER_SIZE,
    {
        let mut fresh: Vec<bool> = Vec::new();
        let mut i: usize = 0;
        while i < AUDIO_BUFFER_SIZE
            invariant
                bytes@.len() >= 16,
                0 <= i <= AUDIO_BUFFER_SIZE,
                fresh@.len() == i,
                forall|k: int|
                    0 <= k < i ==> fresh@[k] == expand_pattern(bytes@.subrange(0, 16))[k],
            decreases AUDIO_BUFFER_SIZE - i,
        {
            let b: u8 = bytes[i / 8];
            let shift: u8 = (7 - (i % 8)) as u8;
            let bit: bool = (b >> shift) & 1 == 1;
            proof {
                assert(bytes@.subrange(0, 16)[i as int / 8] == bytes@[i as int / 8]);
            }
            fresh.push(bit);
            i = i + 1;
        }
        proof {
            assert(fresh@ =~= expand_pattern(bytes@.subrange(0, 16)));
        }
        self.pattern = fresh;
    }

    /// Hands out the next `n` one-bit samples, advancing the cursor modulo
    /// the pattern length.
    pub fn pattern_window(&mut self, n: usize) -> (r: Vec<bool>)
        requires
            old(self)@.wf(),
        ensures
            final(self)@.wf(),
            r@.len() == n,
            forall|i: int|
                0 <= i < n ==> r@[i] == old(self)@.pattern[(old(self)@.cursor + i) % (
                AUDIO_BUFFER_SIZE as int)],
            final(self)@ == (AudioView {
                cursor: (old(self)@.cursor + n) % (AUDIO_BUFFER_SIZE as int),
                ..old(self)@
            }),
    {
        let ghost c0 = self@.cursor;
        let mut out: Vec<bool> = Vec::new();
        let mut i: usize = 0;
        while i < n
            invariant
                self@.wf(),
                0 <= i <= n,
                out@.len() == i,
                self@.pattern == old(self)@.pattern,
                self@.pitch == old(self)@.pitch,
                c0 == old(self)@.cursor,
                0 <= c0 < AUDIO_BUFFER_SIZE,
                self@.cursor == (c0 + i) % (AUDIO_BUFFER_SIZE as int),
                forall|k: int|
                    0 <= k < i ==> out@[k] == old(self)@.pattern[(c0 + k) % (
                    AUDIO_BUFFER_SIZE as int)],
            decreases n - i,
        {
            out.push(self.pattern[self.cursor]);
            proof {
                vstd::arithmetic::div_mod::lemma_mod_adds(c0 + i, 1, AUDIO_BUFFER_SIZE as int);
            }
            if self.cursor == AUDIO_BUFFER_SIZE - 1 {
                self.cursor = 0;
            } else {
                self.cursor = self.cursor + 1;
            }
            i = i + 1;
        }
        out
    }
}

impl Default for Audio {
    /// The default beep.
    fn default() -> (r: Audio)
        ensures
            r@.wf(),
            r@.pattern == expand_pattern(spec_default_pattern_bytes()),
            r@.pitch is None,
            r@.cursor == 0,
    {
        Audio::new()
    }
}

} // verus!
