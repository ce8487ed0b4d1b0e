//! Shared vocabulary of the interpreter: the dialect tag and the error type.

use vstd::prelude::*;

verus! {

/// The three interpreter dialects this crate emulates.  The dialect never
/// changes how instructions are decoded, only which handler (if any) a
/// decoded instruction dispatches to and which quirks that handler applies.
#[derive(Clone, Copy, Debug, PartialEq, Eq, Structural)]
pub enum Chip8Mode {
    Cosmac,
    SuperChip,
    XoChip,
}

impl Chip8Mode {
    /// The conventional numbering of the dialects: 0, 1, 2 in order of
    /// historical appearance.
    pub open spec fn spec_index(self) -> u8 {
        match self {
            Chip8Mode::Cosmac => 0,
            Chip8Mode::SuperChip => 1,
            Chip8Mode::XoChip => 2,
        }
    }

    pub fn index(self) -> (r: u8)
        ensures
            r == self.spec_index(),
    {
        match self {
            Chip8Mode::Cosmac => 0,
            Chip8Mode::SuperChip => 1,
            Chip8Mode::XoChip => 2,
        }
    }

    /// Human-readable dialect name.
    pub fn name(self) -> (r: &'static str)
        ensures
            self is Cosmac ==> r@ == "Cosmac"@,
            self is SuperChip ==> r@ == "Super-CHIP"@,
            self is XoChip ==> r@ == "XO-CHIP"@,
    {
        match self {
            Chip8Mode::Cosmac => "Cosmac",
            Chip8Mode::SuperChip => "Super-CHIP",
            Chip8Mode::XoChip => "XO-CHIP",
        }
    }

    /// Parses a dialect name, ignoring ASCII case: "cosmac", "super-chip" or
    /// "xo-chip".
    pub fn by_name(name: &str) -> (r: Result<Chip8Mode, Chip8ModeParseError>)
        ensures
            r == Ok::<Chip8Mode, Chip8ModeParseError>(Chip8Mode::Cosmac) <==> ascii_name_matches(
                name,
                "cosmac",
            ),
            r == Ok::<Chip8Mode, Chip8ModeParseError>(Chip8Mode::SuperChip) <==> ascii_name_matches(
                name,
                "super-chip",
            ),
            r == Ok::<Chip8Mode, Chip8ModeParseError>(Chip8Mode::XoChip) <==> ascii_name_matches(
                name,
                "xo-chip",
            ),
            r is Err <==> !ascii_name_matches(name, "cosmac") && !ascii_name_matches(
                name,
                "super-chip",
            ) && !ascii_name_matches(name, "xo-chip"),
    {
        proof {
            reveal_strlit("cosmac");
            reveal_strlit("super-chip");
            reveal_strlit("xo-chip");
        }
        if eq_ignore_ascii_case(name, "cosmac") {
            Ok(Chip8Mode::Cosmac)
        } else if eq_ignore_ascii_case(name, "super-chip") {
            Ok(Chip8Mode::SuperChip)
        } else if eq_ignore_ascii_case(name, "xo-chip") {
            Ok(Chip8Mode::XoChip)
        } else {
            Err(Chip8ModeParseError::InvalidMode)
        }
    }
}

impl Default for Chip8Mode {
    /// The original COSMAC VIP dialect.
    fn default() -> (r: Self)
        ensures
            r == Chip8Mode::Cosmac,
    {
        Chip8Mode::Cosmac
    }
}

/// Failure to recognise a dialect name.
#[derive(Clone, Copy, Debug, PartialEq, Eq, Structural)]
pub enum Chip8ModeParseError {
    InvalidMode,
}

/// Everything that can go wrong while driving the interpreter.
#[derive(Clone, Copy, Debug, PartialEq, Eq)]
pub enum Error {
    /// The fetched word decodes to no instruction at all.
    UnknownOpcode(u16),
    /// The driver stopped at a breakpoint.
    Breakpoint(u16),
    /// A ROM image too large for memory.
    InvalidFile,
    /// An out-of-range memory access.
    OutOfBounds,
    /// Execution was requested with no ROM loaded.
    NoRomLoaded,
    /// The program has executed the exit instruction.
    Exited,
    /// The instruction exists but not in the running dialect; carries the
    /// disassembly text and the dialect.
    NotDefined(&'static str, Chip8Mode),
    /// A halt predicate asked the driver to stop early.
    EarlyExitRequested,
}

/// Abstract shape of an `Error`, with the disassembly text dropped; the
/// interpreter's contracts speak of errors through this view.
#[derive(Clone, Copy, Debug, PartialEq, Eq, Structural)]
pub enum ErrorV {
    UnknownOpcode(u16),
    Breakpoint(u16),
    InvalidFile,
    OutOfBounds,
    NoRomLoaded,
    Exited,
    NotDefined(Chip8Mode),
    EarlyExitRequested,
}

impl View for Error {
    type V = ErrorV;

    open spec fn view(&self) -> ErrorV {
        match *self {
            Error::UnknownOpcode(op) => ErrorV::UnknownOpcode(op),
            Error::Breakpoint(at) => ErrorV::Breakpoint(at),
            Error::InvalidFile => ErrorV::InvalidFile,
            Error::OutOfBounds => ErrorV::OutOfBounds,
            Error::NoRomLoaded => ErrorV::NoRomLoaded,
            Error::Exited => ErrorV::Exited,
            Error::NotDefined(_, mode) => ErrorV::NotDefined(mode),
            Error::EarlyExitRequested => ErrorV::EarlyExitRequested,
        }
    }
}

/// Lower-cases one ASCII byte; other bytes pass through.
pub open spec fn lower_byte(b: u8) -> u8 {
    if 65 <= b <= 90 {
        (b + 32) as u8
    } else {
        b
    }
}

/// Whether `s` spells `t` up to ASCII case.  `t` is expected to be an ASCII
/// pattern; a non-ASCII `s` matches nothing.
pub open spec fn ascii_name_matches(s: &str, t: &str) -> bool {
    &&& s.is_ascii()
    &&& s@.len() == t@.len()
    &&& forall|i: int|
        0 <= i < s@.len() ==> lower_byte(s@[i] as u8) == lower_byte(#[trigger] t@[i] as u8)
}

/// Lower-cases one ASCII byte.
pub(crate) fn lower_byte_exec(b: u8) -> (r: u8)
    ensures
        r == lower_byte(b),
{
    if 65 <= b && b <= 90 {
        b + 32
    } else {
        b
    }
}

/// ASCII-case-insensitive string comparison.
pub(crate) fn eq_ignore_ascii_case(s: &str, t: &str) -> (r: bool)
    requires
        t.is_ascii(),
    ensures
        r == ascii_name_matches(s, t),
{
    if !s.is_ascii() {
        return false;
    }
    let n: usize = s.unicode_len();
    if n != t.unicode_len() {
        return false;
    }
    let mut i: usize = 0;
    while i < n
        invariant
            0 <= i <= n,
            n == s@.len(),
            n == t@.len(),
            s.is_ascii(),
            t.is_ascii(),
            forall|j: int| 0 <= j < i ==> lower_byte(s@[j] as u8) == lower_byte(#[trigger] t@[j] as u8),
        decreases n - i,
    {
        let a: u8 = s.get_ascii(i);
        let b: u8 = t.get_ascii(i);
        if lower_byte_exec(a) != lower_byte_exec(b) {
            return false;
        }
        i = i + 1;
    }
    true
}

/// A result with its error abstracted to the `ErrorV` view.
pub open spec fn res_view<T>(r: Result<T, Error>) -> Result<T, ErrorV> {
    match r {
        Ok(v) => Ok(v),
        Err(e) => Err(e@),
    }
}

/// An element-for-element copy of a vector of plain values.
pub(crate) fn copy_vec<T: Copy>(v: &Vec<T>) -> (r: Vec<T>)
    ensures
        r@ == v@,
{
    let mut r: Vec<T> = Vec::new();
    let mut i: usize = 0;
    while i < v.len()
        invariant
            0 <= i <= v@.len(),
            r@.len() == i,
            forall|j: int| 0 <= j < i ==> r@[j] == v@[j],
        decreases v@.len() - i,
    {
        r.push(v[i]);
        i = i + 1;
    }
    proof {
        assert(r@ =~= v@);
    }
    r
}

} // verus!
