//! The sixteen named 8-bit registers V0..VF.

use vstd::prelude::*;

verus! {

/// Error for a register index outside 0x0..=0xF.
#[derive(Copy, Clone, Debug, Default, Eq, Hash, Ord, PartialEq, PartialOrd)]
pub struct RegisterOutOfRange;

/// One of the sixteen general-purpose registers.  VF doubles as the flag
/// register: carry, not-borrow, sprite collision and shifted-out bit land
/// there.
#[derive(Copy, Clone, Debug, Eq, Hash, Ord, PartialEq, PartialOrd, Structural)]
pub enum Register {
    V0,
    V1,
    V2,
    V3,
    V4,
    V5,
    V6,
    V7,
    V8,
    V9,
    VA,
    VB,
    VC,
    VD,
    VE,
    VF,
}

impl Register {
    /// The register with a given 4-bit index.
    pub open spec fn spec_from_index(i: int) -> Register {
        if i == 0 {
            Register::V0
        } else if i == 1 {
            Register::V1
        } else if i == 2 {
            Register::V2
        } else if i == 3 {
            Register::V3
        } else if i == 4 {
            Register::V4
        } else if i == 5 {
            Register::V5
        } else if i == 6 {
            Register::V6
        } else if i == 7 {
            Register::V7
        } else if i == 8 {
            Register::V8
        } else if i == 9 {
            Register::V9
        } else if i == 10 {
            Register::VA
        } else if i == 11 {
            Register::VB
        } else if i == 12 {
            Register::VC
        } else if i == 13 {
            Register::VD
        } else if i == 14 {
            Register::VE
        } else {
            Register::VF
        }
    }

    /// The register's 4-bit index.
    pub open spec fn spec_index(self) -> int {
        match self {
            Register::V0 => 0,
            Register::V1 => 1,
            Register::V2 => 2,
            Register::V3 => 3,
            Register::V4 => 4,
            Register::V5 => 5,
            Register::V6 => 6,
            Register::V7 => 7,
            Register::V8 => 8,
            Register::V9 => 9,
            Register::VA => 10,
            Register::VB => 11,
            Register::VC => 12,
            Register::VD => 13,
            Register::VE => 14,
            Register::VF => 15,
        }
    }

    /// The register's 4-bit index, as a byte.
    pub fn index(self) -> (r: u8)
        ensures
            r == self.spec_index(),
            r < 16,
    {
        match self {
            Register::V0 => 0,
            Register::V1 => 1,
            Register::V2 => 2,
            Register::V3 => 3,
            Register::V4 => 4,
            Register::V5 => 5,
            Register::V6 => 6,
            Register::V7 => 7,
            Register::V8 => 8,
            Register::V9 => 9,
            Register::VA => 10,
            Register::VB => 11,
            Register::VC => 12,
            Register::VD => 13,
            Register::VE => 14,
            Register::VF => 15,
        }
    }

    /// The register with the given index, for indices 0x0..=0xF.
    pub fn from_index(idx: u8) -> (r: Option<Register>)
        ensures
            idx < 16 ==> (r matches Some(reg) && reg.spec_index() == idx),
            idx >= 16 ==> r is None,
    {
        if idx == 0 {
            Some(Register::V0)
        } else if idx == 1 {
            Some(Register::V1)
        } else if idx == 2 {
            Some(Register::V2)
        } else if idx == 3 {
            Some(Register::V3)
        } else if idx == 4 {
            Some(Register::V4)
        } else if idx == 5 {
            Some(Register::V5)
        } else if idx == 6 {
            Some(Register::V6)
        } else if idx == 7 {
            Some(Register::V7)
        } else if idx == 8 {
            Some(Register::V8)
        } else if idx == 9 {
            Some(Register::V9)
        } else if idx == 10 {
            Some(Register::VA)
        } else if idx == 11 {
            Some(Register::VB)
        } else if idx == 12 {
            Some(Register::VC)
        } else if idx == 13 {
            Some(Register::VD)
        } else if idx == 14 {
            Some(Register::VE)
        } else if idx == 15 {
            Some(Register::VF)
        } else {
            None
        }
    }

    /// The register with the given index, or `RegisterOutOfRange`.
    pub fn try_from_index(idx: u8) -> (r: Result<Register, RegisterOutOfRange>)
        ensures
            idx < 16 ==> (r matches Ok(reg) && reg.spec_index() == idx),
            idx >= 16 ==> r == Err::<Register, RegisterOutOfRange>(RegisterOutOfRange),
    {
        match Register::from_index(idx) {
            Some(reg) => Ok(reg),
            None => Err(RegisterOutOfRange),
        }
    }

    /// Parses a register name: `v` or `V` followed by one digit `0`-`9` or
    /// upper-case letter `A`-`F`.
    pub fn by_name(name: &str) -> (r: Option<Register>)
        ensures
            r matches Some(reg) ==> reg_name_ok(name) && reg.spec_index() == reg_digit_val(
                name@[1] as u8,
            ),
            r is None ==> !reg_name_ok(name),
    {
        if !name.is_ascii() {
            return None;
        }
        if name.unicode_len() != 2 {
            return None;
        }
        let b0: u8 = name.get_ascii(0);
        let b1: u8 = name.get_ascii(1);
        if b0 != 118 && b0 != 86 {
            return None;
        }
        let v: i8 = reg_digit_val_exec(b1);
        if v < 0 {
            return None;
        }
        Register::from_index(v as u8)
    }
}

/// Value of one register-name digit byte: `0`-`9` or upper-case `A`-`F`;
/// -1 otherwise.
pub open spec fn reg_digit_val(b: u8) -> int {
    if 48 <= b <= 57 {
        b - 48
    } else if 65 <= b <= 70 {
        b - 65 + 10
    } else {
        -1
    }
}

/// Whether `s` is a well-formed register name: `v` or `V` followed by one
/// digit `0`-`9` or upper-case letter `A`-`F`.
pub open spec fn reg_name_ok(s: &str) -> bool {
    &&& s.is_ascii()
    &&& s@.len() == 2
    &&& (s@[0] as u8 == 118 || s@[0] as u8 == 86)
    &&& reg_digit_val(s@[1] as u8) >= 0
}

fn reg_digit_val_exec(b: u8) -> (r: i8)
    ensures
        r == reg_digit_val(b),
{
    if 48 <= b && b <= 57 {
        (b - 48) as i8
    } else if 65 <= b && b <= 70 {
        (b - 65 + 10) as i8
    } else {
        -1
    }
}

} // verus!
