//! Instruction decoding.
//!
//! A 16-bit word decodes, by its four nibbles, to a table entry carrying one
//! operation slot per dialect (an empty slot means the instruction exists
//! but not there), a cycle cost and a disassembly text.  Decoding is pure
//! and never touches interpreter state.

pub mod semantics;
pub mod handlers;

use vstd::prelude::*;

verus! {

/// Every operation the interpreter can perform.  Dialect quirks that change
/// an instruction's meaning appear as separate operations, so a table entry
/// can route one opcode differently per dialect.
#[derive(Clone, Copy, Debug, PartialEq, Eq, Structural)]
pub enum Op {
    Nop,
    ScrollDown,
    ScrollUp,
    Clear,
    Return,
    ScrollRight,
    ScrollLeft,
    Exit,
    LowRes,
    HighRes,
    Goto,
    Call,
    IfEqual,
    IfInequal,
    IfEqualRegister,
    RegDumpXY,
    RegLoadXY,
    SetRegister,
    PluseqImmediate,
    MoveRegister,
    OreqRegisterCosmac,
    OreqRegister,
    AndeqRegisterCosmac,
    AndeqRegister,
    XoreqRegisterCosmac,
    XoreqRegister,
    PluseqRegister,
    MinuseqRegister,
    ShiftRight,
    ShiftRightSchip,
    SubtractRegister,
    ShiftLeft,
    ShiftLeftSchip,
    IfInequalRegister,
    SetIndex,
    JumpV0,
    JumpV0Schip,
    Random,
    DrawCosmac,
    DrawSchip,
    DrawXochip,
    KeyEqual,
    KeyInequal,
    SetLongIndex,
    SetBitplane,
    SetAudioBuffer,
    GetDelay,
    GetKey,
    SetDelay,
    SetSound,
    AddToIndex,
    SpriteAddrIndex,
    BigSpriteAddrIndex,
    Bcd,
    SetAudioPitch,
    RegDump,
    RegDumpSchip,
    RegLoad,
    RegLoadSchip,
    PersistDump,
    PersistLoad,
}

/// The dialect routing of one decoded opcode.
#[derive(Clone, Copy, Debug, PartialEq, Eq, Structural)]
pub struct DecodeEntry {
    pub cosmac: Option<Op>,
    pub schip: Option<Op>,
    pub xochip: Option<Op>,
}

/// A decoded instruction: the per-dialect routing plus cycle cost and
/// disassembly text.
#[derive(Clone, Copy, Debug)]
pub struct Instruction {
    pub cosmac: Option<Op>,
    pub schip: Option<Op>,
    pub xochip: Option<Op>,
    pub cycles: u32,
    pub disassembly: &'static str,
}

/// The decode table: the routing (if any) of a 16-bit opcode.
#[verifier::opaque]
pub open spec fn spec_decode(opcode: u16) -> Option<DecodeEntry> {
    let h = (opcode >> 12) & 0xF;
    let x = (opcode >> 8) & 0xF;
    let y = (opcode >> 4) & 0xF;
    let n = opcode & 0xF;
    if false {
        None
    } else if h == 0x0 && x == 0x0 && y == 0x0 && n == 0x0 {
        Some(DecodeEntry { cosmac: Some(Op::Nop), schip: Some(Op::Nop), xochip: Some(Op::Nop) })
    } else if h == 0x0 && x == 0x0 && y == 0xC {
        Some(DecodeEntry { cosmac: None, schip: Some(Op::ScrollDown), xochip: Some(Op::ScrollDown) })
    } else if h == 0x0 && x == 0x0 && y == 0xD {
        Some(DecodeEntry { cosmac: None, schip: None, xochip: Some(Op::ScrollUp) })
    } else if h == 0x0 && x == 0x0 && y == 0xE && n == 0x0 {
        Some(DecodeEntry { cosmac: Some(Op::Clear), schip: Some(Op::Clear), xochip: Some(Op::Clear) })
    } else if h == 0x0 && x == 0x0 && y == 0xE && n == 0xE {
        Some(DecodeEntry { cosmac: Some(Op::Return), schip: Some(Op::Return), xochip: Some(Op::Return) })
    } else if h == 0x0 && x == 0x0 && y == 0xF && n == 0xB {
        Some(DecodeEntry { cosmac: None, schip: Some(Op::ScrollRight), xochip: Some(Op::ScrollRight) })
    } else if h == 0x0 && x == 0x0 && y == 0xF && n == 0xC {
        Some(DecodeEntry { cosmac: None, schip: Some(Op::ScrollLeft), xochip: Some(Op::ScrollLeft) })
    } else if h == 0x0 && x == 0x0 && y == 0xF && n == 0xD {
        Some(DecodeEntry { cosmac: None, schip: Some(Op::Exit), xochip: Some(Op::Exit) })
    } else if h == 0x0 && x == 0x0 && y == 0xF && n == 0xE {
        Some(DecodeEntry { cosmac: None, schip: Some(Op::LowRes), xochip: Some(Op::LowRes) })
    } else if h == 0x0 && x == 0x0 && y == 0xF && n == 0xF {
        Some(DecodeEntry { cosmac: None, schip: Some(Op::HighRes), xochip: Some(Op::HighRes) })
    } else if h == 0x1 {
        Some(DecodeEntry { cosmac: Some(Op::Goto), schip: Some(Op::Goto), xochip: Some(Op::Goto) })
    } else if h == 0x2 {
        Some(DecodeEntry { cosmac: Some(Op::Call), schip: Some(Op::Call), xochip: Some(Op::Call) })
    } else if h == 0x3 {
        Some(DecodeEntry { cosmac: Some(Op::IfEqual), schip: Some(Op::IfEqual), xochip: Some(Op::IfEqual) })
    } else if h == 0x4 {
        Some(DecodeEntry { cosmac: Some(Op::IfInequal), schip: Some(Op::IfInequal), xochip: Some(Op::IfInequal) })
    } else if h == 0x5 && n == 0x0 {
        Some(DecodeEntry { cosmac: Some(Op::IfEqualRegister), schip: Some(Op::IfEqualRegister), xochip: Some(Op::IfEqualRegister) })
    } else if h == 0x5 && n == 0x2 {
        Some(DecodeEntry { cosmac: None, schip: None, xochip: Some(Op::RegDumpXY) })
    } else if h == 0x5 && n == 0x3 {
        Some(DecodeEntry { cosmac: None, schip: None, xochip: Some(Op::RegLoadXY) })
    } else if h == 0x6 {
        Some(DecodeEntry { cosmac: Some(Op::SetRegister), schip: Some(Op::SetRegister), xochip: Some(Op::SetRegister) })
    } else if h == 0x7 {
        Some(DecodeEntry { cosmac: Some(Op::PluseqImmediate), schip: Some(Op::PluseqImmediate), xochip: Some(Op::PluseqImmediate) })
    } else if h == 0x8 && n == 0x0 {
        Some(DecodeEntry { cosmac: Some(Op::MoveRegister), schip: Some(Op::MoveRegister), xochip: Some(Op::MoveRegister) })
    } else if h == 0x8 && n == 0x1 {
        Some(DecodeEntry { cosmac: Some(Op::OreqRegisterCosmac), schip: Some(Op::OreqRegister), xochip: Some(Op::OreqRegister) })
    } else if h == 0x8 && n == 0x2 {
        Some(DecodeEntry { cosmac: Some(Op::AndeqRegisterCosmac), schip: Some(Op::AndeqRegister), xochip: Some(Op::AndeqRegister) })
    } else if h == 0x8 && n == 0x3 {
        Some(DecodeEntry { cosmac: Some(Op::XoreqRegisterCosmac), schip: Some(Op::XoreqRegister), xochip: Some(Op::XoreqRegister) })
    } else if h == 0x8 && n == 0x4 {
        Some(DecodeEntry { cosmac: Some(Op::PluseqRegister), schip: Some(Op::PluseqRegister), xochip: Some(Op::PluseqRegister) })
    } else if h == 0x8 && n == 0x5 {
        Some(DecodeEntry { cosmac: Some(Op::MinuseqRegister), schip: Some(Op::MinuseqRegister), xochip: Some(Op::MinuseqRegister) })
    } else if h == 0x8 && n == 0x6 {
        Some(DecodeEntry { cosmac: Some(Op::ShiftRight), schip: Some(Op::ShiftRightSchip), xochip: Some(Op::ShiftRight) })
    } else if h == 0x8 && n == 0x7 {
        Some(DecodeEntry { cosmac: Some(Op::SubtractRegister), schip: Some(Op::SubtractRegister), xochip: Some(Op::SubtractRegister) })
    } else if h == 0x8 && n == 0xE {
        Some(DecodeEntry { cosmac: Some(Op::ShiftLeft), schip: Some(Op::ShiftLeftSchip), xochip: Some(Op::ShiftLeft) })
    } else if h == 0x9 {
        Some(DecodeEntry { cosmac: Some(Op::IfInequalRegister), schip: Some(Op::IfInequalRegister), xochip: Some(Op::IfInequalRegister) })
    } else if h == 0xA {
        Some(DecodeEntry { cosmac: Some(Op::SetIndex), schip: Some(Op::SetIndex), xochip: Some(Op::SetIndex) })
    } else if h == 0xB {
        Some(DecodeEntry { cosmac: Some(Op::JumpV0), schip: Some(Op::JumpV0Schip), xochip: Some(Op::JumpV0) })
    } else if h == 0xC {
        Some(DecodeEntry { cosmac: Some(Op::Random), schip: Some(Op::Random), xochip: Some(Op::Random) })
    } else if h == 0xD {
        Some(DecodeEntry { cosmac: Some(Op::DrawCosmac), schip: Some(Op::DrawSchip), xochip: Some(Op::DrawXochip) })
    } else if h == 0xE && y == 0x9 && n == 0xE {
        Some(DecodeEntry { cosmac: Some(Op::KeyEqual), schip: Some(Op::KeyEqual), xochip: Some(Op::KeyEqual) })
    } else if h == 0xE && y == 0xA && n == 0x1 {
        Some(DecodeEntry { cosmac: Some(Op::KeyInequal), schip: Some(Op::KeyInequal), xochip: Some(Op::KeyInequal) })
    } else if h == 0xF && x == 0x0 && y == 0x0 && n == 0x0 {
        Some(DecodeEntry { cosmac: None, schip: None, xochip: Some(Op::SetLongIndex) })
    } else if h == 0xF && y == 0x0 && n == 0x1 {
        Some(DecodeEntry { cosmac: None, schip: None, xochip: Some(Op::SetBitplane) })
    } else if h == 0xF && y == 0x0 && n == 0x2 {
        Some(DecodeEntry { cosmac: None, schip: None, xochip: Some(Op::SetAudioBuffer) })
    } else if h == 0xF && y == 0x0 && n == 0x7 {
        Some(DecodeEntry { cosmac: Some(Op::GetDelay), schip: Some(Op::GetDelay), xochip: Some(Op::GetDelay) })
    } else if h == 0xF && y == 0x0 && n == 0xA {
        Some(DecodeEntry { cosmac: Some(Op::GetKey), schip: Some(Op::GetKey), xochip: Some(Op::GetKey) })
    } else if h == 0xF && y == 0x1 && n == 0x5 {
        Some(DecodeEntry { cosmac: Some(Op::SetDelay), schip: Some(Op::SetDelay), xochip: Some(Op::SetDelay) })
    } else if h == 0xF && y == 0x1 && n == 0x8 {
        Some(DecodeEntry { cosmac: Some(Op::SetSound), schip: Some(Op::SetSound), xochip: Some(Op::SetSound) })
    } else if h == 0xF && y == 0x1 && n == 0xE {
        Some(DecodeEntry { cosmac: Some(Op::AddToIndex), schip: Some(Op::AddToIndex), xochip: Some(Op::AddToIndex) })
    } else if h == 0xF && y == 0x2 && n == 0x9 {
        Some(DecodeEntry { cosmac: Some(Op::SpriteAddrIndex), schip: Some(Op::SpriteAddrIndex), xochip: Some(Op::SpriteAddrIndex) })
    } else if h == 0xF && y == 0x3 && n == 0x0 {
        Some(DecodeEntry { cosmac: None, schip: Some(Op::BigSpriteAddrIndex), xochip: Some(Op::BigSpriteAddrIndex) })
    } else if h == 0xF && y == 0x3 && n == 0x3 {
        Some(DecodeEntry { cosmac: Some(Op::Bcd), schip: Some(Op::Bcd), xochip: Some(Op::Bcd) })
    } else if h == 0xF && y == 0x3 && n == 0xA {
        Some(DecodeEntry { cosmac: None, schip: None, xochip: Some(Op::SetAudioPitch) })
    } else if h == 0xF && y == 0x5 && n == 0x5 {
        Some(DecodeEntry { cosmac: Some(Op::RegDump), schip: Some(Op::RegDumpSchip), xochip: Some(Op::RegDump) })
    } else if h == 0xF && y == 0x6 && n == 0x5 {
        Some(DecodeEntry { cosmac: Some(Op::RegLoad), schip: Some(Op::RegLoadSchip), xochip: Some(Op::RegLoad) })
    } else if h == 0xF && y == 0x7 && n == 0x5 {
        Some(DecodeEntry { cosmac: None, schip: Some(Op::PersistDump), xochip: Some(Op::PersistDump) })
    } else if h == 0xF && y == 0x8 && n == 0x5 {
        Some(DecodeEntry { cosmac: None, schip: Some(Op::PersistLoad), xochip: Some(Op::PersistLoad) })
    } else {
        None
    }
}

/// The operation `mode` routes a decoded entry to.
pub open spec fn spec_decode_for_mode(e: DecodeEntry, mode: crate::common::Chip8Mode) -> Option<
    Op,
> {
    match mode {
        crate::common::Chip8Mode::Cosmac => e.cosmac,
        crate::common::Chip8Mode::SuperChip => e.schip,
        crate::common::Chip8Mode::XoChip => e.xochip,
    }
}

/// The disassembly text of each decodable opcode.
#[verifier::opaque]
pub open spec fn spec_mnemonic(opcode: u16) -> &'static str {
    let h = (opcode >> 12) & 0xF;
    let x = (opcode >> 8) & 0xF;
    let y = (opcode >> 4) & 0xF;
    let n = opcode & 0xF;
    if false {
        ""
    } else if h == 0x0 && x == 0x0 && y == 0x0 && n == 0x0 {
        "(void) 0;"
    } else if h == 0x0 && x == 0x0 && y == 0xC {
        "scroll_down(N);"
    } else if h == 0x0 && x == 0x0 && y == 0xD {
        "scroll_up(N);"
    } else if h == 0x0 && x == 0x0 && y == 0xE && n == 0x0 {
        "display_clear();"
    } else if h == 0x0 && x == 0x0 && y == 0xE && n == 0xE {
        "return;"
    } else if h == 0x0 && x == 0x0 && y == 0xF && n == 0xB {
        "scroll_right();"
    } else if h == 0x0 && x == 0x0 && y == 0xF && n == 0xC {
        "scroll_left();"
    } else if h == 0x0 && x == 0x0 && y == 0xF && n == 0xD {
        "exit();"
    } else if h == 0x0 && x == 0x0 && y == 0xF && n == 0xE {
        "low_res();"
    } else if h == 0x0 && x == 0x0 && y == 0xF && n == 0xF {
        "high_res();"
    } else if h == 0x1 {
        "goto NNN;"
    } else if h == 0x2 {
        "*(0xNNN)();"
    } else if h == 0x3 {
        "if (Vx == NN) goto next;"
    } else if h == 0x4 {
        "if (Vx != NN) goto next;"
    } else if h == 0x5 && n == 0x0 {
        "if (Vx == Vy) goto next;"
    } else if h == 0x5 && n == 0x2 {
        "reg_dump(Vx, Vy, &I);"
    } else if h == 0x5 && n == 0x3 {
        "reg_load(Vx, Vy, &I);"
    } else if h == 0x6 {
        "Vx = NN;"
    } else if h == 0x7 {
        "Vx += NN;"
    } else if h == 0x8 && n == 0x0 {
        "Vx = Vy;"
    } else if h == 0x8 && n == 0x1 {
        "Vx |= Vy;"
    } else if h == 0x8 && n == 0x2 {
        "Vx &= Vy;"
    } else if h == 0x8 && n == 0x3 {
        "Vx ^= Vy;"
    } else if h == 0x8 && n == 0x4 {
        "Vx += Vy;"
    } else if h == 0x8 && n == 0x5 {
        "Vx -= Vy;"
    } else if h == 0x8 && n == 0x6 {
        "Vx = Vy >> 1;"
    } else if h == 0x8 && n == 0x7 {
        "Vx = Vy - Vx;"
    } else if h == 0x8 && n == 0xE {
        "Vx = Vy << 1;"
    } else if h == 0x9 {
        "if (Vx != Vy) goto next;"
    } else if h == 0xA {
        "I = NNN;"
    } else if h == 0xB {
        "PC = V0 + NNN;"
    } else if h == 0xC {
        "Vx = rand() & NN;"
    } else if h == 0xD {
        "draw(Vx, Vy, N);"
    } else if h == 0xE && y == 0x9 && n == 0xE {
        "if (key() == Vx) goto next;"
    } else if h == 0xE && y == 0xA && n == 0x1 {
        "if (key() != Vx) goto next;"
    } else if h == 0xF && x == 0x0 && y == 0x0 && n == 0x0 {
        "I = read_and_skip_next_word();"
    } else if h == 0xF && y == 0x0 && n == 0x1 {
        "set_drawing_plane(N);"
    } else if h == 0xF && y == 0x0 && n == 0x2 {
        "load_audio_pattern(I);"
    } else if h == 0xF && y == 0x0 && n == 0x7 {
        "Vx = get_delay();"
    } else if h == 0xF && y == 0x0 && n == 0xA {
        "Vx = get_key();"
    } else if h == 0xF && y == 0x1 && n == 0x5 {
        "delay_timer(Vx);"
    } else if h == 0xF && y == 0x1 && n == 0x8 {
        "sound_timer(Vx);"
    } else if h == 0xF && y == 0x1 && n == 0xE {
        "I += Vx;"
    } else if h == 0xF && y == 0x2 && n == 0x9 {
        "I = sprite_addr[Vx];"
    } else if h == 0xF && y == 0x3 && n == 0x0 {
        "I = digit_addr[Vx];"
    } else if h == 0xF && y == 0x3 && n == 0x3 {
        "set_bcd(I, Vx);"
    } else if h == 0xF && y == 0x3 && n == 0xA {
        "set_audio_hertz(Vx);"
    } else if h == 0xF && y == 0x5 && n == 0x5 {
        "reg_dump(V0, Vx, &I);"
    } else if h == 0xF && y == 0x6 && n == 0x5 {
        "reg_load(V0, Vx, &I);"
    } else if h == 0xF && y == 0x7 && n == 0x5 {
        "persist_dump(Vx);"
    } else if h == 0xF && y == 0x8 && n == 0x5 {
        "persist_load(Vx);"
    } else {
        ""
    }
}

impl Instruction {
    /// Looks an opcode up in the decode table.
    pub fn lookup(opcode: u16) -> (r: Option<Instruction>)
        ensures
            r is Some <==> spec_decode(opcode) is Some,
            r matches Some(inst) ==> spec_decode(opcode) == Some(DecodeEntry {
                cosmac: inst.cosmac,
                schip: inst.schip,
                xochip: inst.xochip,
            }) && inst.cycles == 1 && inst.disassembly@ == spec_mnemonic(opcode)@,
    {
        proof {
            reveal(crate::instruction::spec_decode);
            reveal(crate::instruction::spec_mnemonic);
        }
        let h: u16 = (opcode >> 12) & 0xF;
        let x: u16 = (opcode >> 8) & 0xF;
        let y: u16 = (opcode >> 4) & 0xF;
        let n: u16 = opcode & 0xF;
        if false {
            None
    } else if h == 0x0 && x == 0x0 && y == 0x0 && n == 0x0 {
        Some(Instruction {
            cosmac: Some(Op::Nop),
            schip: Some(Op::Nop),
            xochip: Some(Op::Nop),
            cycles: 1,
            disassembly: "(void) 0;",
        })
    } else if h == 0x0 && x == 0x0 && y == 0xC {
        Some(Instruction {
            cosmac: None,
            schip: Some(Op::ScrollDown),
            xochip: Some(Op::ScrollDown),
            cycles: 1,
            disassembly: "scroll_down(N);",
        })
    } else if h == 0x0 && x == 0x0 && y == 0xD {
        Some(Instruction {
            cosmac: None,
            schip: None,
            xochip: Some(Op::ScrollUp),
            cycles: 1,
            disassembly: "scroll_up(N);",
        })
    } else if h == 0x0 && x == 0x0 && y == 0xE && n == 0x0 {
        Some(Instruction {
            cosmac: Some(Op::Clear),
            schip: Some(Op::Clear),
            xochip: Some(Op::Clear),
            cycles: 1,
            disassembly: "display_clear();",
        })
    } else if h == 0x0 && x == 0x0 && y == 0xE && n == 0xE {
        Some(Instruction {
            cosmac: Some(Op::Return),
            schip: Some(Op::Return),
            xochip: Some(Op::Return),
            cycles: 1,
            disassembly: "return;",
        })
    } else if h == 0x0 && x == 0x0 && y == 0xF && n == 0xB {
        Some(Instruction {
            cosmac: None,
            schip: Some(Op::ScrollRight),
            xochip: Some(Op::ScrollRight),
            cycles: 1,
            disassembly: "scroll_right();",
        })
    } else if h == 0x0 && x == 0x0 && y == 0xF && n == 0xC {
        Some(Instruction {
            cosmac: None,
            schip: Some(Op::ScrollLeft),
            xochip: Some(Op::ScrollLeft),
            cycles: 1,
            disassembly: "scroll_left();",
        })
    } else if h == 0x0 && x == 0x0 && y == 0xF && n == 0xD {
        Some(Instruction {
            cosmac: None,
            schip: Some(Op::Exit),
            xochip: Some(Op::Exit),
            cycles: 1,
            disassembly: "exit();",
        })
    } else if h == 0x0 && x == 0x0 && y == 0xF && n == 0xE {
        Some(Instruction {
            cosmac: None,
            schip: Some(Op::LowRes),
            xochip: Some(Op::LowRes),
            cycles: 1,
            disassembly: "low_res();",
        })
    } else if h == 0x0 && x == 0x0 && y == 0xF && n == 0xF {
        Some(Instruction {
            cosmac: None,
            schip: Some(Op::HighRes),
            xochip: Some(Op::HighRes),
            cycles: 1,
            disassembly: "high_res();",
        })
    } else if h == 0x1 {
        Some(Instruction {
            cosmac: Some(Op::Goto),
            schip: Some(Op::Goto),
            xochip: Some(Op::Goto),
            cycles: 1,
            disassembly: "goto NNN;",
        })
    } else if h == 0x2 {
        Some(Instruction {
            cosmac: Some(Op::Call),
            schip: Some(Op::Call),
            xochip: Some(Op::Call),
            cycles: 1,
            disassembly: "*(0xNNN)();",
        })
    } else if h == 0x3 {
        Some(Instruction {
            cosmac: Some(Op::IfEqual),
            schip: Some(Op::IfEqual),
            xochip: Some(Op::IfEqual),
            cycles: 1,
            disassembly: "if (Vx == NN) goto next;",
        })
    } else if h == 0x4 {
        Some(Instruction {
            cosmac: Some(Op::IfInequal),
            schip: Some(Op::IfInequal),
            xochip: Some(Op::IfInequal),
            cycles: 1,
            disassembly: "if (Vx != NN) goto next;",
        })
    } else if h == 0x5 && n == 0x0 {
        Some(Instruction {
            cosmac: Some(Op::IfEqualRegister),
            schip: Some(Op::IfEqualRegister),
            xochip: Some(Op::IfEqualRegister),
            cycles: 1,
            disassembly: "if (Vx == Vy) goto next;",
        })
    } else if h == 0x5 && n == 0x2 {
        Some(Instruction {
            cosmac: None,
            schip: None,
            xochip: Some(Op::RegDumpXY),
            cycles: 1,
            disassembly: "reg_dump(Vx, Vy, &I);",
        })
    } else if h == 0x5 && n == 0x3 {
        Some(Instruction {
            cosmac: None,
            schip: None,
            xochip: Some(Op::RegLoadXY),
            cycles: 1,
            disassembly: "reg_load(Vx, Vy, &I);",
        })
    } else if h == 0x6 {
        Some(Instruction {
            cosmac: Some(Op::SetRegister),
            schip: Some(Op::SetRegister),
            xochip: Some(Op::SetRegister),
            cycles: 1,
            disassembly: "Vx = NN;",
        })
    } else if h == 0x7 {
        Some(Instruction {
            cosmac: Some(Op::PluseqImmediate),
            schip: Some(Op::PluseqImmediate),
            xochip: Some(Op::PluseqImmediate),
            cycles: 1,
            disassembly: "Vx += NN;",
        })
    } else if h == 0x8 && n == 0x0 {
        Some(Instruction {
            cosmac: Some(Op::MoveRegister),
            schip: Some(Op::MoveRegister),
            xochip: Some(Op::MoveRegister),
            cycles: 1,
            disassembly: "Vx = Vy;",
        })
    } else if h == 0x8 && n == 0x1 {
        Some(Instruction {
            cosmac: Some(Op::OreqRegisterCosmac),
            schip: Some(Op::OreqRegister),
            xochip: Some(Op::OreqRegister),
            cycles: 1,
            disassembly: "Vx |= Vy;",
        })
    } else if h == 0x8 && n == 0x2 {
        Some(Instruction {
            cosmac: Some(Op::AndeqRegisterCosmac),
            schip: Some(Op::AndeqRegister),
            xochip: Some(Op::AndeqRegister),
            cycles: 1,
            disassembly: "Vx &= Vy;",
        })
    } else if h == 0x8 && n == 0x3 {
        Some(Instruction {
            cosmac: Some(Op::XoreqRegisterCosmac),
            schip: Some(Op::XoreqRegister),
            xochip: Some(Op::XoreqRegister),
            cycles: 1,
            disassembly: "Vx ^= Vy;",
        })
    } else if h == 0x8 && n == 0x4 {
        Some(Instruction {
            cosmac: Some(Op::PluseqRegister),
            schip: Some(Op::PluseqRegister),
            xochip: Some(Op::PluseqRegister),
            cycles: 1,
            disassembly: "Vx += Vy;",
        })
    } else if h == 0x8 && n == 0x5 {
        Some(Instruction {
            cosmac: Some(Op::MinuseqRegister),
            schip: Some(Op::MinuseqRegister),
            xochip: Some(Op::MinuseqRegister),
            cycles: 1,
            disassembly: "Vx -= Vy;",
        })
    } else if h == 0x8 && n == 0x6 {
        Some(Instruction {
            cosmac: Some(Op::ShiftRight),
            schip: Some(Op::ShiftRightSchip),
            xochip: Some(Op::ShiftRight),
            cycles: 1,
            disassembly: "Vx = Vy >> 1;",
        })
    } else if h == 0x8 && n == 0x7 {
        Some(Instruction {
            cosmac: Some(Op::SubtractRegister),
            schip: Some(Op::SubtractRegister),
            xochip: Some(Op::SubtractRegister),
            cycles: 1,
            disassembly: "Vx = Vy - Vx;",
        })
    } else if h == 0x8 && n == 0xE {
        Some(Instruction {
            cosmac: Some(Op::ShiftLeft),
            schip: Some(Op::ShiftLeftSchip),
            xochip: Some(Op::ShiftLeft),
            cycles: 1,
            disassembly: "Vx = Vy << 1;",
        })
    } else if h == 0x9 {
        Some(Instruction {
            cosmac: Some(Op::IfInequalRegister),
            schip: Some(Op::IfInequalRegister),
            xochip: Some(Op::IfInequalRegister),
            cycles: 1,
            disassembly: "if (Vx != Vy) goto next;",
        })
    } else if h == 0xA {
        Some(Instruction {
            cosmac: Some(Op::SetIndex),
            schip: Some(Op::SetIndex),
            xochip: Some(Op::SetIndex),
            cycles: 1,
            disassembly: "I = NNN;",
        })
    } else if h == 0xB {
        Some(Instruction {
            cosmac: Some(Op::JumpV0),
            schip: Some(Op::JumpV0Schip),
            xochip: Some(Op::JumpV0),
            cycles: 1,
            disassembly: "PC = V0 + NNN;",
        })
    } else if h == 0xC {
        Some(Instruction {
            cosmac: Some(Op::Random),
            schip: Some(Op::Random),
            xochip: Some(Op::Random),
            cycles: 1,
            disassembly: "Vx = rand() & NN;",
        })
    } else if h == 0xD {
        Some(Instruction {
            cosmac: Some(Op::DrawCosmac),
            schip: Some(Op::DrawSchip),
            xochip: Some(Op::DrawXochip),
            cycles: 1,
            disassembly: "draw(Vx, Vy, N);",
        })
    } else if h == 0xE && y == 0x9 && n == 0xE {
        Some(Instruction {
            cosmac: Some(Op::KeyEqual),
            schip: Some(Op::KeyEqual),
            xochip: Some(Op::KeyEqual),
            cycles: 1,
            disassembly: "if (key() == Vx) goto next;",
        })
    } else if h == 0xE && y == 0xA && n == 0x1 {
        Some(Instruction {
            cosmac: Some(Op::KeyInequal),
            schip: Some(Op::KeyInequal),
            xochip: Some(Op::KeyInequal),
            cycles: 1,
            disassembly: "if (key() != Vx) goto next;",
        })
    } else if h == 0xF && x == 0x0 && y == 0x0 && n == 0x0 {
        Some(Instruction {
            cosmac: None,
            schip: None,
            xochip: Some(Op::SetLongIndex),
            cycles: 1,
            disassembly: "I = read_and_skip_next_word();",
        })
    } else if h == 0xF && y == 0x0 && n == 0x1 {
        Some(Instruction {
            cosmac: None,
            schip: None,
            xochip: Some(Op::SetBitplane),
            cycles: 1,
            disassembly: "set_drawing_plane(N);",
        })
    } else if h == 0xF && y == 0x0 && n == 0x2 {
        Some(Instruction {
            cosmac: None,
            schip: None,
            xochip: Some(Op::SetAudioBuffer),
            cycles: 1,
            disassembly: "load_audio_pattern(I);",
        })
    } else if h == 0xF && y == 0x0 && n == 0x7 {
        Some(Instruction {
            cosmac: Some(Op::GetDelay),
            schip: Some(Op::GetDelay),
            xochip: Some(Op::GetDelay),
            cycles: 1,
            disassembly: "Vx = get_delay();",
        })
    } else if h == 0xF && y == 0x0 && n == 0xA {
        Some(Instruction {
            cosmac: Some(Op::GetKey),
            schip: Some(Op::GetKey),
            xochip: Some(Op::GetKey),
            cycles: 1,
            disassembly: "Vx = get_key();",
        })
    } else if h == 0xF && y == 0x1 && n == 0x5 {
        Some(Instruction {
            cosmac: Some(Op::SetDelay),
            schip: Some(Op::SetDelay),
            xochip: Some(Op::SetDelay),
            cycles: 1,
            disassembly: "delay_timer(Vx);",
        })
    } else if h == 0xF && y == 0x1 && n == 0x8 {
        Some(Instruction {
            cosmac: Some(Op::SetSound),
            schip: Some(Op::SetSound),
            xochip: Some(Op::SetSound),
            cycles: 1,
            disassembly: "sound_timer(Vx);",
        })
    } else if h == 0xF && y == 0x1 && n == 0xE {
        Some(Instruction {
            cosmac: Some(Op::AddToIndex),
            schip: Some(Op::AddToIndex),
            xochip: Some(Op::AddToIndex),
            cycles: 1,
            disassembly: "I += Vx;",
        })
    } else if h == 0xF && y == 0x2 && n == 0x9 {
        Some(Instruction {
            cosmac: Some(Op::SpriteAddrIndex),
            schip: Some(Op::SpriteAddrIndex),
            xochip: Some(Op::SpriteAddrIndex),
            cycles: 1,
            disassembly: "I = sprite_addr[Vx];",
        })
    } else if h == 0xF && y == 0x3 && n == 0x0 {
        Some(Instruction {
            cosmac: None,
            schip: Some(Op::BigSpriteAddrIndex),
            xochip: Some(Op::BigSpriteAddrIndex),
            cycles: 1,
            disassembly: "I = digit_addr[Vx];",
        })
    } else if h == 0xF && y == 0x3 && n == 0x3 {
        Some(Instruction {
            cosmac: Some(Op::Bcd),
            schip: Some(Op::Bcd),
            xochip: Some(Op::Bcd),
            cycles: 1,
            disassembly: "set_bcd(I, Vx);",
        })
    } else if h == 0xF && y == 0x3 && n == 0xA {
        Some(Instruction {
            cosmac: None,
            schip: None,
            xochip: Some(Op::SetAudioPitch),
            cycles: 1,
            disassembly: "set_audio_hertz(Vx);",
        })
    } else if h == 0xF && y == 0x5 && n == 0x5 {
        Some(Instruction {
            cosmac: Some(Op::RegDump),
            schip: Some(Op::RegDumpSchip),
            xochip: Some(Op::RegDump),
            cycles: 1,
            disassembly: "reg_dump(V0, Vx, &I);",
        })
    } else if h == 0xF && y == 0x6 && n == 0x5 {
        Some(Instruction {
            cosmac: Some(Op::RegLoad),
            schip: Some(Op::RegLoadSchip),
            xochip: Some(Op::RegLoad),
            cycles: 1,
            disassembly: "reg_load(V0, Vx, &I);",
        })
    } else if h == 0xF && y == 0x7 && n == 0x5 {
        Some(Instruction {
            cosmac: None,
            schip: Some(Op::PersistDump),
            xochip: Some(Op::PersistDump),
            cycles: 1,
            disassembly: "persist_dump(Vx);",
        })
    } else if h == 0xF && y == 0x8 && n == 0x5 {
        Some(Instruction {
            cosmac: None,
            schip: Some(Op::PersistLoad),
            xochip: Some(Op::PersistLoad),
            cycles: 1,
            disassembly: "persist_load(Vx);",
        })
        } else {
            None
        }
    }

    /// The disassembly text of an opcode, where it decodes at all.
    pub fn disassemble(opcode: u16) -> (r: Option<&'static str>)
        ensures
            r is Some <==> spec_decode(opcode) is Some,
            r matches Some(text) ==> text@ == spec_mnemonic(opcode)@,
    {
        match Instruction::lookup(opcode) {
            Some(inst) => Some(inst.disassembly),
            None => None,
        }
    }
}

} // verus!
