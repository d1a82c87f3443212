use vstd::prelude::*;

verus! {

/// One decoded instruction. Register operands are named `x` and `y`, an
/// address operand `nnn`, a byte operand `nn` and a nibble operand `n`.
#[derive(Debug, Clone, Copy, PartialEq, Eq, Structural)]
pub enum Instruction {
    /// `00E0`: clear the framebuffer.
    Cls,
    /// `00EE`: return from a subroutine.
    Ret,
    /// `1nnn`: jump to `nnn`.
    Jmp { nnn: u16 },
    /// `2nnn`: call the subroutine at `nnn`.
    Call { nnn: u16 },
    /// `3xnn`: skip the next instruction if `Vx == nn`.
    SkeqConst { x: u8, nn: u8 },
    /// `4xnn`: skip the next instruction if `Vx != nn`.
    SkneConst { x: u8, nn: u8 },
    /// `5xy0`: skip the next instruction if `Vx == Vy`.
    SkeqReg { x: u8, y: u8 },
    /// `6xnn`: `Vx = nn`.
    LdConst { x: u8, nn: u8 },
    /// `7xnn`: `Vx = (Vx + nn) mod 256`.
    AddConst { x: u8, nn: u8 },
    /// `8xy0`: `Vx = Vy`.
    Mov { x: u8, y: u8 },
    /// `8xy1`: `Vx = Vx | Vy`.
    Or { x: u8, y: u8 },
    /// `8xy2`: `Vx = Vx & Vy`.
    And { x: u8, y: u8 },
    /// `8xy3`: `Vx = Vx ^ Vy`.
    Xor { x: u8, y: u8 },
    /// `8xy4`: add with carry flag.
    Add { x: u8, y: u8 },
    /// `8xy5`: `Vx - Vy` with no-borrow flag.
    Sub { x: u8, y: u8 },
    /// `8xy6`: shift `Vx` right by one; `Vy` plays no part.
    Shr { x: u8 },
    /// `8xy7`: `Vy - Vx` with no-borrow flag.
    Subn { x: u8, y: u8 },
    /// `8xyE`: shift `Vx` left by one; `Vy` plays no part.
    Shl { x: u8 },
    /// `9xy0`: skip the next instruction if `Vx != Vy`.
    SkneReg { x: u8, y: u8 },
    /// `Annn`: `I = nnn`.
    LdI { nnn: u16 },
    /// `Bnnn`: jump to `V0 + nnn`.
    JmpV0 { nnn: u16 },
    /// `Cxnn`: `Vx = random byte & nn`.
    Rnd { x: u8, nn: u8 },
    /// `Dxyn`: draw an `n`-row sprite at `(Vx, Vy)`.
    Draw { x: u8, y: u8, n: u8 },
    /// `Ex9E`: skip the next instruction if key `Vx` is down.
    SkeqKey { x: u8 },
    /// `ExA1`: skip the next instruction if key `Vx` is up.
    SkneKey { x: u8 },
    /// `Fx07`: `Vx = delay timer`.
    LdDelay { x: u8 },
    /// `Fx0A`: wait for a key press and store its slot in `Vx`.
    WaitKey { x: u8 },
    /// `Fx15`: `delay timer = Vx`.
    SetDelay { x: u8 },
    /// `Fx18`: `sound timer = Vx`.
    SetSound { x: u8 },
    /// `Fx1E`: `I = I + Vx`.
    AddI { x: u8 },
    /// `Fx29`: `I = address of the glyph for Vx`.
    Font { x: u8 },
    /// `Fx33`: store the three decimal digits of `Vx` at `I`, `I+1`, `I+2`.
    Bcd { x: u8 },
    /// `Fx55`: store `V0..=Vx` at `I..`.
    RegDump { x: u8 },
    /// `Fx65`: load `V0..=Vx` from `I..`.
    RegLoad { x: u8 },
}

impl Instruction {
    /// Operands stay within the fields of an opcode: registers and `n` are
    /// nibbles, addresses have twelve bits.
    pub open spec fn wf(self) -> bool {
        match self {
            Instruction::Cls | Instruction::Ret => true,
            Instruction::Jmp { nnn }
            | Instruction::Call { nnn }
            | Instruction::LdI { nnn }
            | Instruction::JmpV0 { nnn } => nnn < 0x1000,
            Instruction::SkeqConst { x, nn }
            | Instruction::SkneConst { x, nn }
            | Instruction::LdConst { x, nn }
            | Instruction::AddConst { x, nn }
            | Instruction::Rnd { x, nn } => x < 16,
            Instruction::SkeqReg { x, y }
            | Instruction::SkneReg { x, y }
            | Instruction::Mov { x, y }
            | Instruction::Or { x, y }
            | Instruction::And { x, y }
            | Instruction::Xor { x, y }
            | Instruction::Add { x, y }
            | Instruction::Sub { x, y }
            | Instruction::Subn { x, y } => x < 16 && y < 16,
            Instruction::Draw { x, y, n } => x < 16 && y < 16 && n < 16,
            Instruction::Shr { x }
            | Instruction::Shl { x }
            | Instruction::SkeqKey { x }
            | Instruction::SkneKey { x }
            | Instruction::LdDelay { x }
            | Instruction::WaitKey { x }
            | Instruction::SetDelay { x }
            | Instruction::SetSound { x }
            | Instruction::AddI { x }
            | Instruction::Font { x }
            | Instruction::Bcd { x }
            | Instruction::RegDump { x }
            | Instruction::RegLoad { x } => x < 16,
        }
    }

    /// Whether the instruction sets the program counter without regard to
    /// where it stood: `JMP`, `CALL`, `JMP+V0` and `RET`.
    pub open spec fn is_jump(self) -> bool {
        self is Jmp || self is Call || self is JmpV0 || self is Ret
    }

    /// Whether the instruction may skip the instruction that follows it.
    pub open spec fn is_skip(self) -> bool {
        self is SkeqConst || self is SkneConst || self is SkeqReg || self is SkneReg
            || self is SkeqKey || self is SkneKey
    }
}

/// The high nibble of an opcode: the instruction family.
pub open spec fn op_of(opcode: u16) -> int {
    opcode as int / 0x1000
}

/// The second nibble of an opcode: register `x`.
pub open spec fn x_of(opcode: u16) -> int {
    opcode as int / 0x100 % 0x10
}

/// The third nibble of an opcode: register `y`.
pub open spec fn y_of(opcode: u16) -> int {
    opcode as int / 0x10 % 0x10
}

/// The low nibble of an opcode.
pub open spec fn n_of(opcode: u16) -> int {
    opcode as int % 0x10
}

/// The low byte of an opcode.
pub open spec fn nn_of(opcode: u16) -> int {
    opcode as int % 0x100
}

/// The low twelve bits of an opcode.
pub open spec fn nnn_of(opcode: u16) -> int {
    opcode as int % 0x1000
}

/// The instruction that an opcode stands for, if any. Most families are
/// told apart by the high nibble alone, some by the low nibble or the low
/// byte too.
pub open spec fn spec_decode(opcode: u16) -> Option<Instruction> {
    let op = op_of(opcode);
    let x = x_of(opcode) as u8;
    let y = y_of(opcode) as u8;
    let n = n_of(opcode) as u8;
    let nn = nn_of(opcode) as u8;
    let nnn = nnn_of(opcode) as u16;
    if opcode == 0x00E0 {
        Some(Instruction::Cls)
    } else if opcode == 0x00EE {
        Some(Instruction::Ret)
    } else if op == 0x1 {
        Some(Instruction::Jmp { nnn })
    } else if op == 0x2 {
        Some(Instruction::Call { nnn })
    } else if op == 0x3 {
        Some(Instruction::SkeqConst { x, nn })
    } else if op == 0x4 {
        Some(Instruction::SkneConst { x, nn })
    } else if op == 0x5 && n == 0 {
        Some(Instruction::SkeqReg { x, y })
    } else if op == 0x6 {
        Some(Instruction::LdConst { x, nn })
    } else if op == 0x7 {
        Some(Instruction::AddConst { x, nn })
    } else if op == 0x8 && n == 0x0 {
        Some(Instruction::Mov { x, y })
    } else if op == 0x8 && n == 0x1 {
        Some(Instruction::Or { x, y })
    } else if op == 0x8 && n == 0x2 {
        Some(Instruction::And { x, y })
    } else if op == 0x8 && n == 0x3 {
        Some(Instruction::Xor { x, y })
    } else if op == 0x8 && n == 0x4 {
        Some(Instruction::Add { x, y })
    } else if op == 0x8 && n == 0x5 {
        Some(Instruction::Sub { x, y })
    } else if op == 0x8 && n == 0x6 {
        Some(Instruction::Shr { x })
    } else if op == 0x8 && n == 0x7 {
        Some(Instruction::Subn { x, y })
    } else if op == 0x8 && n == 0xE {
        Some(Instruction::Shl { x })
    } else if op == 0x9 && n == 0 {
        Some(Instruction::SkneReg { x, y })
    } else if op == 0xA {
        Some(Instruction::LdI { nnn })
    } else if op == 0xB {
        Some(Instruction::JmpV0 { nnn })
    } else if op == 0xC {
        Some(Instruction::Rnd { x, nn })
    } else if op == 0xD {
        Some(Instruction::Draw { x, y, n })
    } else if op == 0xE && nn == 0x9E {
        Some(Instruction::SkeqKey { x })
    } else if op == 0xE && nn == 0xA1 {
        Some(Instruction::SkneKey { x })
    } else if op == 0xF && nn == 0x07 {
        Some(Instruction::LdDelay { x })
    } else if op == 0xF && nn == 0x0A {
        Some(Instruction::WaitKey { x })
    } else if op == 0xF && nn == 0x15 {
        Some(Instruction::SetDelay { x })
    } else if op == 0xF && nn == 0x18 {
        Some(Instruction::SetSound { x })
    } else if op == 0xF && nn == 0x1E {
        Some(Instruction::AddI { x })
    } else if op == 0xF && nn == 0x29 {
        Some(Instruction::Font { x })
    } else if op == 0xF && nn == 0x33 {
        Some(Instruction::Bcd { x })
    } else if op == 0xF && nn == 0x55 {
        Some(Instruction::RegDump { x })
    } else if op == 0xF && nn == 0x65 {
        Some(Instruction::RegLoad { x })
    } else {
        None
    }
}

/// Every decoded instruction has operands within their fields.
pub proof fn lemma_decoded_is_wf(opcode: u16)
    ensures
        spec_decode(opcode) matches Some(instr) ==> instr.wf(),
{
}

/// Splits an opcode into its nibbles and routes it to its instruction.
/// Returns `None` exactly for the opcodes outside the instruction set.
pub fn decode(opcode: u16) -> (decoded: Option<Instruction>)
    ensures
        decoded == spec_decode(opcode),
        decoded matches Some(instr) ==> instr.wf(),
{
    let cod1 = ((opcode & 0xF000) >> 12) as u8;
    let cod2 = ((opcode & 0x0F00) >> 8) as u8;
    let cod3 = ((opcode & 0x00F0) >> 4) as u8;
    let cod4 = (opcode & 0x000F) as u8;
    let nnn = opcode & 0x0FFF;
    let nn = (opcode & 0x00FF) as u8;
    let n = cod4;
    let x = cod2;
    let y = cod3;
    proof {
        assert((opcode & 0xF000) >> 12 == opcode / 0x1000) by (bit_vector);
        assert((opcode & 0x0F00) >> 8 == opcode / 0x100 % 0x10) by (bit_vector);
        assert((opcode & 0x00F0) >> 4 == opcode / 0x10 % 0x10) by (bit_vector);
        assert(opcode & 0x000F == opcode % 0x10) by (bit_vector);
        assert(opcode & 0x0FFF == opcode % 0x1000) by (bit_vector);
        assert(opcode & 0x00FF == opcode % 0x100) by (bit_vector);
    }
    match (cod1, cod2, cod3, cod4) {
        (0, 0, 0xE, 0) => Some(Instruction::Cls),
        (0, 0, 0xE, 0xE) => Some(Instruction::Ret),
        (1, _, _, _) => Some(Instruction::Jmp { nnn }),
        (2, _, _, _) => Some(Instruction::Call { nnn }),
        (3, _, _, _) => Some(Instruction::SkeqConst { x, nn }),
        (4, _, _, _) => Some(Instruction::SkneConst { x, nn }),
        (5, _, _, 0) => Some(Instruction::SkeqReg { x, y }),
        (6, _, _, _) => Some(Instruction::LdConst { x, nn }),
        (7, _, _, _) => Some(Instruction::AddConst { x, nn }),
        (8, _, _, 0) => Some(Instruction::Mov { x, y }),
        (8, _, _, 1) => Some(Instruction::Or { x, y }),
        (8, _, _, 2) => Some(Instruction::And { x, y }),
        (8, _, _, 3) => Some(Instruction::Xor { x, y }),
        (8, _, _, 4) => Some(Instruction::Add { x, y }),
        (8, _, _, 5) => Some(Instruction::Sub { x, y }),
        (8, _, _, 6) => Some(Instruction::Shr { x }),
        (8, _, _, 7) => Some(Instruction::Subn { x, y }),
        (8, _, _, 0xE) => Some(Instruction::Shl { x }),
        (9, _, _, 0) => Some(Instruction::SkneReg { x, y }),
        (0xA, _, _, _) => Some(Instruction::LdI { nnn }),
        (0xB, _, _, _) => Some(Instruction::JmpV0 { nnn }),
        (0xC, _, _, _) => Some(Instruction::Rnd { x, nn }),
        (0xD, _, _, _) => Some(Instruction::Draw { x, y, n }),
        (0xE, _, 9, 0xE) => Some(Instruction::SkeqKey { x }),
        (0xE, _, 0xA, 1) => Some(Instruction::SkneKey { x }),
        (0xF, _, 0, 7) => Some(Instruction::LdDelay { x }),
        (0xF, _, 0, 0xA) => Some(Instruction::WaitKey { x }),
        (0xF, _, 1, 5) => Some(Instruction::SetDelay { x }),
        (0xF, _, 1, 8) => Some(Instruction::SetSound { x }),
        (0xF, _, 1, 0xE) => Some(Instruction::AddI { x }),
        (0xF, _, 2, 9) => Some(Instruction::Font { x }),
        (0xF, _, 3, 3) => Some(Instruction::Bcd { x }),
        (0xF, _, 5, 5) => Some(Instruction::RegDump { x }),
        (0xF, _, 6, 5) => Some(Instruction::RegLoad { x }),
        (_, _, _, _) => None,
    }
}

} // verus!
