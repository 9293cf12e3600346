use vstd::prelude::*;

verus! {

/// One two-byte instruction word, as fetched: `b1` is the byte at the lower
/// address.
#[derive(Debug, Clone, Copy, PartialEq, Eq, Structural)]
pub struct Instr {
    pub b1: u8,
    pub b2: u8,
}

/// What an instruction asks for, with its operands. `x` and `y` name
/// registers, `address` is a 12-bit address and `value` an immediate byte.
#[derive(Debug, Clone, Copy, PartialEq, Eq, Structural)]
pub enum Op {
    /// `00E0`
    ClearScreen,
    /// `00EE`
    Return,
    /// `0nnn` other than the two above: machine code of the host computer.
    MachineCode { address: usize },
    /// `1nnn`
    Jump { address: usize },
    /// `2nnn`
    Call { address: usize },
    /// `3xnn`
    SkipIfEqual { x: u8, value: u8 },
    /// `4xnn`
    SkipIfNotEqual { x: u8, value: u8 },
    /// `5xy0`
    SkipIfRegistersEqual { x: u8, y: u8 },
    /// `6xnn`
    SetImmediate { x: u8, value: u8 },
    /// `7xnn`
    AddImmediate { x: u8, value: u8 },
    /// `8xy0`
    Copy { x: u8, y: u8 },
    /// `8xy1`
    Or { x: u8, y: u8 },
    /// `8xy2`
    And { x: u8, y: u8 },
    /// `8xy3`
    Xor { x: u8, y: u8 },
    /// `8xy4`
    AddWithCarry { x: u8, y: u8 },
    /// `8xy5`
    Subtract { x: u8, y: u8 },
    /// `8xy6`
    ShiftRight { x: u8, y: u8 },
    /// `8xy7`
    SubtractFrom { x: u8, y: u8 },
    /// `8xyE`
    ShiftLeft { x: u8, y: u8 },
    /// `9xy0`
    SkipIfRegistersNotEqual { x: u8, y: u8 },
    /// `Annn`
    SetIndex { address: usize },
    /// `Bxnn`
    JumpWithOffset { x: u8, address: usize },
    /// `Cxnn`
    Random { x: u8, mask: u8 },
    /// `Dxyn`
    Draw { x: u8, y: u8, rows: u8 },
    /// `Ex9E`
    SkipIfKey { x: u8 },
    /// `ExA1`
    SkipIfNotKey { x: u8 },
    /// `Fx07`
    ReadDelayTimer { x: u8 },
    /// `Fx0A`
    WaitForKey { x: u8 },
    /// `Fx15`
    SetDelayTimer { x: u8 },
    /// `Fx18`
    SetSoundTimer { x: u8 },
    /// `Fx1E`
    AddToIndex { x: u8 },
    /// `Fx29`
    FontCharacter { x: u8 },
    /// `Fx33`
    DecimalDigits { x: u8 },
    /// `Fx55`
    StoreRegisters { x: u8 },
    /// `Fx65`
    LoadRegisters { x: u8 },
    /// Any other pattern.
    Unknown,
}

impl Op {
    /// Register operands name one of the sixteen registers; addresses have
    /// twelve bits.
    pub open spec fn operands_in_range(self) -> bool {
        match self {
            Op::MachineCode { address } => address < 0x1000,
            Op::Jump { address } => address < 0x1000,
            Op::Call { address } => address < 0x1000,
            Op::SetIndex { address } => address < 0x1000,
            Op::JumpWithOffset { x, address } => x < 16 && address < 0x1000,
            Op::SkipIfEqual { x, .. } => x < 16,
            Op::SkipIfNotEqual { x, .. } => x < 16,
            Op::SetImmediate { x, .. } => x < 16,
            Op::AddImmediate { x, .. } => x < 16,
            Op::Random { x, .. } => x < 16,
            Op::SkipIfRegistersEqual { x, y } => x < 16 && y < 16,
            Op::SkipIfRegistersNotEqual { x, y } => x < 16 && y < 16,
            Op::Copy { x, y } => x < 16 && y < 16,
            Op::Or { x, y } => x < 16 && y < 16,
            Op::And { x, y } => x < 16 && y < 16,
            Op::Xor { x, y } => x < 16 && y < 16,
            Op::AddWithCarry { x, y } => x < 16 && y < 16,
            Op::Subtract { x, y } => x < 16 && y < 16,
            Op::ShiftRight { x, y } => x < 16 && y < 16,
            Op::SubtractFrom { x, y } => x < 16 && y < 16,
            Op::ShiftLeft { x, y } => x < 16 && y < 16,
            Op::Draw { x, y, rows } => x < 16 && y < 16 && rows < 16,
            Op::SkipIfKey { x } => x < 16,
            Op::SkipIfNotKey { x } => x < 16,
            Op::ReadDelayTimer { x } => x < 16,
            Op::WaitForKey { x } => x < 16,
            Op::SetDelayTimer { x } => x < 16,
            Op::SetSoundTimer { x } => x < 16,
            Op::AddToIndex { x } => x < 16,
            Op::FontCharacter { x } => x < 16,
            Op::DecimalDigits { x } => x < 16,
            Op::StoreRegisters { x } => x < 16,
            Op::LoadRegisters { x } => x < 16,
            _ => true,
        }
    }
}

impl Instr {
    /// The four 4-bit fields, high nibble of `b1` first.
    pub open spec fn nibbles(self) -> (u8, u8, u8, u8) {
        ((self.b1 / 16) as u8, (self.b1 % 16) as u8, (self.b2 / 16) as u8, (self.b2 % 16) as u8)
    }

    /// The low twelve bits of the word.
    pub open spec fn address(self) -> usize {
        ((self.b1 % 16) * 256 + self.b2) as usize
    }

    /// The whole word, `b1` as its high byte.
    pub open spec fn word_spec(self) -> u16 {
        (self.b1 * 256 + self.b2) as u16
    }

    /// The operation that the word encodes.
    pub open spec fn op(self) -> Op {
        let nn = self.b2;
        let nnn = self.address();
        match self.nibbles() {
            (0x0, 0x0, 0xE, 0x0) => Op::ClearScreen,
            (0x0, 0x0, 0xE, 0xE) => Op::Return,
            (0x0, _, _, _) => Op::MachineCode { address: nnn },
            (0x1, _, _, _) => Op::Jump { address: nnn },
            (0x2, _, _, _) => Op::Call { address: nnn },
            (0x3, x, _, _) => Op::SkipIfEqual { x, value: nn },
            (0x4, x, _, _) => Op::SkipIfNotEqual { x, value: nn },
            (0x5, x, y, 0x0) => Op::SkipIfRegistersEqual { x, y },
            (0x6, x, _, _) => Op::SetImmediate { x, value: nn },
            (0x7, x, _, _) => Op::AddImmediate { x, value: nn },
            (0x8, x, y, 0x0) => Op::Copy { x, y },
            (0x8, x, y, 0x1) => Op::Or { x, y },
            (0x8, x, y, 0x2) => Op::And { x, y },
            (0x8, x, y, 0x3) => Op::Xor { x, y },
            (0x8, x, y, 0x4) => Op::AddWithCarry { x, y },
            (0x8, x, y, 0x5) => Op::Subtract { x, y },
            (0x8, x, y, 0x6) => Op::ShiftRight { x, y },
            (0x8, x, y, 0x7) => Op::SubtractFrom { x, y },
            (0x8, x, y, 0xE) => Op::ShiftLeft { x, y },
            (0x9, x, y, 0x0) => Op::SkipIfRegistersNotEqual { x, y },
            (0xA, _, _, _) => Op::SetIndex { address: nnn },
            (0xB, x, _, _) => Op::JumpWithOffset { x, address: nnn },
            (0xC, x, _, _) => Op::Random { x, mask: nn },
            (0xD, x, y, n) => Op::Draw { x, y, rows: n },
            (0xE, x, 0x9, 0xE) => Op::SkipIfKey { x },
            (0xE, x, 0xA, 0x1) => Op::SkipIfNotKey { x },
            (0xF, x, 0x0, 0x7) => Op::ReadDelayTimer { x },
            (0xF, x, 0x0, 0xA) => Op::WaitForKey { x },
            (0xF, x, 0x1, 0x5) => Op::SetDelayTimer { x },
            (0xF, x, 0x1, 0x8) => Op::SetSoundTimer { x },
            (0xF, x, 0x1, 0xE) => Op::AddToIndex { x },
            (0xF, x, 0x2, 0x9) => Op::FontCharacter { x },
            (0xF, x, 0x3, 0x3) => Op::DecimalDigits { x },
            (0xF, x, 0x5, 0x5) => Op::StoreRegisters { x },
            (0xF, x, 0x6, 0x5) => Op::LoadRegisters { x },
            _ => Op::Unknown,
        }
    }

    pub fn new(b1: u8, b2: u8) -> (r: Self)
        ensures
            r.b1 == b1,
            r.b2 == b2,
    {
        Self { b1, b2 }
    }

    /// The four 4-bit fields: opcode class, `x`, `y` and `n`.
    pub fn as_nibbles(&self) -> (r: (u8, u8, u8, u8))
        ensures
            r == self.nibbles(),
    {
        let b1 = self.b1;
        let b2 = self.b2;
        assert((b1 & 0xf0) >> 4 == b1 / 16 && b1 & 0x0f == b1 % 16) by (bit_vector);
        assert((b2 & 0xf0) >> 4 == b2 / 16 && b2 & 0x0f == b2 % 16) by (bit_vector);
        (((b1 & 0xf0) >> 4), (b1 & 0x0f), ((b2 & 0xf0) >> 4), (b2 & 0x0f))
    }

    /// The immediate byte: the low byte of the word.
    pub fn as_u8(&self) -> (r: u8)
        ensures
            r == self.b2,
    {
        self.b2
    }

    /// The 12-bit address: the low twelve bits of the word.
    pub fn as_address(&self) -> (r: usize)
        ensures
            r == self.address(),
            r < 0x1000,
    {
        let b1 = self.b1;
        assert(b1 & 0x0F == b1 % 16) by (bit_vector);
        let a = (b1 & 0x0F) as usize;
        a * 256 + (self.b2 as usize)
    }

    /// The whole instruction word.
    pub fn word(&self) -> (r: u16)
        ensures
            r == self.word_spec(),
    {
        (self.b1 as u16) * 256 + (self.b2 as u16)
    }

    /// Splits the word into the operation that it encodes. Decoding never
    /// fails: a pattern outside the instruction set is `Op::Unknown`.
    pub fn decode(&self) -> (r: Op)
        ensures
            r == self.op(),
            r.operands_in_range(),
    {
        let nn = self.as_u8();
        let nnn = self.as_address();
        match self.as_nibbles() {
            (0x0, 0x0, 0xE, 0x0) => Op::ClearScreen,
            (0x0, 0x0, 0xE, 0xE) => Op::Return,
            (0x0, _, _, _) => Op::MachineCode { address: nnn },
            (0x1, _, _, _) => Op::Jump { address: nnn },
            (0x2, _, _, _) => Op::Call { address: nnn },
            (0x3, x, _, _) => Op::SkipIfEqual { x, value: nn },
            (0x4, x, _, _) => Op::SkipIfNotEqual { x, value: nn },
            (0x5, x, y, 0x0) => Op::SkipIfRegistersEqual { x, y },
            (0x6, x, _, _) => Op::SetImmediate { x, value: nn },
            (0x7, x, _, _) => Op::AddImmediate { x, value: nn },
            (0x8, x, y, 0x0) => Op::Copy { x, y },
            (0x8, x, y, 0x1) => Op::Or { x, y },
            (0x8, x, y, 0x2) => Op::And { x, y },
            (0x8, x, y, 0x3) => Op::Xor { x, y },
            (0x8, x, y, 0x4) => Op::AddWithCarry { x, y },
            (0x8, x, y, 0x5) => Op::Subtract { x, y },
            (0x8, x, y, 0x6) => Op::ShiftRight { x, y },
            (0x8, x, y, 0x7) => Op::SubtractFrom { x, y },
            (0x8, x, y, 0xE) => Op::ShiftLeft { x, y },
            (0x9, x, y, 0x0) => Op::SkipIfRegistersNotEqual { x, y },
            (0xA, _, _, _) => Op::SetIndex { address: nnn },
            (0xB, x, _, _) => Op::JumpWithOffset { x, address: nnn },
            (0xC, x, _, _) => Op::Random { x, mask: nn },
            (0xD, x, y, n) => Op::Draw { x, y, rows: n },
            (0xE, x, 0x9, 0xE) => Op::SkipIfKey { x },
            (0xE, x, 0xA, 0x1) => Op::SkipIfNotKey { x },
            (0xF, x, 0x0, 0x7) => Op::ReadDelayTimer { x },
            (0xF, x, 0x0, 0xA) => Op::WaitForKey { x },
            (0xF, x, 0x1, 0x5) => Op::SetDelayTimer { x },
            (0xF, x, 0x1, 0x8) => Op::SetSoundTimer { x },
            (0xF, x, 0x1, 0xE) => Op::AddToIndex { x },
            (0xF, x, 0x2, 0x9) => Op::FontCharacter { x },
            (0xF, x, 0x3, 0x3) => Op::DecimalDigits { x },
            (0xF, x, 0x5, 0x5) => Op::StoreRegisters { x },
            (0xF, x, 0x6, 0x5) => Op::LoadRegisters { x },
            _ => Op::Unknown,
        }
    }
}

} // verus!
