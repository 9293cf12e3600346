use vstd::prelude::*;

verus! {

/// Size of the address space in bytes.
pub const MEMORY_SIZE: usize = 4096;

/// Address of the first glyph of the built-in font.
pub const FONT_START: usize = 0x50;

/// Number of bytes in one font glyph.
pub const GLYPH_SIZE: usize = 5;

/// One past the last byte of the built-in font.
pub const FONT_END: usize = 0xA0;

/// Conventional load address of a program.
pub const PROGRAM_START: usize = 0x200;

/// Bitmaps of the hexadecimal digits `0` to `F`, five rows of four pixels
/// each, most significant bit first.
pub const FONT: [u8; 80] = [
    0xF0, 0x90, 0x90, 0x90, 0xF0, // 0
    0x20, 0x60, 0x20, 0x20, 0x70, // 1
    0xF0, 0x10, 0xF0, 0x80, 0xF0, // 2
    0xF0, 0x10, 0xF0, 0x10, 0xF0, // 3
    0x90, 0x90, 0xF0, 0x10, 0x10, // 4
    0xF0, 0x80, 0xF0, 0x10, 0xF0, // 5
    0xF0, 0x80, 0xF0, 0x90, 0xF0, // 6
    0xF0, 0x10, 0x20, 0x40, 0x40, // 7
    0xF0, 0x90, 0xF0, 0x90, 0xF0, // 8
    0xF0, 0x90, 0xF0, 0x10, 0xF0, // 9
    0xF0, 0x90, 0xF0, 0x90, 0x90, // A
    0xE0, 0x90, 0xE0, 0x90, 0xE0, // B
    0xF0, 0x80, 0x80, 0x80, 0xF0, // C
    0xE0, 0x90, 0x90, 0x90, 0xE0, // D
    0xF0, 0x80, 0xF0, 0x80, 0xF0, // E
    0xF0, 0x80, 0xF0, 0x80, 0x80, // F
];

/// Why a program could not be placed in memory.
#[derive(Debug, Clone, Copy, PartialEq, Eq, Structural)]
pub enum LoadError {
    /// The bytes would run past the top of the address space.
    TooLarge,
    /// The bytes would overwrite part of the built-in font.
    OverlapsFont,
}

/// The flat, byte-addressable memory of the machine.
#[derive(Debug)]
pub struct Memory([u8; 4096]);

impl View for Memory {
    type V = Seq<u8>;

    closed spec fn view(&self) -> Seq<u8> {
        self.0@
    }
}

/// Whether the `len` bytes starting at `address` share a cell with the font.
pub open spec fn overlaps_font(address: int, len: int) -> bool {
    len > 0 && address < FONT_END && FONT_START < address + len
}

/// Memory as it is at start-up: zero everywhere but for the font.
pub open spec fn initial_memory() -> Seq<u8> {
    Seq::new(
        MEMORY_SIZE as nat,
        |a: int|
            if FONT_START <= a < FONT_END {
                FONT@[a - FONT_START]
            } else {
                0
            },
    )
}

/// Whether `len` bytes may be placed at `address`, and if not, why.
pub open spec fn load_check(address: int, len: int) -> Result<(), LoadError> {
    if address + len > MEMORY_SIZE {
        Err(LoadError::TooLarge)
    } else if overlaps_font(address, len) {
        Err(LoadError::OverlapsFont)
    } else {
        Ok(())
    }
}

impl Memory {
    /// A memory that is zero everywhere but for the font at `FONT_START`.
    pub fn new() -> (r: Self)
        ensures
            r@ == initial_memory(),
    {
        let mut cells = [0u8;4096];
        let mut k: usize = 0;
        while k < FONT.len()
            invariant
                k <= FONT.len(),
                forall|a: int| 0 <= a < FONT_START ==> cells@[a] == 0,
                forall|a: int| FONT_START <= a < FONT_START + k ==> cells@[a] == FONT@[a - FONT_START],
                forall|a: int| FONT_START + k <= a < MEMORY_SIZE ==> cells@[a] == 0,
            decreases FONT.len() - k,
        {
            cells[FONT_START + k] = FONT[k];
            k += 1;
        }
        assert(cells@ =~= initial_memory());
        Memory(cells)
    }

    /// Memory always spans the whole address space.
    pub proof fn lemma_len(&self)
        ensures
            self@.len() == MEMORY_SIZE,
    {
    }

    pub fn get(&self, address: usize) -> (r: u8)
        requires
            address < MEMORY_SIZE,
        ensures
            r == self@[address as int],
    {
        self.0[address]
    }

    pub fn set(&mut self, address: usize, v: u8)
        requires
            address < MEMORY_SIZE,
        ensures
            final(self)@ == old(self)@.update(address as int, v),
    {
        self.0[address] = v;
    }

    /// Copies `bytes` into memory from `address` upward. A program that would
    /// run past the top of memory or overwrite the font is refused, and memory
    /// is then left as it was.
    pub fn load_bytes_at(&mut self, address: usize, bytes: &[u8]) -> (r: Result<(), LoadError>)
        ensures
            r == load_check(address as int, bytes@.len() as int),
            r is Err ==> final(self)@ == old(self)@,
            r is Ok ==> final(self)@ == old(self)@.take(address as int) + bytes@
                + old(self)@.skip(address + bytes@.len()),
    {
        if address > MEMORY_SIZE || bytes.len() > MEMORY_SIZE - address {
            return Err(LoadError::TooLarge);
        }
        if bytes.len() > 0 && address < FONT_END && FONT_START < address + bytes.len() {
            return Err(LoadError::OverlapsFont);
        }
        let ghost before = self@;
        let mut k: usize = 0;
        while k < bytes.len()
            invariant
                address + bytes@.len() <= MEMORY_SIZE,
                k <= bytes@.len(),
                self@.len() == MEMORY_SIZE,
                before.len() == MEMORY_SIZE,
                forall|a: int| 0 <= a < address ==> self@[a] == before[a],
                forall|a: int| address <= a < address + k ==> self@[a] == bytes@[a - address],
                forall|a: int| address + k <= a < MEMORY_SIZE ==> self@[a] == before[a],
            decreases bytes@.len() - k,
        {
            self.0[address + k] = bytes[k];
            k += 1;
        }
        assert(self@ =~= before.take(address as int) + bytes@ + before.skip(address + bytes@.len()));
        Ok(())
    }
}

} // verus!
