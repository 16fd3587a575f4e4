//! The 4096-byte CHIP-8 address space, including the preloaded font glyphs
//! and the loaded program image.

use vstd::prelude::*;

verus! {

/// Size of the address space in bytes.
pub const MEM_SIZE: usize = 4096;

/// Lowest address of the loaded program image.
pub const PROG_START: usize = 512;

/// Largest program image that fits between `PROG_START` and the end of memory.
pub const MAX_ROM_LEN: usize = 3584;

/// Lowest address of the font glyph table.
pub const FONT_START: usize = 80;

/// The sixteen fixed 5-byte font glyphs for the hexadecimal digits 0-F,
/// written at `FONT_START` during initialization.  The glyph for digit `d`
/// starts at `FONT_START + d * 5`.
pub open spec fn font_seq() -> Seq<u8> {
    seq![
        0xF0u8, 0x90, 0x90, 0x90, 0xF0,
        0x20, 0x60, 0x20, 0x20, 0x70,
        0xF0, 0x10, 0xF0, 0x80, 0xF0,
        0xF0, 0x10, 0xF0, 0x10, 0xF0,
        0x90, 0x90, 0xF0, 0x10, 0x10,
        0xF0, 0x80, 0xF0, 0x10, 0xF0,
        0xF0, 0x80, 0xF0, 0x90, 0xF0,
        0xF0, 0x10, 0x20, 0x40, 0x40,
        0xF0, 0x90, 0xF0, 0x90, 0xF0,
        0xF0, 0x90, 0xF0, 0x10, 0xF0,
        0xF0, 0x90, 0xF0, 0x90, 0x90,
        0xE0, 0x90, 0xE0, 0x90, 0xE0,
        0xF0, 0x80, 0x80, 0x80, 0xF0,
        0xE0, 0x90, 0x90, 0x90, 0xE0,
        0xF0, 0x80, 0xF0, 0x80, 0xF0,
        0xF0, 0x80, 0xF0, 0x80, 0x80,
    ]
}

/// The big-endian 16-bit value formed from the byte at `a` as the high byte
/// and the byte at `a + 1` as the low byte.
pub open spec fn spec_opcode_at(mem: Seq<u8>, a: int) -> u16
    recommends
        mem.len() == MEM_SIZE,
        0 <= a < MEM_SIZE - 1,
{
    (mem[a] * 256 + mem[a + 1]) as u16
}

/// A representation of the CHIP-8 RAM.
pub struct ChipMemory {
    /// The 4096-byte address space.
    ram: Vec<u8>,
    /// True once a program image has been loaded.
    loaded: bool,
}

impl ChipMemory {
    /// The contents of the address space, as a sequence of 4096 bytes.
    pub closed spec fn mem(&self) -> Seq<u8> {
        self.ram@
    }

    /// Whether a program image has been loaded.
    pub closed spec fn rom_loaded(&self) -> bool {
        self.loaded
    }

    /// Well-formedness: the address space holds exactly 4096 bytes.
    pub open spec fn wf(&self) -> bool {
        self.mem().len() == MEM_SIZE
    }

    /// Initialize the memory: all zero except the font glyph table, with no
    /// program loaded yet.
    pub fn init() -> (m: Self)
        ensures
            m.wf(),
            !m.rom_loaded(),
            forall|a: int|
                FONT_START <= a < FONT_START + 80 ==> m.mem()[a] == font_seq()[a - FONT_START],
            forall|a: int|
                0 <= a < MEM_SIZE && !(FONT_START <= a < FONT_START + 80) ==> m.mem()[a] == 0,
    {
        let ram = Self::load_symbols(vec![0u8; 4096]);
        ChipMemory { ram, loaded: false }
    }

    /// Write the sixteen font glyphs into the glyph table region, leaving
    /// every other byte unchanged.
    pub fn load_symbols(ram: Vec<u8>) -> (r: Vec<u8>)
        requires
            ram@.len() == MEM_SIZE,
        ensures
            r@.len() == MEM_SIZE,
            forall|a: int|
                FONT_START <= a < FONT_START + 80 ==> r@[a] == font_seq()[a - FONT_START],
            forall|a: int|
                0 <= a < MEM_SIZE && !(FONT_START <= a < FONT_START + 80) ==> r@[a] == ram@[a],
    {
        let hex_chars: Vec<u8> = vec![
            0xF0, 0x90, 0x90, 0x90, 0xF0,
            0x20, 0x60, 0x20, 0x20, 0x70,
            0xF0, 0x10, 0xF0, 0x80, 0xF0,
            0xF0, 0x10, 0xF0, 0x10, 0xF0,
            0x90, 0x90, 0xF0, 0x10, 0x10,
            0xF0, 0x80, 0xF0, 0x10, 0xF0,
            0xF0, 0x80, 0xF0, 0x90, 0xF0,
            0xF0, 0x10, 0x20, 0x40, 0x40,
            0xF0, 0x90, 0xF0, 0x90, 0xF0,
            0xF0, 0x90, 0xF0, 0x10, 0xF0,
            0xF0, 0x90, 0xF0, 0x90, 0x90,
            0xE0, 0x90, 0xE0, 0x90, 0xE0,
            0xF0, 0x80, 0x80, 0x80, 0xF0,
            0xE0, 0x90, 0x90, 0x90, 0xE0,
            0xF0, 0x80, 0xF0, 0x80, 0xF0,
            0xF0, 0x80, 0xF0, 0x80, 0x80,
        ];
        proof {
            assert(hex_chars@ =~= font_seq());
        }
        let ghost orig = ram@;
        let mut ram = ram;
        let mut i: usize = 0;
        while i < 80
            invariant
                ram@.len() == MEM_SIZE,
                hex_chars@ =~= font_seq(),
                i <= 80,
                forall|j: int| 0 <= j < i ==> ram@[FONT_START + j] == font_seq()[j],
                forall|a: int|
                    0 <= a < MEM_SIZE && !(FONT_START <= a < FONT_START + i) ==> ram@[a]
                        == orig[a],
            decreases 80 - i,
        {
            ram[FONT_START + i] = hex_chars[i];
            i = i + 1;
        }
        ram
    }

    /// Whether a program image has been loaded.
    pub fn has_loaded(&self) -> (b: bool)
        ensures
            b == self.rom_loaded(),
    {
        self.loaded
    }

    /// Read the big-endian two-byte opcode starting at `index`.
    pub fn get_opcode(&self, index: u16) -> (op: u16)
        requires
            self.wf(),
            index < MEM_SIZE - 1,
        ensures
            op == spec_opcode_at(self.mem(), index as int),
    {
        let hi = self.get_byte(index);
        let lo = self.get_byte(index + 1);
        proof {
            assert(((hi as u16) << 8) | (lo as u16) == hi * 256 + lo) by (bit_vector);
        }
        ((hi as u16) << 8) | (lo as u16)
    }

    /// Write a program image starting at `PROG_START`, leaving every byte
    /// outside the image region unchanged, and record that a program has
    /// been loaded.  An image larger than `MAX_ROM_LEN` bytes is a
    /// load-time contract violation.
    pub fn load_bytes(&mut self, rom: Vec<u8>)
        requires
            old(self).wf(),
            rom@.len() <= MAX_ROM_LEN,
        ensures
            final(self).wf(),
            final(self).rom_loaded(),
            forall|a: int|
                PROG_START <= a < PROG_START + rom@.len() ==> final(self).mem()[a] == rom@[a
                    - PROG_START],
            forall|a: int|
                0 <= a < MEM_SIZE && !(PROG_START <= a < PROG_START + rom@.len())
                    ==> final(self).mem()[a] == old(self).mem()[a],
    {
        let ghost orig = self.ram@;
        let len = rom.len();
        let mut i: usize = 0;
        while i < len
            invariant
                self.ram@.len() == MEM_SIZE,
                len == rom@.len() <= MAX_ROM_LEN,
                i <= len,
                self.loaded == old(self).loaded,
                forall|j: int| 0 <= j < i ==> self.ram@[PROG_START + j] == rom@[j],
                forall|a: int|
                    0 <= a < MEM_SIZE && !(PROG_START <= a < PROG_START + i) ==> self.ram@[a]
                        == orig[a],
            decreases len - i,
        {
            self.ram[i + PROG_START] = rom[i];
            i = i + 1;
        }
        self.loaded = true;
    }

    /// Set the byte at address `loc` to `val`.  Addresses must lie within
    /// the 4096-byte address space.
    pub fn set_byte(&mut self, loc: u16, val: u8)
        requires
            old(self).wf(),
            loc < MEM_SIZE,
        ensures
            final(self).wf(),
            final(self).mem() == old(self).mem().update(loc as int, val),
            final(self).rom_loaded() == old(self).rom_loaded(),
    {
        self.ram[loc as usize] = val;
    }

    /// Read the byte at address `loc`.  Addresses must lie within the
    /// 4096-byte address space.
    pub fn get_byte(&self, loc: u16) -> (b: u8)
        requires
            self.wf(),
            loc < MEM_SIZE,
        ensures
            b == self.mem()[loc as int],
    {
        self.ram[loc as usize]
    }

    /// Read `nbytes` consecutive bytes starting at `loc`; addresses are
    /// reduced modulo the size of the address space, so a run that reaches
    /// the end of memory wraps to the start.
    pub fn get_nbytes(&self, loc: u16, nbytes: u16) -> (out: Vec<u8>)
        requires
            self.wf(),
        ensures
            out@.len() == nbytes,
            forall|k: int| 0 <= k < nbytes ==> out@[k] == self.mem()[(loc + k) % (MEM_SIZE as int)],
    {
        let mut out: Vec<u8> = Vec::new();
        let mut i: usize = 0;
        while i < nbytes as usize
            invariant
                self.wf(),
                i <= nbytes,
                out@.len() == i,
                forall|k: int|
                    0 <= k < i ==> out@[k] == self.mem()[(loc + k) % (MEM_SIZE as int)],
            decreases nbytes - i,
        {
            let addr: usize = (loc as usize + i) % MEM_SIZE;
            out.push(self.get_byte(addr as u16));
            i = i + 1;
        }
        out
    }
}

} // verus!
