//! The 4096-byte memory and its built-in glyph table.

use vstd::prelude::*;
use std::ops::Index;
use std::ops::IndexMut;
use std::ops::Range;

verus! {

/// Address of the first glyph byte.
pub const FONTSET_ADDR: u16 = 0x50;

/// Sprites of the hexadecimal digits `0` to `F`, five rows each.
pub const FONTSET: [u8; 80] = [
    0xF0, 0x90, 0x90, 0x90, 0xF0,
    0x20, 0x60, 0x20, 0x20, 0x70,
    0xF0, 0x10, 0xF0, 0x80, 0xF0,
    0xF0, 0x10, 0xF0, 0x10, 0xF0,
    0x90, 0x90, 0xF0, 0x10, 0x10,
    0xF0, 0x80, 0xF0, 0x10, 0xF0,
    0xF0, 0x80, 0xF0, 0x90, 0xF0,
    0xF0, 0x10, 0x20, 0x40, 0x40,
    0xF0, 0x90, 0xF0, 0x90, 0xF0,
    0xF0, 0x90, 0xF0, 0x10, 0xF0,
    0xF0, 0x90, 0xF0, 0x90, 0x90,
    0xE0, 0x90, 0xE0, 0x90, 0xE0,
    0xF0, 0x80, 0x80, 0x80, 0xF0,
    0xE0, 0x90, 0x90, 0x90, 0xE0,
    0xF0, 0x80, 0xF0, 0x80, 0xF0,
    0xF0, 0x80, 0xF0, 0x80, 0x80,
];

/// Memory `mem` after `bytes` have been copied over it from `addr` on.
pub open spec fn loaded(mem: Seq<u8>, addr: int, bytes: Seq<u8>) -> Seq<u8> {
    Seq::new(
        mem.len(),
        |a: int|
            if addr <= a < addr + bytes.len() {
                bytes[a - addr]
            } else {
                mem[a]
            },
    )
}

/// Contents of a freshly created memory: zero everywhere but for the glyph
/// table at `0x50..0xA0`.
pub open spec fn initial_memory() -> Seq<u8> {
    loaded(Seq::new(4096, |a: int| 0u8), 0x50, FONTSET@)
}

/// Flat, byte-addressed memory of 4096 bytes.
#[derive(Debug)]
pub struct Ram {
    buf: [u8; 4096],
}

impl View for Ram {
    type V = Seq<u8>;

    /// The bytes in address order.
    closed spec fn view(&self) -> Seq<u8> {
        self.buf@
    }
}

impl Default for Ram {
    /// A memory of zeroes, without the glyph table.
    fn default() -> (ram: Self)
        ensures
            ram@ == Seq::new(4096, |a: int| 0u8),
    {
        Self { buf: [0; 4096] }
    }
}

impl Ram {
    /// A memory holding the glyph table and zeroes elsewhere.
    pub fn new() -> (ram: Self)
        ensures
            ram@ == initial_memory(),
    {
        let mut ram = Self::default();
        ram.load(FONTSET_ADDR, &FONTSET);
        ram
    }

    /// Copies `src` into memory starting at `addr`.
    pub fn load(&mut self, addr: u16, src: &[u8])
        requires
            addr + src@.len() <= 4096,
        ensures
            final(self)@ == loaded(old(self)@, addr as int, src@),
    {
        let addr = addr as usize;
        let n = src.len();
        let mut k: usize = 0;
        while k < n
            invariant
                n == src@.len(),
                addr + n <= 4096,
                k <= n,
                self@ == loaded(old(self)@, addr as int, src@.take(k as int)),
            decreases n - k,
        {
            self.buf[addr + k] = src[k];
            k += 1;
        }
        assert(src@.take(n as int) == src@);
    }
}

impl Index<u16> for Ram {
    type Output = u8;

    /// The byte at address `index`.
    fn index(&self, index: u16) -> (byte: &u8)
        ensures
            *byte == self@[index as int],
    {
        &self.buf[index as usize]
    }
}

impl vstd::std_specs::core::IndexSpecImpl<u16> for Ram {
    open spec fn index_req(&self, index: &u16) -> bool {
        *index < 4096
    }
}

impl Index<Range<u16>> for Ram {
    type Output = [u8];

    /// The bytes from `index.start` up to, not including, `index.end`.
    fn index(&self, index: Range<u16>) -> (bytes: &[u8])
        ensures
            bytes@ == self@.subrange(index.start as int, index.end as int),
    {
        &self.buf[index.start as usize..index.end as usize]
    }
}

impl vstd::std_specs::core::IndexSpecImpl<Range<u16>> for Ram {
    open spec fn index_req(&self, index: &Range<u16>) -> bool {
        index.start <= index.end <= 4096
    }
}

impl IndexMut<u16> for Ram {
    /// The byte at address `index`, for writing.
    fn index_mut(&mut self, index: u16) -> (byte: &mut u8)
        requires
            index < 4096,
        ensures
            *byte == old(self)@[index as int],
            final(self)@ == old(self)@.update(index as int, *final(byte)),
    {
        &mut self.buf[index as usize]
    }
}

/// Every memory has exactly 4096 bytes.
pub broadcast proof fn lemma_ram_len(ram: Ram)
    ensures
        #[trigger] ram@.len() == 4096,
{
}

} // verus!
