//! The 64 KiB byte-addressable memory, with little-endian word helpers.
//!
//! Addresses are `u16`, so every access is taken modulo 65,536 by construction;
//! the second byte of a word at `0xFFFF` lives at `0x0000`.
//! Each access charges the bus cycles it takes to a caller-held counter.

use vstd::prelude::*;

verus! {

/// The address that follows `a`, wrapping from `0xFFFF` to `0x0000`.
pub open spec fn next_addr(a: u16) -> u16 {
    ((a + 1) % 65536) as u16
}

/// The address `n` bytes after `a`, wrapping around the address space.
pub open spec fn addr_plus(a: u16, n: int) -> u16 {
    ((a + n) % 65536) as u16
}

/// Low-order byte of a word.
pub open spec fn low_byte(w: u16) -> u8 {
    (w % 256) as u8
}

/// High-order byte of a word.
pub open spec fn high_byte(w: u16) -> u8 {
    (w / 256) as u8
}

/// The little-endian word stored at `a` and the address after it.
pub open spec fn word_at(m: Seq<u8>, a: u16) -> u16 {
    (m[a as int] + 256 * m[next_addr(a) as int]) as u16
}

/// `m` after storing `w` little-endian at `a`.
pub open spec fn put_word(m: Seq<u8>, a: u16, w: u16) -> Seq<u8> {
    m.update(a as int, low_byte(w)).update(next_addr(a) as int, high_byte(w))
}

/// The contents of a freshly initialised memory: every cell zero.
pub open spec fn zeroed() -> Seq<u8> {
    Seq::new(65536, |i: int| 0u8)
}

/// Storing a word and then reading a word at the same address gives back the
/// stored value, for every address, including `0xFFFF` whose high byte wraps to `0x0000`.
pub proof fn lemma_word_round_trip(m: Seq<u8>, a: u16, w: u16)
    requires
        m.len() == 65536,
    ensures
        word_at(put_word(m, a, w), a) == w,
{
    assert(next_addr(a) != a);
    let m2 = put_word(m, a, w);
    assert(m2[a as int] == low_byte(w));
    assert(m2[next_addr(a) as int] == high_byte(w));
}

/// The machine's memory: 65,536 byte cells.
#[derive(Debug)]
pub struct MEM {
    pub data: [u8; 65536],
}

impl View for MEM {
    type V = Seq<u8>;

    open spec fn view(&self) -> Seq<u8> {
        self.data@
    }
}

impl Default for MEM {
    fn default() -> (r: MEM)
        ensures
            r@ == zeroed(),
    {
        let r = MEM { data: [0u8; 65536] };
        assert(r@ =~= zeroed());
        r
    }
}

impl MEM {
    /// Number of byte cells in the address space.
    pub const MAX_MEM: usize = 1024 * 64;

    /// Sets every cell to zero.
    pub fn initialise(&mut self)
        ensures
            final(self)@ == zeroed(),
    {
        let mut i: usize = 0;
        while i < MEM::MAX_MEM
            invariant
                i <= MEM::MAX_MEM,
                self@.len() == 65536,
                forall|j: int| 0 <= j < i ==> self@[j] == 0,
            decreases MEM::MAX_MEM - i,
        {
            self.data[i] = 0;
            i = i + 1;
        }
        assert(self@ =~= zeroed());
    }

    /// The byte at `address`; one bus cycle.
    pub fn read_byte(&self, cycles: &mut i64, address: u16) -> (r: u8)
        requires
            *old(cycles) > i64::MIN,
        ensures
            r == self@[address as int],
            *final(cycles) == *old(cycles) - 1,
    {
        *cycles = *cycles - 1;
        self.data[address as usize]
    }

    /// The little-endian word at `address`; two bus cycles.
    pub fn read_word(&self, cycles: &mut i64, address: u16) -> (r: u16)
        requires
            *old(cycles) > i64::MIN + 1,
        ensures
            r == word_at(self@, address),
            *final(cycles) == *old(cycles) - 2,
    {
        let lo = self.read_byte(cycles, address);
        let hi = self.read_byte(cycles, address.wrapping_add(1));
        lo as u16 + 256 * (hi as u16)
    }

    /// Stores `value` at `address`; one bus cycle.
    pub fn write_byte(&mut self, cycles: &mut i64, address: u16, value: u8)
        requires
            *old(cycles) > i64::MIN,
        ensures
            final(self)@ == old(self)@.update(address as int, value),
            *final(cycles) == *old(cycles) - 1,
    {
        self.data[address as usize] = value;
        *cycles = *cycles - 1;
    }

    /// Stores `word` little-endian at `address`; two bus cycles.
    pub fn write_word(&mut self, cycles: &mut i64, word: u16, address: u16)
        requires
            *old(cycles) > i64::MIN + 1,
        ensures
            final(self)@ == put_word(old(self)@, address, word),
            *final(cycles) == *old(cycles) - 2,
    {
        self.write_byte(cycles, address, (word % 256) as u8);
        self.write_byte(cycles, address.wrapping_add(1), (word / 256) as u8);
    }
}

} // verus!
