//! The flat 64 KiB address space the processor works on.
//!
//! In contracts a memory is the sequence of its 65 536 bytes.

use vstd::prelude::*;
use crate::bits::lemma_word;

verus! {

/// Number of addressable bytes.
pub const MAX_MEM: usize = 65536;

/// Flat byte-addressed memory; every 16-bit address is always defined.
#[derive(Debug)]
pub struct Memory {
    data: [u8; MAX_MEM],
}

/// The 16-bit word made of a low and a high byte.
pub open spec fn word(low: u8, high: u8) -> u16 {
    (low as int + 256 * (high as int)) as u16
}

/// The low byte of a word.
pub open spec fn low_byte(w: u16) -> u8 {
    (w % 256) as u8
}

/// The high byte of a word, which is the number of its page.
pub open spec fn high_byte(w: u16) -> u8 {
    (w / 256) as u8
}

/// The little-endian word stored at `address` and the address after it
/// (address 0 follows address 0xFFFF).
pub open spec fn word_at(memory: Seq<u8>, address: u16) -> u16 {
    word(memory[address as int], memory[address.wrapping_add(1) as int])
}

/// The little-endian word stored in page zero at `address` and the
/// page-zero address after it (address 0 follows address 0xFF).
pub open spec fn zero_page_word_at(memory: Seq<u8>, address: u8) -> u16 {
    word(memory[address as int], memory[address.wrapping_add(1) as int])
}

/// The memory after the bytes of `bytes` from index `from` on were stored at
/// `address` and the addresses after it, wrapping at the end of memory.
pub open spec fn stored(memory: Seq<u8>, address: u16, bytes: Seq<u8>, from: int) -> Seq<u8> {
    Seq::new(
        memory.len(),
        |a: int|
            {
                let k = if a >= address {
                    a - address
                } else {
                    a - address + 65536
                };
                if from + k < bytes.len() {
                    bytes[from + k]
                } else {
                    memory[a]
                }
            },
    )
}

impl View for Memory {
    type V = Seq<u8>;

    closed spec fn view(&self) -> Seq<u8> {
        self.data@
    }
}

impl Memory {
    /// A memory holds one byte for each 16-bit address.
    pub proof fn lemma_len(&self)
        ensures
            self@.len() == 65536,
    {
    }

    /// A memory whose every byte is zero.
    pub fn initialize() -> (memory: Memory)
        ensures
            memory@.len() == 65536,
            forall|a: int| 0 <= a < 65536 ==> memory@[a] == 0u8,
    {
        Memory { data: [0u8; 65536] }
    }

    /// The byte stored at `address`.
    pub fn read_byte(&self, address: u16) -> (value: u8)
        ensures
            value == self@[address as int],
    {
        self.data[address as usize]
    }

    /// Stores `value` at `address`; no other byte changes.
    pub fn write_byte(&mut self, address: u16, value: u8)
        ensures
            final(self)@ == old(self)@.update(address as int, value),
            final(self)@.len() == 65536,
    {
        self.data[address as usize] = value;
    }

    /// The little-endian word at `address`; the high byte comes from the
    /// next address, wrapping at the end of memory.
    pub fn read_word(&self, address: u16) -> (value: u16)
        ensures
            value == word_at(self@, address),
    {
        let low = self.data[address as usize];
        let high = self.data[address.wrapping_add(1) as usize];
        proof {
            lemma_word(low, high);
        }
        (low as u16) | ((high as u16) << 8)
    }

    /// The bytes at the addresses from `start` up to, not including, `end`.
    pub fn range(&self, start: usize, end: usize) -> (bytes: &[u8])
        requires
            start <= end <= 65536,
        ensures
            bytes@ == self@.subrange(start as int, end as int),
    {
        vstd::slice::slice_subrange(self.data.as_slice(), start, end)
    }

    /// Copies `program[from..]` to `address` and the addresses after it,
    /// wrapping at the end of memory.
    pub fn load(&mut self, address: u16, program: &[u8], from: usize)
        requires
            from <= program@.len() <= from + 65536,
        ensures
            final(self)@ == stored(old(self)@, address, program@, from as int),
    {
        let mut at: usize = from;
        let mut target: u16 = address;
        while at < program.len()
            invariant
                from <= at <= program@.len() <= from + 65536,
                self@.len() == 65536,
                target as int == (address + (at - from)) % 65536,
                forall|a: int|
                    0 <= a < 65536 ==> #[trigger] self@[a] == {
                        let k = if a >= address {
                            a - address
                        } else {
                            a - address + 65536
                        };
                        if from + k < at {
                            program@[from + k]
                        } else {
                            old(self)@[a]
                        }
                    },
            decreases program@.len() - at,
        {
            self.data[target as usize] = program[at];
            target = target.wrapping_add(1);
            at = at + 1;
        }
        assert(self@ =~= stored(old(self)@, address, program@, from as int));
    }
}

} // verus!
