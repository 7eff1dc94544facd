use vstd::prelude::*;

verus! {

/// Number of bytes in the 16-bit address space of the machines described here.
pub const ADDRESS_SPACE: usize = 0x10000;

/// The host's linear address space, one byte per 16-bit address.
///
/// Every register access of the library goes through `peek` and `poke`.
pub struct Memory {
    bytes: Vec<u8>,
}

impl View for Memory {
    type V = Seq<u8>;

    closed spec fn view(&self) -> Seq<u8> {
        self.bytes@
    }
}

impl Memory {
    /// Every address is backed by exactly one byte.
    pub open spec fn wf(&self) -> bool {
        self@.len() == ADDRESS_SPACE
    }

    /// An address space in which every byte reads as zero.
    pub fn new() -> (r: Memory)
        ensures
            r.wf(),
            r@ == Seq::new(ADDRESS_SPACE as nat, |i: int| 0u8),
    {
        let bytes = vec![0u8; ADDRESS_SPACE];
        let r = Memory { bytes };
        assert(r@ =~= Seq::new(ADDRESS_SPACE as nat, |i: int| 0u8));
        r
    }

    /// Reads the byte at `addr`.
    pub fn peek(&self, addr: u16) -> (r: u8)
        requires
            self.wf(),
        ensures
            r == self@[addr as int],
    {
        self.bytes[addr as usize]
    }

    /// Writes `value` at `addr`; no other byte changes.
    pub fn poke(&mut self, addr: u16, value: u8)
        requires
            old(self).wf(),
        ensures
            final(self).wf(),
            final(self)@ == old(self)@.update(addr as int, value),
    {
        self.bytes.set(addr as usize, value);
    }
}

} // verus!
