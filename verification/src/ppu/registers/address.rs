//! The address register (0x2006): two writes, high byte then low byte,
//! naming a 14-bit VRAM address.

use vstd::prelude::*;

verus! {

#[derive(Clone, Copy, Debug, PartialEq, Eq, Structural)]
pub struct AddrRegister {
    pub value: u16,
    /// Set while the next write fills the high byte.
    pub hi_ptr: bool,
}

/// The 16-bit number with high byte `hi` and low byte `lo`.
pub open spec fn word(hi: u8, lo: u8) -> u16 {
    ((hi as u16) << 8) | (lo as u16)
}

impl AddrRegister {
    /// The register after one write: the byte replaces the half that the
    /// latch selects, the result is cut to 14 bits and the latch flips.
    pub open spec fn after_update(self, data: u8) -> AddrRegister {
        let raw: u16 = if self.hi_ptr {
            ((data as u16) << 8) | (self.value & 0x00FF)
        } else {
            (self.value & 0xFF00) | (data as u16)
        };
        AddrRegister { value: raw & 0x3FFF, hi_ptr: !self.hi_ptr }
    }

    /// The register after a run of writes, first byte first.
    pub open spec fn after_updates(self, data: Seq<u8>) -> AddrRegister
        decreases data.len(),
    {
        if data.len() == 0 {
            self
        } else {
            self.after_updates(data.drop_last()).after_update(data.last())
        }
    }

    /// The register after the address moved on by `inc`, wrapping inside 14 bits.
    pub open spec fn after_increment(self, inc: u8) -> AddrRegister {
        AddrRegister { value: self.value.wrapping_add(inc as u16) & 0x3FFF, hi_ptr: self.hi_ptr }
    }

    pub fn new() -> (r: Self)
        ensures
            r == (AddrRegister { value: 0, hi_ptr: true }),
    {
        AddrRegister { value: 0, hi_ptr: true }
    }

    pub fn set(&mut self, data: u16)
        ensures
            final(self).value == data,
            final(self).hi_ptr == old(self).hi_ptr,
    {
        self.value = data;
    }

    pub fn update(&mut self, data: u8)
        ensures
            *final(self) == old(self).after_update(data),
    {
        let raw: u16 = if self.hi_ptr {
            ((data as u16) << 8) | (self.value & 0x00FF)
        } else {
            (self.value & 0xFF00) | (data as u16)
        };
        self.value = raw & 0x3FFF;
        self.hi_ptr = !self.hi_ptr;
    }

    pub fn increment(&mut self, inc: u8)
        ensures
            *final(self) == old(self).after_increment(inc),
    {
        self.value = self.value.wrapping_add(inc as u16) & 0x3FFF;
    }

    pub fn reset_latch(&mut self)
        ensures
            final(self).hi_ptr == true,
            final(self).value == old(self).value,
    {
        self.hi_ptr = true;
    }

    pub fn get(&self) -> (r: u16)
        ensures
            r == self.value,
    {
        self.value
    }
}

/// A high write followed by a low write leaves the two bytes, joined and
/// cut to 14 bits, as the address, and the latch back on the high byte.
pub proof fn lemma_write_pair(reg: AddrRegister, hi: u8, lo: u8)
    requires
        reg.hi_ptr,
    ensures
        reg.after_update(hi).after_update(lo) == (AddrRegister {
            value: word(hi, lo) & 0x3FFF,
            hi_ptr: true,
        }),
{
    let v = reg.value;
    assert(((((((hi as u16) << 8) | (v & 0x00FF)) & 0x3FFF) & 0xFF00) | (lo as u16)) & 0x3FFF == (((
    hi as u16) << 8) | (lo as u16)) & 0x3FFF) by (bit_vector);
}

/// After any even, non-empty run of writes that starts on the high byte,
/// the address is the last two bytes written, joined and cut to 14 bits.
pub proof fn lemma_address_is_last_pair(reg: AddrRegister, data: Seq<u8>)
    requires
        reg.hi_ptr,
        data.len() >= 2,
        data.len() % 2 == 0,
    ensures
        reg.after_updates(data).value == word(data[data.len() - 2], data[data.len() - 1])
            & 0x3FFF,
        reg.after_updates(data).hi_ptr,
{
    let n = data.len() as int;
    let front = data.drop_last().drop_last();
    lemma_latch_parity(reg, front);
    let mid = reg.after_updates(front);
    assert(data.drop_last().drop_last() == front);
    assert(data.drop_last().last() == data[n - 2]);
    assert(reg.after_updates(data.drop_last()) == mid.after_update(data[n - 2]));
    assert(reg.after_updates(data) == mid.after_update(data[n - 2]).after_update(data[n - 1]));
    lemma_write_pair(mid, data[n - 2], data[n - 1]);
}

/// The latch is back where it started after an even number of writes and
/// flipped after an odd number.
pub proof fn lemma_latch_parity(reg: AddrRegister, data: Seq<u8>)
    ensures
        reg.after_updates(data).hi_ptr == (if data.len() % 2 == 0 {
            reg.hi_ptr
        } else {
            !reg.hi_ptr
        }),
    decreases data.len(),
{
    if data.len() > 0 {
        lemma_latch_parity(reg, data.drop_last());
    }
}

} // verus!
