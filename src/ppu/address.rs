use vstd::prelude::*;

verus! {

/// The two-write PPU address latch (`PPUADDR`, $2006).
///
/// The first write after a reset of the toggle sets the high byte, the
/// second one the low byte. The combined address is kept within 14 bits.
#[derive(PartialEq, Eq, Structural, Debug, Clone, Copy)]
pub struct AddressRegister {
    pub hi: u8,
    pub lo: u8,
    /// Set when the next write lands in the high byte.
    pub is_hi: bool,
}

/// The 14-bit address that results from storing `hi` and `lo`.
pub open spec fn latched(hi: u8, lo: u8) -> int {
    (hi as int * 256 + lo as int) % 0x4000
}

impl AddressRegister {
    pub open spec fn hi(&self) -> u8 {
        self.hi
    }

    pub open spec fn lo(&self) -> u8 {
        self.lo
    }

    /// Whether the next write lands in the high byte.
    pub open spec fn expects_hi(&self) -> bool {
        self.is_hi
    }

    /// The address currently held.
    pub open spec fn addr(&self) -> int {
        self.hi as int * 256 + self.lo as int
    }

    pub open spec fn wf(&self) -> bool {
        self.hi < 0x40
    }

    /// The register holding `addr`, with the given toggle.
    pub open spec fn holding(addr: int, is_hi: bool) -> AddressRegister {
        AddressRegister { hi: (addr / 256) as u8, lo: (addr % 256) as u8, is_hi }
    }

    /// The register after `update(data)`.
    pub open spec fn update_spec(&self, data: u8) -> AddressRegister {
        let (a, h) = self.updated(data);
        Self::holding(a, h)
    }

    /// The register after `increment(n)`.
    pub open spec fn increment_spec(&self, n: u8) -> AddressRegister {
        Self::holding((self.addr() + n) % 0x4000, self.is_hi)
    }

    /// The register after `update(data)`, as address and toggle.
    pub open spec fn updated(&self, data: u8) -> (int, bool) {
        if self.expects_hi() {
            (latched(data, self.lo()), false)
        } else {
            (latched(self.hi(), data), true)
        }
    }

    pub fn new() -> (r: Self)
        ensures
            r.wf(),
            r.addr() == 0,
            r.expects_hi(),
    {
        AddressRegister { hi: 0, lo: 0, is_hi: true }
    }

    fn set(&mut self, data: u16)
        requires
            data < 0x4000,
        ensures
            final(self).wf(),
            final(self).addr() == data as int,
            final(self).expects_hi() == old(self).expects_hi(),
    {
        self.hi = (data / 256) as u8;
        self.lo = (data % 256) as u8;
    }

    /// Writes `data` into the half selected by the toggle, then flips the
    /// toggle; the address is masked down to 14 bits.
    pub fn update(&mut self, data: u8)
        requires
            old(self).wf(),
        ensures
            final(self).wf(),
            (final(self).addr(), final(self).expects_hi()) == old(self).updated(data),
            *final(self) == old(self).update_spec(data),
    {
        if self.is_hi {
            self.hi = data;
        } else {
            self.lo = data;
        }
        let full = self.get();
        if full > 0x3fff {
            self.set(full % 0x4000);
        }
        self.is_hi = !self.is_hi;
    }

    /// The combined address.
    pub fn get(&self) -> (r: u16)
        ensures
            r as int == self.addr(),
            self.wf() ==> r < 0x4000,
    {
        (self.hi as u16) * 256 + (self.lo as u16)
    }

    /// Makes the next write land in the high byte.
    pub fn reset(&mut self)
        ensures
            final(self).expects_hi(),
            final(self).addr() == old(self).addr(),
            final(self).wf() == old(self).wf(),
            *final(self) == (AddressRegister { is_hi: true, ..*old(self) }),
    {
        self.is_hi = true;
    }

    /// Adds `value` to the address, carrying from the low byte into the
    /// high one, and masks the result to 14 bits.
    pub fn increment(&mut self, value: u8)
        requires
            old(self).wf(),
        ensures
            final(self).wf(),
            final(self).addr() == (old(self).addr() + value) % 0x4000,
            final(self).expects_hi() == old(self).expects_hi(),
            *final(self) == old(self).increment_spec(value),
    {
        let lo = self.lo;
        self.lo = lo.wrapping_add(value);
        if lo > self.lo {
            self.hi = self.hi.wrapping_add(1);
        }
        let full = self.get();
        if full > 0x3fff {
            self.set(full % 0x4000);
        }
    }
}

} // verus!
