use vstd::prelude::*;

verus! {

/// The two-write scroll register (`PPUSCROLL`, $2005): x first, then y.
#[derive(PartialEq, Eq, Structural, Debug, Clone, Copy)]
pub struct ScrollRegister {
    pub scroll_x: u8,
    pub scroll_y: u8,
    /// Set when the next write lands in `scroll_y`.
    pub latch: bool,
}

impl ScrollRegister {
    pub open spec fn new_spec() -> ScrollRegister {
        ScrollRegister { scroll_x: 0, scroll_y: 0, latch: false }
    }

    /// The register after `update(data)`.
    pub open spec fn update_spec(&self, data: u8) -> ScrollRegister {
        if self.latch {
            ScrollRegister { scroll_y: data, latch: false, ..*self }
        } else {
            ScrollRegister { scroll_x: data, latch: true, ..*self }
        }
    }

    pub fn new() -> (r: Self)
        ensures
            r.scroll_x == 0,
            r.scroll_y == 0,
            !r.latch,
            r == Self::new_spec(),
    {
        ScrollRegister { scroll_x: 0, scroll_y: 0, latch: false }
    }

    /// Stores `data` into the value selected by the toggle, then flips it.
    pub fn update(&mut self, data: u8)
        ensures
            *final(self) == old(self).update_spec(data),
            final(self).latch == !old(self).latch,
            old(self).latch ==> final(self).scroll_y == data && final(self).scroll_x == old(self).scroll_x,
            !old(self).latch ==> final(self).scroll_x == data && final(self).scroll_y == old(self).scroll_y,
    {
        if self.latch {
            self.scroll_y = data;
        } else {
            self.scroll_x = data;
        }
        self.latch = !self.latch;
    }

    /// Makes the next write land in `scroll_x`.
    pub fn reset(&mut self)
        ensures
            !final(self).latch,
            final(self).scroll_x == old(self).scroll_x,
            final(self).scroll_y == old(self).scroll_y,
    {
        self.latch = false;
    }
}

} // verus!
