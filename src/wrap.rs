//! Counters that wrap modulo 2^16 and 2^32, as RTP sequence numbers and
//! timestamps do.
use vstd::prelude::*;

verus! {

/// A 16-bit counter whose arithmetic wraps modulo 2^16.
#[derive(Copy, Clone, Debug, PartialEq, Eq, Structural)]
pub struct Wrap16(pub u16);

/// A 32-bit counter whose arithmetic wraps modulo 2^32.
#[derive(Copy, Clone, Debug, PartialEq, Eq, Structural)]
pub struct Wrap32(pub u32);

/// `a + b` reduced modulo 2^16.
pub open spec fn add16(a: u16, b: u16) -> u16 {
    ((a + b) % 0x10000) as u16
}

/// `a - b` reduced modulo 2^16.
pub open spec fn sub16(a: u16, b: u16) -> u16 {
    ((a - b + 0x10000) % 0x10000) as u16
}

/// `a + b` reduced modulo 2^32.
pub open spec fn add32(a: u32, b: u32) -> u32 {
    ((a + b) % 0x1_0000_0000) as u32
}

/// `a - b` reduced modulo 2^32.
pub open spec fn sub32(a: u32, b: u32) -> u32 {
    ((a - b + 0x1_0000_0000) % 0x1_0000_0000) as u32
}

impl Wrap16 {
    pub fn new(v: u16) -> (r: Self)
        ensures
            r.0 == v,
    {
        Wrap16(v)
    }

    /// The counter's value, as a one-element tuple.
    pub fn to_primitive_values(&self) -> (r: (u16,))
        ensures
            r.0 == self.0,
    {
        (self.0,)
    }
}

impl Wrap32 {
    pub fn new(v: u32) -> (r: Self)
        ensures
            r.0 == v,
    {
        Wrap32(v)
    }

    /// The counter's value, as a one-element tuple.
    pub fn to_primitive_values(&self) -> (r: (u32,))
        ensures
            r.0 == self.0,
    {
        (self.0,)
    }
}

impl From<Wrap16> for u16 {
    fn from(val: Wrap16) -> (r: u16)
        ensures
            r == val.0,
    {
        val.0
    }
}

impl vstd::std_specs::convert::FromSpecImpl<Wrap16> for u16 {
    open spec fn obeys_from_spec() -> bool {
        true
    }

    open spec fn from_spec(v: Wrap16) -> u16 {
        v.0
    }
}

impl From<u16> for Wrap16 {
    fn from(val: u16) -> (r: Wrap16)
        ensures
            r.0 == val,
    {
        Wrap16(val)
    }
}

impl vstd::std_specs::convert::FromSpecImpl<u16> for Wrap16 {
    open spec fn obeys_from_spec() -> bool {
        true
    }

    open spec fn from_spec(v: u16) -> Wrap16 {
        Wrap16(v)
    }
}

impl From<Wrap32> for u32 {
    fn from(val: Wrap32) -> (r: u32)
        ensures
            r == val.0,
    {
        val.0
    }
}

impl vstd::std_specs::convert::FromSpecImpl<Wrap32> for u32 {
    open spec fn obeys_from_spec() -> bool {
        true
    }

    open spec fn from_spec(v: Wrap32) -> u32 {
        v.0
    }
}

impl From<u32> for Wrap32 {
    fn from(val: u32) -> (r: Wrap32)
        ensures
            r.0 == val,
    {
        Wrap32(val)
    }
}

impl vstd::std_specs::convert::FromSpecImpl<u32> for Wrap32 {
    open spec fn obeys_from_spec() -> bool {
        true
    }

    open spec fn from_spec(v: u32) -> Wrap32 {
        Wrap32(v)
    }
}

impl core::ops::Add<u16> for Wrap16 {
    type Output = Self;

    fn add(self, other: u16) -> (r: Self)
        ensures
            r.0 == add16(self.0, other),
    {
        Wrap16(self.0.wrapping_add(other))
    }
}

impl vstd::std_specs::ops::AddSpecImpl<u16> for Wrap16 {
    open spec fn obeys_add_spec() -> bool {
        true
    }

    open spec fn add_req(self, rhs: u16) -> bool {
        true
    }

    open spec fn add_spec(self, rhs: u16) -> Wrap16 {
        Wrap16(add16(self.0, rhs))
    }
}

impl core::ops::AddAssign<u16> for Wrap16 {
    fn add_assign(&mut self, other: u16)
        ensures
            final(self).0 == add16(old(self).0, other),
    {
        self.0 = self.0.wrapping_add(other);
    }
}

impl core::ops::Sub<u16> for Wrap16 {
    type Output = Self;

    fn sub(self, other: u16) -> (r: Self)
        ensures
            r.0 == sub16(self.0, other),
    {
        Wrap16(self.0.wrapping_sub(other))
    }
}

impl vstd::std_specs::ops::SubSpecImpl<u16> for Wrap16 {
    open spec fn obeys_sub_spec() -> bool {
        true
    }

    open spec fn sub_req(self, rhs: u16) -> bool {
        true
    }

    open spec fn sub_spec(self, rhs: u16) -> Wrap16 {
        Wrap16(sub16(self.0, rhs))
    }
}

impl core::ops::SubAssign<u16> for Wrap16 {
    fn sub_assign(&mut self, other: u16)
        ensures
            final(self).0 == sub16(old(self).0, other),
    {
        self.0 = self.0.wrapping_sub(other);
    }
}

impl core::ops::Add<u32> for Wrap32 {
    type Output = Self;

    fn add(self, other: u32) -> (r: Self)
        ensures
            r.0 == add32(self.0, other),
    {
        Wrap32(self.0.wrapping_add(other))
    }
}

impl vstd::std_specs::ops::AddSpecImpl<u32> for Wrap32 {
    open spec fn obeys_add_spec() -> bool {
        true
    }

    open spec fn add_req(self, rhs: u32) -> bool {
        true
    }

    open spec fn add_spec(self, rhs: u32) -> Wrap32 {
        Wrap32(add32(self.0, rhs))
    }
}

impl core::ops::AddAssign<u32> for Wrap32 {
    fn add_assign(&mut self, other: u32)
        ensures
            final(self).0 == add32(old(self).0, other),
    {
        self.0 = self.0.wrapping_add(other);
    }
}

impl core::ops::Sub<u32> for Wrap32 {
    type Output = Self;

    fn sub(self, other: u32) -> (r: Self)
        ensures
            r.0 == sub32(self.0, other),
    {
        Wrap32(self.0.wrapping_sub(other))
    }
}

impl vstd::std_specs::ops::SubSpecImpl<u32> for Wrap32 {
    open spec fn obeys_sub_spec() -> bool {
        true
    }

    open spec fn sub_req(self, rhs: u32) -> bool {
        true
    }

    open spec fn sub_spec(self, rhs: u32) -> Wrap32 {
        Wrap32(sub32(self.0, rhs))
    }
}

impl core::ops::SubAssign<u32> for Wrap32 {
    fn sub_assign(&mut self, other: u32)
        ensures
            final(self).0 == sub32(old(self).0, other),
    {
        self.0 = self.0.wrapping_sub(other);
    }
}

/// The largest 16-bit counter steps to zero, and zero steps back to it.
pub proof fn lemma_wrap16_boundary()
    ensures
        add16(0xffff, 1) == 0,
        sub16(0, 1) == 0xffff,
{
}

/// The largest 32-bit counter steps to zero, and zero steps back to it.
pub proof fn lemma_wrap32_boundary()
    ensures
        add32(0xffff_ffff, 1) == 0,
        sub32(0, 1) == 0xffff_ffff,
{
}

} // verus!
