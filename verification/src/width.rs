//! Operand widths of the x86 encoder.
use vstd::prelude::*;

verus! {

/// The widths an operand can have, in bits.
#[derive(Debug, Clone, Copy, PartialEq, Eq, Structural, PartialOrd, Ord, Hash)]
pub enum Width {
    _8,
    _16,
    _32,
    _64,
    _128,
}

/// Why a number of bits has no width.
#[derive(Debug, Clone, Copy, PartialEq, Eq, Structural)]
pub enum WidthError {
    /// A width of zero bits cannot be encoded.
    Zero,
    /// The width is larger than any register.
    Oversize(u16),
}

impl Width {
    /// The number of bits of the width.
    pub open spec fn bits(self) -> nat {
        match self {
            Width::_8 => 8,
            Width::_16 => 16,
            Width::_32 => 32,
            Width::_64 => 64,
            Width::_128 => 128,
        }
    }

    /// The smallest width that holds `bits` bits; anything above 128 bits is
    /// held as 128 bits.
    pub open spec fn canonical(bits: u64) -> Width {
        if bits <= 8 {
            Width::_8
        } else if bits <= 16 {
            Width::_16
        } else if bits <= 32 {
            Width::_32
        } else if bits <= 64 {
            Width::_64
        } else {
            Width::_128
        }
    }

    /// Rounds a number of bits up to a width. Zero bits has no width.
    pub fn from_uncanonicalized(bits: u64) -> (r: Result<Width, WidthError>)
        ensures
            bits == 0 ==> r == Err::<Width, WidthError>(WidthError::Zero),
            bits != 0 ==> r == Ok::<Width, WidthError>(Self::canonical(bits)),
    {
        if bits == 0 {
            Err(WidthError::Zero)
        } else if bits <= 8 {
            Ok(Width::_8)
        } else if bits <= 16 {
            Ok(Width::_16)
        } else if bits <= 32 {
            Ok(Width::_32)
        } else if bits <= 64 {
            Ok(Width::_64)
        } else {
            Ok(Width::_128)
        }
    }

    /// The number of bits of the width.
    pub fn as_u16(&self) -> (r: u16)
        ensures
            r as nat == self.bits(),
    {
        match self {
            Width::_8 => 8,
            Width::_16 => 16,
            Width::_32 => 32,
            Width::_64 => 64,
            Width::_128 => 128,
        }
    }

    /// Whether `self` is narrower than `other` (widths are ordered by their
    /// number of bits).
    pub fn narrower_than(&self, other: &Width) -> (r: bool)
        ensures
            r == (self.bits() < other.bits()),
    {
        self.as_u16() < other.as_u16()
    }

    /// The narrower of two widths.
    pub fn min(self, other: Width) -> (r: Width)
        ensures
            r.bits() <= self.bits(),
            r.bits() <= other.bits(),
            r == self || r == other,
    {
        if other.narrower_than(&self) {
            other
        } else {
            self
        }
    }
}

/// A width holds exactly the numbers of bits that round up to it, and it is
/// the smallest such width.
pub proof fn lemma_canonical_fits(bits: u64, w: Width)
    requires
        0 < bits <= 128,
        bits <= w.bits(),
    ensures
        bits <= Width::canonical(bits).bits(),
        Width::canonical(bits).bits() <= w.bits(),
{
}

/// Rounding the width's own number of bits gives the width back.
pub proof fn lemma_canonical_of_bits(w: Width)
    ensures
        Width::canonical(w.bits() as u64) == w,
{
}

/// Rounding up is monotonic.
pub proof fn lemma_canonical_monotonic(a: u64, b: u64)
    requires
        a <= b,
    ensures
        Width::canonical(a).bits() <= Width::canonical(b).bits(),
{
}

} // verus!
