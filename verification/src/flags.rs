//! The five classification bits attached to an identifier.

use vstd::prelude::*;

verus! {

/// The license is listed as free/libre by the FSF.
pub const IS_FSF_LIBRE: u8 = 0x1;

/// The license is approved by the OSI.
pub const IS_OSI_APPROVED: u8 = 0x2;

/// The identifier is deprecated.
pub const IS_DEPRECATED: u8 = 0x4;

/// The license is copyleft, weak or strong.
pub const IS_COPYLEFT: u8 = 0x8;

/// The license belongs to the GNU family.
pub const IS_GNU: u8 = 0x10;

/// Every category at once.
pub const ALL_FLAGS: u8 = 0x1f;

/// `flag` is one of the five category bits.
pub open spec fn is_category(flag: u8) -> bool {
    flag == IS_FSF_LIBRE || flag == IS_OSI_APPROVED || flag == IS_DEPRECATED || flag == IS_COPYLEFT
        || flag == IS_GNU
}

/// The bit of `flag` if `on` holds, no bit otherwise.
pub open spec fn bit_if(on: bool, flag: u8) -> u8 {
    if on {
        flag
    } else {
        0u8
    }
}

/// A set of categories, held as a bit mask. No bit outside the five categories
/// is ever set in a value of this type.
#[derive(Clone, Copy, Debug, PartialEq, Eq, Structural)]
pub struct Flags {
    bits: u8,
}

impl View for Flags {
    type V = u8;

    closed spec fn view(&self) -> u8 {
        self.bits
    }
}

impl Flags {
    #[verifier::type_invariant]
    spec fn within_categories(self) -> bool {
        self.bits <= ALL_FLAGS
    }

    /// The set without any category.
    pub fn empty() -> (flags: Flags)
        ensures
            flags@ == 0,
    {
        Flags { bits: 0 }
    }

    /// The set with the bits of `bits`, if they all stand for categories.
    pub fn from_bits(bits: u8) -> (flags: Option<Flags>)
        ensures
            flags is Some <==> bits <= ALL_FLAGS,
            flags matches Some(f) ==> f@ == bits,
    {
        if bits <= ALL_FLAGS {
            Some(Flags { bits })
        } else {
            None
        }
    }

    /// The category `flag` alone if `on` holds, the empty set otherwise.
    pub(crate) fn only_if(on: bool, flag: u8) -> (flags: Flags)
        requires
            is_category(flag),
        ensures
            flags@ == bit_if(on, flag),
    {
        if on {
            Flags { bits: flag }
        } else {
            Flags { bits: 0 }
        }
    }

    /// The bit mask.
    pub fn bits(&self) -> (bits: u8)
        ensures
            bits == self@,
            bits <= ALL_FLAGS,
    {
        proof {
            use_type_invariant(self);
        }
        self.bits
    }

    /// No category is set.
    pub fn is_empty(&self) -> (none: bool)
        ensures
            none == (self@ == 0),
    {
        self.bits == 0
    }

    /// Every bit of `mask` is set.
    pub fn contains(&self, mask: u8) -> (all: bool)
        ensures
            all == (self@ & mask == mask),
    {
        self.bits & mask == mask
    }

    /// The categories of either set.
    pub fn union(self, other: Flags) -> (both: Flags)
        ensures
            both@ == self@ | other@,
    {
        proof {
            use_type_invariant(self);
            use_type_invariant(other);
        }
        let a: u8 = self.bits;
        let b: u8 = other.bits;
        assert((a | b) <= 0x1fu8) by (bit_vector)
            requires
                a <= 0x1fu8,
                b <= 0x1fu8,
        ;
        Flags { bits: a | b }
    }
}

/// Two sets with the same bit mask are the same set.
pub proof fn lemma_same_bits_same_flags(a: Flags, b: Flags)
    requires
        a@ == b@,
    ensures
        a == b,
{
}

/// A mask holds a category exactly when that category is among those OR-ed
/// into it, and an OR of categories never sets a bit outside the five.
pub proof fn lemma_category_bits(fsf: bool, osi: bool, deprecated: bool, copyleft: bool, gnu: bool)
    ensures
        ({
            let m = bit_if(deprecated, IS_DEPRECATED) | bit_if(osi, IS_OSI_APPROVED) | bit_if(
                fsf,
                IS_FSF_LIBRE,
            ) | bit_if(copyleft, IS_COPYLEFT) | bit_if(gnu, IS_GNU);
            &&& (m & IS_FSF_LIBRE == IS_FSF_LIBRE) == fsf
            &&& (m & IS_OSI_APPROVED == IS_OSI_APPROVED) == osi
            &&& (m & IS_DEPRECATED == IS_DEPRECATED) == deprecated
            &&& (m & IS_COPYLEFT == IS_COPYLEFT) == copyleft
            &&& (m & IS_GNU == IS_GNU) == gnu
            &&& m <= ALL_FLAGS
            &&& m & !ALL_FLAGS == 0
        }),
{
    let a = bit_if(deprecated, IS_DEPRECATED);
    let b = bit_if(osi, IS_OSI_APPROVED);
    let c = bit_if(fsf, IS_FSF_LIBRE);
    let d = bit_if(copyleft, IS_COPYLEFT);
    let e = bit_if(gnu, IS_GNU);
    let m = a | b | c | d | e;
    assert({
        &&& (m & 0x1u8 == 0x1u8) == (c == 0x1u8)
        &&& (m & 0x2u8 == 0x2u8) == (b == 0x2u8)
        &&& (m & 0x4u8 == 0x4u8) == (a == 0x4u8)
        &&& (m & 0x8u8 == 0x8u8) == (d == 0x8u8)
        &&& (m & 0x10u8 == 0x10u8) == (e == 0x10u8)
        &&& m <= 0x1fu8
        &&& m & !0x1fu8 == 0
    }) by (bit_vector)
        requires
            m == a | b | c | d | e,
            a == 0x4u8 || a == 0u8,
            b == 0x2u8 || b == 0u8,
            c == 0x1u8 || c == 0u8,
            d == 0x8u8 || d == 0u8,
            e == 0x10u8 || e == 0u8,
    ;
}

} // verus!
