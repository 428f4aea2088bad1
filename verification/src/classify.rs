//! Classification of a license identifier into categories.

use vstd::prelude::*;
use crate::flags::{
    bit_if, lemma_category_bits, lemma_same_bits_same_flags, Flags, ALL_FLAGS, IS_COPYLEFT,
    IS_DEPRECATED, IS_FSF_LIBRE, IS_GNU, IS_OSI_APPROVED,
};
use crate::text::{same_text, starts_with};

verus! {

/// `id` names a license of the GNU family.
pub open spec fn gnu_id(id: Seq<char>) -> bool {
    ||| "AGPL-"@.is_prefix_of(id)
    ||| "GFDL-"@.is_prefix_of(id)
    ||| "GPL-"@.is_prefix_of(id)
    ||| "LGPL-"@.is_prefix_of(id)
}

/// `id` names a copyleft license. Weak and strong copyleft are not told apart.
pub open spec fn copyleft_id(id: Seq<char>) -> bool {
    ||| "AGPL-"@.is_prefix_of(id)
    ||| "CC-BY-NC-SA-"@.is_prefix_of(id)
    ||| "CC-BY-SA-"@.is_prefix_of(id)
    ||| "CECILL-"@.is_prefix_of(id)
    ||| "CPL-"@.is_prefix_of(id)
    ||| "CDDL-"@.is_prefix_of(id)
    ||| "EUPL"@.is_prefix_of(id)
    ||| "GFDL-"@.is_prefix_of(id)
    ||| "GPL-"@.is_prefix_of(id)
    ||| "LGPL-"@.is_prefix_of(id)
    ||| "MPL-"@.is_prefix_of(id)
    ||| "NPL-"@.is_prefix_of(id)
    ||| "OSL-"@.is_prefix_of(id)
    ||| id == "BSD-Protection"@
    ||| id == "MS-PL"@
    ||| id == "MS-RL"@
    ||| id == "Parity-6.0.0"@
    ||| id == "SISSL"@
    ||| id == "xinetd"@
    ||| id == "YPL-1.1"@
}

/// An upstream boolean that may be absent counts only when it is present and
/// true.
pub open spec fn is_true(value: Option<bool>) -> bool {
    value == Some(true)
}

/// The bit mask of a license: one bit for each category whose test holds.
pub open spec fn license_bits(
    id: Seq<char>,
    deprecated: Option<bool>,
    osi_approved: Option<bool>,
    fsf_libre: Option<bool>,
) -> u8 {
    bit_if(is_true(deprecated), IS_DEPRECATED) | bit_if(is_true(osi_approved), IS_OSI_APPROVED)
        | bit_if(is_true(fsf_libre), IS_FSF_LIBRE) | bit_if(copyleft_id(id), IS_COPYLEFT) | bit_if(
        gnu_id(id),
        IS_GNU,
    )
}

/// The bit mask of an exception: the deprecated bit or nothing.
pub open spec fn exception_bits(deprecated: Option<bool>) -> u8 {
    bit_if(is_true(deprecated), IS_DEPRECATED)
}

/// Whether `license` names a copyleft license.
pub fn is_copyleft(license: &str) -> (copyleft: bool)
    ensures
        copyleft == copyleft_id(license@),
{
    starts_with(license, "AGPL-") || starts_with(license, "CC-BY-NC-SA-") || starts_with(
        license,
        "CC-BY-SA-",
    ) || starts_with(license, "CECILL-") || starts_with(license, "CPL-") || starts_with(
        license,
        "CDDL-",
    ) || starts_with(license, "EUPL") || starts_with(license, "GFDL-") || starts_with(
        license,
        "GPL-",
    ) || starts_with(license, "LGPL-") || starts_with(license, "MPL-") || starts_with(
        license,
        "NPL-",
    ) || starts_with(license, "OSL-") || same_text(license, "BSD-Protection") || same_text(
        license,
        "MS-PL",
    ) || same_text(license, "MS-RL") || same_text(license, "Parity-6.0.0") || same_text(
        license,
        "SISSL",
    ) || same_text(license, "xinetd") || same_text(license, "YPL-1.1")
}

/// Whether `license` names a license of the GNU family.
pub fn is_gnu(license: &str) -> (gnu: bool)
    ensures
        gnu == gnu_id(license@),
{
    starts_with(license, "AGPL-") || starts_with(license, "GFDL-") || starts_with(license, "GPL-")
        || starts_with(license, "LGPL-")
}

/// Whether an upstream boolean is present and true.
pub fn present_and_true(value: Option<bool>) -> (set: bool)
    ensures
        set == is_true(value),
{
    match value {
        Some(b) => b,
        None => false,
    }
}

/// The categories of the license `id`, given the three upstream booleans.
pub fn classify(
    id: &str,
    deprecated: Option<bool>,
    osi_approved: Option<bool>,
    fsf_libre: Option<bool>,
) -> (flags: Flags)
    ensures
        flags@ == license_bits(id@, deprecated, osi_approved, fsf_libre),
{
    Flags::only_if(present_and_true(deprecated), IS_DEPRECATED).union(
        Flags::only_if(present_and_true(osi_approved), IS_OSI_APPROVED),
    ).union(Flags::only_if(present_and_true(fsf_libre), IS_FSF_LIBRE)).union(
        Flags::only_if(is_copyleft(id), IS_COPYLEFT),
    ).union(Flags::only_if(is_gnu(id), IS_GNU))
}

/// The categories of an exception, given its upstream deprecated boolean.
pub fn classify_exception(deprecated: Option<bool>) -> (flags: Flags)
    ensures
        flags@ == exception_bits(deprecated),
{
    Flags::only_if(present_and_true(deprecated), IS_DEPRECATED)
}

/// The mask of a license holds the bit of a category exactly when the test of
/// that category holds, and no bit besides those of the five categories.
pub proof fn lemma_license_bits_exact(
    id: Seq<char>,
    deprecated: Option<bool>,
    osi_approved: Option<bool>,
    fsf_libre: Option<bool>,
)
    ensures
        ({
            let mask = license_bits(id, deprecated, osi_approved, fsf_libre);
            &&& (mask & IS_DEPRECATED == IS_DEPRECATED) == is_true(deprecated)
            &&& (mask & IS_OSI_APPROVED == IS_OSI_APPROVED) == is_true(osi_approved)
            &&& (mask & IS_FSF_LIBRE == IS_FSF_LIBRE) == is_true(fsf_libre)
            &&& (mask & IS_COPYLEFT == IS_COPYLEFT) == copyleft_id(id)
            &&& (mask & IS_GNU == IS_GNU) == gnu_id(id)
            &&& mask & !ALL_FLAGS == 0
        }),
{
    lemma_category_bits(
        is_true(fsf_libre),
        is_true(osi_approved),
        is_true(deprecated),
        copyleft_id(id),
        gnu_id(id),
    );
}

/// The mask of an exception is empty or the deprecated bit alone, so it never
/// holds the copyleft or the GNU bit.
pub proof fn lemma_exception_bits_exact(deprecated: Option<bool>)
    ensures
        exception_bits(deprecated) == 0 || exception_bits(deprecated) == IS_DEPRECATED,
        exception_bits(deprecated) == IS_DEPRECATED <==> is_true(deprecated),
        exception_bits(deprecated) & IS_COPYLEFT == 0,
        exception_bits(deprecated) & IS_GNU == 0,
{
    assert(0u8 & 0x8u8 == 0 && 0u8 & 0x10u8 == 0 && 0x4u8 & 0x8u8 == 0 && 0x4u8 & 0x10u8 == 0)
        by (bit_vector);
}

/// Classifying the same identifier with the same upstream booleans twice
/// gives the same categories.
pub proof fn lemma_classify_deterministic(
    first: Flags,
    second: Flags,
    id_1: Seq<char>,
    deprecated_1: Option<bool>,
    osi_approved_1: Option<bool>,
    fsf_libre_1: Option<bool>,
    id_2: Seq<char>,
    deprecated_2: Option<bool>,
    osi_approved_2: Option<bool>,
    fsf_libre_2: Option<bool>,
)
    requires
        id_1 == id_2,
        deprecated_1 == deprecated_2,
        osi_approved_1 == osi_approved_2,
        fsf_libre_1 == fsf_libre_2,
        first@ == license_bits(id_1, deprecated_1, osi_approved_1, fsf_libre_1),
        second@ == license_bits(id_2, deprecated_2, osi_approved_2, fsf_libre_2),
    ensures
        first == second,
{
    lemma_same_bits_same_flags(first, second);
}

} // verus!
