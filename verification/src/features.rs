//! Feature flags, held in the byte order of the wire: the highest bits come first.

use lightning::util::ser::{WithoutLength, Writeable};
use vstd::prelude::*;

verus! {

/// The lowest bit that custom features may use.
pub const FIRST_CUSTOM_BIT: usize = 256;

/// One more than the highest bit that 65535 bytes of flags hold, which is what their length
/// prefix on the wire can count.
pub const FLAG_BITS_LIMIT: usize = 524280;

/// Bit `bit` is set in `flags`.
pub open spec fn has_feature(flags: Seq<u8>, bit: nat) -> bool {
    &&& bit / 8 < flags.len()
    &&& (flags[flags.len() - 1 - bit / 8] >> ((bit % 8) as u8)) & 1 == 1
}

/// The bits that are set in `flags`.
pub open spec fn feature_bits(flags: Seq<u8>) -> Set<nat> {
    Set::new(|bit: nat| has_feature(flags, bit))
}

/// The bit that marks as optional the feature that `bit` belongs to: of the two bits of a
/// feature the odd one.
pub open spec fn optional_bit(bit: nat) -> nat {
    if bit % 2 == 0 {
        bit + 1
    } else {
        bit
    }
}

/// `after` is `before` with the optional bit of `bit` set, as many bytes longer as that bit
/// needs.
pub open spec fn optional_bit_set(before: Seq<u8>, bit: nat, after: Seq<u8>) -> bool {
    &&& forall|b: nat| #[trigger]
        has_feature(after, b) == (has_feature(before, b) || b == optional_bit(bit))
    &&& after.len() == if before.len() <= optional_bit(bit) / 8 {
        optional_bit(bit) / 8 + 1
    } else {
        before.len()
    }
}

/// Calls `lightning::ln::features::NodeFeatures::empty`: no flags, and no bytes for them.
#[verifier::external_body]
pub(crate) fn empty_node_features() -> (flags: Vec<u8>)
    ensures
        flags@.len() == 0,
{
    WithoutLength(&lightning::ln::features::NodeFeatures::empty()).encode()
}

/// Calls `lightning::ln::features::InitFeatures::empty`: no flags, and no bytes for them.
#[verifier::external_body]
pub(crate) fn empty_init_features() -> (flags: Vec<u8>)
    ensures
        flags@.len() == 0,
{
    WithoutLength(&lightning::ln::features::InitFeatures::empty()).encode()
}

/// Calls `lightning::ln::features::NodeFeatures::set_optional_custom_bit`: it sets the odd
/// bit of the feature, and fails exactly where that bit is below the custom range. (No
/// feature known by name lies in that range.)
#[verifier::external_body]
pub(crate) fn set_optional_custom_node_bit(flags: Vec<u8>, bit: usize) -> (changed: Option<Vec<u8>>)
    requires
        bit < FLAG_BITS_LIMIT,
    ensures
        match changed {
            Some(after) => {
                &&& optional_bit(bit as nat) >= FIRST_CUSTOM_BIT
                &&& optional_bit_set(flags@, bit as nat, after@)
            },
            None => optional_bit(bit as nat) < FIRST_CUSTOM_BIT,
        },
{
    let mut features = lightning::ln::features::NodeFeatures::from_be_bytes(flags);
    match features.set_optional_custom_bit(bit) {
        Ok(()) => Some(WithoutLength(&features).encode()),
        Err(()) => None,
    }
}

/// Calls `lightning::ln::features::InitFeatures::set_optional_custom_bit`: it sets the odd
/// bit of the feature, and fails exactly where that bit is below the custom range. (No
/// feature known by name lies in that range.)
#[verifier::external_body]
pub(crate) fn set_optional_custom_init_bit(flags: Vec<u8>, bit: usize) -> (changed: Option<Vec<u8>>)
    requires
        bit < FLAG_BITS_LIMIT,
    ensures
        match changed {
            Some(after) => {
                &&& optional_bit(bit as nat) >= FIRST_CUSTOM_BIT
                &&& optional_bit_set(flags@, bit as nat, after@)
            },
            None => optional_bit(bit as nat) < FIRST_CUSTOM_BIT,
        },
{
    let mut features = lightning::ln::features::InitFeatures::from_be_bytes(flags);
    match features.set_optional_custom_bit(bit) {
        Ok(()) => Some(WithoutLength(&features).encode()),
        Err(()) => None,
    }
}

/// Where there are no flags, no bit is set.
pub proof fn lemma_no_flags_no_bits(flags: Seq<u8>)
    requires
        flags.len() == 0,
    ensures
        feature_bits(flags) == Set::<nat>::empty(),
{
    assert(feature_bits(flags) =~= Set::<nat>::empty());
}

/// Setting the optional bit of a feature adds that bit and no other.
pub proof fn lemma_bit_set(before: Seq<u8>, bit: nat, after: Seq<u8>)
    requires
        optional_bit_set(before, bit, after),
    ensures
        feature_bits(after) == feature_bits(before).insert(optional_bit(bit)),
{
    assert(feature_bits(after) =~= feature_bits(before).insert(optional_bit(bit)));
}

} // verus!
