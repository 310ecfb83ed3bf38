//! Reading the option mask.

use vstd::prelude::*;

verus! {

/// Mask bit: keep every number as its exact text instead of a machine number.
pub const F_USE_NUMBER: u64 = 1 << 2;

/// Mask bit: reject strings whose encoding is not valid.
pub const F_VALIDATE_STRING: u64 = 1 << 3;

/// The options of one parse call, by name.
#[derive(Clone, Copy, Debug, PartialEq, Eq, Structural)]
pub struct Config {
    /// Numbers are kept as their exact text.
    pub use_number: bool,
    /// String encoding is validated strictly.
    pub validate_string: bool,
    /// Unpaired surrogate escapes are replaced instead of reported.
    pub disable_surrogates_error: bool,
}

/// The options that a mask stands for. Each switchable option has one bit of
/// its own; the surrogate policy is fixed and no bit reaches it.
pub open spec fn options_of(mask: u64) -> Config {
    Config {
        use_number: mask & F_USE_NUMBER != 0,
        validate_string: mask & F_VALIDATE_STRING != 0,
        disable_surrogates_error: true,
    }
}

impl Config {
    /// Reads a mask. Every bit pattern is accepted; bits that name no option
    /// have no effect.
    pub fn from_mask(mask: u64) -> (cfg: Config)
        ensures
            cfg == options_of(mask),
            cfg.disable_surrogates_error,
    {
        Config {
            use_number: mask & F_USE_NUMBER != 0,
            validate_string: mask & F_VALIDATE_STRING != 0,
            disable_surrogates_error: true,
        }
    }
}

/// The two option bits are two different bits.
pub proof fn lemma_bits_are_distinct()
    ensures
        F_USE_NUMBER != 0,
        F_VALIDATE_STRING != 0,
        F_USE_NUMBER & F_VALIDATE_STRING == 0,
{
    assert(1u64 << 2 != 0 && 1u64 << 3 != 0 && (1u64 << 2) & (1u64 << 3) == 0) by (bit_vector);
}

/// The surrogate policy is the same under every mask.
pub proof fn lemma_surrogate_policy_is_fixed(mask: u64)
    ensures
        options_of(mask).disable_surrogates_error,
{
}

/// `use_number` follows its own bit, and that bit moves nothing else.
pub proof fn lemma_use_number_has_its_own_bit(mask: u64)
    ensures
        options_of(mask | F_USE_NUMBER).use_number,
        !options_of(mask & !F_USE_NUMBER).use_number,
        options_of(mask | F_USE_NUMBER).validate_string == options_of(mask).validate_string,
        options_of(mask & !F_USE_NUMBER).validate_string == options_of(mask).validate_string,
{
    assert((mask | (1u64 << 2)) & (1u64 << 2) != 0) by (bit_vector);
    assert((mask & !(1u64 << 2)) & (1u64 << 2) == 0) by (bit_vector);
    assert((mask | (1u64 << 2)) & (1u64 << 3) == mask & (1u64 << 3)) by (bit_vector);
    assert((mask & !(1u64 << 2)) & (1u64 << 3) == mask & (1u64 << 3)) by (bit_vector);
}

/// `validate_string` follows its own bit, and that bit moves nothing else.
pub proof fn lemma_validate_string_has_its_own_bit(mask: u64)
    ensures
        options_of(mask | F_VALIDATE_STRING).validate_string,
        !options_of(mask & !F_VALIDATE_STRING).validate_string,
        options_of(mask | F_VALIDATE_STRING).use_number == options_of(mask).use_number,
        options_of(mask & !F_VALIDATE_STRING).use_number == options_of(mask).use_number,
{
    assert((mask | (1u64 << 3)) & (1u64 << 3) != 0) by (bit_vector);
    assert((mask & !(1u64 << 3)) & (1u64 << 3) == 0) by (bit_vector);
    assert((mask | (1u64 << 3)) & (1u64 << 2) == mask & (1u64 << 2)) by (bit_vector);
    assert((mask & !(1u64 << 3)) & (1u64 << 2) == mask & (1u64 << 2)) by (bit_vector);
}

/// Bits that name no option have no effect: two masks that agree on the two
/// option bits stand for the same options.
pub proof fn lemma_other_bits_are_ignored(mask: u64, other: u64)
    requires
        mask & (F_USE_NUMBER | F_VALIDATE_STRING) == other & (F_USE_NUMBER | F_VALIDATE_STRING),
    ensures
        options_of(mask) == options_of(other),
{
    assert(mask & ((1u64 << 2) | (1u64 << 3)) == other & ((1u64 << 2) | (1u64 << 3)) ==> mask & (1u64
        << 2) == other & (1u64 << 2) && mask & (1u64 << 3) == other & (1u64 << 3)) by (bit_vector);
}

} // verus!
