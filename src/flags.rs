use vstd::prelude::*;

verus! {

/// The account has administrator rights.
pub const USER_FLAG_ADMIN: i32 = 1;

/// The account is suspended.
pub const USER_FLAG_SUSPENDED: i32 = 2;

/// Two-factor authentication is switched on for the account.
pub const USER_FLAG_TWO_FACTOR_AUTH: i32 = 4;

/// The account's email address has been verified.
pub const USER_FLAG_EMAIL_VERIFIED: i32 = 8;

/// Every bit of `flag` is set in `flags`.
pub open spec fn flags_has(flags: i32, flag: i32) -> bool {
    flags & flag == flag
}

/// `flags` with every bit of `flag` set.
pub open spec fn flags_set(flags: i32, flag: i32) -> i32 {
    flags | flag
}

/// `flags` with every bit of `flag` cleared.
pub open spec fn flags_unset(flags: i32, flag: i32) -> i32 {
    flags & !flag
}

/// Setting a flag and then clearing it leaves a flag set that did not hold
/// any of its bits as it was, and a set flag is always reported as present.
pub proof fn lemma_set_then_unset(s: i32, f: i32)
    requires
        s & f == 0,
    ensures
        flags_unset(flags_set(s, f), f) == s,
        flags_has(flags_set(s, f), f),
{
    assert((s | f) & !f == s) by (bit_vector)
        requires
            s & f == 0,
    ;
    assert((s | f) & f == f) by (bit_vector);
}

/// Setting and then clearing a flag restores every other bit: the result is
/// the original set with that flag cleared.
pub proof fn lemma_set_then_unset_other_bits(s: i32, f: i32)
    ensures
        flags_unset(flags_set(s, f), f) == flags_unset(s, f),
{
    assert((s | f) & !f == s & !f) by (bit_vector);
}

/// Setting a flag twice is the same as setting it once, and so is clearing.
pub proof fn lemma_idempotent(s: i32, f: i32)
    ensures
        flags_set(flags_set(s, f), f) == flags_set(s, f),
        flags_unset(flags_unset(s, f), f) == flags_unset(s, f),
        flags_has(flags_set(s, f), f),
        flags_unset(s, f) & f == 0,
{
    assert((s | f) | f == s | f) by (bit_vector);
    assert((s & !f) & !f == s & !f) by (bit_vector);
    assert((s | f) & f == f) by (bit_vector);
    assert((s & !f) & f == 0) by (bit_vector);
}

/// Operations on disjoint flags commute, and changing one flag never changes
/// whether a disjoint flag is present.
pub proof fn lemma_disjoint_independent(s: i32, f: i32, g: i32)
    requires
        f & g == 0,
    ensures
        flags_set(flags_set(s, f), g) == flags_set(flags_set(s, g), f),
        flags_unset(flags_unset(s, f), g) == flags_unset(flags_unset(s, g), f),
        flags_unset(flags_set(s, f), g) == flags_set(flags_unset(s, g), f),
        flags_has(flags_set(s, f), g) == flags_has(s, g),
        flags_has(flags_unset(s, f), g) == flags_has(s, g),
{
    assert((s | f) | g == (s | g) | f) by (bit_vector);
    assert((s & !f) & !g == (s & !g) & !f) by (bit_vector);
    assert((s | f) & !g == (s & !g) | f) by (bit_vector)
        requires
            f & g == 0,
    ;
    assert(((s | f) & g == g) == (s & g == g)) by (bit_vector)
        requires
            f & g == 0,
    ;
    assert(((s & !f) & g == g) == (s & g == g)) by (bit_vector)
        requires
            f & g == 0,
    ;
}

/// The four named flags are distinct single bits.
pub proof fn lemma_named_flags_disjoint()
    ensures
        USER_FLAG_ADMIN & USER_FLAG_SUSPENDED == 0,
        USER_FLAG_ADMIN & USER_FLAG_TWO_FACTOR_AUTH == 0,
        USER_FLAG_ADMIN & USER_FLAG_EMAIL_VERIFIED == 0,
        USER_FLAG_SUSPENDED & USER_FLAG_TWO_FACTOR_AUTH == 0,
        USER_FLAG_SUSPENDED & USER_FLAG_EMAIL_VERIFIED == 0,
        USER_FLAG_TWO_FACTOR_AUTH & USER_FLAG_EMAIL_VERIFIED == 0,
{
    assert(1i32 & 2i32 == 0) by (bit_vector);
    assert(1i32 & 4i32 == 0) by (bit_vector);
    assert(1i32 & 8i32 == 0) by (bit_vector);
    assert(2i32 & 4i32 == 0) by (bit_vector);
    assert(2i32 & 8i32 == 0) by (bit_vector);
    assert(4i32 & 8i32 == 0) by (bit_vector);
}

} // verus!
