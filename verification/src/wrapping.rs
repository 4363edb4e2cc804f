//! Two's-complement arithmetic on machine integers, as mathematics.

use vstd::arithmetic::div_mod::{
    lemma_add_mod_noop, lemma_mod_add_multiples_vanish, lemma_mod_bound,
    lemma_mod_sub_multiples_vanish, lemma_small_mod, lemma_sub_mod_noop,
};
use vstd::arithmetic::power2::{lemma2_to64, lemma2_to64_rest, pow2};
use vstd::prelude::*;
use vstd::wrapping::isize_specs::{wrapping_add, wrapping_sub};

verus! {

/// How many values a machine word takes.
pub open spec fn word_modulus() -> int {
    usize::MAX + 1
}

/// The machine integer that two's-complement arithmetic leaves where the
/// exact result is `exact`: the one value in the range of `isize` that
/// differs from `exact` by a multiple of [`word_modulus`].
pub open spec fn wrapped(exact: int) -> isize {
    let low = exact % word_modulus();
    if low > isize::MAX {
        (low - word_modulus()) as isize
    } else {
        low as isize
    }
}

/// The range of `isize` is one word, centred on zero.
pub proof fn lemma_word_range()
    ensures
        word_modulus() > 0,
        word_modulus() % 2 == 0,
        isize::MAX == word_modulus() / 2 - 1,
        isize::MIN == -(word_modulus() / 2),
{
}

/// A machine word has `usize::BITS` bits.
pub proof fn lemma_word_modulus_is_pow2()
    ensures
        word_modulus() == pow2(usize::BITS as nat),
{
    lemma2_to64();
    lemma2_to64_rest();
}

/// A value already in range wraps to itself.
pub proof fn lemma_wrapped_in_range(exact: int)
    requires
        isize::MIN <= exact <= isize::MAX,
    ensures
        wrapped(exact) == exact,
{
    lemma_word_range();
    let m = word_modulus();
    if exact >= 0 {
        lemma_small_mod(exact as nat, m as nat);
    } else {
        lemma_small_mod((exact + m) as nat, m as nat);
        lemma_mod_add_multiples_vanish(exact, m);
    }
}

/// Wrapping differs from the exact value by a whole number of words.
pub proof fn lemma_wrapped_congruent(exact: int)
    ensures
        wrapped(exact) as int % word_modulus() == exact % word_modulus(),
{
    lemma_word_range();
    let m = word_modulus();
    let low = exact % m;
    lemma_mod_bound(exact, m);
    lemma_small_mod(low as nat, m as nat);
    if low > isize::MAX {
        lemma_mod_sub_multiples_vanish(low, m);
        assert(-m + low == low - m);
    }
}

/// Wrapping an intermediate result changes nothing once the sum or the
/// difference is wrapped.
pub proof fn lemma_wrapped_absorbs(a: int, b: int)
    ensures
        wrapped(wrapped(a) + b) == wrapped(a + b),
        wrapped(wrapped(a) - b) == wrapped(a - b),
{
    lemma_word_range();
    let m = word_modulus();
    lemma_wrapped_congruent(a);
    lemma_add_mod_noop(wrapped(a) as int, b, m);
    lemma_add_mod_noop(a, b, m);
    lemma_sub_mod_noop(wrapped(a) as int, b, m);
    lemma_sub_mod_noop(a, b, m);
}

/// Within one word of the range of `isize`, wrapping moves a value by one
/// word at most.
pub proof fn lemma_wrapped_near_range(exact: int)
    requires
        2 * isize::MIN <= exact <= 2 * isize::MAX + 1,
    ensures
        exact > isize::MAX ==> wrapped(exact) == exact - word_modulus(),
        exact < isize::MIN ==> wrapped(exact) == exact + word_modulus(),
        isize::MIN <= exact <= isize::MAX ==> wrapped(exact) == exact,
{
    lemma_word_range();
    let m = word_modulus();
    if exact > isize::MAX {
        lemma_wrapped_in_range(exact - m);
        lemma_mod_sub_multiples_vanish(exact, m);
        assert(-m + exact == exact - m);
    } else if exact < isize::MIN {
        lemma_wrapped_in_range(exact + m);
        lemma_mod_add_multiples_vanish(exact, m);
    } else {
        lemma_wrapped_in_range(exact);
    }
}

/// The wrapping sum and difference of two machine integers are the exact
/// ones, wrapped.
pub proof fn lemma_wrapping_is_wrapped(a: isize, b: isize)
    ensures
        wrapping_add(a, b) == wrapped(a + b),
        wrapping_sub(a, b) == wrapped(a - b),
{
    lemma_word_range();
    lemma_wrapped_near_range(a + b);
    lemma_wrapped_near_range(a - b);
}

/// Reading a signed machine integer as an unsigned word moves it by a
/// whole word or not at all.
pub proof fn lemma_word_of_signed(signed: isize)
    ensures
        signed >= 0 ==> signed as usize == signed,
        signed < 0 ==> signed as usize == signed + word_modulus(),
{
    let word = signed as usize;
    assert(signed >= 0 ==> word == signed) by (bit_vector)
        requires
            word == signed as usize,
    ;
    assert(signed < 0 && usize::BITS == 32 ==> word == signed + 0x1_0000_0000) by (bit_vector)
        requires
            word == signed as usize,
    ;
    assert(signed < 0 && usize::BITS == 64 ==> word == signed + 0x1_0000_0000_0000_0000)
        by (bit_vector)
        requires
            word == signed as usize,
    ;
}

} // verus!
