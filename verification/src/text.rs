//! Numbers in words: the digits that messages are made of.

use vstd::arithmetic::div_mod::{
    lemma_div_decreases, lemma_div_non_zero, lemma_fundamental_div_mod,
};
use vstd::arithmetic::mul::lemma_mul_is_commutative;
use vstd::prelude::*;
use vstd::string::StringExecFns;

verus! {

/// The sixteen digits.
pub open spec fn digit(d: int) -> char {
    "0123456789abcdef"@[d]
}

/// The digits of `n` to the base `base`, without leading zeros.
pub open spec fn digits(n: nat, base: nat) -> Seq<char>
    decreases n,
{
    if n < base || base < 2 {
        seq![digit(n as int)]
    } else {
        proof {
            lemma_div_decreases(n as int, base as int);
        }
        digits(n / base, base).push(digit((n % base) as int))
    }
}

/// Appends the digits of `n` to the base `base` to `text`.
pub fn append_digits(text: &mut String, n: u64, base: u64)
    requires
        2 <= base <= 16,
    ensures
        final(text)@ == old(text)@ + digits(n as nat, base as nat),
    decreases n,
{
    if n >= base {
        proof {
            lemma_div_decreases(n as int, base as int);
        }
        append_digits(text, n / base, base);
    }
    let d: usize = (n % base) as usize;
    let all: &str = "0123456789abcdef";
    proof {
        reveal_strlit("0123456789abcdef");
    }
    text.append(all.substring_char(d, d + 1));
    assert(text@ =~= old(text)@ + digits(n as nat, base as nat));
}

/// The value of a digit.
pub open spec fn digit_value(c: char) -> int {
    if '0' <= c <= '9' {
        c as int - '0' as int
    } else {
        10 + c as int - 'a' as int
    }
}

/// The number that `text` is read as, to the base `base`.
pub open spec fn reading(text: Seq<char>, base: nat) -> int
    decreases text.len(),
{
    if text.len() == 0 {
        0
    } else {
        reading(text.drop_last(), base) * base + digit_value(text.last())
    }
}

/// The digits of a number read as that number. They are digits of the base, in
/// lower case, at least one, and the first is zero only for the number zero.
pub proof fn law_digits_read_as_their_number(n: nat, base: nat)
    requires
        2 <= base <= 16,
    ensures
        reading(digits(n, base), base) == n,
        digits(n, base).len() > 0,
        digits(n, base)[0] == '0' <==> n == 0,
        forall|i: int|
            #![trigger digits(n, base)[i]]
            0 <= i < digits(n, base).len() ==> {
                let c = digits(n, base)[i];
                &&& '0' <= c <= '9' || 'a' <= c <= 'f'
                &&& 0 <= digit_value(c) < base
            },
    decreases n,
{
    reveal_strlit("0123456789abcdef");
    let text = digits(n, base);
    if n < base {
        assert(text.drop_last() =~= Seq::empty());
        assert(reading(text.drop_last(), base) * base == 0) by (nonlinear_arith)
            requires
                reading(text.drop_last(), base) == 0,
        ;
    } else {
        lemma_div_decreases(n as int, base as int);
        law_digits_read_as_their_number(n / base, base);
        assert(text.drop_last() =~= digits(n / base, base));
        lemma_fundamental_div_mod(n as int, base as int);
        lemma_mul_is_commutative(base as int, n as int / base as int);
        lemma_div_non_zero(n as int, base as int);
        assert(digits(n / base, base)[0] == text[0]);
    }
}

} // verus!
