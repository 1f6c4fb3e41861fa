//! Sizes that a display of the editor needs.
use vstd::prelude::*;

verus! {

/// The number of decimal digits of `n`; 1 for 0.
pub open spec fn decimal_digits(n: nat) -> nat
    decreases n,
{
    if n < 10 {
        1
    } else {
        1 + decimal_digits(n / 10)
    }
}

proof fn lemma_digits_at_most(n: nat)
    requires
        n >= 1,
    ensures
        1 <= decimal_digits(n) <= n,
    decreases n,
{
    if n >= 10 {
        lemma_digits_at_most(n / 10);
    }
}

/// The width of the line-number gutter for `line_count` lines: the number
/// of decimal digits of `line_count`, at least 1.
pub fn gutter_width(line_count: usize) -> (r: usize)
    ensures
        r == decimal_digits(line_count as nat),
        r >= 1,
{
    proof {
        if line_count >= 1 {
            lemma_digits_at_most(line_count as nat);
        }
    }
    let mut n: usize = line_count;
    let mut digits: usize = 1;
    while n >= 10
        invariant
            digits >= 1,
            digits + decimal_digits(n as nat) == 1 + decimal_digits(line_count as nat),
            line_count >= 1 ==> decimal_digits(line_count as nat) <= line_count,
            line_count == 0 ==> n == 0,
        decreases n,
    {
        assert(decimal_digits(n as nat) == 1 + decimal_digits((n / 10) as nat));
        proof {
            if n / 10 >= 1 {
                lemma_digits_at_most((n / 10) as nat);
            }
        }
        n = n / 10;
        digits = digits + 1;
    }
    digits
}

} // verus!
