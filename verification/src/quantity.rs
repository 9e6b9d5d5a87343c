//! The sale quantity as a creation call carries it: decimal text, most
//! significant digit first, parsed into the ledger's balance width.

use vstd::prelude::*;

verus! {

/// The ASCII code of the digit zero.
pub const ASCII_ZERO: u8 = 48;

/// The ASCII code of the digit nine.
pub const ASCII_NINE: u8 = 57;

/// The numeric value of decimal text: each digit scales what came before
/// it by ten.
pub open spec fn decimal_value(s: Seq<u8>) -> int
    decreases s.len(),
{
    if s.len() == 0 {
        0
    } else {
        decimal_value(s.drop_last()) * 10 + (s.last() - ASCII_ZERO)
    }
}

/// Every byte is an ASCII decimal digit.
pub open spec fn all_decimal_digits(s: Seq<u8>) -> bool {
    forall|i: int| 0 <= i < s.len() ==> ASCII_ZERO <= #[trigger] s[i] <= ASCII_NINE
}

/// Digit text has a value of at least zero.
proof fn lemma_value_nonneg(s: Seq<u8>)
    requires
        all_decimal_digits(s),
    ensures
        decimal_value(s) >= 0,
    decreases s.len(),
{
    if s.len() > 0 {
        assert forall|i: int| 0 <= i < s.drop_last().len() implies ASCII_ZERO <= #[trigger] s.drop_last()[i]
            <= ASCII_NINE by {
            assert(s.drop_last()[i] == s[i]);
        }
        lemma_value_nonneg(s.drop_last());
    }
}

/// Reading one more digit scales the prefix value by ten and adds it.
proof fn lemma_prefix_step(s: Seq<u8>, i: int)
    requires
        0 <= i < s.len(),
    ensures
        decimal_value(s.take(i + 1)) == decimal_value(s.take(i)) * 10 + (s[i] - ASCII_ZERO),
{
    assert(s.take(i + 1).drop_last() =~= s.take(i));
    assert(s.take(i + 1).last() == s[i]);
}

/// The value of digit text never falls below the value of any of its
/// prefixes.
proof fn lemma_value_grows_to_end(s: Seq<u8>, i: int)
    requires
        all_decimal_digits(s),
        0 <= i <= s.len(),
    ensures
        decimal_value(s.take(i)) <= decimal_value(s),
    decreases s.len() - i,
{
    if i == s.len() {
        assert(s.take(i) =~= s);
    } else {
        lemma_prefix_step(s, i);
        assert forall|k: int| 0 <= k < s.take(i).len() implies ASCII_ZERO <= #[trigger] s.take(i)[k]
            <= ASCII_NINE by {
            assert(s.take(i)[k] == s[k]);
        }
        lemma_value_nonneg(s.take(i));
        lemma_value_grows_to_end(s, i + 1);
    }
}

/// Parses a sale quantity from decimal text: the value exactly when the
/// text is nonempty, all digits, and the value fits the ledger's balance
/// width; `None` otherwise.
pub fn parse_token_quantity(digits: &[u8]) -> (r: Option<u64>)
    ensures
        r is Some <==> (digits@.len() > 0 && all_decimal_digits(digits@) && decimal_value(digits@)
            <= u64::MAX),
        r matches Some(v) ==> v == decimal_value(digits@),
{
    if digits.len() == 0 {
        return None;
    }
    let mut acc: u64 = 0;
    let mut i: usize = 0;
    while i < digits.len()
        invariant
            0 <= i <= digits.len(),
            all_decimal_digits(digits@.take(i as int)),
            acc == decimal_value(digits@.take(i as int)),
        decreases digits@.len() - i,
    {
        let d = digits[i];
        if !(ASCII_ZERO <= d && d <= ASCII_NINE) {
            return None;
        }
        proof {
            lemma_prefix_step(digits@, i as int);
        }
        let shifted = match acc.checked_mul(10) {
            Some(x) => x,
            None => {
                proof {
                    if all_decimal_digits(digits@) {
                        lemma_value_grows_to_end(digits@, i as int + 1);
                    }
                }
                return None;
            },
        };
        let next = match shifted.checked_add((d - ASCII_ZERO) as u64) {
            Some(x) => x,
            None => {
                proof {
                    if all_decimal_digits(digits@) {
                        lemma_value_grows_to_end(digits@, i as int + 1);
                    }
                }
                return None;
            },
        };
        proof {
            assert forall|k: int| 0 <= k < digits@.take(i as int + 1).len() implies ASCII_ZERO
                <= #[trigger] digits@.take(i as int + 1)[k] <= ASCII_NINE by {
                assert(digits@.take(i as int + 1)[k] == digits@[k]);
            }
        }
        acc = next;
        i += 1;
    }
    proof {
        assert(digits@.take(i as int) =~= digits@);
    }
    Some(acc)
}

} // verus!
