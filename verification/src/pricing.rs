//! Complementary pricing: one minus a quoted decimal price, rounded to two
//! decimals.  Because the two instruments' outcomes are complementary, a best
//! bid on one instrument implies a best ask of `1 - price` on the other.
//!
//! A quote is a decimal numeral (digits with at most one dot and at least one
//! digit).  The derivation is defined for values in `[0, 1]`; any other text
//! yields no derived quote and only the direct-side fields are committed.

use vstd::prelude::*;

use crate::chars::chars_vec;
use crate::chars::digit_char;
use crate::chars::digit_char_exec;
use crate::chars::digit_val;
use crate::chars::digit_val_exec;
use crate::chars::is_digit;
use crate::chars::is_digit_exec;
use crate::chars::push_char;

verus! {

/// All characters of `s[lo..hi)` are decimal digits.
pub open spec fn digits_in(s: Seq<char>, lo: int, hi: int) -> bool {
    forall|i: int| lo <= i < hi ==> is_digit(#[trigger] s[i])
}

/// `k` splits `s` into the integer and fraction digits of a decimal numeral:
/// everything is a digit but for at most one dot, which stands at `k`, and
/// there is at least one digit.
pub open spec fn splits_at(s: Seq<char>, k: int) -> bool {
    &&& 0 <= k <= s.len()
    &&& (k < s.len() ==> s[k] == '.')
    &&& digits_in(s, 0, k)
    &&& (k < s.len() ==> digits_in(s, k + 1, s.len() as int))
    &&& (if k < s.len() {
        s.len() >= 2
    } else {
        s.len() >= 1
    })
}

/// The text is a decimal numeral.
pub open spec fn is_decimal(s: Seq<char>) -> bool {
    exists|k: int| splits_at(s, k)
}

/// Position of the dot (the length when there is none).
pub open spec fn split_pos(s: Seq<char>) -> int {
    choose|k: int| splits_at(s, k)
}

/// The digits before the dot.
pub open spec fn int_digits(s: Seq<char>) -> Seq<char> {
    s.take(split_pos(s))
}

/// The digits after the dot.
pub open spec fn frac_digits(s: Seq<char>) -> Seq<char> {
    if split_pos(s) < s.len() {
        s.skip(split_pos(s) + 1)
    } else {
        Seq::empty()
    }
}

/// If a prefix free of dots up to `k`, a dot (or the end) at `k`, and digits
/// everywhere else have been established, `k` is the only candidate split.
pub proof fn lemma_only_split(s: Seq<char>, k: int)
    requires
        0 <= k <= s.len(),
        forall|i: int| 0 <= i < k ==> #[trigger] s[i] != '.',
        k < s.len() ==> s[k] == '.',
    ensures
        forall|kk: int| #[trigger] splits_at(s, kk) ==> kk == k,
{
    assert forall|kk: int| #[trigger] splits_at(s, kk) implies kk == k by {
        if kk < k {
            assert(s[kk] == '.');
        }
        if kk > k {
            assert(k < s.len());
            assert(is_digit(s[k]));
            assert(s[k] == '.');
        }
    }
}

/// Digits `d[lo..)` are all zero.
pub open spec fn zeros_from(d: Seq<char>, lo: int) -> bool {
    forall|i: int| lo <= i < d.len() ==> #[trigger] d[i] == '0'
}

/// The integer digits name zero or one.
pub open spec fn int_le_one(d: Seq<char>) -> bool {
    &&& forall|i: int| 0 <= i < d.len() - 1 ==> #[trigger] d[i] == '0'
    &&& (d.len() > 0 ==> (d.last() == '0' || d.last() == '1'))
}

/// The integer digits name exactly one.
pub open spec fn int_is_one(d: Seq<char>) -> bool {
    int_le_one(d) && d.len() > 0 && d.last() == '1'
}

/// The numeral's value is at most one.
pub open spec fn value_le_one(s: Seq<char>) -> bool {
    &&& int_le_one(int_digits(s))
    &&& (int_is_one(int_digits(s)) ==> zeros_from(frac_digits(s), 0))
}

/// Hundredths named by the integer part and the first two fraction digits.
pub open spec fn head_hundredths(s: Seq<char>) -> int {
    let f = frac_digits(s);
    let d1 = if f.len() > 0 {
        digit_val(f[0])
    } else {
        0
    };
    let d2 = if f.len() > 1 {
        digit_val(f[1])
    } else {
        0
    };
    (if int_is_one(int_digits(s)) {
        100int
    } else {
        0int
    }) + 10 * d1 + d2
}

/// The fraction digits beyond the second name more than half a hundredth.
pub open spec fn tail_over_half(s: Seq<char>) -> bool {
    let f = frac_digits(s);
    f.len() > 2 && (digit_val(f[2]) > 5 || (digit_val(f[2]) == 5 && !zeros_from(f, 3)))
}

/// Hundredths of one minus the value, rounded half away from zero.
pub open spec fn complement_hundredths(s: Seq<char>) -> int {
    100 - head_hundredths(s) - (if tail_over_half(s) {
        1int
    } else {
        0int
    })
}

/// A count of hundredths in `[0, 100]`, written with two decimals.
pub open spec fn hundredths_text(h: int) -> Seq<char> {
    if h == 100 {
        seq!['1', '.', '0', '0']
    } else {
        seq!['0', '.', digit_char(h / 10), digit_char(h % 10)]
    }
}

/// One minus the quoted price, rounded to two decimals: the implied
/// opposite-side quote.  `None` when the text is not a decimal numeral with a
/// value in `[0, 1]`; such a quote yields no derived fields.
pub open spec fn complement_of(p: Seq<char>) -> Option<Seq<char>> {
    if is_decimal(p) && value_le_one(p) {
        Some(hundredths_text(complement_hundredths(p)))
    } else {
        None
    }
}

/// View of an optional owned string.
pub open spec fn opt_text(r: Option<String>) -> Option<Seq<char>> {
    match r {
        Some(s) => Some(s@),
        None => None,
    }
}

/// Computes the implied opposite-side price for a quoted price, exactly as
/// [`complement_of`] describes it.
#[verifier::loop_isolation(false)]
pub fn complement(price: &str) -> (r: Option<String>)
    ensures
        opt_text(r) == complement_of(price@),
{
    let cs = chars_vec(price);
    let n = cs.len();
    let ghost s = price@;

    // Find the first dot (or the end).
    let mut k: usize = 0;
    while k < n && cs[k] != '.'
        invariant
            cs@ == s,
            n == s.len(),
            k <= n,
            forall|i: int| 0 <= i < k ==> #[trigger] s[i] != '.',
        decreases n - k,
    {
        k = k + 1;
    }
    // Every character but the dot must be a digit.
    let mut i: usize = 0;
    while i < n
        invariant
            cs@ == s,
            n == s.len(),
            k <= n,
            k < n ==> s[k as int] == '.',
            forall|j: int| 0 <= j < k ==> #[trigger] s[j] != '.',
            i <= n,
            forall|j: int| 0 <= j < i && j != k ==> is_digit(#[trigger] s[j]),
        decreases n - i,
    {
        if i != k && !is_digit_exec(cs[i]) {
            proof {
                lemma_only_split(s, k as int);
                assert(!splits_at(s, k as int));
                assert(!is_decimal(s));
            }
            return None;
        }
        i = i + 1;
    }
    proof {
        lemma_only_split(s, k as int);
    }
    // At least one digit is needed.
    if n == 0 || (k < n && n < 2) {
        proof {
            assert(!splits_at(s, k as int));
            assert(!is_decimal(s));
        }
        return None;
    }
    proof {
        assert(digits_in(s, 0, k as int));
        if (k as int) < s.len() {
            assert(digits_in(s, k as int + 1, s.len() as int));
        }
        assert(splits_at(s, k as int));
        assert(splits_at(s, split_pos(s)));
        assert(split_pos(s) == k as int);
        assert(int_digits(s) =~= s.take(k as int));
    }
    let ghost intd = int_digits(s);
    let ghost frac = frac_digits(s);
    proof {
        if (k as int) < s.len() {
            assert(frac =~= s.skip(k as int + 1));
        }
    }

    // The integer part must name zero or one.
    if k > 0 {
        let mut i2: usize = 0;
        while i2 + 1 < k
            invariant
                cs@ == s,
                n == s.len(),
                k <= n,
                intd == s.take(k as int),
                i2 + 1 <= k,
                forall|j: int| 0 <= j < i2 ==> #[trigger] s[j] == '0',
            decreases k - i2,
        {
            if cs[i2] != '0' {
                proof {
                    assert(intd[i2 as int] == s[i2 as int]);
                    assert(!int_le_one(intd));
                }
                return None;
            }
            i2 = i2 + 1;
        }
        let last = cs[k - 1];
        if !(last == '0' || last == '1') {
            proof {
                assert(intd.last() == s[k - 1]);
                assert(!int_le_one(intd));
            }
            return None;
        }
    }
    let is_one = k > 0 && cs[k - 1] == '1';
    proof {
        if k > 0 {
            assert(intd.last() == s[k - 1]);
        }
        assert(int_le_one(intd));
        assert(is_one == int_is_one(intd));
    }

    // When the value is exactly one, every fraction digit must be zero.
    let fstart = if k < n {
        k + 1
    } else {
        n
    };
    proof {
        assert(frac =~= s.skip(fstart as int));
    }
    if is_one {
        let mut j: usize = fstart;
        while j < n
            invariant
                cs@ == s,
                n == s.len(),
                fstart <= j <= n,
                frac == s.skip(fstart as int),
                forall|t: int| fstart <= t < j ==> #[trigger] s[t] == '0',
            decreases n - j,
        {
            if cs[j] != '0' {
                proof {
                    assert(frac[j - fstart] == s[j as int]);
                    assert(!zeros_from(frac, 0));
                    assert(!value_le_one(s));
                }
                return None;
            }
            j = j + 1;
        }
        proof {
            assert forall|t: int| 0 <= t < frac.len() implies #[trigger] frac[t] == '0' by {
                assert(frac[t] == s[t + fstart]);
            }
            assert(zeros_from(frac, 0));
        }
    }
    proof {
        assert(value_le_one(s));
    }

    // Head hundredths from the integer part and the first two fraction digits.
    let flen = n - fstart;
    let d1: u8 = if flen > 0 {
        digit_val_exec(cs[fstart])
    } else {
        0
    };
    let d2: u8 = if flen > 1 {
        digit_val_exec(cs[fstart + 1])
    } else {
        0
    };
    proof {
        assert(frac.len() == flen);
        if flen > 0 {
            assert(frac[0] == s[fstart as int]);
        }
        if flen > 1 {
            assert(frac[1] == s[fstart + 1]);
        }
    }
    let head: u16 = (if is_one {
        100
    } else {
        0
    }) + 10 * (d1 as u16) + (d2 as u16);
    proof {
        assert(head as int == head_hundredths(s));
    }

    // Does the tail of the fraction round the complement down by one?
    let mut over = false;
    if flen > 2 {
        let d3 = digit_val_exec(cs[fstart + 2]);
        proof {
            assert(frac[2] == s[fstart + 2]);
        }
        if d3 > 5 {
            over = true;
        } else if d3 == 5 {
            let mut j: usize = fstart + 3;
            while j < n && cs[j] == '0'
                invariant
                    cs@ == s,
                    n == s.len(),
                    fstart + 3 <= j <= n,
                    frac == s.skip(fstart as int),
                    frac.len() == n - fstart,
                    forall|t: int| fstart + 3 <= t < j ==> #[trigger] s[t] == '0',
                decreases n - j,
            {
                j = j + 1;
            }
            if j < n {
                proof {
                    assert(frac[j - fstart] == s[j as int]);
                    assert(!zeros_from(frac, 3));
                }
                over = true;
            } else {
                proof {
                    assert forall|t: int| 3 <= t < frac.len() implies #[trigger] frac[t] == '0' by {
                        assert(frac[t] == s[t + fstart]);
                    }
                    assert(zeros_from(frac, 3));
                }
            }
        }
    }
    proof {
        assert(over == tail_over_half(s));
        if over {
            assert(digit_val(frac[2]) >= 5);
            assert(frac[2] != '0');
            assert(!int_is_one(intd));
        }
    }
    let h: u16 = 100 - head - (if over {
        1
    } else {
        0
    });
    proof {
        assert(h as int == complement_hundredths(s));
    }

    // Render the hundredths with two decimals.
    let mut out = String::new();
    if h == 100 {
        push_char(&mut out, '1');
        push_char(&mut out, '.');
        push_char(&mut out, '0');
        push_char(&mut out, '0');
        proof {
            assert(out@ =~= hundredths_text(h as int));
        }
    } else {
        push_char(&mut out, '0');
        push_char(&mut out, '.');
        push_char(&mut out, digit_char_exec((h / 10) as u8));
        push_char(&mut out, digit_char_exec((h % 10) as u8));
        proof {
            assert(out@ =~= hundredths_text(h as int));
        }
    }
    Some(out)
}

} // verus!
