//! Verified parsing of signed decimal integers, as the dynamic path segments
//! and the `Room` header require it: an optional `+` or `-` sign followed by
//! one or more decimal digits, with the value in the range of `i64`.

use vstd::prelude::*;

verus! {

pub open spec fn is_digit(c: char) -> bool {
    48 <= c as int <= 57
}

pub open spec fn digit_val(c: char) -> int {
    c as int - 48
}

pub open spec fn all_digits(s: Seq<char>) -> bool {
    forall|i: int| 0 <= i < s.len() ==> is_digit(#[trigger] s[i])
}

/// The value of a sequence of decimal digits, most significant first.
pub open spec fn digits_value(s: Seq<char>) -> int
    decreases s.len(),
{
    if s.len() == 0 {
        0
    } else {
        digits_value(s.drop_last()) * 10 + digit_val(s.last())
    }
}

pub open spec fn pow10(n: nat) -> int
    decreases n,
{
    if n == 0 {
        1
    } else {
        10 * pow10((n - 1) as nat)
    }
}

/// The digits of a decimal text, once an optional leading sign is removed.
pub open spec fn strip_sign(s: Seq<char>) -> Seq<char> {
    if s.len() > 0 && (s[0] == '-' || s[0] == '+') {
        s.skip(1)
    } else {
        s
    }
}

pub open spec fn is_negative(s: Seq<char>) -> bool {
    s.len() > 0 && s[0] == '-'
}

/// What a decimal text denotes as an `i64`: an optional sign, then only
/// digits, and a value within range; anything else denotes nothing.
pub open spec fn spec_parse_i64(s: Seq<char>) -> Option<i64> {
    let ds = strip_sign(s);
    let neg = is_negative(s);
    if ds.len() == 0 || !all_digits(ds) {
        None
    } else {
        let v = if neg {
            -digits_value(ds)
        } else {
            digits_value(ds)
        };
        if i64::MIN <= v <= i64::MAX {
            Some(v as i64)
        } else {
            None
        }
    }
}

pub proof fn lemma_pow10_concrete()
    ensures
        pow10(18) == 1000000000000000000,
        pow10(19) == 10000000000000000000,
{
    reveal_with_fuel(pow10, 21);
}

pub proof fn lemma_pow10_pos(n: nat)
    ensures
        pow10(n) >= 1,
    decreases n,
{
    if n > 0 {
        lemma_pow10_pos((n - 1) as nat);
    }
}

pub proof fn lemma_pow10_mono(a: nat, b: nat)
    requires
        a <= b,
    ensures
        pow10(a) <= pow10(b),
    decreases b,
{
    if a < b {
        lemma_pow10_mono(a, (b - 1) as nat);
        lemma_pow10_pos((b - 1) as nat);
    }
}

pub proof fn lemma_digits_value_lower(s: Seq<char>)
    requires
        all_digits(s),
        s.len() > 0,
        digit_val(s[0]) >= 1,
    ensures
        digits_value(s) >= pow10((s.len() - 1) as nat),
    decreases s.len(),
{
    if s.len() == 1 {
        reveal_with_fuel(digits_value, 2);
        assert(s.last() == s[0]);
    } else {
        assert(all_digits(s.drop_last()));
        lemma_digits_value_lower(s.drop_last());
        assert(digit_val(s.last()) >= 0);
    }
}

pub proof fn lemma_leading_zero(s: Seq<char>)
    requires
        s.len() > 0,
        digit_val(s[0]) == 0,
    ensures
        digits_value(s) == digits_value(s.skip(1)),
    decreases s.len(),
{
    if s.len() == 1 {
        reveal_with_fuel(digits_value, 2);
        assert(s.skip(1) =~= Seq::<char>::empty());
        assert(s.last() == s[0]);
    } else {
        lemma_leading_zero(s.drop_last());
        assert(s.skip(1).drop_last() =~= s.drop_last().skip(1));
        assert(s.skip(1).last() == s.last());
    }
}

/// Parses a signed decimal integer exactly as `spec_parse_i64` states it.
pub fn parse_i64(s: &str) -> (r: Option<i64>)
    ensures
        r == spec_parse_i64(s@),
{
    let n = s.unicode_len();
    if n == 0 {
        return None;
    }
    let c0 = s.get_char(0);
    let start: usize = if c0 == '-' || c0 == '+' {
        1
    } else {
        0
    };
    let neg = c0 == '-';
    if start == n {
        return None;
    }
    let ghost ds = strip_sign(s@);
    proof {
        assert(ds =~= s@.subrange(start as int, n as int));
    }
    // Every character after the sign must be a digit.
    let mut i: usize = start;
    while i < n
        invariant
            start <= i <= n,
            n == s@.len(),
            ds == strip_sign(s@),
            ds == s@.subrange(start as int, n as int),
            forall|j: int| start <= j < i ==> is_digit(#[trigger] s@[j]),
        decreases n - i,
    {
        let c = s.get_char(i);
        let cv = c as u32;
        if cv < 48 || cv > 57 {
            proof {
                assert(cv == c as int);
                assert(s@.subrange(start as int, n as int)[(i - start) as int] == s@[i as int]);
                assert(ds[(i - start) as int] == s@[i as int]);
                assert(!is_digit(ds[(i - start) as int]));
                assert(!all_digits(ds));
            }
            return None;
        }
        i += 1;
    }
    proof {
        assert(forall|j: int| 0 <= j < ds.len() ==> ds[j] == s@[start + j]);
        assert(all_digits(ds));
    }
    // Skip leading zeros; they do not change the denoted value.
    let mut z: usize = start;
    while z < n && s.get_char(z) as u32 == 48
        invariant
            start <= z <= n,
            n == s@.len(),
            forall|j: int| start <= j < n ==> is_digit(#[trigger] s@[j]),
            digits_value(s@.subrange(start as int, n as int)) == digits_value(
                s@.subrange(z as int, n as int),
            ),
        decreases n - z,
    {
        proof {
            let cur = s@.subrange(z as int, n as int);
            assert(cur[0] == s@[z as int]);
            assert(is_digit(s@[z as int]));
            lemma_leading_zero(cur);
            assert(cur.skip(1) =~= s@.subrange(z as int + 1, n as int));
        }
        z += 1;
    }
    let sig = n - z;
    let ghost zs = s@.subrange(z as int, n as int);
    proof {
        assert(forall|j: int| 0 <= j < zs.len() ==> zs[j] == s@[z + j]);
        assert(all_digits(zs));
    }
    if sig > 19 {
        // At least twenty significant digits exceed the range of `i64`.
        proof {
            assert(zs[0] == s@[z as int]);
            assert(is_digit(s@[z as int]));
            assert(digit_val(zs[0]) >= 1);
            lemma_digits_value_lower(zs);
            lemma_pow10_mono(19, (zs.len() - 1) as nat);
            lemma_pow10_concrete();
            assert(digits_value(ds) >= 10000000000000000000);
        }
        return None;
    }
    // Accumulate the magnitude; at most nineteen digits always fit in `u64`.
    let mut mag: u64 = 0;
    let mut k: usize = z;
    while k < n
        invariant
            start <= z <= k <= n,
            n == s@.len(),
            n - z <= 19,
            zs == s@.subrange(z as int, n as int),
            all_digits(zs),
            forall|j: int| start <= j < n ==> is_digit(#[trigger] s@[j]),
            mag == digits_value(s@.subrange(z as int, k as int)),
            mag < pow10((k - z) as nat),
        decreases n - k,
    {
        let c = s.get_char(k);
        let cv = c as u32;
        proof {
            assert(is_digit(s@[k as int]));
            assert(cv == c as int);
            assert(48 <= cv <= 57);
        }
        let d = (cv - 48) as u64;
        proof {
            assert(d == digit_val(s@[k as int]));
            assert((k - z) as nat <= 18);
            lemma_pow10_mono((k - z) as nat, 18);
            lemma_pow10_concrete();
            let pre = s@.subrange(z as int, k as int);
            let ext = s@.subrange(z as int, k as int + 1);
            assert(ext.drop_last() =~= pre);
            assert(ext.last() == s@[k as int]);
        }
        mag = mag * 10 + d;
        k += 1;
        proof {
            lemma_pow10_mono((k - z) as nat, 19);
            lemma_pow10_concrete();
        }
    }
    proof {
        assert(s@.subrange(z as int, k as int) =~= zs);
        assert(digits_value(ds) == digits_value(zs));
    }
    if neg {
        if mag <= 9223372036854775807u64 {
            Some(-(mag as i64))
        } else if mag == 9223372036854775808u64 {
            Some(i64::MIN)
        } else {
            None
        }
    } else {
        if mag <= 9223372036854775807u64 {
            Some(mag as i64)
        } else {
            None
        }
    }
}

} // verus!
