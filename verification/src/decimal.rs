use vstd::prelude::*;

verus! {

/// Whether `c` is an ASCII decimal digit.
pub open spec fn is_digit(c: char) -> bool {
    '0' <= c && c <= '9'
}

/// Whether every character of `d` is an ASCII decimal digit.
pub open spec fn all_digits(d: Seq<char>) -> bool {
    forall|i: int| 0 <= i < d.len() ==> is_digit(#[trigger] d[i])
}

/// The number that the decimal digits `d` denote, most significant first.
pub open spec fn digits_value(d: Seq<char>) -> int
    decreases d.len(),
{
    if d.len() == 0 {
        0
    } else {
        digits_value(d.drop_last()) * 10 + (d.last() as int - '0' as int)
    }
}

/// `s` without a leading `'+'`.
pub open spec fn unsigned_part(s: Seq<char>) -> Seq<char> {
    if s.len() > 0 && s[0] == '+' {
        s.drop_first()
    } else {
        s
    }
}

/// What `str::parse::<u64>` gives for `s`: an optional `'+'` followed by one
/// or more decimal digits whose value fits in a `u64`; nothing otherwise.
pub open spec fn parse_u64_spec(s: Seq<char>) -> Option<u64> {
    let d = unsigned_part(s);
    if d.len() > 0 && all_digits(d) && digits_value(d) <= u64::MAX {
        Some(digits_value(d) as u64)
    } else {
        None
    }
}

/// A decimal number is never negative.
pub proof fn lemma_digits_value_nonneg(d: Seq<char>)
    requires
        all_digits(d),
    ensures
        digits_value(d) >= 0,
    decreases d.len(),
{
    if d.len() > 0 {
        let p = d.drop_last();
        assert(all_digits(p)) by {
            assert forall|k: int| 0 <= k < p.len() implies is_digit(#[trigger] p[k]) by {
                assert(p[k] == d[k]);
            }
        }
        lemma_digits_value_nonneg(p);
        assert(is_digit(d[d.len() - 1]));
    }
}

/// Parses `s` as `str::parse::<u64>` does: an optional `'+'`, then decimal
/// digits, with `None` for anything else and for values above `u64::MAX`.
pub fn parse_u64(s: &str) -> (r: Option<u64>)
    ensures
        r == parse_u64_spec(s@),
{
    let n = s.unicode_len();
    let start: usize = if n > 0 && s.get_char(0) == '+' { 1 } else { 0 };
    let ghost d = unsigned_part(s@);
    assert(d =~= s@.subrange(start as int, n as int));
    if start == n {
        return None;
    }
    let mut value: u64 = 0;
    let mut overflow = false;
    let mut i: usize = start;
    while i < n
        invariant
            n == s@.len(),
            start <= i <= n,
            d =~= s@.subrange(start as int, n as int),
            d == unsigned_part(s@),
            all_digits(d.subrange(0, i - start)),
            !overflow ==> value == digits_value(d.subrange(0, i - start)),
            overflow ==> digits_value(d.subrange(0, i - start)) > u64::MAX,
        decreases n - i,
    {
        let c = s.get_char(i);
        let ghost k = i - start;
        let ghost pre = d.subrange(0, k);
        let ghost next = d.subrange(0, k + 1);
        assert(next.drop_last() =~= pre);
        assert(next.last() == c);
        if c < '0' || c > '9' {
            proof {
                assert(d[k] == next[k]);
                assert(!is_digit(d[k]));
                assert(!all_digits(d));
                assert(parse_u64_spec(s@) is None);
            }
            return None;
        }
        assert(all_digits(next)) by {
            assert forall|q: int| 0 <= q < next.len() implies is_digit(#[trigger] next[q]) by {
                if q < k {
                    assert(next[q] == pre[q]);
                }
            }
        }
        let digit: u64 = ((c as u32) - ('0' as u32)) as u64;
        if !overflow {
            match value.checked_mul(10) {
                Some(t) => match t.checked_add(digit) {
                    Some(v) => {
                        value = v;
                    },
                    None => {
                        overflow = true;
                    },
                },
                None => {
                    proof {
                        lemma_digits_value_nonneg(pre);
                    }
                    overflow = true;
                },
            }
        } else {
            proof {
                lemma_digits_value_nonneg(pre);
            }
        }
        i = i + 1;
    }
    assert(d.subrange(0, n - start) =~= d);
    if overflow {
        None
    } else {
        Some(value)
    }
}

} // verus!
