//! Reading configuration values: a comma-joined list is split into its
//! segments, and owner identifiers are parsed as decimal numbers. The
//! loading of the configuration file itself is plumbing and stays with
//! the caller.

use crate::admin::key_views;
use crate::text::push_char;
use vstd::prelude::*;

verus! {

/// The segments joined back with commas: the inverse view of a split.
pub open spec fn spec_join_commas(segs: Seq<Seq<char>>) -> Seq<char>
    decreases segs.len(),
{
    if segs.len() == 0 {
        Seq::empty()
    } else if segs.len() == 1 {
        segs[0]
    } else {
        spec_join_commas(segs.drop_last()).push(',') + segs.last()
    }
}

/// No comma anywhere in the segment.
pub open spec fn comma_free(seg: Seq<char>) -> bool {
    forall|j: int| 0 <= j < seg.len() ==> seg[j] != ','
}

/// Splits on commas: the segments are comma-free and join back to the
/// input, which pins them down exactly. An input without commas gives one
/// segment; a trailing comma gives a final empty segment.
pub fn split_commas(s: &str) -> (r: Vec<String>)
    ensures
        r@.len() >= 1,
        spec_join_commas(key_views(r@)) == s@,
        forall|i: int| 0 <= i < r@.len() ==> comma_free(#[trigger] r@[i]@),
{
    let n = s.unicode_len();
    let mut out: Vec<String> = Vec::new();
    let mut cur = String::new();
    let mut i: usize = 0;
    while i < n
        invariant
            n == s@.len(),
            0 <= i <= n,
            comma_free(cur@),
            forall|k: int| 0 <= k < out@.len() ==> comma_free(#[trigger] out@[k]@),
            (if out@.len() == 0 {
                cur@ =~= s@.take(i as int)
            } else {
                spec_join_commas(key_views(out@)).push(',') + cur@ =~= s@.take(i as int)
            }),
        decreases n - i,
    {
        let c = s.get_char(i);
        if c == ',' {
            let ghost prev_out = out@;
            out.push(cur);
            proof {
                assert(key_views(out@).drop_last() =~= key_views(prev_out));
                if prev_out.len() == 0 {
                    assert(spec_join_commas(key_views(out@)) == cur@);
                } else {
                    assert(spec_join_commas(key_views(out@)) == spec_join_commas(
                        key_views(prev_out),
                    ).push(',') + cur@);
                }
            }
            cur = String::new();
        } else {
            push_char(&mut cur, c);
        }
        proof {
            assert(s@.take(i as int + 1) =~= s@.take(i as int).push(s@[i as int]));
            if out@.len() == 0 {
                assert(cur@ =~= s@.take(i as int + 1));
            } else {
                assert(spec_join_commas(key_views(out@)).push(',') + cur@ =~= s@.take(
                    i as int + 1,
                ));
            }
        }
        i += 1;
    }
    let ghost prev_out = out@;
    out.push(cur);
    proof {
        assert(s@.take(n as int) =~= s@);
        assert(key_views(out@).drop_last() =~= key_views(prev_out));
        if prev_out.len() == 0 {
            assert(spec_join_commas(key_views(out@)) =~= s@);
        } else {
            assert(spec_join_commas(key_views(out@)) =~= s@);
        }
    }
    out
}

/// Every character is a decimal digit, and there is at least one.
pub open spec fn all_digits(s: Seq<char>) -> bool {
    s.len() > 0 && forall|i: int| 0 <= i < s.len() ==> '0' <= #[trigger] s[i] <= '9'
}

/// The number a digit string denotes.
pub open spec fn digits_value(s: Seq<char>) -> int
    decreases s.len(),
{
    if s.len() == 0 {
        0
    } else {
        digits_value(s.drop_last()) * 10 + (s.last() as int - 48)
    }
}

/// A longer digit string never denotes a smaller number.
proof fn lemma_digits_value_grows(s: Seq<char>, i: int)
    requires
        all_digits(s),
        0 <= i <= s.len(),
    ensures
        digits_value(s) >= digits_value(s.take(i)),
    decreases s.len() - i,
{
    if i == s.len() {
        assert(s.take(i) =~= s);
    } else {
        assert(s.take(i + 1).drop_last() =~= s.take(i));
        assert(s.take(i + 1).last() == s[i]);
        lemma_digits_value_nonneg(s.take(i));
        assert(digits_value(s.take(i + 1)) >= digits_value(s.take(i)));
        lemma_digits_value_grows(s, i + 1);
    }
}

/// A digit string denotes a non-negative number.
proof fn lemma_digits_value_nonneg(s: Seq<char>)
    requires
        forall|i: int| 0 <= i < s.len() ==> '0' <= #[trigger] s[i] <= '9',
    ensures
        digits_value(s) >= 0,
    decreases s.len(),
{
    if s.len() > 0 {
        lemma_digits_value_nonneg(s.drop_last());
    }
}

/// Parses a decimal number: the digits' value when every character is a
/// digit and the value fits, nothing otherwise.
pub fn parse_u64(s: &str) -> (r: Option<u64>)
    ensures
        match r {
            Some(v) => all_digits(s@) && digits_value(s@) == v,
            None => !(all_digits(s@) && digits_value(s@) <= u64::MAX),
        },
{
    let n = s.unicode_len();
    if n == 0 {
        return None;
    }
    let mut acc: u64 = 0;
    let mut i: usize = 0;
    while i < n
        invariant
            n == s@.len(),
            0 < n,
            0 <= i <= n,
            forall|j: int| 0 <= j < i ==> '0' <= #[trigger] s@[j] <= '9',
            acc == digits_value(s@.take(i as int)),
        decreases n - i,
    {
        let c = s.get_char(i);
        if !('0' <= c && c <= '9') {
            return None;
        }
        let d: u64 = (c as u32 as u64) - 48;
        let shifted = match acc.checked_mul(10) {
            Some(x) => x,
            None => {
                proof {
                    lemma_digits_overflow(s@, i as int);
                }
                return None;
            },
        };
        let next = match shifted.checked_add(d) {
            Some(x) => x,
            None => {
                proof {
                    lemma_digits_overflow(s@, i as int);
                }
                return None;
            },
        };
        proof {
            assert(s@.take(i as int + 1).drop_last() =~= s@.take(i as int));
        }
        acc = next;
        i += 1;
    }
    proof {
        assert(s@.take(n as int) =~= s@);
    }
    Some(acc)
}

/// Once a prefix pushes past the limit, the whole string does.
proof fn lemma_digits_overflow(s: Seq<char>, i: int)
    requires
        0 <= i < s.len(),
        forall|j: int| 0 <= j < i ==> '0' <= #[trigger] s[j] <= '9',
        '0' <= s[i] <= '9',
        digits_value(s.take(i)) * 10 + (s[i] as int - 48) > u64::MAX,
    ensures
        !(all_digits(s) && digits_value(s) <= u64::MAX),
{
    if all_digits(s) {
        lemma_digits_value_grows(s, i + 1);
        assert(s.take(i + 1).drop_last() =~= s.take(i));
        assert(s.take(i + 1).last() == s[i]);
        assert(digits_value(s.take(i + 1)) > u64::MAX);
    }
}

/// Parses each segment as an owner identifier; one bad segment refuses
/// the whole list, as the caller treats a malformed configuration as
/// fatal.
pub fn parse_owner_ids(parts: &Vec<String>) -> (r: Option<Vec<u64>>)
    ensures
        match r {
            Some(ids) => {
                &&& ids@.len() == parts@.len()
                &&& forall|i: int|
                    0 <= i < parts@.len() ==> all_digits(#[trigger] parts@[i]@) && digits_value(
                        parts@[i]@,
                    ) == ids@[i]
            },
            None => exists|i: int|
                0 <= i < parts@.len() && !(all_digits(#[trigger] parts@[i]@) && digits_value(
                    parts@[i]@,
                ) <= u64::MAX),
        },
{
    let n = parts.len();
    let mut ids: Vec<u64> = Vec::new();
    let mut i: usize = 0;
    while i < n
        invariant
            n == parts@.len(),
            0 <= i <= n,
            ids@.len() == i,
            forall|j: int|
                0 <= j < i ==> all_digits(#[trigger] parts@[j]@) && digits_value(parts@[j]@)
                    == ids@[j],
        decreases n - i,
    {
        match parse_u64(parts[i].as_str()) {
            Some(v) => {
                ids.push(v);
            },
            None => {
                return None;
            },
        }
        i += 1;
    }
    Some(ids)
}

} // verus!
