//! Verified byte-level scanning primitives.
//!
//! Control-group files are small ASCII documents. Every reading the
//! introspector does — trimming, decimal parsing, substring search,
//! locating separators — is defined here as a spec function over byte
//! sequences together with an executable function proved against it.

use vstd::prelude::*;

verus! {

/// ASCII whitespace: space, tab, line feed, carriage return, form feed.
pub open spec fn is_ws(b: u8) -> bool {
    b == 32 || b == 9 || b == 10 || b == 13 || b == 12
}

/// ASCII decimal digit.
pub open spec fn is_digit(b: u8) -> bool {
    48 <= b <= 57
}

pub open spec fn all_digits(s: Seq<u8>) -> bool {
    forall|i: int| 0 <= i < s.len() ==> is_digit(#[trigger] s[i])
}

/// The numeric value of a digit string, most significant digit first.
pub open spec fn digits_val(s: Seq<u8>) -> nat
    decreases s.len(),
{
    if s.len() == 0 {
        0
    } else {
        digits_val(s.drop_last()) * 10 + (s.last() - 48) as nat
    }
}

/// `s` without leading and trailing ASCII whitespace.
pub open spec fn trim_spec(s: Seq<u8>) -> Seq<u8>
    decreases s.len(),
{
    if s.len() > 0 && is_ws(s[0]) {
        trim_spec(s.subrange(1, s.len() as int))
    } else if s.len() > 0 && is_ws(s.last()) {
        trim_spec(s.drop_last())
    } else {
        s
    }
}

/// A nonempty digit string parses when its value fits the result type.
pub open spec fn digits_opt(d: Seq<u8>) -> Option<u64> {
    if d.len() > 0 && all_digits(d) && digits_val(d) <= u64::MAX {
        Some(digits_val(d) as u64)
    } else {
        None
    }
}

/// What an unsigned decimal parse of `s` yields: optional leading `+`,
/// then digits, surrounding whitespace ignored.
pub open spec fn parse_u64_spec(s: Seq<u8>) -> Option<u64> {
    let t = trim_spec(s);
    let d = if t.len() > 0 && t[0] == 43 {
        t.subrange(1, t.len() as int)
    } else {
        t
    };
    digits_opt(d)
}

/// What a signed decimal parse of `s` yields: optional leading `-` or `+`,
/// then digits, surrounding whitespace ignored, value within `i64`.
pub open spec fn parse_i64_spec(s: Seq<u8>) -> Option<i64> {
    let t = trim_spec(s);
    if t.len() > 0 && t[0] == 45 {
        let d = t.subrange(1, t.len() as int);
        if d.len() > 0 && all_digits(d) && digits_val(d) <= 0x8000_0000_0000_0000 {
            Some((0 - digits_val(d) as int) as i64)
        } else {
            None
        }
    } else {
        let d = if t.len() > 0 && t[0] == 43 {
            t.subrange(1, t.len() as int)
        } else {
            t
        };
        if d.len() > 0 && all_digits(d) && digits_val(d) <= i64::MAX {
            Some(digits_val(d) as i64)
        } else {
            None
        }
    }
}

/// The index of the first occurrence of `b` in `s` at or after `i`, or
/// `s.len()` when there is none.
pub open spec fn find_from(s: Seq<u8>, b: u8, i: int) -> int
    decreases s.len() - i,
{
    if i < 0 || i >= s.len() {
        s.len() as int
    } else if s[i] == b {
        i
    } else {
        find_from(s, b, i + 1)
    }
}

/// The index of the first whitespace byte in `s` at or after `i`, or
/// `s.len()` when there is none.
pub open spec fn find_ws_from(s: Seq<u8>, i: int) -> int
    decreases s.len() - i,
{
    if i < 0 || i >= s.len() {
        s.len() as int
    } else if is_ws(s[i]) {
        i
    } else {
        find_ws_from(s, i + 1)
    }
}

/// The index of the first non-whitespace byte in `s` at or after `i`, or
/// `s.len()` when there is none.
pub open spec fn find_non_ws_from(s: Seq<u8>, i: int) -> int
    decreases s.len() - i,
{
    if i < 0 || i >= s.len() {
        s.len() as int
    } else if !is_ws(s[i]) {
        i
    } else {
        find_non_ws_from(s, i + 1)
    }
}

/// What parsing one whitespace-free token as `u64` yields: an optional
/// leading `+`, then digits.
pub open spec fn parse_token_u64(d: Seq<u8>) -> Option<u64> {
    if d.len() > 0 && d[0] == 43 {
        digits_opt(d.subrange(1, d.len() as int))
    } else {
        digits_opt(d)
    }
}

/// The decomposition of a string without surrounding whitespace into
/// exactly two whitespace-separated tokens; `None` when it has fewer or
/// more.
pub open spec fn two_ws_tokens(t: Seq<u8>) -> Option<(Seq<u8>, Seq<u8>)> {
    let i = find_ws_from(t, 0);
    if !(0 <= i < t.len()) {
        None
    } else {
        let j = i + find_non_ws_from(t.subrange(i, t.len() as int), 0);
        if !(i <= j < t.len()) {
            None
        } else {
            let tail2 = t.subrange(j, t.len() as int);
            if find_ws_from(tail2, 0) < tail2.len() {
                None
            } else {
                Some((t.subrange(0, i), tail2))
            }
        }
    }
}

/// `n` occurs as a contiguous run of `s` starting at `i`.
pub open spec fn match_at(s: Seq<u8>, n: Seq<u8>, i: int) -> bool {
    0 <= i && i + n.len() <= s.len() && s.subrange(i, i + n.len() as int) == n
}

/// `n` occurs somewhere in `s`.
pub open spec fn contains_seq(s: Seq<u8>, n: Seq<u8>) -> bool {
    exists|i: int| match_at(s, n, i)
}

/// Searching from `i + j` in `s` is searching from `j` in the tail of `s`
/// that starts at `i`.
pub proof fn lemma_find_from_shift(s: Seq<u8>, b: u8, i: int, j: int)
    requires
        0 <= i,
        0 <= j,
        i + j <= s.len(),
    ensures
        find_from(s, b, i + j) == i + find_from(s.subrange(i, s.len() as int), b, j),
    decreases s.len() - i - j,
{
    let t = s.subrange(i, s.len() as int);
    if i + j == s.len() {
        assert(find_from(s, b, i + j) == s.len());
        assert(find_from(t, b, j) == t.len());
    } else if s[i + j] == b {
        assert(t[j] == s[i + j]);
    } else {
        assert(t[j] == s[i + j]);
        lemma_find_from_shift(s, b, i, j + 1);
    }
}

/// Growing a digit string can only grow its value.
pub proof fn lemma_digits_val_monotone(s: Seq<u8>, i: int, j: int)
    requires
        0 <= i <= j <= s.len(),
    ensures
        digits_val(s.subrange(0, i)) <= digits_val(s.subrange(0, j)),
    decreases j - i,
{
    if i < j {
        lemma_digits_val_monotone(s, i + 1, j);
        let a = s.subrange(0, i);
        let b = s.subrange(0, i + 1);
        assert(b.drop_last() =~= a);
        assert(digits_val(b) == digits_val(a) * 10 + (b.last() - 48) as nat);
    }
}

fn ws(b: u8) -> (r: bool)
    ensures
        r == is_ws(b),
{
    b == 32 || b == 9 || b == 10 || b == 13 || b == 12
}

/// The bounds of `s` with surrounding ASCII whitespace removed:
/// `trim_spec(s@)` is exactly `s@.subrange(r.0, r.1)`.
pub fn trim_bounds(s: &[u8]) -> (r: (usize, usize))
    ensures
        r.0 <= r.1 <= s@.len(),
        trim_spec(s@) == s@.subrange(r.0 as int, r.1 as int),
        r.0 < r.1 ==> !is_ws(s@[r.0 as int]) && !is_ws(s@[r.1 - 1]),
{
    let n = s.len();
    proof {
        assert(s@.subrange(0, n as int) =~= s@);
    }
    let mut lo: usize = 0;
    while lo < n && ws(s[lo])
        invariant
            0 <= lo <= n == s@.len(),
            trim_spec(s@) == trim_spec(s@.subrange(lo as int, n as int)),
        decreases n - lo,
    {
        proof {
            let t = s@.subrange(lo as int, n as int);
            assert(t[0] == s@[lo as int]);
            assert(t.subrange(1, t.len() as int) =~= s@.subrange(lo as int + 1, n as int));
        }
        lo = lo + 1;
    }
    let mut hi: usize = n;
    while lo < hi && ws(s[hi - 1])
        invariant
            0 <= lo <= hi <= n == s@.len(),
            trim_spec(s@) == trim_spec(s@.subrange(lo as int, hi as int)),
            lo < hi ==> !is_ws(s@[lo as int]),
        decreases hi,
    {
        proof {
            let t = s@.subrange(lo as int, hi as int);
            assert(t[0] == s@[lo as int]);
            assert(t.last() == s@[hi - 1]);
            assert(t.drop_last() =~= s@.subrange(lo as int, hi - 1));
        }
        hi = hi - 1;
    }
    proof {
        let t = s@.subrange(lo as int, hi as int);
        if lo < hi {
            assert(t[0] == s@[lo as int]);
            assert(t.last() == s@[hi - 1]);
        }
        assert(trim_spec(t) == t);
    }
    (lo, hi)
}

/// Parses the digit run `s[lo..hi]` as a `u64`.
pub fn parse_digits_range(s: &[u8], lo: usize, hi: usize) -> (r: Option<u64>)
    requires
        lo <= hi <= s@.len(),
    ensures
        r == digits_opt(s@.subrange(lo as int, hi as int)),
{
    if lo == hi {
        return None;
    }
    let ghost whole = s@.subrange(lo as int, hi as int);
    let mut i: usize = lo;
    let mut acc: u64 = 0;
    let mut over: bool = false;
    while i < hi
        invariant
            lo <= i <= hi <= s@.len(),
            whole == s@.subrange(lo as int, hi as int),
            all_digits(s@.subrange(lo as int, i as int)),
            !over ==> acc == digits_val(s@.subrange(lo as int, i as int)),
            over ==> digits_val(s@.subrange(lo as int, i as int)) > u64::MAX,
        decreases hi - i,
    {
        let b = s[i];
        if !(48 <= b && b <= 57) {
            proof {
                assert(whole[i - lo] == s@[i as int]);
                assert(!all_digits(whole));
            }
            return None;
        }
        proof {
            let prev = s@.subrange(lo as int, i as int);
            let next = s@.subrange(lo as int, i + 1);
            assert(next.drop_last() =~= prev);
            assert(next.last() == s@[i as int]);
            assert(digits_val(next) == digits_val(prev) * 10 + (s@[i as int] - 48) as nat);
            assert(forall|k: int| 0 <= k < next.len() ==> is_digit(#[trigger] next[k]));
        }
        if over {
            proof {
                let prev = s@.subrange(lo as int, i as int);
                assert(digits_val(prev) * 10 >= digits_val(prev));
            }
        } else {
            let wide: u128 = acc as u128 * 10 + (b - 48) as u128;
            if wide > u64::MAX as u128 {
                over = true;
            } else {
                acc = wide as u64;
            }
        }
        i = i + 1;
    }
    if over {
        proof {
            lemma_digits_val_monotone(whole, whole.len() as int, whole.len() as int);
            assert(s@.subrange(lo as int, hi as int) =~= whole);
        }
        None
    } else {
        Some(acc)
    }
}

/// Unsigned decimal parse, as `str::parse::<u64>` behaves after `trim`.
pub fn parse_u64(s: &[u8]) -> (r: Option<u64>)
    ensures
        r == parse_u64_spec(s@),
{
    let (lo, hi) = trim_bounds(s);
    let ghost t = trim_spec(s@);
    if lo < hi && s[lo] == 43 {
        proof {
            assert(t[0] == s@[lo as int]);
            assert(t.subrange(1, t.len() as int) =~= s@.subrange(lo as int + 1, hi as int));
        }
        parse_digits_range(s, lo + 1, hi)
    } else {
        parse_digits_range(s, lo, hi)
    }
}

/// Signed decimal parse, as `str::parse::<i64>` behaves after `trim`.
pub fn parse_i64(s: &[u8]) -> (r: Option<i64>)
    ensures
        r == parse_i64_spec(s@),
{
    let (lo, hi) = trim_bounds(s);
    let ghost t = trim_spec(s@);
    if lo < hi && s[lo] == 45 {
        proof {
            assert(t[0] == s@[lo as int]);
            assert(t.subrange(1, t.len() as int) =~= s@.subrange(lo as int + 1, hi as int));
        }
        match parse_digits_range(s, lo + 1, hi) {
            None => None,
            Some(m) => {
                if m < 0x8000_0000_0000_0000 {
                    Some(0i64 - m as i64)
                } else if m == 0x8000_0000_0000_0000 {
                    Some(i64::MIN)
                } else {
                    None
                }
            },
        }
    } else if lo < hi && s[lo] == 43 {
        proof {
            assert(t[0] == s@[lo as int]);
            assert(t.subrange(1, t.len() as int) =~= s@.subrange(lo as int + 1, hi as int));
        }
        match parse_digits_range(s, lo + 1, hi) {
            None => None,
            Some(m) => if m <= i64::MAX as u64 {
                Some(m as i64)
            } else {
                None
            },
        }
    } else {
        match parse_digits_range(s, lo, hi) {
            None => None,
            Some(m) => if m <= i64::MAX as u64 {
                Some(m as i64)
            } else {
                None
            },
        }
    }
}

/// Finds `b` in `s[lo..hi]`: returns the index of its first occurrence,
/// or `hi` when it does not occur.
pub fn find_in_range(s: &[u8], lo: usize, hi: usize, b: u8) -> (r: usize)
    requires
        lo <= hi <= s@.len(),
    ensures
        lo <= r <= hi,
        r - lo == find_from(s@.subrange(lo as int, hi as int), b, 0),
{
    let ghost t = s@.subrange(lo as int, hi as int);
    let mut i: usize = lo;
    while i < hi
        invariant
            lo <= i <= hi <= s@.len(),
            t == s@.subrange(lo as int, hi as int),
            find_from(t, b, 0) == find_from(t, b, i - lo),
        decreases hi - i,
    {
        proof {
            assert(t[i - lo] == s@[i as int]);
        }
        if s[i] == b {
            proof {
                assert(find_from(t, b, i - lo) == i - lo);
            }
            return i;
        }
        i = i + 1;
    }
    proof {
        assert(find_from(t, b, hi - lo) == t.len());
    }
    hi
}

/// Finds the first whitespace byte in `s[lo..hi]`: returns its index, or
/// `hi` when there is none.
pub fn find_ws_in_range(s: &[u8], lo: usize, hi: usize) -> (r: usize)
    requires
        lo <= hi <= s@.len(),
    ensures
        lo <= r <= hi,
        r - lo == find_ws_from(s@.subrange(lo as int, hi as int), 0),
{
    let ghost t = s@.subrange(lo as int, hi as int);
    let mut i: usize = lo;
    while i < hi
        invariant
            lo <= i <= hi <= s@.len(),
            t == s@.subrange(lo as int, hi as int),
            find_ws_from(t, 0) == find_ws_from(t, i - lo),
        decreases hi - i,
    {
        proof {
            assert(t[i - lo] == s@[i as int]);
        }
        if ws(s[i]) {
            proof {
                assert(find_ws_from(t, i - lo) == i - lo);
            }
            return i;
        }
        i = i + 1;
    }
    proof {
        assert(find_ws_from(t, hi - lo) == t.len());
    }
    hi
}

/// Finds the first non-whitespace byte in `s[lo..hi]`: returns its
/// index, or `hi` when there is none.
pub fn find_non_ws_in_range(s: &[u8], lo: usize, hi: usize) -> (r: usize)
    requires
        lo <= hi <= s@.len(),
    ensures
        lo <= r <= hi,
        r - lo == find_non_ws_from(s@.subrange(lo as int, hi as int), 0),
{
    let ghost t = s@.subrange(lo as int, hi as int);
    let mut i: usize = lo;
    while i < hi
        invariant
            lo <= i <= hi <= s@.len(),
            t == s@.subrange(lo as int, hi as int),
            find_non_ws_from(t, 0) == find_non_ws_from(t, i - lo),
        decreases hi - i,
    {
        proof {
            assert(t[i - lo] == s@[i as int]);
        }
        if !ws(s[i]) {
            proof {
                assert(find_non_ws_from(t, i - lo) == i - lo);
            }
            return i;
        }
        i = i + 1;
    }
    proof {
        assert(find_non_ws_from(t, hi - lo) == t.len());
    }
    hi
}

/// Parses the whitespace-free token `s[lo..hi]` as a `u64`.
pub fn parse_token_u64_range(s: &[u8], lo: usize, hi: usize) -> (r: Option<u64>)
    requires
        lo <= hi <= s@.len(),
    ensures
        r == parse_token_u64(s@.subrange(lo as int, hi as int)),
{
    let ghost d = s@.subrange(lo as int, hi as int);
    if lo < hi && s[lo] == 43 {
        proof {
            assert(d[0] == s@[lo as int]);
            assert(d.subrange(1, d.len() as int) =~= s@.subrange(lo as int + 1, hi as int));
        }
        parse_digits_range(s, lo + 1, hi)
    } else {
        parse_digits_range(s, lo, hi)
    }
}

/// Compares `s[i..i + n.len()]` with `n`.
pub fn eq_range(s: &[u8], i: usize, n: &[u8]) -> (r: bool)
    requires
        i + n@.len() <= s@.len(),
    ensures
        r == (s@.subrange(i as int, i + n@.len()) == n@),
{
    let ghost t = s@.subrange(i as int, i + n@.len());
    let m = n.len();
    let slen = s.len();
    let mut j: usize = 0;
    while j < m
        invariant
            0 <= j <= m == n@.len(),
            i + m <= slen == s@.len(),
            t == s@.subrange(i as int, i + n@.len()),
            forall|k: int| 0 <= k < j ==> t[k] == n@[k],
        decreases m - j,
    {
        proof {
            assert(t[j as int] == s@[i + j]);
        }
        if s[i + j] != n[j] {
            proof {
                assert(t[j as int] != n@[j as int]);
            }
            return false;
        }
        j = j + 1;
    }
    proof {
        assert(t =~= n@);
    }
    true
}

/// Does `n` occur as a contiguous run anywhere in `s[lo..hi]`?
pub fn range_contains(s: &[u8], lo: usize, hi: usize, n: &[u8]) -> (r: bool)
    requires
        lo <= hi <= s@.len(),
    ensures
        r == contains_seq(s@.subrange(lo as int, hi as int), n@),
{
    let ghost t = s@.subrange(lo as int, hi as int);
    let m = n.len();
    let slen = s.len();
    if m > hi - lo {
        proof {
            assert forall|k: int| !match_at(t, n@, k) by {
                assert(t.len() < n@.len());
            }
        }
        return false;
    }
    if m == 0 {
        proof {
            assert(t.subrange(0, 0) =~= n@);
            assert(match_at(t, n@, 0));
        }
        return true;
    }
    let last_start = hi - m;
    let mut i: usize = lo;
    while i <= last_start
        invariant
            lo <= i <= last_start + 1,
            last_start == hi - m,
            1 <= m == n@.len(),
            lo <= hi <= slen == s@.len(),
            t == s@.subrange(lo as int, hi as int),
            forall|k: int| 0 <= k < i - lo ==> !match_at(t, n@, k),
        decreases last_start + 1 - i,
    {
        proof {
            assert(t.subrange(i - lo, i - lo + n@.len()) =~= s@.subrange(i as int, i + n@.len()));
        }
        if eq_range(s, i, n) {
            proof {
                assert(match_at(t, n@, i - lo));
            }
            return true;
        }
        i = i + 1;
    }
    proof {
        assert forall|k: int| !match_at(t, n@, k) by {
            if 0 <= k && k + n@.len() <= t.len() {
                assert(k < i - lo);
                assert(!match_at(t, n@, k));
            }
        }
    }
    false
}

/// Copies `s[lo..hi]` into a fresh vector.
pub fn copy_range(s: &[u8], lo: usize, hi: usize) -> (v: Vec<u8>)
    requires
        lo <= hi <= s@.len(),
    ensures
        v@ == s@.subrange(lo as int, hi as int),
{
    let mut v: Vec<u8> = Vec::new();
    let mut i: usize = lo;
    while i < hi
        invariant
            lo <= i <= hi <= s@.len(),
            v@ =~= s@.subrange(lo as int, i as int),
        decreases hi - i,
    {
        v.push(s[i]);
        proof {
            assert(v@ =~= s@.subrange(lo as int, i + 1));
        }
        i = i + 1;
    }
    proof {
        assert(v@ =~= s@.subrange(lo as int, hi as int));
    }
    v
}

} // verus!
