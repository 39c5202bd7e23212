//! Validation of dotted-quad IPv4 address text.
use vstd::prelude::*;

use vstd::string::StrSliceExecFns;

use crate::text::{char_digit, digits_value, is_digit_char};

verus! {

/// One component of a dotted-quad address: one to three ASCII digits, no
/// leading zero unless the component is `0` itself, and a value of at most 255.
pub open spec fn is_octet_text(t: Seq<char>) -> bool {
    &&& 1 <= t.len() <= 3
    &&& forall|p: int| 0 <= p < t.len() ==> #[trigger] is_digit_char(t[p])
    &&& (t.len() == 1 || t[0] != '0')
    &&& digits_value(t) <= 255
}

/// Four octets joined by three dots, and nothing else: the text that
/// `std::net::Ipv4Addr` parses.
pub open spec fn is_ipv4_text(s: Seq<char>) -> bool {
    exists|i: int, j: int, k: int|
        #![trigger s[i], s[j], s[k]]
        0 <= i < j < k < s.len() && s[i] == '.' && s[j] == '.' && s[k] == '.' && is_octet_text(
            s.subrange(0, i),
        ) && is_octet_text(s.subrange(i + 1, j)) && is_octet_text(s.subrange(j + 1, k))
            && is_octet_text(s.subrange(k + 1, s.len() as int))
}

/// The first dot at or after `from`, or `n` when there is none.
fn find_dot(s: &str, from: usize, n: usize) -> (r: usize)
    requires
        n == s@.len(),
        from <= n,
    ensures
        from <= r <= n,
        r < n ==> s@[r as int] == '.',
        forall|p: int| from <= p < r ==> s@[p] != '.',
{
    let mut i = from;
    while i < n
        invariant
            n == s@.len(),
            from <= i <= n,
            forall|p: int| from <= p < i ==> s@[p] != '.',
        decreases n - i,
    {
        if s.get_char(i) == '.' {
            return i;
        }
        i = i + 1;
    }
    n
}

/// Decides whether `s[from..to]` is an octet.
fn check_octet(s: &str, from: usize, to: usize) -> (b: bool)
    requires
        from <= to <= s@.len(),
    ensures
        b == is_octet_text(s@.subrange(from as int, to as int)),
{
    let ghost t = s@.subrange(from as int, to as int);
    if to - from < 1 || to - from > 3 {
        return false;
    }
    let len = to - from;
    let mut value: u32 = 0;
    let mut i: usize = 0;
    while i < len
        invariant
            len == t.len(),
            1 <= len <= 3,
            from + len == to,
            to <= s@.len(),
            t == s@.subrange(from as int, to as int),
            i <= len,
            forall|p: int| 0 <= p < i ==> #[trigger] is_digit_char(t[p]),
            value == digits_value(t.subrange(0, i as int)),
            value < 1000,
        decreases len - i,
    {
        let c = s.get_char(from + i);
        assert(c == t[i as int]);
        if !('0' <= c && c <= '9') {
            assert(!is_digit_char(t[i as int]));
            return false;
        }
        let d = (c as u32) - 48;
        let ghost prefix = t.subrange(0, i + 1);
        assert(prefix.drop_last() =~= t.subrange(0, i as int));
        assert(prefix.last() == c);
        assert(value <= 99) by {
            if value > 99 {
                assert(i >= 3) by {
                    lemma_digits_bound(t.subrange(0, i as int));
                }
            }
        }
        value = value * 10 + d;
        i = i + 1;
    }
    assert(t.subrange(0, len as int) =~= t);
    let first = s.get_char(from);
    (len == 1 || first != '0') && value <= 255
}

/// A value of `k` digits is below `10^k`; here: two digits give at most 99.
proof fn lemma_digits_bound(t: Seq<char>)
    requires
        t.len() <= 2,
        forall|p: int| 0 <= p < t.len() ==> #[trigger] is_digit_char(t[p]),
    ensures
        digits_value(t) <= 99,
    decreases t.len(),
{
    if t.len() > 0 {
        let u = t.drop_last();
        assert forall|p: int| 0 <= p < u.len() implies #[trigger] is_digit_char(u[p]) by {
            assert(u[p] == t[p]);
        }
        lemma_digits_bound(u);
        if t.len() == 1 {
            assert(digits_value(u) == 0);
        } else {
            assert(u.len() == 1);
            assert(digits_value(u.drop_last()) == 0);
            assert(is_digit_char(u[0]));
        }
        assert(is_digit_char(t[t.len() - 1]));
    }
}

/// Octets contain no dot.
proof fn lemma_octet_has_no_dot(t: Seq<char>, p: int)
    requires
        is_octet_text(t),
        0 <= p < t.len(),
    ensures
        t[p] != '.',
{
    assert(is_digit_char(t[p]));
}

/// A witness of `is_ipv4_text`: three dot positions around four octets.
pub open spec fn is_ipv4_split(s: Seq<char>, i: int, j: int, k: int) -> bool {
    0 <= i < j < k < s.len() && s[i] == '.' && s[j] == '.' && s[k] == '.' && is_octet_text(
        s.subrange(0, i),
    ) && is_octet_text(s.subrange(i + 1, j)) && is_octet_text(s.subrange(j + 1, k))
        && is_octet_text(s.subrange(k + 1, s.len() as int))
}

proof fn lemma_some_split(s: Seq<char>) -> (w: (int, int, int))
    requires
        is_ipv4_text(s),
    ensures
        is_ipv4_split(s, w.0, w.1, w.2),
{
    let (i, j, k) = choose|i: int, j: int, k: int|
        #![trigger s[i], s[j], s[k]]
        0 <= i < j < k < s.len() && s[i] == '.' && s[j] == '.' && s[k] == '.' && is_octet_text(
            s.subrange(0, i),
        ) && is_octet_text(s.subrange(i + 1, j)) && is_octet_text(s.subrange(j + 1, k))
            && is_octet_text(s.subrange(k + 1, s.len() as int));
    (i, j, k)
}

/// Decides whether a text is a dotted-quad IPv4 address as
/// `std::net::Ipv4Addr::from_str` accepts it.
pub fn is_valid_ipv4(ip: &str) -> (b: bool)
    ensures
        b == is_ipv4_text(ip@),
{
    let n = ip.unicode_len();
    let ghost s = ip@;
    let i = find_dot(ip, 0, n);
    if i == n {
        proof {
            if is_ipv4_text(s) {
                let w = lemma_some_split(s);
                assert(s[w.0] == '.');
            }
        }
        return false;
    }
    let j = find_dot(ip, i + 1, n);
    if j == n {
        proof {
            if is_ipv4_text(s) {
                let w = lemma_some_split(s);
                lemma_first_dot_fixed(s, i as int, w.0);
                assert(s[w.1] == '.');
            }
        }
        return false;
    }
    let k = find_dot(ip, j + 1, n);
    if k == n {
        proof {
            if is_ipv4_text(s) {
                let w = lemma_some_split(s);
                lemma_first_dot_fixed(s, i as int, w.0);
                lemma_next_dot_fixed(s, i as int, j as int, w.1);
                assert(s[w.2] == '.');
            }
        }
        return false;
    }
    let ok = check_octet(ip, 0, i) && check_octet(ip, i + 1, j) && check_octet(ip, j + 1, k)
        && check_octet(ip, k + 1, n);
    proof {
        if ok {
            assert(is_ipv4_split(s, i as int, j as int, k as int));
            assert(s[i as int] == '.' && s[j as int] == '.' && s[k as int] == '.');
        } else if is_ipv4_text(s) {
            let w = lemma_some_split(s);
            lemma_first_dot_fixed(s, i as int, w.0);
            lemma_next_dot_fixed(s, i as int, j as int, w.1);
            lemma_next_dot_fixed(s, j as int, k as int, w.2);
        }
    }
    ok
}

/// A split starts at the first dot.
proof fn lemma_first_dot_fixed(s: Seq<char>, i0: int, i: int)
    requires
        0 <= i0 < s.len(),
        s[i0] == '.',
        forall|p: int| 0 <= p < i0 ==> s[p] != '.',
        0 <= i < s.len(),
        s[i] == '.',
        is_octet_text(s.subrange(0, i)),
    ensures
        i == i0,
{
    if i0 < i {
        lemma_octet_has_no_dot(s.subrange(0, i), i0);
    }
}

/// Each further dot of a split is the first dot after the previous one.
proof fn lemma_next_dot_fixed(s: Seq<char>, prev: int, d0: int, d: int)
    requires
        0 <= prev < d0 < s.len(),
        s[d0] == '.',
        forall|p: int| prev + 1 <= p < d0 ==> s[p] != '.',
        prev < d < s.len(),
        s[d] == '.',
        is_octet_text(s.subrange(prev + 1, d)),
    ensures
        d == d0,
{
    if d0 < d {
        lemma_octet_has_no_dot(s.subrange(prev + 1, d), d0 - (prev + 1));
    }
}

} // verus!
