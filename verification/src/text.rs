//! Operations on strings that the rest of the library is built from.

use vstd::prelude::*;
use vstd::string::StringExecFns;
use vstd::string::StringSliceAdditionalSpecFns;
use vstd::utf8::encode_utf8_decode_utf8;

verus! {

/// Whether two strings hold the same characters.
pub fn str_eq(a: &str, b: &str) -> (r: bool)
    ensures
        r == (a@ == b@),
{
    let x = a.as_bytes();
    let y = b.as_bytes();
    if x.len() != y.len() {
        return false;
    }
    let mut i: usize = 0;
    while i < x.len()
        invariant
            i <= x.len(),
            x@.len() == y@.len(),
            forall|j: int| 0 <= j < i ==> x@[j] == y@[j],
            x@ == a.spec_bytes(),
            y@ == b.spec_bytes(),
        decreases x.len() - i,
    {
        if x[i] != y[i] {
            return false;
        }
        i += 1;
    }
    proof {
        assert(x@ =~= y@);
        encode_utf8_decode_utf8(a@);
        encode_utf8_decode_utf8(b@);
    }
    true
}

/// `a`, then `b`, then `c`.
pub fn join3(a: &str, b: &str, c: &str) -> (r: String)
    ensures
        r@ == a@ + b@ + c@,
{
    String::from_str(a).concat(b).concat(c)
}

/// The characters of `s`, in order.
pub fn chars_of(s: &str) -> (r: Vec<char>)
    ensures
        r@ == s@,
{
    let mut out: Vec<char> = Vec::new();
    for c in it: s.chars()
        invariant
            out@ == it.seq().take(it.index()),
            it.seq() == s@,
    {
        out.push(c);
        assert(it.seq().take(it.index() + 1) =~= it.seq().take(it.index()).push(c));
    }
    out
}

/// Whether `c` has the `White_Space` property of the Unicode Character
/// Database.
pub uninterp spec fn unicode_whitespace(c: char) -> bool;

/// `char::is_whitespace` of the standard library, which is documented to tell
/// whether a character has Unicode's `White_Space` property. Believed, not
/// proved: the result is that property of `c`.
#[verifier::external_body]
fn is_whitespace(c: char) -> (r: bool)
    ensures
        r == unicode_whitespace(c),
{
    c.is_whitespace()
}

/// The length of the longest prefix of `s` in which `sep` does not occur.
pub open spec fn find_sep(s: Seq<char>, sep: char) -> int
    decreases s.len(),
{
    if s.len() == 0 || s[0] == sep {
        0
    } else {
        1 + find_sep(s.drop_first(), sep)
    }
}

/// The pieces of `s` between the occurrences of `sep`, in order. There is one
/// piece more than there are separators, so that there is always a piece.
pub open spec fn split(s: Seq<char>, sep: char) -> Seq<Seq<char>>
    decreases s.len(),
{
    let k = find_sep(s, sep);
    if 0 <= k < s.len() {
        seq![s.take(k)] + split(s.skip(k + 1), sep)
    } else {
        seq![s]
    }
}

/// `s` without the whitespace at its start.
pub open spec fn trim_start(s: Seq<char>) -> Seq<char>
    decreases s.len(),
{
    if s.len() > 0 && unicode_whitespace(s[0]) {
        trim_start(s.drop_first())
    } else {
        s
    }
}

/// `s` without the whitespace at its end.
pub open spec fn trim_end(s: Seq<char>) -> Seq<char>
    decreases s.len(),
{
    if s.len() > 0 && unicode_whitespace(s.last()) {
        trim_end(s.drop_last())
    } else {
        s
    }
}

/// `s` without the whitespace at its start and at its end.
pub open spec fn trim(s: Seq<char>) -> Seq<char> {
    trim_end(trim_start(s))
}

/// The pieces of `chars` that `bounds` delimits: piece `k` runs from
/// `bounds[k].0` up to, not including, `bounds[k].1`.
pub open spec fn pieces(chars: Seq<char>, bounds: Seq<(usize, usize)>) -> Seq<Seq<char>> {
    Seq::new(bounds.len(), |k: int| chars.subrange(bounds[k].0 as int, bounds[k].1 as int))
}

/// `find_sep` stops at the first separator, or at the end.
pub proof fn lemma_find_sep(s: Seq<char>, sep: char)
    ensures
        0 <= find_sep(s, sep) <= s.len(),
        forall|j: int| 0 <= j < find_sep(s, sep) ==> s[j] != sep,
        find_sep(s, sep) < s.len() ==> s[find_sep(s, sep)] == sep,
    decreases s.len(),
{
    if s.len() > 0 && s[0] != sep {
        let rest = s.drop_first();
        lemma_find_sep(rest, sep);
        assert forall|j: int| 0 <= j < find_sep(s, sep) implies s[j] != sep by {
            if j > 0 {
                assert(s[j] == rest[j - 1]);
            }
        }
    }
}

/// The position of the first `sep` in `chars` at or after `from`, or the
/// length of `chars` if there is none.
pub fn find_from(chars: &Vec<char>, from: usize, sep: char) -> (k: usize)
    requires
        from <= chars.len(),
    ensures
        from <= k <= chars.len(),
        k - from == find_sep(chars@.skip(from as int), sep),
{
    let mut k: usize = from;
    while k < chars.len() && chars[k] != sep
        invariant
            from <= k <= chars.len(),
            forall|j: int| from <= j < k ==> chars@[j] != sep,
        decreases chars.len() - k,
    {
        k += 1;
    }
    proof {
        let rest = chars@.skip(from as int);
        lemma_find_sep(rest, sep);
        let found = find_sep(rest, sep);
        if found < k - from {
            assert(rest[found] == chars@[from + found]);
        }
        if found > k - from {
            assert(rest[k - from] == chars@[k as int]);
        }
    }
    k
}

/// Where the pieces of `chars` between the occurrences of `sep` begin and end.
pub fn split_bounds(chars: &Vec<char>, sep: char) -> (r: Vec<(usize, usize)>)
    ensures
        pieces(chars@, r@) == split(chars@, sep),
        forall|k: int| 0 <= k < r@.len() ==> (#[trigger] r@[k]).0 <= r@[k].1 <= chars@.len(),
{
    let mut out: Vec<(usize, usize)> = Vec::new();
    let mut start: usize = 0;
    assert(chars@.skip(0) =~= chars@);
    assert(pieces(chars@, out@) =~= Seq::<Seq<char>>::empty());
    loop
        invariant
            start <= chars.len(),
            split(chars@, sep) == pieces(chars@, out@) + split(chars@.skip(start as int), sep),
            forall|k: int|
                0 <= k < out@.len() ==> (#[trigger] out@[k]).0 <= out@[k].1 <= chars@.len(),
        decreases chars.len() - start,
    {
        let k = find_from(chars, start, sep);
        let ghost before = out@;
        let ghost rest = chars@.skip(start as int);
        out.push((start, k));
        proof {
            assert(pieces(chars@, out@) =~= pieces(chars@, before) + seq![
                chars@.subrange(start as int, k as int),
            ]);
            assert(rest.take(k - start) =~= chars@.subrange(start as int, k as int));
        }
        if k == chars.len() {
            proof {
                assert(rest =~= chars@.subrange(start as int, k as int));
                assert(split(rest, sep) =~= seq![rest]);
            }
            return out;
        }
        proof {
            assert(rest.skip(k - start + 1) =~= chars@.skip(k + 1));
            assert(split(rest, sep) =~= seq![rest.take(k - start)] + split(
                rest.skip(k - start + 1),
                sep,
            ));
        }
        start = k + 1;
    }
}

/// Where the part of `chars` from `from` to `to` begins and ends once the
/// whitespace at both ends is left out.
pub fn trim_bounds(chars: &Vec<char>, from: usize, to: usize) -> (r: (usize, usize))
    requires
        from <= to <= chars.len(),
    ensures
        from <= r.0 <= r.1 <= to,
        chars@.subrange(r.0 as int, r.1 as int) == trim(chars@.subrange(from as int, to as int)),
{
    let mut a: usize = from;
    while a < to && is_whitespace(chars[a])
        invariant
            from <= a <= to <= chars.len(),
            trim_start(chars@.subrange(from as int, to as int)) == trim_start(
                chars@.subrange(a as int, to as int),
            ),
        decreases to - a,
    {
        proof {
            let here = chars@.subrange(a as int, to as int);
            assert(here[0] == chars@[a as int]);
            assert(here.drop_first() =~= chars@.subrange(a + 1, to as int));
        }
        a += 1;
    }
    proof {
        let here = chars@.subrange(a as int, to as int);
        if a < to {
            assert(here[0] == chars@[a as int]);
        }
        assert(trim_start(here) == here);
    }
    let mut b: usize = to;
    while b > a && is_whitespace(chars[b - 1])
        invariant
            a <= b <= to <= chars.len(),
            trim_end(chars@.subrange(a as int, to as int)) == trim_end(
                chars@.subrange(a as int, b as int),
            ),
        decreases b - a,
    {
        proof {
            let here = chars@.subrange(a as int, b as int);
            assert(here.last() == chars@[b - 1]);
            assert(here.drop_last() =~= chars@.subrange(a as int, b - 1));
        }
        b -= 1;
    }
    proof {
        let here = chars@.subrange(a as int, b as int);
        if b > a {
            assert(here.last() == chars@[b - 1]);
        }
        assert(trim_end(here) == here);
    }
    (a, b)
}

} // verus!
