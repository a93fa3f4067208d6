//! Small verified helpers on strings: whitespace trimming, locating a
//! character, equality and substring containment.  Everything is specified
//! over `Seq<char>` views.

use vstd::prelude::*;

verus! {

/// The whitespace characters that trimming removes (the ASCII ones).
pub open spec fn is_space(c: char) -> bool {
    c == ' ' || c == '\t' || c == '\n' || c == '\r' || c == '\u{b}' || c == '\u{c}'
}

/// `s` with every leading whitespace character removed.
pub open spec fn trim_front(s: Seq<char>) -> Seq<char>
    decreases s.len(),
{
    if s.len() > 0 && is_space(s[0]) {
        trim_front(s.drop_first())
    } else {
        s
    }
}

/// `s` with every trailing whitespace character removed.
pub open spec fn trim_back(s: Seq<char>) -> Seq<char>
    decreases s.len(),
{
    if s.len() > 0 && is_space(s[s.len() - 1]) {
        trim_back(s.drop_last())
    } else {
        s
    }
}

/// `s` with whitespace removed from both ends.
pub open spec fn spec_trim(s: Seq<char>) -> Seq<char> {
    trim_back(trim_front(s))
}

/// The index of the first occurrence of `c` in `s`, if any.
pub open spec fn find_char_spec(s: Seq<char>, c: char) -> Option<int>
    decreases s.len(),
{
    if s.len() == 0 {
        None
    } else if s[0] == c {
        Some(0int)
    } else {
        match find_char_spec(s.drop_first(), c) {
            None => None,
            Some(i) => Some(i + 1),
        }
    }
}

/// `needle` occurs contiguously somewhere in `hay`.
pub open spec fn contains_seq(hay: Seq<char>, needle: Seq<char>) -> bool {
    exists|i: int|
        0 <= i && i + needle.len() <= hay.len() && #[trigger] hay.subrange(
            i,
            i + needle.len(),
        ) == needle
}

/// A prefix free of `c` pins down `find_char_spec`: a hit right after the
/// prefix is the first one, and a `c`-free whole has none.
pub proof fn lemma_find_char_from(s: Seq<char>, c: char, i: int)
    requires
        0 <= i <= s.len(),
        forall|k: int| 0 <= k < i ==> s[k] != c,
    ensures
        i < s.len() && s[i] == c ==> find_char_spec(s, c) == Some(i),
        i == s.len() ==> find_char_spec(s, c) is None,
    decreases s.len(),
{
    if s.len() > 0 && s[0] != c && i > 0 {
        lemma_find_char_from(s.drop_first(), c, i - 1);
        assert(forall|k: int|
            0 <= k < i - 1 ==> s.drop_first()[k] == s[k + 1] && s[k + 1] != c);
        if i < s.len() && s[i] == c {
            assert(s.drop_first()[i - 1] == c);
        }
    }
}

/// What an index found by `find_char_spec` means: `c` stands there and
/// nowhere earlier.
pub proof fn lemma_find_char_hit(s: Seq<char>, c: char)
    ensures
        match find_char_spec(s, c) {
            Some(i) => 0 <= i < s.len() && s[i] == c && forall|k: int|
                0 <= k < i ==> s[k] != c,
            None => forall|k: int| 0 <= k < s.len() ==> s[k] != c,
        },
    decreases s.len(),
{
    if s.len() > 0 && s[0] != c {
        lemma_find_char_hit(s.drop_first(), c);
        match find_char_spec(s.drop_first(), c) {
            Some(i2) => {
                assert forall|k: int| 0 <= k < i2 + 1 implies s[k] != c by {
                    if k > 0 {
                        assert(s.drop_first()[k - 1] == s[k]);
                    }
                }
            },
            None => {
                assert forall|k: int| 0 <= k < s.len() implies s[k] != c by {
                    if k > 0 {
                        assert(s.drop_first()[k - 1] == s[k]);
                    }
                }
            },
        }
    }
}

/// Relies on nothing outside vstd: character classification by comparison.
pub fn is_space_char(c: char) -> (b: bool)
    ensures
        b == is_space(c),
{
    c == ' ' || c == '\t' || c == '\n' || c == '\r' || c == '\u{b}' || c == '\u{c}'
}

/// String equality decided through owned copies.
pub fn str_eq(a: &str, b: &str) -> (r: bool)
    ensures
        r == (a@ == b@),
{
    let oa: String = a.to_owned();
    let ob: String = b.to_owned();
    oa == ob
}

/// First occurrence of `c` in `s`, by a linear scan.
pub fn find_char(s: &str, c: char) -> (r: Option<usize>)
    ensures
        match r {
            Some(i) => find_char_spec(s@, c) == Some(i as int),
            None => find_char_spec(s@, c) is None,
        },
{
    let len: usize = s.unicode_len();
    let mut i: usize = 0;
    while i < len
        invariant
            0 <= i <= len,
            len == s@.len(),
            forall|k: int| 0 <= k < i ==> s@[k] != c,
        decreases len - i,
    {
        if s.get_char(i) == c {
            proof {
                lemma_find_char_from(s@, c, i as int);
            }
            return Some(i);
        }
        i += 1;
    }
    proof {
        lemma_find_char_from(s@, c, len as int);
    }
    None
}

/// Both ends of `s` stripped of whitespace.
pub fn trim_str(s: &str) -> (r: String)
    ensures
        r@ == spec_trim(s@),
{
    let len: usize = s.unicode_len();
    proof {
        assert(s@.subrange(0, len as int) =~= s@);
    }
    let mut i: usize = 0;
    while i < len && is_space_char(s.get_char(i))
        invariant
            0 <= i <= len,
            len == s@.len(),
            trim_front(s@) == trim_front(s@.subrange(i as int, len as int)),
        decreases len - i,
    {
        proof {
            let cur = s@.subrange(i as int, len as int);
            assert(cur.drop_first() =~= s@.subrange(i + 1, len as int));
        }
        i += 1;
    }
    proof {
        assert(s@.subrange(0, len as int) =~= s@);
        let cur = s@.subrange(i as int, len as int);
        if i < len {
            assert(trim_front(cur) == cur);
        }
        assert(trim_front(s@) =~= cur);
    }
    let mut j: usize = len;
    while j > i && is_space_char(s.get_char(j - 1))
        invariant
            i <= j <= len,
            len == s@.len(),
            trim_front(s@) == s@.subrange(i as int, len as int),
            trim_back(s@.subrange(i as int, len as int)) == trim_back(
                s@.subrange(i as int, j as int),
            ),
        decreases j,
    {
        proof {
            let cur = s@.subrange(i as int, j as int);
            assert(cur.drop_last() =~= s@.subrange(i as int, j - 1));
        }
        j -= 1;
    }
    proof {
        let cur = s@.subrange(i as int, j as int);
        if j > i {
            assert(trim_back(cur) == cur);
        }
        assert(spec_trim(s@) == s@.subrange(i as int, j as int));
    }
    let piece: &str = s.substring_char(i, j);
    piece.to_owned()
}

/// Whether `needle` occurs contiguously in `hay`, by the naive quadratic
/// scan.
pub fn str_contains(hay: &str, needle: &str) -> (r: bool)
    ensures
        r == contains_seq(hay@, needle@),
{
    let hlen: usize = hay.unicode_len();
    let nlen: usize = needle.unicode_len();
    if nlen > hlen {
        assert(!contains_seq(hay@, needle@));
        return false;
    }
    let mut i: usize = 0;
    while i <= hlen - nlen
        invariant
            0 <= i <= hlen - nlen + 1,
            nlen <= hlen,
            hlen == hay@.len(),
            nlen == needle@.len(),
            forall|k: int|
                0 <= k < i ==> #[trigger] hay@.subrange(k, k + needle@.len())
                    != needle@,
        decreases hlen - nlen - i + 1,
    {
        let mut j: usize = 0;
        while j < nlen && hay.get_char(i + j) == needle.get_char(j)
            invariant
                0 <= j <= nlen,
                i + nlen <= hlen,
                hlen == hay@.len(),
                nlen == needle@.len(),
                forall|k: int| 0 <= k < j ==> hay@[i + k] == needle@[k],
            decreases nlen - j,
        {
            j += 1;
        }
        if j == nlen {
            proof {
                assert(hay@.subrange(i as int, i + needle@.len()) =~= needle@);
            }
            return true;
        }
        proof {
            assert(hay@.subrange(i as int, i + needle@.len())[j as int]
                != needle@[j as int]);
        }
        i += 1;
    }
    proof {
        assert forall|k: int| 0 <= k && k + needle@.len() <= hay@.len()
            implies #[trigger] hay@.subrange(k, k + needle@.len()) != needle@ by {
            assert(k < i);
        }
    }
    false
}

} // verus!
