//! Path handling on plain strings.  A path is a `String`; its components
//! are the non-empty pieces between `/` separators, so `"./build/app"` has
//! the components `.`, `build`, `app` and `"/a/b"` has `a`, `b`.

use vstd::prelude::*;
use crate::strutil::{find_char, find_char_spec, str_eq};

verus! {

/// The components of a path: split on `/`, empty pieces dropped.
pub open spec fn spec_comps(s: Seq<char>) -> Seq<Seq<char>>
    decreases s.len(),
{
    if s.len() == 0 {
        Seq::empty()
    } else {
        match find_char_spec(s, '/') {
            None => seq![s],
            Some(i0) => {
                // a found index always lies inside `s`; the bound keeps
                // the recursion measure decreasing
                let i = if 0 <= i0 < s.len() { i0 } else { 0 };
                let head = s.subrange(0, i);
                let rest = spec_comps(s.subrange(i + 1, s.len() as int));
                if head.len() == 0 {
                    rest
                } else {
                    seq![head] + rest
                }
            },
        }
    }
}

/// `base` joined with a relative path, single separator in between; an
/// absolute `rel` replaces `base` outright.
pub open spec fn spec_join(base: Seq<char>, rel: Seq<char>) -> Seq<char> {
    if rel.len() > 0 && rel[0] == '/' {
        rel
    } else if base.len() == 0 {
        rel
    } else if base[base.len() - 1] == '/' {
        base + rel
    } else {
        base + seq!['/'] + rel
    }
}

/// The index of the last occurrence of `c` in `s`, if any.
pub open spec fn rfind_char_spec(s: Seq<char>, c: char) -> Option<int>
    decreases s.len(),
{
    if s.len() == 0 {
        None
    } else if s[s.len() - 1] == c {
        Some(s.len() - 1)
    } else {
        rfind_char_spec(s.drop_last(), c)
    }
}

/// The directory part of a path: everything before the last separator.
/// A path without a separator has no parent here.
pub open spec fn spec_parent(s: Seq<char>) -> Option<Seq<char>> {
    match rfind_char_spec(s, '/') {
        None => None,
        Some(i) => if i == 0 {
            Some(seq!['/'])
        } else {
            Some(s.subrange(0, i))
        },
    }
}

/// Every path in `others` has an `i`-th component equal to `comp`.
pub open spec fn all_match_at(others: Seq<Seq<char>>, i: int, comp: Seq<char>) -> bool {
    forall|j: int|
        0 <= j < others.len() ==> i < #[trigger] spec_comps(others[j]).len()
            && spec_comps(others[j])[i] == comp
}

/// How many leading components of `bc` every path in `others` shares,
/// counting on from `i`.
pub open spec fn match_count(bc: Seq<Seq<char>>, others: Seq<Seq<char>>, i: int) -> int
    decreases bc.len() - i,
{
    if i < 0 || i >= bc.len() || !all_match_at(others, i, bc[i]) {
        i
    } else {
        match_count(bc, others, i + 1)
    }
}

/// Components joined with `/`, starting at index `k`.
pub open spec fn join_comps_from(comps: Seq<Seq<char>>, k: int) -> Seq<char>
    decreases comps.len() - k,
{
    if k < 0 || k >= comps.len() {
        Seq::empty()
    } else if k == comps.len() - 1 {
        comps[k]
    } else {
        comps[k] + seq!['/'] + join_comps_from(comps, k + 1)
    }
}

/// The longest common leading component sequence of `base` and every path
/// in `others`, rejoined with `/` (and a leading `/` when `base` is
/// absolute); nothing shared gives `None`.
pub open spec fn spec_shared_prefix(base: Seq<char>, others: Seq<Seq<char>>) -> Option<
    Seq<char>,
> {
    let bc = spec_comps(base);
    let n = match_count(bc, others, 0);
    if n == 0 {
        None
    } else {
        let joined = join_comps_from(bc.subrange(0, n), 0);
        if base.len() > 0 && base[0] == '/' {
            Some(seq!['/'] + joined)
        } else {
            Some(joined)
        }
    }
}

/// The component list of a path, as owned strings.
pub fn path_comps_to_vec(path: &str) -> (v: Vec<String>)
    ensures
        v@.map_values(|c: String| c@) == spec_comps(path@),
    decreases path@.len(),
{
    let len: usize = path.unicode_len();
    if len == 0 {
        let v: Vec<String> = Vec::new();
        proof {
            assert(v@.map_values(|c: String| c@) =~= spec_comps(path@));
        }
        return v;
    }
    match find_char(path, '/') {
        None => {
            let mut v: Vec<String> = Vec::new();
            v.push(path.to_owned());
            proof {
                assert(v@.map_values(|c: String| c@) =~= seq![path@]);
            }
            v
        },
        Some(i) => {
            proof {
                crate::strutil::lemma_find_char_hit(path@, '/');
            }
            let head: &str = path.substring_char(0, i);
            let rest_str: &str = path.substring_char(i + 1, len);
            let mut rest = path_comps_to_vec(rest_str);
            if head.unicode_len() == 0 {
                proof {
                    assert(head@ =~= path@.subrange(0, i as int));
                }
                rest
            } else {
                rest.insert(0, head.to_owned());
                proof {
                    assert(rest@.map_values(|c: String| c@) =~= seq![
                        path@.subrange(0, i as int),
                    ] + spec_comps(path@.subrange(i + 1, path@.len() as int)));
                }
                rest
            }
        },
    }
}

/// `base` joined with `rel` under this library's separator convention.
pub fn join_path(base: &str, rel: &str) -> (r: String)
    ensures
        r@ == spec_join(base@, rel@),
{
    let blen: usize = base.unicode_len();
    let rlen: usize = rel.unicode_len();
    if rlen > 0 && rel.get_char(0) == '/' {
        rel.to_owned()
    } else if blen == 0 {
        rel.to_owned()
    } else if base.get_char(blen - 1) == '/' {
        let r = base.to_owned().concat(rel);
        proof {
            assert(r@ =~= spec_join(base@, rel@));
        }
        r
    } else {
        let r = base.to_owned().concat("/").concat(rel);
        proof {
            reveal_strlit("/");
            assert(r@ =~= spec_join(base@, rel@));
        }
        r
    }
}

/// Last occurrence of `c` in `s`, scanning from the end.
pub fn rfind_char(s: &str, c: char) -> (r: Option<usize>)
    ensures
        match r {
            Some(i) => i < s@.len() && rfind_char_spec(s@, c) == Some(i as int),
            None => rfind_char_spec(s@, c) is None,
        },
{
    let len: usize = s.unicode_len();
    proof {
        assert(s@.subrange(0, len as int) =~= s@);
    }
    let mut j: usize = len;
    while j > 0 && s.get_char(j - 1) != c
        invariant
            0 <= j <= len,
            len == s@.len(),
            rfind_char_spec(s@, c) == rfind_char_spec(s@.subrange(0, j as int), c),
        decreases j,
    {
        proof {
            let cur = s@.subrange(0, j as int);
            assert(cur.drop_last() =~= s@.subrange(0, j - 1));
            assert(s@.subrange(0, len as int) =~= s@);
        }
        j -= 1;
    }
    proof {
        assert(s@.subrange(0, len as int) =~= s@);
    }
    if j == 0 {
        proof {
            assert(s@.subrange(0, 0) =~= Seq::<char>::empty());
        }
        None
    } else {
        proof {
            let cur = s@.subrange(0, j as int);
            assert(cur[cur.len() - 1] == s@[j - 1]);
        }
        Some(j - 1)
    }
}

/// The parent directory of a path, if the path has a separator at all.
pub fn parent_dir(path: &str) -> (r: Option<String>)
    ensures
        match r {
            Some(p) => spec_parent(path@) == Some(p@),
            None => spec_parent(path@) is None,
        },
{
    match rfind_char(path, '/') {
        None => None,
        Some(i) => {
            if i == 0 {
                let root: String = String::from_str("/");
                proof {
                    reveal_strlit("/");
                    assert(root@ =~= seq!['/']);
                }
                Some(root)
            } else {
                Some(path.substring_char(0, i).to_owned())
            }
        },
    }
}

/// Components `[0, n)` of `comps` joined with `/`.
fn join_comps_exec(comps: &Vec<String>, k: usize, n: usize) -> (r: String)
    requires
        k <= n <= comps@.len(),
    ensures
        r@ == join_comps_from(comps@.map_values(|c: String| c@).subrange(0, n as int), k as int),
    decreases n - k,
{
    let ghost pref = comps@.map_values(|c: String| c@).subrange(0, n as int);
    if k >= n {
        let r = String::new();
        proof {
            assert(r@ =~= join_comps_from(pref, k as int));
        }
        r
    } else if k == n - 1 {
        comps[k].clone()
    } else {
        let rest = join_comps_exec(comps, k + 1, n);
        let r = comps[k].clone().concat("/").concat(rest.as_str());
        proof {
            reveal_strlit("/");
            assert(r@ =~= join_comps_from(pref, k as int));
        }
        r
    }
}

/// The longest common leading sequence of path components between `base`
/// and every path in `others`; `None` when no component is shared.
pub fn shared_prefix_with(base: &str, others: &Vec<String>) -> (r: Option<String>)
    ensures
        match r {
            Some(p) => spec_shared_prefix(
                base@,
                others@.map_values(|s: String| s@),
            ) == Some(p@),
            None => spec_shared_prefix(base@, others@.map_values(|s: String| s@)) is None,
        },
{
    let ghost gothers = others@.map_values(|s: String| s@);
    let base_comps = path_comps_to_vec(base);
    let ghost bc = spec_comps(base@);
    let mut idx: usize = 0;
    let mut stop = false;
    while !stop && idx < base_comps.len()
        invariant
            0 <= idx <= base_comps@.len(),
            base_comps@.map_values(|c: String| c@) == bc,
            bc == spec_comps(base@),
            gothers == others@.map_values(|s: String| s@),
            !stop ==> match_count(bc, gothers, 0) == match_count(bc, gothers, idx as int),
            stop ==> match_count(bc, gothers, 0) == idx,
        decreases base_comps@.len() - idx, if stop { 0int } else { 1int },
    {
        let mut j: usize = 0;
        let mut matched = true;
        while matched && j < others.len()
            invariant
                0 <= j <= others@.len(),
                idx < base_comps@.len(),
                base_comps@.map_values(|c: String| c@) == bc,
                gothers == others@.map_values(|s: String| s@),
                matched ==> forall|t: int|
                    0 <= t < j ==> (idx as int) < #[trigger] spec_comps(
                        gothers[t],
                    ).len() && spec_comps(gothers[t])[idx as int] == bc[idx as int],
                !matched ==> !all_match_at(gothers, idx as int, bc[idx as int]),
            decreases others@.len() - j, if matched { 1int } else { 0int },
        {
            let ocomps = path_comps_to_vec(others[j].as_str());
            proof {
                assert(gothers[j as int] == others@[j as int]@);
                assert(spec_comps(gothers[j as int]).len() == ocomps@.len());
            }
            if idx >= ocomps.len() {
                matched = false;
                proof {
                    assert(!((idx as int) < spec_comps(gothers[j as int]).len()));
                }
            } else if !str_eq(base_comps[idx].as_str(), ocomps[idx].as_str()) {
                matched = false;
                proof {
                    assert(spec_comps(gothers[j as int])[idx as int] == ocomps@[idx as int]@);
                    assert(bc[idx as int] == base_comps@[idx as int]@);
                }
            } else {
                proof {
                    assert(spec_comps(gothers[j as int])[idx as int] == ocomps@[idx as int]@);
                    assert(bc[idx as int] == base_comps@[idx as int]@);
                }
                j += 1;
            }
        }
        if matched {
            proof {
                assert(all_match_at(gothers, idx as int, bc[idx as int]));
            }
            idx += 1;
        } else {
            stop = true;
        }
    }
    proof {
        if !stop {
            assert(match_count(bc, gothers, idx as int) == idx);
        }
        assert(match_count(bc, gothers, 0) == idx);
    }
    if idx == 0 {
        return None;
    }
    let joined = join_comps_exec(&base_comps, 0, idx);
    proof {
        assert(bc.subrange(0, idx as int) =~= base_comps@.map_values(
            |c: String| c@,
        ).subrange(0, idx as int));
    }
    if base.unicode_len() > 0 && base.get_char(0) == '/' {
        let r = String::from_str("/").concat(joined.as_str());
        proof {
            reveal_strlit("/");
            assert(r@ =~= seq!['/'] + join_comps_from(bc.subrange(0, idx as int), 0));
        }
        Some(r)
    } else {
        Some(joined)
    }
}

/// The tail of `path` after the leading `prefix` and one separator, when
/// `prefix` really leads `path`; used to shorten paths for display.
pub fn strip_path_prefix(path: &str, prefix: &str) -> (r: Option<String>)
    ensures
        match r {
            Some(rest) => {
                &&& path@.len() >= prefix@.len()
                &&& path@.subrange(0, prefix@.len() as int) == prefix@
                &&& {
                    let tail = path@.subrange(prefix@.len() as int, path@.len() as int);
                    rest@ == if tail.len() > 0 && tail[0] == '/' {
                        tail.drop_first()
                    } else {
                        tail
                    }
                }
            },
            None => path@.len() < prefix@.len() || path@.subrange(
                0,
                prefix@.len() as int,
            ) != prefix@,
        },
{
    let plen: usize = path.unicode_len();
    let flen: usize = prefix.unicode_len();
    if plen < flen {
        return None;
    }
    let lead: &str = path.substring_char(0, flen);
    if !str_eq(lead, prefix) {
        return None;
    }
    let tail: &str = path.substring_char(flen, plen);
    let tlen: usize = tail.unicode_len();
    if tlen > 0 && tail.get_char(0) == '/' {
        let rest: &str = tail.substring_char(1, tlen);
        proof {
            assert(rest@ =~= tail@.drop_first());
        }
        Some(rest.to_owned())
    } else {
        Some(tail.to_owned())
    }
}

} // verus!
