//! The build command's surface: recognizing its name and taking its
//! argument list apart into the run-after-build flag, the arguments for
//! the compiler, and the arguments handed on to the executed artifact.

use vstd::prelude::*;
use crate::strutil::str_eq;

verus! {

/// Whether the first argument names this command (or its run-after-build
/// alias).
pub fn check_args(argv: &Vec<String>) -> (r: bool)
    ensures
        r == (argv@.len() > 0 && (argv@[0]@ == "build"@ || argv@[0]@ == "build-run"@)),
{
    if argv.len() < 1 {
        return false;
    }
    if str_eq(argv[0].as_str(), "build") {
        return true;
    }
    if str_eq(argv[0].as_str(), "build-run") {
        return true;
    }
    false
}

/// The command's usage line and description.
pub fn usage_message() -> (r: (String, &'static str))
    ensures
        r.0@ == "build [-r] [dir] [-- [run-args]]"@,
        r.1@
            == "Germinate! Compile rust based on kinoko.\u{1F344}\n\t\t\t\t Pass `-r` flag to run build after compilation.\n\t\t\t\t Any arguments passed after `--` will be passed onto the ran build"@,
{
    (
        String::from_str("build [-r] [dir] [-- [run-args]]"),
        "Germinate! Compile rust based on kinoko.\u{1F344}\n\t\t\t\t Pass `-r` flag to run build after compilation.\n\t\t\t\t Any arguments passed after `--` will be passed onto the ran build",
    )
}

/// `args` with its first occurrence of `flag` dropped, and whether one
/// was there.
pub open spec fn remove_first_flag(args: Seq<Seq<char>>, flag: Seq<char>) -> (
    bool,
    Seq<Seq<char>>,
)
    decreases args.len(),
{
    if args.len() == 0 {
        (false, args)
    } else if args[0] == flag {
        (true, args.drop_first())
    } else {
        let rest = remove_first_flag(args.drop_first(), flag);
        if rest.0 {
            (true, seq![args[0]] + rest.1)
        } else {
            (false, args)
        }
    }
}

/// `args` split at its first occurrence of `sep`: what stands before it
/// and what stands after; the separator itself is dropped.
pub open spec fn split_at_sep(args: Seq<Seq<char>>, sep: Seq<char>) -> (
    Seq<Seq<char>>,
    Seq<Seq<char>>,
)
    decreases args.len(),
{
    if args.len() == 0 {
        (Seq::empty(), Seq::empty())
    } else if args[0] == sep {
        (Seq::empty(), args.drop_first())
    } else {
        let rest = split_at_sep(args.drop_first(), sep);
        (seq![args[0]] + rest.0, rest.1)
    }
}

/// The views of a vector of strings.
pub open spec fn views_of(v: Seq<String>) -> Seq<Seq<char>> {
    v.map_values(|s: String| s@)
}

/// Mapping to views and dropping the first element commute.
proof fn lemma_views_drop_first(v: Seq<String>)
    requires
        v.len() > 0,
    ensures
        views_of(v.drop_first()) =~= views_of(v).drop_first(),
{
    assert forall|k: int| 0 <= k < v.len() - 1 implies views_of(v.drop_first())[k]
        == views_of(v).drop_first()[k] by {
        assert(views_of(v.drop_first())[k] == v.drop_first()[k]@);
        assert(views_of(v)[k + 1] == v[k + 1]@);
    }
}

/// Mapping to views distributes over putting one element in front.
proof fn lemma_views_cons(x: String, v: Seq<String>)
    ensures
        views_of(seq![x] + v) =~= seq![x@] + views_of(v),
{
    assert forall|k: int| 0 <= k < v.len() + 1 implies views_of(seq![x] + v)[k] == (seq![
        x@,
    ] + views_of(v))[k] by {
        assert(views_of(seq![x] + v)[k] == (seq![x] + v)[k]@);
        if k > 0 {
            assert(views_of(v)[k - 1] == v[k - 1]@);
        }
    }
}

/// The suffix of `args` from `i` on, as owned copies.
fn copy_suffix(args: &Vec<String>, i: usize) -> (r: Vec<String>)
    requires
        i <= args@.len(),
    ensures
        views_of(r@) == views_of(args@.skip(i as int)),
    decreases args@.len() - i,
{
    if i == args.len() {
        let r: Vec<String> = Vec::new();
        proof {
            assert(views_of(r@) =~= views_of(args@.skip(i as int)));
        }
        r
    } else {
        let mut r = copy_suffix(args, i + 1);
        let ghost before = r@;
        r.insert(0, args[i].clone());
        proof {
            assert(r@ =~= seq![args@[i as int]] + before);
            lemma_views_cons(args@[i as int], before);
            assert(args@.skip(i as int).drop_first() =~= args@.skip(i + 1));
            lemma_views_drop_first(args@.skip(i as int));
            assert(views_of(r@) =~= views_of(args@.skip(i as int)));
        }
        r
    }
}

fn remove_first_flag_exec(args: &Vec<String>, flag: &str, i: usize) -> (r: (
    bool,
    Vec<String>,
))
    requires
        i <= args@.len(),
    ensures
        ({
            let spec = remove_first_flag(views_of(args@.skip(i as int)), flag@);
            r.0 == spec.0 && views_of(r.1@) == spec.1
        }),
    decreases args@.len() - i,
{
    let ghost cur = views_of(args@.skip(i as int));
    if i == args.len() {
        let r: Vec<String> = Vec::new();
        proof {
            assert(views_of(r@) =~= cur);
        }
        (false, r)
    } else {
        proof {
            assert(cur[0] == args@[i as int]@);
            lemma_views_drop_first(args@.skip(i as int));
            assert(args@.skip(i as int).drop_first() =~= args@.skip(i + 1));
            assert(cur.drop_first() =~= views_of(args@.skip(i + 1)));
        }
        if str_eq(args[i].as_str(), flag) {
            let r = copy_suffix(args, i + 1);
            (true, r)
        } else {
            let rest = remove_first_flag_exec(args, flag, i + 1);
            if rest.0 {
                let mut r = rest.1;
                let ghost before = r@;
                r.insert(0, args[i].clone());
                proof {
                    assert(r@ =~= seq![args@[i as int]] + before);
                    lemma_views_cons(args@[i as int], before);
                    assert(views_of(r@) =~= seq![cur[0]] + views_of(before));
                }
                (true, r)
            } else {
                let r = copy_suffix(args, i);
                (false, r)
            }
        }
    }
}

fn split_at_sep_exec(args: &Vec<String>, sep: &str, i: usize) -> (r: (
    Vec<String>,
    Vec<String>,
))
    requires
        i <= args@.len(),
    ensures
        ({
            let spec = split_at_sep(views_of(args@.skip(i as int)), sep@);
            views_of(r.0@) == spec.0 && views_of(r.1@) == spec.1
        }),
    decreases args@.len() - i,
{
    let ghost cur = views_of(args@.skip(i as int));
    if i == args.len() {
        let a: Vec<String> = Vec::new();
        let b: Vec<String> = Vec::new();
        proof {
            assert(views_of(a@) =~= Seq::<Seq<char>>::empty());
            assert(views_of(b@) =~= Seq::<Seq<char>>::empty());
            assert(cur =~= Seq::<Seq<char>>::empty());
        }
        (a, b)
    } else {
        proof {
            assert(cur[0] == args@[i as int]@);
            lemma_views_drop_first(args@.skip(i as int));
            assert(args@.skip(i as int).drop_first() =~= args@.skip(i + 1));
            assert(cur.drop_first() =~= views_of(args@.skip(i + 1)));
        }
        if str_eq(args[i].as_str(), sep) {
            let a: Vec<String> = Vec::new();
            let b = copy_suffix(args, i + 1);
            proof {
                assert(views_of(a@) =~= Seq::<Seq<char>>::empty());
            }
            (a, b)
        } else {
            let rest = split_at_sep_exec(args, sep, i + 1);
            let mut a = rest.0;
            let ghost before = a@;
            a.insert(0, args[i].clone());
            proof {
                assert(a@ =~= seq![args@[i as int]] + before);
                lemma_views_cons(args@[i as int], before);
                assert(views_of(a@) =~= seq![cur[0]] + split_at_sep(
                    views_of(args@.skip(i + 1)),
                    sep@,
                ).0);
            }
            (a, rest.1)
        }
    }
}

/// Takes the command's argument list apart: drops the leading command
/// name, pulls out the first `-r` (run after build), and splits the rest
/// at the first `--` into compiler arguments and run arguments.
pub fn parse_build_args(args: &Vec<String>) -> (r: (bool, Vec<String>, Vec<String>))
    requires
        args@.len() >= 1,
    ensures
        ({
            let tail = views_of(args@).drop_first();
            let flagged = remove_first_flag(tail, "-r"@);
            let parts = split_at_sep(flagged.1, "--"@);
            r.0 == flagged.0 && views_of(r.1@) == parts.0 && views_of(r.2@) == parts.1
        }),
{
    let flagged = remove_first_flag_exec(args, "-r", 1);
    proof {
        assert(views_of(args@.skip(1)) =~= views_of(args@).drop_first());
    }
    let parts = split_at_sep_exec(&flagged.1, "--", 0);
    proof {
        assert(views_of(flagged.1@.skip(0)) =~= views_of(flagged.1@));
    }
    (flagged.0, parts.0, parts.1)
}

/// Picks the project directory for a build: the first compiler argument
/// when the caller reports it names an existing directory, the current
/// directory otherwise; the chosen argument, if any, is consumed.
pub fn select_build_dir(build_args: Vec<String>, first_is_dir: bool) -> (r: (
    String,
    Vec<String>,
))
    ensures
        if build_args@.len() > 0 && first_is_dir {
            r.0@ == build_args@[0]@ && views_of(r.1@) == views_of(
                build_args@,
            ).drop_first()
        } else {
            r.0@ == "./"@ && views_of(r.1@) == views_of(build_args@)
        },
{
    let mut build_args = build_args;
    let ghost orig = build_args@;
    if build_args.len() > 0 && first_is_dir {
        let dir = build_args.remove(0);
        proof {
            assert(build_args@ =~= orig.drop_first());
            lemma_views_drop_first(orig);
            assert(views_of(build_args@) =~= views_of(orig).drop_first());
        }
        (dir, build_args)
    } else {
        (String::from_str("./"), build_args)
    }
}

} // verus!
