//! The manifest record ("mushroom"), the project context ("kinoko") and
//! the build error taxonomy.
//!
//! The manifest is a line-oriented, colon-delimited, two-key text: a
//! `root` line naming the entry source file and a `head` line naming the
//! build artifact, both relative to the working directory.  Keys and
//! values are trimmed, unknown keys and lines without a colon are skipped,
//! the last occurrence of a repeated key wins, `root` is mandatory and a
//! missing `head` falls back to `build/app`.

use vstd::prelude::*;
use crate::strutil::{
    find_char, find_char_spec, is_space, lemma_find_char_from, spec_trim, str_eq,
    trim_back, trim_front, trim_str,
};
use crate::utility::{join_path, spec_comps, spec_join};
use crate::fs_tree::{DirTree, tree_has_file_at};

verus! {

/// The fixed manifest file name inside the working directory; the marker
/// keeps it from colliding with ordinary project files.
pub open spec fn mushroom_file_name() -> Seq<char> {
    "kinoko.\u{1F344}"@
}

/// The output path used when the manifest has no `head` line.
pub open spec fn default_head() -> Seq<char> {
    "build/app"@
}

/// The manifest file name as a string slice.
pub fn mushroom_file_str() -> (r: &'static str)
    ensures
        r@ == mushroom_file_name(),
{
    "kinoko.\u{1F344}"
}

/// Parsing rejects a manifest without a `root` line: without it there is
/// no entry point to build.
#[derive(Debug)]
pub enum ParseError {
    MissingEntryPoint,
}

/// The two-field manifest record.
pub struct Mushroom {
    pub root: String,
    pub head: String,
}

/// A line with its single trailing carriage return removed, as the
/// line-splitting of `str::lines` does.
pub open spec fn strip_cr(line: Seq<char>) -> Seq<char> {
    if line.len() > 0 && line[line.len() - 1] == '\r' {
        line.drop_last()
    } else {
        line
    }
}

/// The lines of `s`: pieces between `\n` separators, each with a trailing
/// `\r` removed, and no empty piece after a final `\n`.
pub open spec fn spec_lines(s: Seq<char>) -> Seq<Seq<char>>
    decreases s.len(),
{
    if s.len() == 0 {
        Seq::empty()
    } else {
        match find_char_spec(s, '\n') {
            None => seq![strip_cr(s)],
            Some(i0) => {
                // a found index always lies inside `s`; the bound keeps
                // the recursion measure decreasing
                let i = if 0 <= i0 < s.len() { i0 } else { 0 };
                seq![strip_cr(s.subrange(0, i))] + spec_lines(
                    s.subrange(i + 1, s.len() as int),
                )
            },
        }
    }
}

/// The key and value of a manifest line: the parts on either side of the
/// first colon, trimmed; a line without a colon carries nothing.
pub open spec fn spec_line_kv(line: Seq<char>) -> Option<(Seq<char>, Seq<char>)> {
    match find_char_spec(line, ':') {
        None => None,
        Some(i) => Some(
            (
                spec_trim(line.subrange(0, i)),
                spec_trim(line.subrange(i + 1, line.len() as int)),
            ),
        ),
    }
}

/// The `root` and `head` values after reading `lines[i..]`, starting from
/// the values `root` and `head` already seen; the last occurrence of a key
/// wins.
pub open spec fn scan_kv(
    lines: Seq<Seq<char>>,
    i: int,
    root: Option<Seq<char>>,
    head: Option<Seq<char>>,
) -> (Option<Seq<char>>, Option<Seq<char>>)
    decreases lines.len() - i,
{
    if i < 0 || i >= lines.len() {
        (root, head)
    } else {
        let stepped = match spec_line_kv(lines[i]) {
            None => (root, head),
            Some(kv) => if kv.0 == "root"@ {
                (Some(kv.1), head)
            } else if kv.0 == "head"@ {
                (root, Some(kv.1))
            } else {
                (root, head)
            },
        };
        scan_kv(lines, i + 1, stepped.0, stepped.1)
    }
}

/// What parsing a manifest text yields: the `root` and `head` values, the
/// latter defaulted, or the error for a text without a `root` line.
pub open spec fn spec_deserialize(s: Seq<char>) -> Result<(Seq<char>, Seq<char>), ParseError> {
    let scanned = scan_kv(spec_lines(s), 0, None, None);
    match scanned.0 {
        None => Err(ParseError::MissingEntryPoint),
        Some(r) => Ok(
            (
                r,
                match scanned.1 {
                    None => default_head(),
                    Some(h) => h,
                },
            ),
        ),
    }
}

/// The view of an optional owned string.
pub open spec fn opt_view(o: Option<String>) -> Option<Seq<char>> {
    match o {
        None => None,
        Some(s) => Some(s@),
    }
}

/// The lines of `s` as owned strings.
fn collect_lines(s: &str) -> (v: Vec<String>)
    ensures
        v@.map_values(|l: String| l@) == spec_lines(s@),
    decreases s@.len(),
{
    let len: usize = s.unicode_len();
    if len == 0 {
        let v: Vec<String> = Vec::new();
        proof {
            assert(v@.map_values(|l: String| l@) =~= spec_lines(s@));
        }
        return v;
    }
    match find_char(s, '\n') {
        None => {
            let line = strip_cr_exec(s, len);
            let mut v: Vec<String> = Vec::new();
            v.push(line);
            proof {
                assert(v@.map_values(|l: String| l@) =~= seq![strip_cr(s@)]);
            }
            v
        },
        Some(i) => {
            proof {
                crate::strutil::lemma_find_char_hit(s@, '\n');
            }
            let piece: &str = s.substring_char(0, i);
            let line = strip_cr_exec(piece, i);
            let rest_str: &str = s.substring_char(i + 1, len);
            let mut rest = collect_lines(rest_str);
            rest.insert(0, line);
            proof {
                assert(rest@.map_values(|l: String| l@) =~= seq![
                    strip_cr(s@.subrange(0, i as int)),
                ] + spec_lines(s@.subrange(i + 1, s@.len() as int)));
            }
            rest
        },
    }
}

/// `line` with a single trailing carriage return removed; `len` is its
/// character length.
fn strip_cr_exec(line: &str, len: usize) -> (r: String)
    requires
        len == line@.len(),
    ensures
        r@ == strip_cr(line@),
{
    if len > 0 && line.get_char(len - 1) == '\r' {
        let r = line.substring_char(0, len - 1).to_owned();
        proof {
            assert(r@ =~= line@.drop_last());
        }
        r
    } else {
        line.to_owned()
    }
}

impl Mushroom {
    /// An empty record, both fields blank.
    pub fn new() -> (m: Mushroom)
        ensures
            m.root@ == Seq::<char>::empty(),
            m.head@ == Seq::<char>::empty(),
    {
        Mushroom { root: String::new(), head: String::new() }
    }

    /// The manifest text for this record: a `root` line then a `head`
    /// line.
    pub open spec fn spec_serialize(self) -> Seq<char> {
        "root: "@ + self.root@ + "\n"@ + "head: "@ + self.head@
    }

    /// Writes the record out as its two manifest lines.
    pub fn serialize(&self) -> (r: String)
        ensures
            r@ == self.spec_serialize(),
    {
        let r = String::from_str("root: ").concat(self.root.as_str()).concat("\n").concat(
            "head: ",
        ).concat(self.head.as_str());
        proof {
            assert(r@ =~= self.spec_serialize());
        }
        r
    }

    /// Parses a manifest text into a record.  Fails exactly when no line
    /// carries a `root` key; a missing `head` key falls back to
    /// `build/app`.
    pub fn deserialize(contents: &str) -> (r: Result<Mushroom, ParseError>)
        ensures
            match r {
                Ok(m) => spec_deserialize(contents@) == Ok::<_, ParseError>(
                    (m.root@, m.head@),
                ),
                Err(e) => spec_deserialize(contents@) is Err && e is MissingEntryPoint,
            },
    {
        let lines = collect_lines(contents);
        let ghost glines = spec_lines(contents@);
        let mut root_val: Option<String> = None;
        let mut head_val: Option<String> = None;
        let mut i: usize = 0;
        while i < lines.len()
            invariant
                0 <= i <= lines@.len(),
                lines@.map_values(|l: String| l@) == glines,
                scan_kv(glines, 0, None, None) == scan_kv(
                    glines,
                    i as int,
                    opt_view(root_val),
                    opt_view(head_val),
                ),
            decreases lines@.len() - i,
        {
            proof {
                assert(glines[i as int] == lines@[i as int]@);
            }
            let line: &String = &lines[i];
            let llen: usize = line.as_str().unicode_len();
            match find_char(line.as_str(), ':') {
                None => {},
                Some(c) => {
                    proof {
                        crate::strutil::lemma_find_char_hit(line@, ':');
                    }
                    let key = trim_str(line.as_str().substring_char(0, c));
                    let val = trim_str(line.as_str().substring_char(c + 1, llen));
                    if str_eq(key.as_str(), "root") {
                        root_val = Some(val);
                    } else if str_eq(key.as_str(), "head") {
                        head_val = Some(val);
                    }
                },
            }
            i += 1;
        }
        match root_val {
            None => Err(ParseError::MissingEntryPoint),
            Some(root) => {
                let head = match head_val {
                    None => String::from_str("build/app"),
                    Some(h) => h,
                };
                Ok(Mushroom { root, head })
            },
        }
    }
}

/// The build error taxonomy; each variant carries the path or message it
/// is about.
pub enum GerminationError {
    /// No manifest file at the working directory (the payload).
    MissingRoots(String),
    /// The manifest file (the payload) could not be read or parsed.
    MushroomUnpickable(String),
    /// The manifest's entry path (the payload) is not an existing file.
    InvalidRoot(String),
    /// The output directory could not be created; the payload reports why.
    NoHeadDir(String),
    /// The compiler could not be run or rejected the input; the payload
    /// reports which.
    GrowthFailure(String),
}

/// The user-readable message of a `GerminationError`.
pub open spec fn spec_germination_message(e: GerminationError) -> Seq<char> {
    match e {
        GerminationError::MissingRoots(p) => "No kinoko file is found at cwd: "@ + p@,
        GerminationError::MushroomUnpickable(p) => "Unable to pick mushroom's information: "@
            + p@,
        GerminationError::InvalidRoot(p) =>
            "Mushroom is unhealthy to be picked, doesn't seem to be a file: "@ + p@,
        GerminationError::NoHeadDir(p) =>
            "Failed to create the space for germination, folder creation failed: "@ + p@,
        GerminationError::GrowthFailure(p) => "Germination has failed to be done - "@ + p@,
    }
}

impl GerminationError {
    /// The message a caller shows for this error.
    pub fn message(&self) -> (r: String)
        ensures
            r@ == spec_germination_message(*self),
    {
        match self {
            GerminationError::MissingRoots(p) => String::from_str(
                "No kinoko file is found at cwd: ",
            ).concat(p.as_str()),
            GerminationError::MushroomUnpickable(p) => String::from_str(
                "Unable to pick mushroom's information: ",
            ).concat(p.as_str()),
            GerminationError::InvalidRoot(p) => String::from_str(
                "Mushroom is unhealthy to be picked, doesn't seem to be a file: ",
            ).concat(p.as_str()),
            GerminationError::NoHeadDir(p) => String::from_str(
                "Failed to create the space for germination, folder creation failed: ",
            ).concat(p.as_str()),
            GerminationError::GrowthFailure(p) => String::from_str(
                "Germination has failed to be done - ",
            ).concat(p.as_str()),
        }
    }
}

/// The project context: a working directory and the extra arguments
/// passed through to the compiler.
pub struct Kinoko {
    pub argv: Vec<String>,
    pub argc: usize,
    pub cwd: String,
}

impl Kinoko {
    /// A context over `cwd` carrying `args` for the compiler.
    pub fn new_with_args(cwd: String, args: Vec<String>) -> (k: Kinoko)
        ensures
            k.cwd@ == cwd@,
            k.argv == args,
            k.argc == args@.len(),
    {
        let argc = args.len();
        Kinoko { argv: args, argc, cwd }
    }

    /// Where this context's manifest file lies.
    pub fn get_mushroom_path(&self) -> (r: String)
        ensures
            r@ == spec_join(self.cwd@, mushroom_file_name()),
    {
        join_path(self.cwd.as_str(), mushroom_file_str())
    }

    /// Whether the manifest file exists in the working directory, read off
    /// the given picture of that directory.
    pub fn has_roots_at_cwd(&self, tree: &DirTree) -> (r: bool)
        ensures
            r == tree_has_file_at(tree.entries@, spec_comps(mushroom_file_name())),
    {
        tree.has_file(mushroom_file_str())
    }

    /// The artifact path this context builds to: the working directory
    /// joined with the record's head.
    pub fn get_mushroom_head_path(&self, mushroom: &Mushroom) -> (r: String)
        ensures
            r@ == spec_join(self.cwd@, mushroom.head@),
    {
        join_path(self.cwd.as_str(), mushroom.head.as_str())
    }

    /// The backup path beside the artifact: the head path with the
    /// reserved suffix appended.
    pub fn get_mushroom_old_head_path(&self, mushroom: &Mushroom) -> (r: String)
        ensures
            r@ == spec_join(self.cwd@, mushroom.head@ + ".old"@),
    {
        let old = mushroom.head.clone().concat(".old");
        join_path(self.cwd.as_str(), old.as_str())
    }

    /// Whether an artifact already lies at the record's head path, read
    /// off the given picture of the working directory.
    pub fn mushroom_head_exists(&self, mushroom: &Mushroom, tree: &DirTree) -> (r: bool)
        ensures
            r == tree_has_file_at(tree.entries@, spec_comps(mushroom.head@)),
    {
        tree.has_file(mushroom.head.as_str())
    }
}

/// The restore step after a failed build: the rename to perform, from the
/// backup path back to the head path, when a backup file is present; the
/// caller reports whether one is.
pub fn restore_old_mushroom_head_if_exists(
    mushroom: &Mushroom,
    kinoko: &Kinoko,
    old_head_present: bool,
) -> (r: Option<(String, String)>)
    ensures
        match r {
            Some(pair) => old_head_present && pair.0@ == spec_join(
                kinoko.cwd@,
                mushroom.head@ + ".old"@,
            ) && pair.1@ == spec_join(kinoko.cwd@, mushroom.head@),
            None => !old_head_present,
        },
{
    if old_head_present {
        let from = kinoko.get_mushroom_old_head_path(mushroom);
        let to = kinoko.get_mushroom_head_path(mushroom);
        Some((from, to))
    } else {
        None
    }
}

/// Trimming does nothing to a value that is non-empty and clean at both
/// ends.
proof fn lemma_trim_clean(v: Seq<char>)
    requires
        v.len() > 0,
        !is_space(v[0]),
        !is_space(v[v.len() - 1]),
    ensures
        spec_trim(v) == v,
{
    assert(trim_front(v) == v);
    assert(trim_back(v) == v);
}

/// Trimming a single leading space off a clean value leaves the value.
proof fn lemma_trim_space_then(v: Seq<char>)
    requires
        v.len() > 0,
        !is_space(v[0]),
        !is_space(v[v.len() - 1]),
    ensures
        spec_trim(seq![' '] + v) == v,
{
    let w = seq![' '] + v;
    assert(w[0] == ' ');
    assert(w.drop_first() =~= v);
    assert(trim_front(w) == trim_front(v));
    lemma_trim_clean(v);
}

/// Round trip: serializing a record and parsing the text back yields the
/// same two field values, for any record whose fields are non-empty, hold
/// no line break and are clean of whitespace at both ends.
pub proof fn lemma_serialize_round_trip(m: Mushroom)
    requires
        m.root@.len() > 0,
        m.head@.len() > 0,
        !m.root@.contains('\n'),
        !m.head@.contains('\n'),
        !is_space(m.root@[0]),
        !is_space(m.root@[m.root@.len() - 1]),
        !is_space(m.head@[0]),
        !is_space(m.head@[m.head@.len() - 1]),
    ensures
        spec_deserialize(m.spec_serialize()) == Ok::<_, ParseError>((m.root@, m.head@)),
{
    reveal_strlit("root: ");
    reveal_strlit("head: ");
    reveal_strlit("\n");
    reveal_strlit("root");
    reveal_strlit("head");
    let rv = m.root@;
    let hv = m.head@;
    let s = m.spec_serialize();
    let l1 = "root: "@ + rv;
    let l2 = "head: "@ + hv;
    let nl = l1.len() as int;
    assert(s.len() == l1.len() + 1 + l2.len());
    assert forall|k: int| 0 <= k < nl implies s[k] != '\n' by {
        if k >= 6 {
            assert(s[k] == rv[k - 6]);
        }
    }
    assert(s[nl] == '\n');
    lemma_find_char_from(s, '\n', nl);
    assert(find_char_spec(s, '\n') == Some(nl));
    assert(s.subrange(0, nl) =~= l1);
    assert(l1[l1.len() - 1] == rv[rv.len() - 1]);
    assert(strip_cr(l1) == l1);
    assert(s.subrange(nl + 1, s.len() as int) =~= l2);
    assert forall|k: int| 0 <= k < l2.len() implies l2[k] != '\n' by {
        if k >= 6 {
            assert(l2[k] == hv[k - 6]);
        }
    }
    lemma_find_char_from(l2, '\n', l2.len() as int);
    assert(l2[l2.len() - 1] == hv[hv.len() - 1]);
    assert(strip_cr(l2) == l2);
    assert(spec_lines(l2) =~= seq![l2]);
    let lines = spec_lines(s);
    assert(lines =~= seq![l1, l2]);

    assert(l1[4] == ':');
    assert forall|k: int| 0 <= k < 4 implies l1[k] != ':' by {}
    lemma_find_char_from(l1, ':', 4);
    assert(l1.subrange(0, 4) =~= "root"@);
    lemma_trim_clean("root"@);
    assert(l1.subrange(5, l1.len() as int) =~= seq![' '] + rv);
    lemma_trim_space_then(rv);
    assert(spec_line_kv(l1) == Some(("root"@, rv)));

    assert(l2[4] == ':');
    assert forall|k: int| 0 <= k < 4 implies l2[k] != ':' by {}
    lemma_find_char_from(l2, ':', 4);
    assert(l2.subrange(0, 4) =~= "head"@);
    lemma_trim_clean("head"@);
    assert(l2.subrange(5, l2.len() as int) =~= seq![' '] + hv);
    lemma_trim_space_then(hv);
    assert(spec_line_kv(l2) == Some(("head"@, hv)));

    assert("root"@ != "head"@) by {
        assert("root"@[0] == 'r' && "head"@[0] == 'h');
    }
    assert(scan_kv(lines, 2, Some(rv), Some(hv)) == (Some(rv), Some(hv)));
    assert(scan_kv(lines, 1, Some(rv), None) == (Some(rv), Some(hv)));
    assert(scan_kv(lines, 0, None, None) == (Some(rv), Some(hv)));
}

/// Default head: a text whose lines yield a `root` value and no `head`
/// value parses to a record whose head is the platform default.
pub proof fn lemma_default_head(s: Seq<char>)
    requires
        scan_kv(spec_lines(s), 0, None, None).0 is Some,
        scan_kv(spec_lines(s), 0, None, None).1 is None,
    ensures
        match scan_kv(spec_lines(s), 0, None, None).0 {
            Some(r) => spec_deserialize(s) == Ok::<_, ParseError>((r, default_head())),
            None => false,
        },
{
}

/// Missing root: a text whose lines yield no `root` value fails to parse,
/// with the entry point reported missing.
pub proof fn lemma_missing_root(s: Seq<char>)
    requires
        scan_kv(spec_lines(s), 0, None, None).0 is None,
    ensures
        spec_deserialize(s) == Err::<(Seq<char>, Seq<char>), ParseError>(
            ParseError::MissingEntryPoint,
        ),
{
}

} // verus!

