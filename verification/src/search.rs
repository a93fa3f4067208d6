//! The bounded entry-point search: a depth-first walk over a directory
//! picture that recurses only into directories named `src`, at most three
//! levels down, and accepts the first source file whose text contains the
//! entry-point marker.  First match wins, in entry order.

use vstd::prelude::*;
use crate::strutil::{contains_seq, str_contains, str_eq};
use crate::fs_tree::{DirTree, FsNode};
use crate::data_structs::Mushroom;
use crate::utility::{join_path, spec_join};

verus! {

/// Why a search (or the directory walk feeding it) failed; each variant
/// carries the path or message it is about.
#[derive(Debug)]
pub enum MainFnSearchError {
    /// No entry file anywhere in the bounded walk of the payload
    /// directory.
    MainNotFound(String),
    /// The payload reports a permission failure while reading a
    /// directory.
    Unauthorized(String),
    /// The payload reports that the searched path is no directory.
    Inexistent(String),
    /// The payload reports any other read failure.
    GeneralIOErr(String),
}

/// The user-readable message of a search error.
pub open spec fn spec_search_message(e: MainFnSearchError) -> Seq<char> {
    match e {
        MainFnSearchError::Inexistent(p) => "path is not a directory: "@ + p@,
        MainFnSearchError::Unauthorized(p) => "missing permissions to access path: "@
            + p@,
        MainFnSearchError::GeneralIOErr(p) => "IOFailure: "@ + p@,
        MainFnSearchError::MainNotFound(p) => "main function not found in path: "@ + p@,
    }
}

impl MainFnSearchError {
    /// The message a caller shows for this error.
    pub fn message(&self) -> (r: String)
        ensures
            r@ == spec_search_message(*self),
    {
        match self {
            MainFnSearchError::Inexistent(p) => String::from_str(
                "path is not a directory: ",
            ).concat(p.as_str()),
            MainFnSearchError::Unauthorized(p) => String::from_str(
                "missing permissions to access path: ",
            ).concat(p.as_str()),
            MainFnSearchError::GeneralIOErr(p) => String::from_str("IOFailure: ").concat(
                p.as_str(),
            ),
            MainFnSearchError::MainNotFound(p) => String::from_str(
                "main function not found in path: ",
            ).concat(p.as_str()),
        }
    }
}

/// What the walk does with one directory entry.
pub enum DirEntryAction {
    Ignore,
    ReadFile,
    ReadDir,
}

/// The text that marks a program entry point, matched naively.
pub open spec fn main_marker() -> Seq<char> {
    "fn main("@
}

/// A name with the host language's source extension and a non-empty stem.
pub open spec fn is_rs_name(name: Seq<char>) -> bool {
    name.len() >= 4 && name.subrange(name.len() - 3, name.len() as int) == ".rs"@
}

/// How the walk treats an entry: recurse into directories named `src`,
/// read source files, ignore everything else.
pub open spec fn spec_entry_action(e: FsNode) -> DirEntryAction {
    match e {
        FsNode::Dir { name, .. } => if name@ == "src"@ {
            DirEntryAction::ReadDir
        } else {
            DirEntryAction::Ignore
        },
        FsNode::File { name, .. } => if is_rs_name(name@) {
            DirEntryAction::ReadFile
        } else {
            DirEntryAction::Ignore
        },
    }
}

/// The relative path the walk finds under `entries` at recursion depth
/// `level`, if any: the first source file, in entry order, whose text
/// holds the marker, with directories named `src` entered while `level`
/// stays under the depth bound.
pub open spec fn spec_search_entries(entries: Seq<FsNode>, level: nat) -> Option<Seq<char>>
    decreases 3 - level, entries.len(), 1nat,
{
    if entries.len() == 0 {
        None
    } else {
        match spec_search_entry(entries[0], level) {
            Some(p) => Some(p),
            None => spec_search_entries(entries.drop_first(), level),
        }
    }
}

/// The relative path the walk finds inside one entry at depth `level`.
pub open spec fn spec_search_entry(e: FsNode, level: nat) -> Option<Seq<char>>
    decreases 3 - level, 0nat, 0nat,
{
    match e {
        FsNode::File { name, content } => if is_rs_name(name@) && contains_seq(
            content@,
            main_marker(),
        ) {
            Some(name@)
        } else {
            None
        },
        FsNode::Dir { name, entries } => if name@ == "src"@ && level < 3 {
            match spec_search_entries(entries@, level + 1) {
                Some(p) => Some(name@ + seq!['/'] + p),
                None => None,
            }
        } else {
            None
        },
    }
}

/// Classifies one directory entry for the walk.
pub fn rust_file_dir_entry_checker(entry: &FsNode) -> (r: DirEntryAction)
    ensures
        r == spec_entry_action(*entry),
{
    match entry {
        FsNode::Dir { name, .. } => {
            if str_eq(name.as_str(), "src") {
                DirEntryAction::ReadDir
            } else {
                DirEntryAction::Ignore
            }
        },
        FsNode::File { name, .. } => {
            if is_rs_file_name(name.as_str()) {
                DirEntryAction::ReadFile
            } else {
                DirEntryAction::Ignore
            }
        },
    }
}

/// Whether a file name carries the source extension with a non-empty
/// stem.
fn is_rs_file_name(name: &str) -> (r: bool)
    ensures
        r == is_rs_name(name@),
{
    let len: usize = name.unicode_len();
    if len < 4 {
        return false;
    }
    let tail: &str = name.substring_char(len - 3, len);
    str_eq(tail, ".rs")
}

fn search_entry_exec(e: &FsNode, level: usize) -> (r: Option<String>)
    requires
        level <= 3,
    ensures
        match r {
            Some(p) => spec_search_entry(*e, level as nat) == Some(p@),
            None => spec_search_entry(*e, level as nat) is None,
        },
    decreases 3 - level, 0nat, 0nat,
{
    match e {
        FsNode::File { name, content } => {
            if is_rs_file_name(name.as_str()) && str_contains(content.as_str(), "fn main(") {
                Some(name.clone())
            } else {
                None
            }
        },
        FsNode::Dir { name, entries } => {
            if str_eq(name.as_str(), "src") && level < 3 {
                proof {
                    assert(entries@.skip(0) =~= entries@);
                }
                match search_directory_for_main_function_recursor(entries, level + 1, 0) {
                    Some(p) => {
                        let joined = name.clone().concat("/").concat(p.as_str());
                        proof {
                            reveal_strlit("/");
                            assert(joined@ =~= name@ + seq!['/'] + p@);
                        }
                        Some(joined)
                    },
                    None => None,
                }
            } else {
                None
            }
        },
    }
}

/// The walk proper, from entry `ei` on at depth `level`.
fn search_directory_for_main_function_recursor(
    entries: &Vec<FsNode>,
    level: usize,
    ei: usize,
) -> (r: Option<String>)
    requires
        level <= 3,
        ei <= entries@.len(),
    ensures
        match r {
            Some(p) => spec_search_entries(entries@.skip(ei as int), level as nat)
                == Some(p@),
            None => spec_search_entries(entries@.skip(ei as int), level as nat) is None,
        },
    decreases 3 - level, entries@.len() - ei, 1nat,
{
    let ghost ents = entries@.skip(ei as int);
    if ei == entries.len() {
        return None;
    }
    proof {
        assert(ents[0] == entries@[ei as int]);
    }
    match search_entry_exec(&entries[ei], level) {
        Some(p) => Some(p),
        None => {
            let r = search_directory_for_main_function_recursor(entries, level, ei + 1);
            proof {
                assert(entries@.skip(ei + 1) =~= ents.drop_first());
            }
            r
        },
    }
}

/// Finds the entry file under the pictured directory `search_dir`: the
/// first bounded-walk hit, returned joined onto `search_dir`; failing
/// that, the not-found error naming `search_dir`.
pub fn search_directory_for_main_function(tree: &DirTree, search_dir: &str) -> (r: Result<
    String,
    MainFnSearchError,
>)
    ensures
        match r {
            Ok(p) => match spec_search_entries(tree.entries@, 0) {
                Some(rel) => p@ == spec_join(search_dir@, rel),
                None => false,
            },
            Err(e) => spec_search_entries(tree.entries@, 0) is None && (e
                matches MainFnSearchError::MainNotFound(d) && d@ == search_dir@),
        },
{
    proof {
        assert(tree.entries@.skip(0) =~= tree.entries@);
    }
    match search_directory_for_main_function_recursor(&tree.entries, 0, 0) {
        Some(rel) => Ok(join_path(search_dir, rel.as_str())),
        None => Err(MainFnSearchError::MainNotFound(search_dir.to_owned())),
    }
}

/// Synthesizes a fresh record for a project without a manifest: the
/// found entry file as the root, `build/` plus the project's name as the
/// head; fails when the bounded walk finds no entry file.
pub fn synthesize_mushroom(tree: &DirTree, project_name: &str) -> (r: Result<
    Mushroom,
    MainFnSearchError,
>)
    ensures
        match r {
            Ok(m) => spec_search_entries(tree.entries@, 0) == Some(m.root@) && m.head@
                == "build/"@ + project_name@,
            Err(e) => spec_search_entries(tree.entries@, 0) is None && (e
                matches MainFnSearchError::MainNotFound(d) && d@ == "."@),
        },
{
    proof {
        assert(tree.entries@.skip(0) =~= tree.entries@);
    }
    match search_directory_for_main_function_recursor(&tree.entries, 0, 0) {
        Some(rel) => Ok(
            Mushroom {
                root: rel,
                head: String::from_str("build/").concat(project_name),
            },
        ),
        None => Err(MainFnSearchError::MainNotFound(String::from_str("."))),
    }
}

} // verus!
