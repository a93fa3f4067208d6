//! An in-memory picture of a directory: what the callers that own the real
//! file system hand to the library so that existence checks and the entry
//! search run on plain values.  Files carry their text content; directories
//! carry their entries in enumeration order.

use vstd::prelude::*;
use crate::strutil::str_eq;
use crate::utility::{path_comps_to_vec, spec_comps};

verus! {

/// One directory entry: a file with its text, or a directory with its own
/// entries.
pub enum FsNode {
    File { name: String, content: String },
    Dir { name: String, entries: Vec<FsNode> },
}

/// The entries of the directory under consideration (usually the working
/// directory), in enumeration order.
pub struct DirTree {
    pub entries: Vec<FsNode>,
}

/// The entry's own name.
pub open spec fn node_name(e: FsNode) -> Seq<char> {
    match e {
        FsNode::File { name, .. } => name@,
        FsNode::Dir { name, .. } => name@,
    }
}

/// A regular file lies at the component path `comps` under `entries`; the
/// first entry carrying a looked-for name decides each step.
pub open spec fn tree_has_file_at(entries: Seq<FsNode>, comps: Seq<Seq<char>>) -> bool
    decreases comps.len(), entries.len(),
{
    if comps.len() == 0 || entries.len() == 0 {
        false
    } else if node_name(entries[0]) == comps[0] {
        match entries[0] {
            FsNode::File { .. } => comps.len() == 1,
            FsNode::Dir { entries: sub, .. } => comps.len() > 1 && tree_has_file_at(
                sub@,
                comps.drop_first(),
            ),
        }
    } else {
        tree_has_file_at(entries.drop_first(), comps)
    }
}

/// The entries of the directory at the component path `comps`, if a
/// directory lies there.
pub open spec fn tree_dir_entries(entries: Seq<FsNode>, comps: Seq<Seq<char>>) -> Option<
    Seq<FsNode>,
>
    decreases comps.len(), entries.len(),
{
    if comps.len() == 0 || entries.len() == 0 {
        None
    } else if node_name(entries[0]) == comps[0] {
        match entries[0] {
            FsNode::File { .. } => None,
            FsNode::Dir { entries: sub, .. } => if comps.len() == 1 {
                Some(sub@)
            } else {
                tree_dir_entries(sub@, comps.drop_first())
            },
        }
    } else {
        tree_dir_entries(entries.drop_first(), comps)
    }
}

fn node_name_exec(e: &FsNode) -> (r: &String)
    ensures
        r@ == node_name(*e),
{
    match e {
        FsNode::File { name, .. } => name,
        FsNode::Dir { name, .. } => name,
    }
}

fn has_file_in(entries: &Vec<FsNode>, comps: &Vec<String>, ci: usize, ei: usize) -> (r:
    bool)
    requires
        ci <= comps@.len(),
        ei <= entries@.len(),
    ensures
        r == tree_has_file_at(
            entries@.skip(ei as int),
            comps@.map_values(|c: String| c@).skip(ci as int),
        ),
    decreases comps@.len() - ci, entries@.len() - ei,
{
    let ghost ents = entries@.skip(ei as int);
    let ghost cs = comps@.map_values(|c: String| c@).skip(ci as int);
    if ci == comps.len() || ei == entries.len() {
        return false;
    }
    proof {
        assert(ents[0] == entries@[ei as int]);
        assert(cs[0] == comps@[ci as int]@);
    }
    let e = &entries[ei];
    if str_eq(node_name_exec(e).as_str(), comps[ci].as_str()) {
        match e {
            FsNode::File { .. } => ci == comps.len() - 1,
            FsNode::Dir { entries: sub, .. } => {
                if ci == comps.len() - 1 {
                    proof {
                        assert(cs.len() == 1);
                    }
                    false
                } else {
                    let r = has_file_in(sub, comps, ci + 1, 0);
                    proof {
                        assert(sub@.skip(0) =~= sub@);
                        assert(comps@.map_values(|c: String| c@).skip(ci + 1)
                            =~= cs.drop_first());
                    }
                    r
                }
            },
        }
    } else {
        let r = has_file_in(entries, comps, ci, ei + 1);
        proof {
            assert(entries@.skip(ei + 1) =~= ents.drop_first());
        }
        r
    }
}

fn find_dir_in<'a>(entries: &'a Vec<FsNode>, comps: &Vec<String>, ci: usize, ei: usize) -> (r:
    Option<&'a Vec<FsNode>>)
    requires
        ci <= comps@.len(),
        ei <= entries@.len(),
    ensures
        match r {
            Some(sub) => tree_dir_entries(
                entries@.skip(ei as int),
                comps@.map_values(|c: String| c@).skip(ci as int),
            ) == Some(sub@),
            None => tree_dir_entries(
                entries@.skip(ei as int),
                comps@.map_values(|c: String| c@).skip(ci as int),
            ) is None,
        },
    decreases comps@.len() - ci, entries@.len() - ei,
{
    let ghost ents = entries@.skip(ei as int);
    let ghost cs = comps@.map_values(|c: String| c@).skip(ci as int);
    if ci == comps.len() || ei == entries.len() {
        return None;
    }
    proof {
        assert(ents[0] == entries@[ei as int]);
        assert(cs[0] == comps@[ci as int]@);
    }
    let e = &entries[ei];
    if str_eq(node_name_exec(e).as_str(), comps[ci].as_str()) {
        match e {
            FsNode::File { .. } => None,
            FsNode::Dir { entries: sub, .. } => {
                if ci == comps.len() - 1 {
                    proof {
                        assert(cs.len() == 1);
                    }
                    Some(sub)
                } else {
                    let r = find_dir_in(sub, comps, ci + 1, 0);
                    proof {
                        assert(sub@.skip(0) =~= sub@);
                        assert(comps@.map_values(|c: String| c@).skip(ci + 1)
                            =~= cs.drop_first());
                    }
                    r
                }
            },
        }
    } else {
        let r = find_dir_in(entries, comps, ci, ei + 1);
        proof {
            assert(entries@.skip(ei + 1) =~= ents.drop_first());
        }
        r
    }
}

impl DirTree {
    /// A regular file lies at the (relative) path under this tree.
    pub fn has_file(&self, path: &str) -> (r: bool)
        ensures
            r == tree_has_file_at(self.entries@, spec_comps(path@)),
    {
        let comps = path_comps_to_vec(path);
        let r = has_file_in(&self.entries, &comps, 0, 0);
        proof {
            assert(self.entries@.skip(0) =~= self.entries@);
            assert(comps@.map_values(|c: String| c@).skip(0) =~= spec_comps(path@));
        }
        r
    }

    /// The entries of the directory at the (relative) path, if one lies
    /// there.
    pub fn dir_entries(&self, path: &str) -> (r: Option<&Vec<FsNode>>)
        ensures
            match r {
                Some(sub) => tree_dir_entries(self.entries@, spec_comps(path@)) == Some(
                    sub@,
                ),
                None => tree_dir_entries(self.entries@, spec_comps(path@)) is None,
            },
    {
        let comps = path_comps_to_vec(path);
        let r = find_dir_in(&self.entries, &comps, 0, 0);
        proof {
            assert(self.entries@.skip(0) =~= self.entries@);
            assert(comps@.map_values(|c: String| c@).skip(0) =~= spec_comps(path@));
        }
        r
    }
}

} // verus!
