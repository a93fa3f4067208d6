//! The init command's surface: recognizing its name and planning the
//! scaffold of a fresh project — which directories to create and which
//! files to write, in order.  The caller performs the writes; the entry
//! file's template text is the caller's to supply.

use vstd::prelude::*;
use crate::strutil::str_eq;
use crate::utility::{join_path, path_comps_to_vec, spec_comps, spec_join};
use crate::fs_tree::{DirTree, tree_dir_entries};
use crate::data_structs::{Mushroom, mushroom_file_name, mushroom_file_str};
use crate::cmd_build::views_of;

verus! {

/// Whether the first argument names this command.
pub fn check_args(argv: &Vec<String>) -> (r: bool)
    ensures
        r == (argv@.len() > 0 && argv@[0]@ == "init"@),
{
    if argv.len() < 1 {
        return false;
    }
    str_eq(argv[0].as_str(), "init")
}

/// The command's usage line and description.
pub fn usage_message() -> (r: (String, &'static str))
    ensures
        r.0@ == "init <project-name>"@,
        r.1@ == "Plant a mushroom! Initialize tiny rust project"@,
{
    (
        String::from_str("init <project-name>"),
        "Plant a mushroom! Initialize tiny rust project",
    )
}

/// What initializing a project comes to: the directories to create and
/// the files to write, each under its full path, in order.
#[derive(Debug)]
pub struct InitPlan {
    pub project_name: String,
    pub project_path: String,
    pub dirs: Vec<String>,
    pub files: Vec<(String, String)>,
}

/// Whether the directory at `path` under the pictured tree exists and
/// holds nothing.
pub fn is_dir_empty(tree: &DirTree, path: &str) -> (r: bool)
    ensures
        r == match tree_dir_entries(tree.entries@, spec_comps(path@)) {
            Some(ents) => ents.len() == 0,
            None => false,
        },
{
    match tree.dir_entries(path) {
        Some(ents) => ents.len() == 0,
        None => false,
    }
}

/// Plans a project scaffold under `cwd`.  With a project name among the
/// arguments the project goes to a directory of that name, which must not
/// exist as a non-empty directory; without one it goes to `cwd` itself,
/// named after `cwd`'s last path component.  The scaffold is a `src`
/// directory holding the template entry file, a `build` directory, and
/// the manifest naming them.
pub fn run_command(cwd: String, args: Vec<String>, main_stub: String, tree: &DirTree) -> (r:
    Result<InitPlan, String>)
    requires
        args@.len() >= 1,
    ensures
        ({
            let named = args@.len() > 1;
            let pname = if named {
                args@[1]@
            } else {
                spec_comps(cwd@).last()
            };
            let ppath = if named {
                spec_join(cwd@, pname)
            } else {
                cwd@
            };
            let spath = spec_join(ppath, "src"@);
            let bpath = spec_join(ppath, "build"@);
            match r {
                Err(msg) => (!named && spec_comps(cwd@).len() == 0 && msg@
                    == "Failed to get current directory name"@) || (named && (match
                    tree_dir_entries(tree.entries@, spec_comps(args@[1]@)) {
                    Some(ents) => ents.len() > 0,
                    None => false,
                }) && msg@
                    == "Directory is not empty, can't initialize project on a non-empty directory"@),
                Ok(plan) => {
                    &&& (!named ==> spec_comps(cwd@).len() > 0)
                    &&& plan.project_name@ == pname
                    &&& plan.project_path@ == ppath
                    &&& views_of(plan.dirs@) == if named && tree_dir_entries(
                        tree.entries@,
                        spec_comps(args@[1]@),
                    ) is None {
                        seq![ppath, spath, bpath]
                    } else {
                        seq![spath, bpath]
                    }
                    &&& plan.files@.len() == 2
                    &&& plan.files@[0].0@ == spec_join(spath, "main.rs"@)
                    &&& plan.files@[0].1@ == main_stub@
                    &&& plan.files@[1].0@ == spec_join(ppath, mushroom_file_name())
                    &&& plan.files@[1].1@ == "root: "@ + "src/main.rs"@ + "\n"@
                        + "head: "@ + ("build/"@ + pname)
                },
            }
        }),
{
    let named = args.len() > 1;
    let project_name: String;
    let project_path: String;
    let mut dirs: Vec<String> = Vec::new();
    if !named {
        let comps = path_comps_to_vec(cwd.as_str());
        if comps.len() == 0 {
            return Err(String::from_str("Failed to get current directory name"));
        }
        proof {
            assert(comps@[comps@.len() - 1]@ == spec_comps(cwd@).last());
        }
        project_name = comps[comps.len() - 1].clone();
        project_path = cwd.clone();
    } else {
        project_name = args[1].clone();
        project_path = join_path(cwd.as_str(), project_name.as_str());
        match tree.dir_entries(args[1].as_str()) {
            Some(ents) => {
                if ents.len() > 0 {
                    return Err(
                        String::from_str(
                            "Directory is not empty, can't initialize project on a non-empty directory",
                        ),
                    );
                }
            },
            None => {
                dirs.push(project_path.clone());
            },
        }
    }
    let src_path = join_path(project_path.as_str(), "src");
    let build_path = join_path(project_path.as_str(), "build");
    let ghost dirs_before = dirs@;
    dirs.push(src_path.clone());
    dirs.push(build_path.clone());
    let main_path = join_path(src_path.as_str(), "main.rs");
    let mushroom = Mushroom {
        root: String::from_str("src/main.rs"),
        head: String::from_str("build/").concat(project_name.as_str()),
    };
    let mushroom_contents = mushroom.serialize();
    let mushroom_path = join_path(project_path.as_str(), mushroom_file_str());
    let mut files: Vec<(String, String)> = Vec::new();
    files.push((main_path, main_stub));
    files.push((mushroom_path, mushroom_contents));
    let plan = InitPlan { project_name, project_path, dirs, files };
    proof {
        if dirs_before.len() == 0 {
            assert(views_of(plan.dirs@) =~= seq![src_path@, build_path@]);
        } else {
            assert(views_of(plan.dirs@) =~= seq![
                dirs_before[0]@,
                src_path@,
                build_path@,
            ]);
        }
        assert(plan.files@[1].1@ =~= "root: "@ + "src/main.rs"@ + "\n"@ + "head: "@ + (
        "build/"@ + plan.project_name@));
    }
    Ok(plan)
}

} // verus!
