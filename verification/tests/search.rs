use kinoko::fs_tree::{DirTree, FsNode};
use kinoko::search::{
    rust_file_dir_entry_checker, search_directory_for_main_function, synthesize_mushroom,
    DirEntryAction, MainFnSearchError,
};

fn file(name: &str, content: &str) -> FsNode {
    FsNode::File {
        name: String::from(name),
        content: String::from(content),
    }
}

fn dir(name: &str, entries: Vec<FsNode>) -> FsNode {
    FsNode::Dir {
        name: String::from(name),
        entries,
    }
}

/// `depth` nested `src` directories with the marked entry file at the
/// bottom.
fn nested_src(depth: usize) -> DirTree {
    let mut node = file("main.rs", "fn main() {}");
    for _ in 0..depth {
        node = dir("src", vec![node]);
    }
    DirTree { entries: vec![node] }
}

#[test]
fn found_at_depth_three() {
    let tree = nested_src(3);
    let r = search_directory_for_main_function(&tree, ".").unwrap();
    assert_eq!(r.as_str(), "./src/src/src/main.rs");
}

#[test]
fn not_found_at_depth_four() {
    let tree = nested_src(4);
    let r = search_directory_for_main_function(&tree, ".");
    match r {
        Err(MainFnSearchError::MainNotFound(p)) => assert_eq!(p.as_str(), "."),
        _ => panic!("a file four levels down must stay out of reach"),
    }
}

#[test]
fn file_at_top_level_is_found() {
    let tree = DirTree {
        entries: vec![file("tool.rs", "fn main() {}")],
    };
    let r = search_directory_for_main_function(&tree, "/proj").unwrap();
    assert_eq!(r.as_str(), "/proj/tool.rs");
}

#[test]
fn first_match_wins_in_entry_order() {
    let tree = DirTree {
        entries: vec![
            file("b.rs", "fn main() {}"),
            file("a.rs", "fn main() {}"),
        ],
    };
    let r = search_directory_for_main_function(&tree, ".").unwrap();
    assert_eq!(r.as_str(), "./b.rs");
}

#[test]
fn file_without_marker_is_skipped() {
    let tree = DirTree {
        entries: vec![
            file("lib.rs", "pub fn add(a: u32, b: u32) -> u32 { a + b }"),
            file("main.rs", "fn main() {}"),
        ],
    };
    let r = search_directory_for_main_function(&tree, ".").unwrap();
    assert_eq!(r.as_str(), "./main.rs");
}

#[test]
fn wrong_extension_is_skipped() {
    let tree = DirTree {
        entries: vec![file("main.c", "fn main() {}"), file("rs", "fn main() {}")],
    };
    assert!(search_directory_for_main_function(&tree, ".").is_err());
}

#[test]
fn only_src_directories_are_entered() {
    let tree = DirTree {
        entries: vec![dir("lib", vec![file("main.rs", "fn main() {}")])],
    };
    assert!(search_directory_for_main_function(&tree, ".").is_err());
}

#[test]
fn checker_classifies_entries() {
    assert!(matches!(
        rust_file_dir_entry_checker(&dir("src", vec![])),
        DirEntryAction::ReadDir
    ));
    assert!(matches!(
        rust_file_dir_entry_checker(&dir("assets", vec![])),
        DirEntryAction::Ignore
    ));
    assert!(matches!(
        rust_file_dir_entry_checker(&file("a.rs", "")),
        DirEntryAction::ReadFile
    ));
    assert!(matches!(
        rust_file_dir_entry_checker(&file("a.txt", "")),
        DirEntryAction::Ignore
    ));
    assert!(matches!(
        rust_file_dir_entry_checker(&file(".rs", "")),
        DirEntryAction::Ignore
    ));
}

#[test]
fn synthesize_builds_record_from_hit() {
    let tree = DirTree {
        entries: vec![dir("src", vec![file("main.rs", "fn main() {}")])],
    };
    let m = synthesize_mushroom(&tree, "demo").unwrap();
    assert_eq!(m.root.as_str(), "src/main.rs");
    assert_eq!(m.head.as_str(), "build/demo");
}

#[test]
fn synthesize_fails_without_hit() {
    let tree = DirTree { entries: vec![] };
    let r = synthesize_mushroom(&tree, "demo");
    assert!(matches!(r, Err(MainFnSearchError::MainNotFound(_))));
}

#[test]
fn search_error_messages() {
    let e = MainFnSearchError::MainNotFound(String::from("/p"));
    assert_eq!(e.message().as_str(), "main function not found in path: /p");
    let e = MainFnSearchError::Unauthorized(String::from("denied"));
    assert_eq!(
        e.message().as_str(),
        "missing permissions to access path: denied"
    );
    let e = MainFnSearchError::Inexistent(String::from("gone"));
    assert_eq!(e.message().as_str(), "path is not a directory: gone");
    let e = MainFnSearchError::GeneralIOErr(String::from("oops"));
    assert_eq!(e.message().as_str(), "IOFailure: oops");
}
