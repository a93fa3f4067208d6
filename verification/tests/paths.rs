use kinoko::utility::{
    join_path, parent_dir, path_comps_to_vec, shared_prefix_with, strip_path_prefix,
};

#[test]
fn shared_prefix_of_absolute_paths() {
    let others = vec![String::from("/a/b/d"), String::from("/a/x")];
    let p = shared_prefix_with("/a/b/c", &others).unwrap();
    assert_eq!(p.as_str(), "/a");
}

#[test]
fn shared_prefix_none_when_first_components_differ() {
    let others = vec![String::from("/b")];
    assert!(shared_prefix_with("/a", &others).is_none());
}

#[test]
fn shared_prefix_whole_base() {
    let others = vec![String::from("/a/b/c/d")];
    let p = shared_prefix_with("/a/b", &others).unwrap();
    assert_eq!(p.as_str(), "/a/b");
}

#[test]
fn shared_prefix_of_relative_paths() {
    let others = vec![String::from("x/y/q"), String::from("x/y")];
    let p = shared_prefix_with("x/y/z", &others).unwrap();
    assert_eq!(p.as_str(), "x/y");
}

#[test]
fn shared_prefix_stops_when_another_path_runs_out() {
    let others = vec![String::from("/a")];
    let p = shared_prefix_with("/a/b", &others).unwrap();
    assert_eq!(p.as_str(), "/a");
}

#[test]
fn comps_drop_empty_pieces() {
    let v = path_comps_to_vec("/a//b/");
    let names: Vec<&str> = v.iter().map(|s| s.as_str()).collect();
    assert_eq!(names, vec!["a", "b"]);
}

#[test]
fn comps_of_relative_path() {
    let v = path_comps_to_vec("./build/app");
    let names: Vec<&str> = v.iter().map(|s| s.as_str()).collect();
    assert_eq!(names, vec![".", "build", "app"]);
}

#[test]
fn join_inserts_one_separator() {
    assert_eq!(join_path("./proj", "build/app").as_str(), "./proj/build/app");
    assert_eq!(join_path("./", "src/main.rs").as_str(), "./src/main.rs");
    assert_eq!(join_path("base", "/abs").as_str(), "/abs");
    assert_eq!(join_path("", "rel").as_str(), "rel");
}

#[test]
fn parent_cuts_at_last_separator() {
    assert_eq!(parent_dir("./build/app").unwrap().as_str(), "./build");
    assert_eq!(parent_dir("/app").unwrap().as_str(), "/");
    assert!(parent_dir("app").is_none());
}

#[test]
fn strip_prefix_drops_prefix_and_separator() {
    let r = strip_path_prefix("/a/b/c", "/a").unwrap();
    assert_eq!(r.as_str(), "b/c");
    assert!(strip_path_prefix("/a/b", "/x").is_none());
    let whole = strip_path_prefix("/a/b", "/a/b").unwrap();
    assert_eq!(whole.as_str(), "");
}
