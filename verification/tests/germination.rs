use kinoko::data_structs::{GerminationError, Kinoko, Mushroom};
use kinoko::fs_tree::{DirTree, FsNode};
use kinoko::germination::{CompileOutcome, GermAction, GermEvent, GermPhase};

fn kinoko_at(cwd: &str, args: Vec<&str>) -> Kinoko {
    Kinoko::new_with_args(
        String::from(cwd),
        args.into_iter().map(String::from).collect(),
    )
}

fn action_path(a: &GermAction) -> &str {
    match a {
        GermAction::StatFile(p) => p.as_str(),
        GermAction::ReadFile(p) => p.as_str(),
        GermAction::MakeDir(p) => p.as_str(),
        GermAction::Remove(p) => p.as_str(),
        _ => panic!("action carries no single path"),
    }
}

#[test]
fn kinoko_paths() {
    let k = kinoko_at("./", vec![]);
    assert_eq!(k.get_mushroom_path().as_str(), "./kinoko.\u{1F344}");
    let m = Mushroom {
        root: String::from("src/main.rs"),
        head: String::from("build/app"),
    };
    assert_eq!(k.get_mushroom_head_path(&m).as_str(), "./build/app");
    assert_eq!(
        k.get_mushroom_old_head_path(&m).as_str(),
        "./build/app.old"
    );
}

#[test]
fn successful_build_swaps_and_drops_backup() {
    let k = kinoko_at("./", vec!["--edition=2018"]);
    let mut g = k.try_germinate();
    assert!(matches!(g.phase, GermPhase::CheckManifest));
    assert_eq!(action_path(&g.current_action()), "./kinoko.\u{1F344}");
    g = g.step(GermEvent::IsFile(true));

    assert!(matches!(g.phase, GermPhase::ReadManifest));
    assert_eq!(action_path(&g.current_action()), "./kinoko.\u{1F344}");
    g = g.step(GermEvent::FileRead(Some(String::from(
        "root: src/main.rs\nhead: build/app",
    ))));

    assert!(matches!(g.phase, GermPhase::CheckRoot { .. }));
    assert_eq!(action_path(&g.current_action()), "./src/main.rs");
    g = g.step(GermEvent::IsFile(true));

    assert!(matches!(g.phase, GermPhase::MakeHeadDir { .. }));
    assert_eq!(action_path(&g.current_action()), "./build");
    g = g.step(GermEvent::DirMade(Ok(())));

    assert!(matches!(g.phase, GermPhase::CheckHead { .. }));
    assert_eq!(action_path(&g.current_action()), "./build/app");
    g = g.step(GermEvent::IsFile(true));

    assert!(matches!(g.phase, GermPhase::BackupHead { .. }));
    match g.current_action() {
        GermAction::Rename(from, to) => {
            assert_eq!(from.as_str(), "./build/app");
            assert_eq!(to.as_str(), "./build/app.old");
        }
        _ => panic!("backing up must be a rename"),
    }
    g = g.step(GermEvent::Renamed(true));

    assert!(matches!(g.phase, GermPhase::Compile { .. }));
    match g.current_action() {
        GermAction::RunCompiler(prog, args) => {
            assert_eq!(prog.as_str(), "rustc");
            let got: Vec<&str> = args.iter().map(|a| a.as_str()).collect();
            assert_eq!(
                got,
                vec!["-o", "./build/app", "./src/main.rs", "--edition=2018"]
            );
        }
        _ => panic!("compiling must run the compiler"),
    }
    g = g.step(GermEvent::Compiled(CompileOutcome::Success));

    assert!(matches!(g.phase, GermPhase::CheckBackup { .. }));
    assert_eq!(action_path(&g.current_action()), "./build/app.old");
    g = g.step(GermEvent::IsFile(true));

    assert!(matches!(g.phase, GermPhase::RemoveBackup { .. }));
    assert_eq!(action_path(&g.current_action()), "./build/app.old");
    g = g.step(GermEvent::Removed(true));

    match &g.phase {
        GermPhase::Done { result: Ok(t) } => assert_eq!(t.as_str(), "./build/app"),
        _ => panic!("a successful run must end with the artifact path"),
    }
    assert!(matches!(g.current_action(), GermAction::Finished));
}

#[test]
fn success_without_previous_artifact_skips_backup() {
    let k = kinoko_at("./", vec![]);
    let mut g = k.try_germinate();
    g = g.step(GermEvent::IsFile(true));
    g = g.step(GermEvent::FileRead(Some(String::from("root: m.rs\nhead: out/app"))));
    g = g.step(GermEvent::IsFile(true));
    g = g.step(GermEvent::DirMade(Ok(())));
    // no artifact yet: straight to the compiler
    g = g.step(GermEvent::IsFile(false));
    assert!(matches!(g.phase, GermPhase::Compile { .. }));
    g = g.step(GermEvent::Compiled(CompileOutcome::Success));
    // no backup file either: done at once
    g = g.step(GermEvent::IsFile(false));
    match &g.phase {
        GermPhase::Done { result: Ok(t) } => assert_eq!(t.as_str(), "./out/app"),
        _ => panic!("the build must succeed"),
    }
}

#[test]
fn rejected_compile_restores_backup() {
    let k = kinoko_at("/proj", vec![]);
    let mut g = k.try_germinate();
    g = g.step(GermEvent::IsFile(true));
    g = g.step(GermEvent::FileRead(Some(String::from(
        "root: src/main.rs\nhead: build/app",
    ))));
    g = g.step(GermEvent::IsFile(true));
    g = g.step(GermEvent::DirMade(Ok(())));
    g = g.step(GermEvent::IsFile(true));
    g = g.step(GermEvent::Renamed(true));
    g = g.step(GermEvent::Compiled(CompileOutcome::Rejected));

    assert!(matches!(g.phase, GermPhase::CheckOldHead { .. }));
    assert_eq!(action_path(&g.current_action()), "/proj/build/app.old");
    g = g.step(GermEvent::IsFile(true));

    assert!(matches!(g.phase, GermPhase::RestoreOldHead { .. }));
    match g.current_action() {
        GermAction::Rename(from, to) => {
            assert_eq!(from.as_str(), "/proj/build/app.old");
            assert_eq!(to.as_str(), "/proj/build/app");
        }
        _ => panic!("restoring must be a rename"),
    }
    g = g.step(GermEvent::Renamed(true));

    match &g.phase {
        GermPhase::Done {
            result: Err(GerminationError::GrowthFailure(msg)),
        } => assert_eq!(msg.as_str(), "Command failed: No germination done"),
        _ => panic!("a rejected compile must fail the build"),
    }
}

#[test]
fn launch_failure_carries_the_reason() {
    let k = kinoko_at("./", vec![]);
    let mut g = k.try_germinate();
    g = g.step(GermEvent::IsFile(true));
    g = g.step(GermEvent::FileRead(Some(String::from("root: a.rs"))));
    g = g.step(GermEvent::IsFile(true));
    g = g.step(GermEvent::DirMade(Ok(())));
    g = g.step(GermEvent::IsFile(false));
    g = g.step(GermEvent::Compiled(CompileOutcome::LaunchFailure(
        String::from("no such program"),
    )));
    g = g.step(GermEvent::IsFile(false));
    match &g.phase {
        GermPhase::Done {
            result: Err(GerminationError::GrowthFailure(msg)),
        } => assert_eq!(
            msg.as_str(),
            "Failed to execute command: no such program"
        ),
        _ => panic!("an unlaunchable compiler must fail the build"),
    }
}

#[test]
fn missing_manifest_fails_early() {
    let k = kinoko_at("/work", vec![]);
    let g = k.try_germinate().step(GermEvent::IsFile(false));
    match &g.phase {
        GermPhase::Done {
            result: Err(GerminationError::MissingRoots(p)),
        } => {
            assert_eq!(p.as_str(), "/work");
            assert_eq!(
                GerminationError::MissingRoots(p.clone()).message().as_str(),
                "No kinoko file is found at cwd: /work"
            );
        }
        _ => panic!("without a manifest nothing germinates"),
    }
}

#[test]
fn unreadable_manifest_fails() {
    let k = kinoko_at("./", vec![]);
    let g = k
        .try_germinate()
        .step(GermEvent::IsFile(true))
        .step(GermEvent::FileRead(None));
    match &g.phase {
        GermPhase::Done {
            result: Err(GerminationError::MushroomUnpickable(p)),
        } => assert_eq!(p.as_str(), "./kinoko.\u{1F344}"),
        _ => panic!("an unreadable manifest must fail the build"),
    }
}

#[test]
fn invalid_manifest_fails() {
    let k = kinoko_at("./", vec![]);
    let g = k
        .try_germinate()
        .step(GermEvent::IsFile(true))
        .step(GermEvent::FileRead(Some(String::from("head: only"))));
    assert!(matches!(
        g.phase,
        GermPhase::Done {
            result: Err(GerminationError::MushroomUnpickable(_))
        }
    ));
}

#[test]
fn missing_entry_file_fails() {
    let k = kinoko_at("./", vec![]);
    let g = k
        .try_germinate()
        .step(GermEvent::IsFile(true))
        .step(GermEvent::FileRead(Some(String::from("root: gone.rs"))))
        .step(GermEvent::IsFile(false));
    match &g.phase {
        GermPhase::Done {
            result: Err(GerminationError::InvalidRoot(p)),
        } => assert_eq!(p.as_str(), "gone.rs"),
        _ => panic!("a manifest pointing nowhere must fail the build"),
    }
}

#[test]
fn unmakable_output_directory_fails() {
    let k = kinoko_at("./", vec![]);
    let g = k
        .try_germinate()
        .step(GermEvent::IsFile(true))
        .step(GermEvent::FileRead(Some(String::from("root: a.rs\nhead: b/c"))))
        .step(GermEvent::IsFile(true))
        .step(GermEvent::DirMade(Err(String::from("full disk"))));
    match &g.phase {
        GermPhase::Done {
            result: Err(GerminationError::NoHeadDir(msg)),
        } => assert_eq!(msg.as_str(), "full disk"),
        _ => panic!("an unmakable output directory must fail the build"),
    }
}

#[test]
fn germination_error_messages() {
    assert_eq!(
        GerminationError::MushroomUnpickable(String::from("/p"))
            .message()
            .as_str(),
        "Unable to pick mushroom's information: /p"
    );
    assert_eq!(
        GerminationError::InvalidRoot(String::from("r.rs"))
            .message()
            .as_str(),
        "Mushroom is unhealthy to be picked, doesn't seem to be a file: r.rs"
    );
    assert_eq!(
        GerminationError::NoHeadDir(String::from("why")).message().as_str(),
        "Failed to create the space for germination, folder creation failed: why"
    );
    assert_eq!(
        GerminationError::GrowthFailure(String::from("why"))
            .message()
            .as_str(),
        "Germination has failed to be done - why"
    );
}

#[test]
fn create_command_orders_arguments() {
    let k = kinoko_at("/proj", vec!["-O", "--verbose"]);
    let m = Mushroom {
        root: String::from("src/main.rs"),
        head: String::from("build/app"),
    };
    let (prog, args) = m.create_command(&k);
    assert_eq!(prog.as_str(), "rustc");
    let got: Vec<&str> = args.iter().map(|a| a.as_str()).collect();
    assert_eq!(
        got,
        vec!["-o", "/proj/build/app", "/proj/src/main.rs", "-O", "--verbose"]
    );
}

#[test]
fn restore_helper_follows_presence() {
    let k = kinoko_at("./", vec![]);
    let m = Mushroom {
        root: String::from("src/main.rs"),
        head: String::from("build/app"),
    };
    let pair = kinoko::data_structs::restore_old_mushroom_head_if_exists(&m, &k, true).unwrap();
    assert_eq!(pair.0.as_str(), "./build/app.old");
    assert_eq!(pair.1.as_str(), "./build/app");
    assert!(kinoko::data_structs::restore_old_mushroom_head_if_exists(&m, &k, false).is_none());
}

#[test]
fn tree_queries_answer_existence() {
    let tree = DirTree {
        entries: vec![
            FsNode::File {
                name: String::from("kinoko.\u{1F344}"),
                content: String::from("root: src/main.rs"),
            },
            FsNode::Dir {
                name: String::from("build"),
                entries: vec![FsNode::File {
                    name: String::from("app"),
                    content: String::new(),
                }],
            },
        ],
    };
    let k = kinoko_at("./", vec![]);
    assert!(k.has_roots_at_cwd(&tree));
    let m = Mushroom {
        root: String::from("src/main.rs"),
        head: String::from("build/app"),
    };
    assert!(k.mushroom_head_exists(&m, &tree));
    let other = Mushroom {
        root: String::from("src/main.rs"),
        head: String::from("build/gone"),
    };
    assert!(!k.mushroom_head_exists(&other, &tree));
    let empty = DirTree { entries: vec![] };
    assert!(!k.has_roots_at_cwd(&empty));
}

/// The whole story on one fresh project: no manifest, an entry file under
/// `src`, a synthesized record, and a build driven to success.
#[test]
fn end_to_end_fresh_project() {
    let tree = DirTree {
        entries: vec![FsNode::Dir {
            name: String::from("src"),
            entries: vec![FsNode::File {
                name: String::from("main.rs"),
                content: String::from("fn main() { println!(\"hello\"); }"),
            }],
        }],
    };
    let k = kinoko_at("./", vec![]);
    assert!(!k.has_roots_at_cwd(&tree));

    let m = kinoko::search::synthesize_mushroom(&tree, "demo").unwrap();
    assert_eq!(m.root.as_str(), "src/main.rs");
    assert_eq!(m.head.as_str(), "build/demo");
    let manifest_text = m.serialize();
    assert_eq!(manifest_text.as_str(), "root: src/main.rs\nhead: build/demo");

    // the manifest is now persisted; the build reads it back
    let mut g = k.try_germinate();
    g = g.step(GermEvent::IsFile(true));
    g = g.step(GermEvent::FileRead(Some(manifest_text)));
    g = g.step(GermEvent::IsFile(true));
    g = g.step(GermEvent::DirMade(Ok(())));
    g = g.step(GermEvent::IsFile(false));
    match g.current_action() {
        GermAction::RunCompiler(prog, args) => {
            assert_eq!(prog.as_str(), "rustc");
            let got: Vec<&str> = args.iter().map(|a| a.as_str()).collect();
            assert_eq!(got, vec!["-o", "./build/demo", "./src/main.rs"]);
        }
        _ => panic!("the build must reach the compiler"),
    }
    g = g.step(GermEvent::Compiled(CompileOutcome::Success));
    g = g.step(GermEvent::IsFile(false));
    match &g.phase {
        GermPhase::Done { result: Ok(t) } => assert_eq!(t.as_str(), "./build/demo"),
        _ => panic!("the fresh project must build"),
    }
}
