//! The germination (build) protocol as an explicit state machine.
//!
//! The library decides; the caller performs.  Each phase names one piece
//! of outside work (`current_action`), the caller does it against the real
//! file system or process table and reports what happened, and `step`
//! moves the machine on.  The protocol: check that the manifest exists,
//! read and parse it, check the entry file, make the output directory,
//! back up any previous artifact, run the compiler, and afterwards either
//! drop the backup (success) or restore it (failure).

use vstd::prelude::*;
use crate::data_structs::{
    GerminationError, Kinoko, Mushroom, mushroom_file_name, spec_deserialize,
};
use crate::utility::{join_path, parent_dir, spec_join, spec_parent};

verus! {

/// How a compiler run ended: a produced artifact, a rejection (non-zero
/// exit or death by signal), or no run at all.
pub enum CompileOutcome {
    Success,
    Rejected,
    LaunchFailure(String),
}

/// The outside work one phase asks for.
pub enum GermAction {
    /// Is there a regular file at this path?
    StatFile(String),
    /// Read this file's text.
    ReadFile(String),
    /// Create this directory and its missing ancestors.
    MakeDir(String),
    /// Rename the first path to the second, replacing a file already
    /// there; best effort.
    Rename(String, String),
    /// Remove the file at this path; best effort.
    Remove(String),
    /// Run this program with these arguments and wait for it.
    RunCompiler(String, Vec<String>),
    /// Nothing left to do.
    Finished,
}

/// What the caller reports back.
pub enum GermEvent {
    IsFile(bool),
    FileRead(Option<String>),
    DirMade(Result<(), String>),
    Renamed(bool),
    Removed(bool),
    Compiled(CompileOutcome),
}

/// Where the protocol stands.
pub enum GermPhase {
    CheckManifest,
    ReadManifest,
    CheckRoot { mushroom: Mushroom },
    MakeHeadDir { mushroom: Mushroom },
    CheckHead { mushroom: Mushroom },
    BackupHead { mushroom: Mushroom },
    Compile { mushroom: Mushroom },
    CheckBackup { mushroom: Mushroom },
    RemoveBackup { mushroom: Mushroom },
    CheckOldHead { mushroom: Mushroom, failure: String },
    RestoreOldHead { mushroom: Mushroom, failure: String },
    Done { result: Result<String, GerminationError> },
}

/// The artifact path of a record under a working directory.
pub open spec fn head_path_spec(cwd: Seq<char>, m: Mushroom) -> Seq<char> {
    spec_join(cwd, m.head@)
}

/// The backup path of a record under a working directory.
pub open spec fn old_head_path_spec(cwd: Seq<char>, m: Mushroom) -> Seq<char> {
    spec_join(cwd, m.head@ + ".old"@)
}

/// One germination in progress.
pub struct Germination {
    pub kinoko: Kinoko,
    pub phase: GermPhase,
}

impl Mushroom {
    /// The compiler invocation for this record: program and arguments,
    /// output flag first, then the entry path, then the context's
    /// passthrough arguments in their order.
    pub fn create_command(&self, kinoko: &Kinoko) -> (r: (String, Vec<String>))
        ensures
            r.0@ == "rustc"@,
            r.1@.map_values(|a: String| a@) == seq![
                "-o"@,
                spec_join(kinoko.cwd@, self.head@),
                spec_join(kinoko.cwd@, self.root@),
            ] + kinoko.argv@.map_values(|a: String| a@),
    {
        let mut args: Vec<String> = Vec::new();
        args.push(String::from_str("-o"));
        args.push(kinoko.get_mushroom_head_path(self));
        args.push(join_path(kinoko.cwd.as_str(), self.root.as_str()));
        let mut rest = clone_string_vec(&kinoko.argv);
        args.append(&mut rest);
        proof {
            assert(args@.map_values(|a: String| a@) =~= seq![
                "-o"@,
                spec_join(kinoko.cwd@, self.head@),
                spec_join(kinoko.cwd@, self.root@),
            ] + kinoko.argv@.map_values(|a: String| a@));
        }
        (String::from_str("rustc"), args)
    }
}

/// A copy of a vector of strings, element for element.
pub fn clone_string_vec(v: &Vec<String>) -> (r: Vec<String>)
    ensures
        r@ == v@,
{
    let r = v.clone();
    proof {
        assert forall|i: int| 0 <= i < v@.len() implies r@[i] == v@[i] by {
            assert(vstd::pervasive::cloned::<String>(v@[i], r@[i]));
        }
        assert(r@ =~= v@);
    }
    r
}

impl Germination {
    /// Nothing more than the one structural fact the actions need: a
    /// machine about to make the output directory knows that directory
    /// exists as a path.
    pub open spec fn wf(self) -> bool {
        match self.phase {
            GermPhase::MakeHeadDir { mushroom } => spec_parent(
                head_path_spec(self.kinoko.cwd@, mushroom),
            ) is Some,
            _ => true,
        }
    }

    /// The event kind each phase waits for.
    pub open spec fn expects(self, ev: GermEvent) -> bool {
        match (self.phase, ev) {
            (GermPhase::CheckManifest, GermEvent::IsFile(_)) => true,
            (GermPhase::ReadManifest, GermEvent::FileRead(_)) => true,
            (GermPhase::CheckRoot { .. }, GermEvent::IsFile(_)) => true,
            (GermPhase::MakeHeadDir { .. }, GermEvent::DirMade(_)) => true,
            (GermPhase::CheckHead { .. }, GermEvent::IsFile(_)) => true,
            (GermPhase::BackupHead { .. }, GermEvent::Renamed(_)) => true,
            (GermPhase::Compile { .. }, GermEvent::Compiled(_)) => true,
            (GermPhase::CheckBackup { .. }, GermEvent::IsFile(_)) => true,
            (GermPhase::RemoveBackup { .. }, GermEvent::Removed(_)) => true,
            (GermPhase::CheckOldHead { .. }, GermEvent::IsFile(_)) => true,
            (GermPhase::RestoreOldHead { .. }, GermEvent::Renamed(_)) => true,
            _ => false,
        }
    }

    /// The outside work the current phase asks for.
    pub fn current_action(&self) -> (a: GermAction)
        requires
            self.wf(),
        ensures
            match self.phase {
                GermPhase::CheckManifest => a matches GermAction::StatFile(p) && p@
                    == spec_join(self.kinoko.cwd@, mushroom_file_name()),
                GermPhase::ReadManifest => a matches GermAction::ReadFile(p) && p@
                    == spec_join(self.kinoko.cwd@, mushroom_file_name()),
                GermPhase::CheckRoot { mushroom } => a matches GermAction::StatFile(p)
                    && p@ == spec_join(self.kinoko.cwd@, mushroom.root@),
                GermPhase::MakeHeadDir { mushroom } => a matches GermAction::MakeDir(p)
                    && Some(p@) == spec_parent(
                    head_path_spec(self.kinoko.cwd@, mushroom),
                ),
                GermPhase::CheckHead { mushroom } => a matches GermAction::StatFile(p)
                    && p@ == head_path_spec(self.kinoko.cwd@, mushroom),
                GermPhase::BackupHead { mushroom } => a matches GermAction::Rename(
                    f,
                    t,
                ) && f@ == head_path_spec(self.kinoko.cwd@, mushroom) && t@
                    == old_head_path_spec(self.kinoko.cwd@, mushroom),
                GermPhase::Compile { mushroom } => a matches GermAction::RunCompiler(
                    prog,
                    args,
                ) && prog@ == "rustc"@ && args@.map_values(|x: String| x@) == seq![
                    "-o"@,
                    head_path_spec(self.kinoko.cwd@, mushroom),
                    spec_join(self.kinoko.cwd@, mushroom.root@),
                ] + self.kinoko.argv@.map_values(|x: String| x@),
                GermPhase::CheckBackup { mushroom } => a matches GermAction::StatFile(p)
                    && p@ == old_head_path_spec(self.kinoko.cwd@, mushroom),
                GermPhase::RemoveBackup { mushroom } => a matches GermAction::Remove(p)
                    && p@ == old_head_path_spec(self.kinoko.cwd@, mushroom),
                GermPhase::CheckOldHead { mushroom, .. } => a
                    matches GermAction::StatFile(p) && p@ == old_head_path_spec(
                    self.kinoko.cwd@,
                    mushroom,
                ),
                GermPhase::RestoreOldHead { mushroom, .. } => a
                    matches GermAction::Rename(f, t) && f@ == old_head_path_spec(
                    self.kinoko.cwd@,
                    mushroom,
                ) && t@ == head_path_spec(self.kinoko.cwd@, mushroom),
                GermPhase::Done { .. } => a is Finished,
            },
    {
        match &self.phase {
            GermPhase::CheckManifest => GermAction::StatFile(
                self.kinoko.get_mushroom_path(),
            ),
            GermPhase::ReadManifest => GermAction::ReadFile(
                self.kinoko.get_mushroom_path(),
            ),
            GermPhase::CheckRoot { mushroom } => GermAction::StatFile(
                join_path(self.kinoko.cwd.as_str(), mushroom.root.as_str()),
            ),
            GermPhase::MakeHeadDir { mushroom } => {
                let target = self.kinoko.get_mushroom_head_path(mushroom);
                match parent_dir(target.as_str()) {
                    Some(dir) => GermAction::MakeDir(dir),
                    None => vstd::pervasive::unreached(),
                }
            },
            GermPhase::CheckHead { mushroom } => GermAction::StatFile(
                self.kinoko.get_mushroom_head_path(mushroom),
            ),
            GermPhase::BackupHead { mushroom } => GermAction::Rename(
                self.kinoko.get_mushroom_head_path(mushroom),
                self.kinoko.get_mushroom_old_head_path(mushroom),
            ),
            GermPhase::Compile { mushroom } => {
                let cmd = mushroom.create_command(&self.kinoko);
                GermAction::RunCompiler(cmd.0, cmd.1)
            },
            GermPhase::CheckBackup { mushroom } => GermAction::StatFile(
                self.kinoko.get_mushroom_old_head_path(mushroom),
            ),
            GermPhase::RemoveBackup { mushroom } => GermAction::Remove(
                self.kinoko.get_mushroom_old_head_path(mushroom),
            ),
            GermPhase::CheckOldHead { mushroom, .. } => GermAction::StatFile(
                self.kinoko.get_mushroom_old_head_path(mushroom),
            ),
            GermPhase::RestoreOldHead { mushroom, .. } => GermAction::Rename(
                self.kinoko.get_mushroom_old_head_path(mushroom),
                self.kinoko.get_mushroom_head_path(mushroom),
            ),
            GermPhase::Done { .. } => GermAction::Finished,
        }
    }

    /// Advances the protocol by one answered action.
    pub fn step(self, ev: GermEvent) -> (next: Germination)
        requires
            self.expects(ev),
        ensures
            next.kinoko == self.kinoko,
            next.wf(),
            match (self.phase, ev) {
                (GermPhase::CheckManifest, GermEvent::IsFile(b)) => if b {
                    next.phase is ReadManifest
                } else {
                    next.phase matches GermPhase::Done {
                        result: Err(GerminationError::MissingRoots(p)),
                    } && p@ == self.kinoko.cwd@
                },
                (GermPhase::ReadManifest, GermEvent::FileRead(opt)) => match opt {
                    None => next.phase matches GermPhase::Done {
                        result: Err(GerminationError::MushroomUnpickable(p)),
                    } && p@ == spec_join(self.kinoko.cwd@, mushroom_file_name()),
                    Some(text) => match spec_deserialize(text@) {
                        Ok(pair) => next.phase matches GermPhase::CheckRoot { mushroom }
                            && mushroom.root@ == pair.0 && mushroom.head@ == pair.1,
                        Err(_) => next.phase matches GermPhase::Done {
                            result: Err(GerminationError::MushroomUnpickable(p)),
                        } && p@ == spec_join(self.kinoko.cwd@, mushroom_file_name()),
                    },
                },
                (GermPhase::CheckRoot { mushroom }, GermEvent::IsFile(b)) => if !b {
                    next.phase matches GermPhase::Done {
                        result: Err(GerminationError::InvalidRoot(p)),
                    } && p@ == mushroom.root@
                } else if spec_parent(
                    head_path_spec(self.kinoko.cwd@, mushroom),
                ) is Some {
                    next.phase matches GermPhase::MakeHeadDir { mushroom: m2 } && m2
                        == mushroom
                } else {
                    next.phase matches GermPhase::CheckHead { mushroom: m2 } && m2
                        == mushroom
                },
                (GermPhase::MakeHeadDir { mushroom }, GermEvent::DirMade(res)) => match res {
                    Ok(_) => next.phase matches GermPhase::CheckHead { mushroom: m2 }
                        && m2 == mushroom,
                    Err(msg) => next.phase matches GermPhase::Done {
                        result: Err(GerminationError::NoHeadDir(p)),
                    } && p@ == msg@,
                },
                (GermPhase::CheckHead { mushroom }, GermEvent::IsFile(b)) => if b {
                    next.phase matches GermPhase::BackupHead { mushroom: m2 } && m2
                        == mushroom
                } else {
                    next.phase matches GermPhase::Compile { mushroom: m2 } && m2
                        == mushroom
                },
                (GermPhase::BackupHead { mushroom }, GermEvent::Renamed(_)) => next.phase
                    matches GermPhase::Compile { mushroom: m2 } && m2 == mushroom,
                (GermPhase::Compile { mushroom }, GermEvent::Compiled(out)) => match out {
                    CompileOutcome::Success => next.phase
                        matches GermPhase::CheckBackup { mushroom: m2 } && m2
                        == mushroom,
                    CompileOutcome::Rejected => next.phase
                        matches GermPhase::CheckOldHead { mushroom: m2, failure } && m2
                        == mushroom && failure@
                        == "Command failed: No germination done"@,
                    CompileOutcome::LaunchFailure(msg) => next.phase
                        matches GermPhase::CheckOldHead { mushroom: m2, failure } && m2
                        == mushroom && failure@ == "Failed to execute command: "@
                        + msg@,
                },
                (GermPhase::CheckBackup { mushroom }, GermEvent::IsFile(b)) => if b {
                    next.phase matches GermPhase::RemoveBackup { mushroom: m2 } && m2
                        == mushroom
                } else {
                    next.phase matches GermPhase::Done { result: Ok(t) } && t@
                        == head_path_spec(self.kinoko.cwd@, mushroom)
                },
                (GermPhase::RemoveBackup { mushroom }, GermEvent::Removed(_)) => next.phase
                    matches GermPhase::Done { result: Ok(t) } && t@ == head_path_spec(
                    self.kinoko.cwd@,
                    mushroom,
                ),
                (
                    GermPhase::CheckOldHead { mushroom, failure },
                    GermEvent::IsFile(b),
                ) => if b {
                    next.phase matches GermPhase::RestoreOldHead { mushroom: m2, failure: f2 }
                        && m2 == mushroom && f2@ == failure@
                } else {
                    next.phase matches GermPhase::Done {
                        result: Err(GerminationError::GrowthFailure(p)),
                    } && p@ == failure@
                },
                (
                    GermPhase::RestoreOldHead { failure, .. },
                    GermEvent::Renamed(_),
                ) => next.phase matches GermPhase::Done {
                    result: Err(GerminationError::GrowthFailure(p)),
                } && p@ == failure@,
                _ => true,
            },
    {
        let Germination { kinoko, phase } = self;
        let next_phase = match (phase, ev) {
            (GermPhase::CheckManifest, GermEvent::IsFile(b)) => {
                if b {
                    GermPhase::ReadManifest
                } else {
                    GermPhase::Done {
                        result: Err(GerminationError::MissingRoots(kinoko.cwd.clone())),
                    }
                }
            },
            (GermPhase::ReadManifest, GermEvent::FileRead(opt)) => {
                match opt {
                    None => GermPhase::Done {
                        result: Err(
                            GerminationError::MushroomUnpickable(
                                kinoko.get_mushroom_path(),
                            ),
                        ),
                    },
                    Some(text) => match Mushroom::deserialize(text.as_str()) {
                        Ok(mushroom) => GermPhase::CheckRoot { mushroom },
                        Err(_) => GermPhase::Done {
                            result: Err(
                                GerminationError::MushroomUnpickable(
                                    kinoko.get_mushroom_path(),
                                ),
                            ),
                        },
                    },
                }
            },
            (GermPhase::CheckRoot { mushroom }, GermEvent::IsFile(b)) => {
                if !b {
                    GermPhase::Done {
                        result: Err(GerminationError::InvalidRoot(mushroom.root)),
                    }
                } else {
                    let target = kinoko.get_mushroom_head_path(&mushroom);
                    match parent_dir(target.as_str()) {
                        Some(_) => GermPhase::MakeHeadDir { mushroom },
                        None => GermPhase::CheckHead { mushroom },
                    }
                }
            },
            (GermPhase::MakeHeadDir { mushroom }, GermEvent::DirMade(res)) => {
                match res {
                    Ok(_) => GermPhase::CheckHead { mushroom },
                    Err(msg) => GermPhase::Done {
                        result: Err(GerminationError::NoHeadDir(msg)),
                    },
                }
            },
            (GermPhase::CheckHead { mushroom }, GermEvent::IsFile(b)) => {
                if b {
                    GermPhase::BackupHead { mushroom }
                } else {
                    GermPhase::Compile { mushroom }
                }
            },
            (GermPhase::BackupHead { mushroom }, GermEvent::Renamed(_)) => {
                GermPhase::Compile { mushroom }
            },
            (GermPhase::Compile { mushroom }, GermEvent::Compiled(out)) => {
                match out {
                    CompileOutcome::Success => GermPhase::CheckBackup { mushroom },
                    CompileOutcome::Rejected => GermPhase::CheckOldHead {
                        mushroom,
                        failure: String::from_str("Command failed: No germination done"),
                    },
                    CompileOutcome::LaunchFailure(msg) => GermPhase::CheckOldHead {
                        mushroom,
                        failure: String::from_str("Failed to execute command: ").concat(
                            msg.as_str(),
                        ),
                    },
                }
            },
            (GermPhase::CheckBackup { mushroom }, GermEvent::IsFile(b)) => {
                if b {
                    GermPhase::RemoveBackup { mushroom }
                } else {
                    let target = kinoko.get_mushroom_head_path(&mushroom);
                    GermPhase::Done { result: Ok(target) }
                }
            },
            (GermPhase::RemoveBackup { mushroom }, GermEvent::Removed(_)) => {
                let target = kinoko.get_mushroom_head_path(&mushroom);
                GermPhase::Done { result: Ok(target) }
            },
            (GermPhase::CheckOldHead { mushroom, failure }, GermEvent::IsFile(b)) => {
                if b {
                    GermPhase::RestoreOldHead { mushroom, failure }
                } else {
                    GermPhase::Done {
                        result: Err(GerminationError::GrowthFailure(failure)),
                    }
                }
            },
            (GermPhase::RestoreOldHead { failure, .. }, GermEvent::Renamed(_)) => {
                GermPhase::Done {
                    result: Err(GerminationError::GrowthFailure(failure)),
                }
            },
            (_, _) => vstd::pervasive::unreached(),
        };
        Germination { kinoko, phase: next_phase }
    }
}

impl Kinoko {
    /// Begins a germination over this context; the caller drives the
    /// returned machine by answering its actions.
    pub fn try_germinate(&self) -> (g: Germination)
        ensures
            g.kinoko.cwd@ == self.cwd@,
            g.kinoko.argv@ == self.argv@,
            g.kinoko.argc == self.argc,
            g.phase is CheckManifest,
            g.wf(),
    {
        let kinoko = Kinoko {
            argv: clone_string_vec(&self.argv),
            argc: self.argc,
            cwd: self.cwd.clone(),
        };
        Germination { kinoko, phase: GermPhase::CheckManifest }
    }
}

/// The best-effort rename the protocol uses, on an abstract store of
/// files (path to content): when `from` holds a file it moves to `to`,
/// replacing anything there; otherwise nothing happens.
pub open spec fn fs_rename(
    fs: Map<Seq<char>, Seq<u8>>,
    from: Seq<char>,
    to: Seq<char>,
) -> Map<Seq<char>, Seq<u8>> {
    if fs.dom().contains(from) {
        fs.remove(from).insert(to, fs[from])
    } else {
        fs
    }
}

/// The effect of one whole germination on the abstract store, when the
/// caller answers the machine's stat questions from that store and
/// performs its renames and removals on it: the artifact at `head` is
/// first moved aside to `old`; a successful compile then writes
/// `produced` at `head` and drops the backup, while a failed one (which
/// writes nothing) moves the backup home again.
pub open spec fn germinate_fs(
    fs: Map<Seq<char>, Seq<u8>>,
    head: Seq<char>,
    old: Seq<char>,
    produced: Option<Seq<u8>>,
) -> Map<Seq<char>, Seq<u8>> {
    let backed = fs_rename(fs, head, old);
    match produced {
        Some(b) => backed.insert(head, b).remove(old),
        None => fs_rename(backed, old, head),
    }
}

/// Restore on failure: when an artifact stood at `head` and the compile
/// failed, the artifact standing there afterwards is the one from before,
/// byte for byte.
pub proof fn lemma_restore_on_failure(
    fs: Map<Seq<char>, Seq<u8>>,
    head: Seq<char>,
    old: Seq<char>,
)
    requires
        head != old,
        fs.dom().contains(head),
    ensures
        germinate_fs(fs, head, old, None).dom().contains(head),
        germinate_fs(fs, head, old, None)[head] == fs[head],
{
    let backed = fs.remove(head).insert(old, fs[head]);
    assert(backed.dom().contains(old));
    assert(backed[old] == fs[head]);
}

/// A successful build leaves the fresh artifact at `head` and no backup
/// at `old`, whatever stood anywhere before.
pub proof fn lemma_success_leaves_no_backup(
    fs: Map<Seq<char>, Seq<u8>>,
    head: Seq<char>,
    old: Seq<char>,
    produced: Seq<u8>,
)
    requires
        head != old,
    ensures
        germinate_fs(fs, head, old, Some(produced)).dom().contains(head),
        germinate_fs(fs, head, old, Some(produced))[head] == produced,
        !germinate_fs(fs, head, old, Some(produced)).dom().contains(old),
{
}

/// The abstract store after a whole run of builds, every one of whose
/// compiles succeeded, producing `runs[0]`, `runs[1]`, ... in turn.
pub open spec fn germinate_fs_many(
    fs: Map<Seq<char>, Seq<u8>>,
    head: Seq<char>,
    old: Seq<char>,
    runs: Seq<Seq<u8>>,
) -> Map<Seq<char>, Seq<u8>>
    decreases runs.len(),
{
    if runs.len() == 0 {
        fs
    } else {
        germinate_fs_many(
            germinate_fs(fs, head, old, Some(runs[0])),
            head,
            old,
            runs.drop_first(),
        )
    }
}

/// However many builds run, as long as every compile succeeds the
/// artifact path always holds the latest compile's output and no backup
/// artifact lingers.
pub proof fn lemma_always_successful_builds(
    fs: Map<Seq<char>, Seq<u8>>,
    head: Seq<char>,
    old: Seq<char>,
    runs: Seq<Seq<u8>>,
)
    requires
        head != old,
        runs.len() > 0,
    ensures
        ({
            let after = germinate_fs_many(fs, head, old, runs);
            after.dom().contains(head) && after[head] == runs.last()
                && !after.dom().contains(old)
        }),
    decreases runs.len(),
{
    let once = germinate_fs(fs, head, old, Some(runs[0]));
    lemma_success_leaves_no_backup(fs, head, old, runs[0]);
    assert(germinate_fs_many(fs, head, old, runs) == germinate_fs_many(
        once,
        head,
        old,
        runs.drop_first(),
    ));
    if runs.len() > 1 {
        lemma_always_successful_builds(once, head, old, runs.drop_first());
        assert(runs.drop_first().last() == runs.last());
    } else {
        assert(germinate_fs_many(once, head, old, runs.drop_first()) == once);
    }
}

/// A failed rebuild never leaves a project without its last-known-good
/// artifact: on a record's own artifact and backup paths, whatever stood
/// at the artifact path before the build stands there after it, byte for
/// byte.
pub proof fn lemma_record_restore_on_failure(
    fs: Map<Seq<char>, Seq<u8>>,
    cwd: Seq<char>,
    m: Mushroom,
)
    requires
        fs.dom().contains(head_path_spec(cwd, m)),
    ensures
        ({
            let after = germinate_fs(
                fs,
                head_path_spec(cwd, m),
                old_head_path_spec(cwd, m),
                None,
            );
            after.dom().contains(head_path_spec(cwd, m)) && after[head_path_spec(
                cwd,
                m,
            )] == fs[head_path_spec(cwd, m)]
        }),
{
    lemma_head_and_backup_differ(cwd, m);
    lemma_restore_on_failure(fs, head_path_spec(cwd, m), old_head_path_spec(cwd, m));
}

/// A successful rebuild leaves the fresh artifact and no backup: on a
/// record's own artifact and backup paths.
pub proof fn lemma_record_success(
    fs: Map<Seq<char>, Seq<u8>>,
    cwd: Seq<char>,
    m: Mushroom,
    produced: Seq<u8>,
)
    ensures
        ({
            let after = germinate_fs(
                fs,
                head_path_spec(cwd, m),
                old_head_path_spec(cwd, m),
                Some(produced),
            );
            after.dom().contains(head_path_spec(cwd, m)) && after[head_path_spec(
                cwd,
                m,
            )] == produced && !after.dom().contains(old_head_path_spec(cwd, m))
        }),
{
    lemma_head_and_backup_differ(cwd, m);
    lemma_success_leaves_no_backup(
        fs,
        head_path_spec(cwd, m),
        old_head_path_spec(cwd, m),
        produced,
    );
}

/// The artifact path and the backup path never coincide: the backup name
/// is strictly longer.
pub proof fn lemma_head_and_backup_differ(cwd: Seq<char>, m: Mushroom)
    ensures
        head_path_spec(cwd, m) != old_head_path_spec(cwd, m),
{
    reveal_strlit(".old");
    assert((m.head@ + ".old"@).len() == m.head@.len() + 4);
    assert(head_path_spec(cwd, m).len() < old_head_path_spec(cwd, m).len());
}

} // verus!
