use rand::RngExt;
use vstd::prelude::*;

verus! {

/// The paths that one safe write deals with.
#[derive(PartialEq, Eq, Debug, Clone, Copy)]
pub enum PathRole {
    /// The directory that holds the target, when the target has one.
    Parent,
    /// The fresh file next to the target that receives the contents.
    Temp,
    /// The file whose contents are replaced.
    Target,
}

/// The fallible operations of a safe write, in the order they run.
#[derive(PartialEq, Eq, Debug, Clone, Copy)]
pub enum FsStep {
    CreateParentDirs,
    CreateTemp,
    WriteContents,
    Flush,
    SyncAll,
    CloseTemp,
    Rename,
    RemoveTemp,
}

/// The next thing the caller has to do on the file system.
#[derive(PartialEq, Eq, Debug, Clone, Copy)]
pub enum FsAction {
    /// Create the directory and its missing ancestors.
    CreateDirAll(PathRole),
    /// Create (or truncate) the file and keep it open.
    CreateFile(PathRole),
    /// Write all of the contents to the open file.
    WriteAll,
    /// Flush the open file.
    Flush,
    /// Ask the operating system to put the open file's data on the device.
    SyncAll,
    /// Close the open file.
    Close,
    /// Move `from` over `to`.
    Rename { from: PathRole, to: PathRole },
    /// Delete the file.
    RemoveFile(PathRole),
    /// Stop: report success, or the error that the given step reported.
    Finish(Result<(), FsStep>),
}

/// Where a safe write stands.
#[derive(PartialEq, Eq, Debug, Clone, Copy)]
pub enum Stage {
    /// About to run the step.
    Run(FsStep),
    /// Finished with this result.
    Done(Result<(), FsStep>),
}

/// What is asked of the caller at `stage`.
pub open spec fn stage_action(stage: Stage) -> FsAction {
    match stage {
        Stage::Run(FsStep::CreateParentDirs) => FsAction::CreateDirAll(PathRole::Parent),
        Stage::Run(FsStep::CreateTemp) => FsAction::CreateFile(PathRole::Temp),
        Stage::Run(FsStep::WriteContents) => FsAction::WriteAll,
        Stage::Run(FsStep::Flush) => FsAction::Flush,
        Stage::Run(FsStep::SyncAll) => FsAction::SyncAll,
        Stage::Run(FsStep::CloseTemp) => FsAction::Close,
        Stage::Run(FsStep::Rename) => FsAction::Rename { from: PathRole::Temp, to: PathRole::Target },
        Stage::Run(FsStep::RemoveTemp) => FsAction::RemoveFile(PathRole::Temp),
        Stage::Done(result) => FsAction::Finish(result),
    }
}

/// The stage after the operation asked for at `stage` reported `ok`.
/// A failure to create the parent directories, or to remove the temporary
/// file, does not change the course; a failed rename removes the temporary
/// file and then reports the rename's error; any other failure ends the write
/// with that failure.
pub open spec fn stage_after(stage: Stage, ok: bool) -> Stage {
    match stage {
        Stage::Run(FsStep::CreateParentDirs) => Stage::Run(FsStep::CreateTemp),
        Stage::Run(FsStep::CreateTemp) => if ok {
            Stage::Run(FsStep::WriteContents)
        } else {
            Stage::Done(Err(FsStep::CreateTemp))
        },
        Stage::Run(FsStep::WriteContents) => if ok {
            Stage::Run(FsStep::Flush)
        } else {
            Stage::Done(Err(FsStep::WriteContents))
        },
        Stage::Run(FsStep::Flush) => if ok {
            Stage::Run(FsStep::SyncAll)
        } else {
            Stage::Done(Err(FsStep::Flush))
        },
        Stage::Run(FsStep::SyncAll) => if ok {
            Stage::Run(FsStep::CloseTemp)
        } else {
            Stage::Done(Err(FsStep::SyncAll))
        },
        Stage::Run(FsStep::CloseTemp) => Stage::Run(FsStep::Rename),
        Stage::Run(FsStep::Rename) => if ok {
            Stage::Done(Ok(()))
        } else {
            Stage::Run(FsStep::RemoveTemp)
        },
        Stage::Run(FsStep::RemoveTemp) => Stage::Done(Err(FsStep::Rename)),
        Stage::Done(result) => Stage::Done(result),
    }
}

/// The first stage: the parent directories are created only when the
/// target has a parent.
pub open spec fn first_stage(has_parent: bool) -> Stage {
    if has_parent {
        Stage::Run(FsStep::CreateParentDirs)
    } else {
        Stage::Run(FsStep::CreateTemp)
    }
}

/// How many operations remain at most before the write finishes.
pub open spec fn steps_left(stage: Stage) -> nat {
    match stage {
        Stage::Run(FsStep::CreateParentDirs) => 8,
        Stage::Run(FsStep::CreateTemp) => 7,
        Stage::Run(FsStep::WriteContents) => 6,
        Stage::Run(FsStep::Flush) => 5,
        Stage::Run(FsStep::SyncAll) => 4,
        Stage::Run(FsStep::CloseTemp) => 3,
        Stage::Run(FsStep::Rename) => 2,
        Stage::Run(FsStep::RemoveTemp) => 1,
        Stage::Done(_) => 0,
    }
}

/// A letter of the ASCII alphabet, a-z or A-Z.
pub open spec fn is_ascii_letter(b: u8) -> bool {
    (65 <= b && b <= 90) || (97 <= b && b <= 122)
}

/// Draws a byte from `rand`'s `Alphabetic` distribution with the thread-local
/// generator `rand::rng()`. The source draws an offset below 52 and maps it
/// to `A`..=`Z` or `a`..=`z`, so the byte is an ASCII letter; which one is
/// chance, and nothing more is stated. `rand::rng()` panics when the
/// operating system's random source fails at its first seeding.
#[verifier::external_body]
fn random_ascii_letter() -> (letter: u8)
    ensures
        is_ascii_letter(letter),
{
    rand::rng().sample(rand::distr::Alphabetic)
}

/// Calls `String::push`: the string afterwards is the one before followed by `c`.
#[verifier::external_body]
fn string_push(s: &mut String, c: char)
    ensures
        final(s)@ == old(s)@.push(c),
{
    s.push(c);
}

/// The model of a safe write: where it stands, and the letter that
/// tells its temporary file apart.
pub ghost struct SafeWriteView {
    pub stage: Stage,
    pub letter: u8,
}

/// Replaces a file's contents so that neither the old nor the new file is
/// left half-written: the contents go to a fresh file next to the target,
/// named after it with the extensions `.<letter>.new` added, which is
/// flushed, synced and closed, and then renamed over the target. The caller
/// performs each [`FsAction`] and reports whether it succeeded.
pub struct SafeWrite {
    stage: Stage,
    letter: u8,
}

impl View for SafeWrite {
    type V = SafeWriteView;

    closed spec fn view(&self) -> SafeWriteView {
        SafeWriteView { stage: self.stage, letter: self.letter }
    }
}

impl SafeWrite {
    /// Starts a safe write of a target that has a parent directory or not,
    /// with a random letter for its temporary file.
    pub fn start(has_parent: bool) -> (w: SafeWrite)
        ensures
            has_parent ==> w@.stage == Stage::Run(FsStep::CreateParentDirs),
            !has_parent ==> w@.stage == Stage::Run(FsStep::CreateTemp),
            w@.stage == first_stage(has_parent),
            is_ascii_letter(w@.letter),
    {
        let letter = random_ascii_letter();
        SafeWrite::start_with_letter(has_parent, letter)
    }

    /// Starts a safe write whose temporary file carries `letter`.
    pub fn start_with_letter(has_parent: bool, letter: u8) -> (w: SafeWrite)
        ensures
            has_parent ==> w@.stage == Stage::Run(FsStep::CreateParentDirs),
            !has_parent ==> w@.stage == Stage::Run(FsStep::CreateTemp),
            w@.stage == first_stage(has_parent),
            w@.letter == letter,
    {
        let stage = if has_parent {
            Stage::Run(FsStep::CreateParentDirs)
        } else {
            Stage::Run(FsStep::CreateTemp)
        };
        SafeWrite { stage, letter }
    }

    /// The letter of the temporary file's first added extension.
    pub fn letter(&self) -> (letter: u8)
        ensures
            letter == self@.letter,
    {
        self.letter
    }

    /// The extensions added, in order, to the target's name to name the
    /// temporary file: the letter, then `new`.
    pub fn temp_extensions(&self) -> (exts: Vec<String>)
        ensures
            exts@.len() == 2,
            exts@[0]@ == seq![self@.letter as char],
            exts@[1]@ == "new"@,
    {
        let mut letter = String::new();
        string_push(&mut letter, self.letter as char);
        let mut exts: Vec<String> = Vec::new();
        exts.push(letter);
        exts.push(String::from_str("new"));
        exts
    }

    /// Where the write stands.
    pub fn stage(&self) -> (stage: Stage)
        ensures
            stage == self@.stage,
    {
        self.stage
    }

    /// What the caller has to do next.
    pub fn next_action(&self) -> (action: FsAction)
        ensures
            action == stage_action(self@.stage),
    {
        match self.stage {
            Stage::Run(FsStep::CreateParentDirs) => FsAction::CreateDirAll(PathRole::Parent),
            Stage::Run(FsStep::CreateTemp) => FsAction::CreateFile(PathRole::Temp),
            Stage::Run(FsStep::WriteContents) => FsAction::WriteAll,
            Stage::Run(FsStep::Flush) => FsAction::Flush,
            Stage::Run(FsStep::SyncAll) => FsAction::SyncAll,
            Stage::Run(FsStep::CloseTemp) => FsAction::Close,
            Stage::Run(FsStep::Rename) => FsAction::Rename {
                from: PathRole::Temp,
                to: PathRole::Target,
            },
            Stage::Run(FsStep::RemoveTemp) => FsAction::RemoveFile(PathRole::Temp),
            Stage::Done(result) => FsAction::Finish(result),
        }
    }

    /// Records whether the operation asked for by [`SafeWrite::next_action`] succeeded.
    pub fn record(&mut self, ok: bool)
        ensures
            final(self)@.stage == stage_after(old(self)@.stage, ok),
            final(self)@.letter == old(self)@.letter,
            old(self)@.stage is Run ==> steps_left(final(self)@.stage) < steps_left(
                old(self)@.stage,
            ),
    {
        self.stage = match self.stage {
            Stage::Run(FsStep::CreateParentDirs) => Stage::Run(FsStep::CreateTemp),
            Stage::Run(FsStep::CreateTemp) => if ok {
                Stage::Run(FsStep::WriteContents)
            } else {
                Stage::Done(Err(FsStep::CreateTemp))
            },
            Stage::Run(FsStep::WriteContents) => if ok {
                Stage::Run(FsStep::Flush)
            } else {
                Stage::Done(Err(FsStep::WriteContents))
            },
            Stage::Run(FsStep::Flush) => if ok {
                Stage::Run(FsStep::SyncAll)
            } else {
                Stage::Done(Err(FsStep::Flush))
            },
            Stage::Run(FsStep::SyncAll) => if ok {
                Stage::Run(FsStep::CloseTemp)
            } else {
                Stage::Done(Err(FsStep::SyncAll))
            },
            Stage::Run(FsStep::CloseTemp) => Stage::Run(FsStep::Rename),
            Stage::Run(FsStep::Rename) => if ok {
                Stage::Done(Ok(()))
            } else {
                Stage::Run(FsStep::RemoveTemp)
            },
            Stage::Run(FsStep::RemoveTemp) => Stage::Done(Err(FsStep::Rename)),
            Stage::Done(result) => Stage::Done(result),
        };
    }
}


/// Whether `action` names the path of `role`.
pub open spec fn action_names(action: FsAction, role: PathRole) -> bool {
    match action {
        FsAction::CreateDirAll(r) => r == role,
        FsAction::CreateFile(r) => r == role,
        FsAction::Rename { from, to } => from == role || to == role,
        FsAction::RemoveFile(r) => r == role,
        _ => false,
    }
}

/// The stage reached from `stage` after at most `n` operations, when each
/// operation `step` reports `ok(step)`.
pub open spec fn run(stage: Stage, ok: spec_fn(FsStep) -> bool, n: nat) -> Stage
    decreases n,
{
    if n == 0 {
        stage
    } else {
        match stage {
            Stage::Run(step) => run(stage_after(stage, ok(step)), ok, (n - 1) as nat),
            Stage::Done(_) => stage,
        }
    }
}

/// The actions asked for from `stage` during at most `n` operations, when
/// each operation `step` reports `ok(step)`.
pub open spec fn trace(stage: Stage, ok: spec_fn(FsStep) -> bool, n: nat) -> Seq<FsAction>
    decreases n,
{
    if n == 0 {
        seq![]
    } else {
        match stage {
            Stage::Run(step) => seq![stage_action(stage)] + trace(
                stage_after(stage, ok(step)),
                ok,
                (n - 1) as nat,
            ),
            Stage::Done(_) => seq![],
        }
    }
}

/// What a safe write reports when each operation `step` reports `ok(step)`:
/// the first failure among creating, writing, flushing and syncing the
/// temporary file, else the rename's failure, else success.
pub open spec fn write_result(ok: spec_fn(FsStep) -> bool) -> Result<(), FsStep> {
    if !ok(FsStep::CreateTemp) {
        Err(FsStep::CreateTemp)
    } else if !ok(FsStep::WriteContents) {
        Err(FsStep::WriteContents)
    } else if !ok(FsStep::Flush) {
        Err(FsStep::Flush)
    } else if !ok(FsStep::SyncAll) {
        Err(FsStep::SyncAll)
    } else if !ok(FsStep::Rename) {
        Err(FsStep::Rename)
    } else {
        Ok(())
    }
}

/// The temporary file is complete on the device: created, written,
/// flushed and synced.
pub open spec fn temp_complete(ok: spec_fn(FsStep) -> bool) -> bool {
    ok(FsStep::CreateTemp) && ok(FsStep::WriteContents) && ok(FsStep::Flush) && ok(
        FsStep::SyncAll,
    )
}

/// The target file is only ever touched by moving the temporary file over
/// it: no other operation names it.
pub proof fn lemma_target_only_renamed_over(stage: Stage)
    ensures
        action_names(stage_action(stage), PathRole::Target) ==> stage_action(stage)
            == (FsAction::Rename { from: PathRole::Temp, to: PathRole::Target }),
{
}

/// Every safe write finishes within eight operations, and its result is
/// success exactly when creating, writing, flushing and syncing the
/// temporary file and renaming it all succeed; otherwise it is the first
/// failure. Failures to create the parent directories or to remove the
/// temporary file do not change the result.
pub proof fn lemma_write_result(has_parent: bool, ok: spec_fn(FsStep) -> bool)
    ensures
        run(first_stage(has_parent), ok, 8) == Stage::Done(write_result(ok)),
        write_result(ok) == Ok::<(), FsStep>(()) <==> temp_complete(ok) && ok(FsStep::Rename),
        run(first_stage(has_parent), ok, 8) == Stage::Done(Ok::<(), FsStep>(())) <==> ok(
            FsStep::CreateTemp,
        ) && ok(FsStep::WriteContents) && ok(FsStep::Flush) && ok(FsStep::SyncAll) && ok(
            FsStep::Rename,
        ),
        forall|s: FsStep|
            run(first_stage(has_parent), ok, 8) == Stage::Done(Err::<(), FsStep>(s)) ==> !ok(s) && s
                != FsStep::CreateParentDirs && s != FsStep::RemoveTemp && s != FsStep::CloseTemp,
{
    reveal_with_fuel(run, 9);
}

/// The actions of a safe write from the creation of the temporary file on.
proof fn lemma_trace_from_temp(ok: spec_fn(FsStep) -> bool)
    ensures
        ({
            let t = trace(Stage::Run(FsStep::CreateTemp), ok, 7);
            let rename = FsAction::Rename { from: PathRole::Temp, to: PathRole::Target };
            let head = seq![
                FsAction::CreateFile(PathRole::Temp),
                FsAction::WriteAll,
                FsAction::Flush,
                FsAction::SyncAll,
                FsAction::Close,
                rename,
            ];
            &&& !ok(FsStep::CreateTemp) ==> t == head.take(1)
            &&& ok(FsStep::CreateTemp) && !ok(FsStep::WriteContents) ==> t == head.take(2)
            &&& ok(FsStep::CreateTemp) && ok(FsStep::WriteContents) && !ok(FsStep::Flush) ==> t
                == head.take(3)
            &&& ok(FsStep::CreateTemp) && ok(FsStep::WriteContents) && ok(FsStep::Flush) && !ok(
                FsStep::SyncAll,
            ) ==> t == head.take(4)
            &&& temp_complete(ok) && ok(FsStep::Rename) ==> t == head
            &&& temp_complete(ok) && !ok(FsStep::Rename) ==> t == head.push(
                FsAction::RemoveFile(PathRole::Temp),
            )
        }),
{
    reveal_with_fuel(trace, 8);
    let t = trace(Stage::Run(FsStep::CreateTemp), ok, 7);
    let rename = FsAction::Rename { from: PathRole::Temp, to: PathRole::Target };
    let head = seq![
        FsAction::CreateFile(PathRole::Temp),
        FsAction::WriteAll,
        FsAction::Flush,
        FsAction::SyncAll,
        FsAction::Close,
        rename,
    ];
    if !ok(FsStep::CreateTemp) {
        assert(t =~= head.take(1));
    } else if !ok(FsStep::WriteContents) {
        assert(t =~= head.take(2));
    } else if !ok(FsStep::Flush) {
        assert(t =~= head.take(3));
    } else if !ok(FsStep::SyncAll) {
        assert(t =~= head.take(4));
    } else if ok(FsStep::Rename) {
        assert(t =~= head);
    } else {
        assert(t =~= head.push(FsAction::RemoveFile(PathRole::Temp)));
    }
}

/// The actions of a safe write: creating the parent directories, when the
/// target has a parent, then those from the creation of the temporary file on.
proof fn lemma_trace_split(has_parent: bool, ok: spec_fn(FsStep) -> bool)
    ensures
        trace(first_stage(has_parent), ok, 8) == (if has_parent {
            seq![FsAction::CreateDirAll(PathRole::Parent)]
        } else {
            Seq::<FsAction>::empty()
        }) + trace(Stage::Run(FsStep::CreateTemp), ok, 7),
{
    reveal_with_fuel(trace, 9);
    if has_parent {
        assert(trace(first_stage(has_parent), ok, 8) =~= seq![
            FsAction::CreateDirAll(PathRole::Parent),
        ] + trace(Stage::Run(FsStep::CreateTemp), ok, 7));
    } else {
        assert(trace(first_stage(has_parent), ok, 8) =~= trace(Stage::Run(FsStep::CreateTemp), ok, 8));
        assert(trace(Stage::Run(FsStep::CreateTemp), ok, 8) =~= trace(Stage::Run(FsStep::CreateTemp), ok, 7));
        assert(Seq::<FsAction>::empty() + trace(Stage::Run(FsStep::CreateTemp), ok, 7)
            =~= trace(Stage::Run(FsStep::CreateTemp), ok, 7));
    }
}

/// The target is replaced only by a complete temporary file: the rename is
/// asked for exactly when the temporary file was created, written, flushed
/// and synced, and right after it was closed.
pub proof fn lemma_rename_only_complete(has_parent: bool, ok: spec_fn(FsStep) -> bool)
    ensures
        trace(first_stage(has_parent), ok, 8).contains(
            FsAction::Rename { from: PathRole::Temp, to: PathRole::Target },
        ) <==> temp_complete(ok),
        forall|i: int|
            0 < i < trace(first_stage(has_parent), ok, 8).len() && #[trigger] trace(
                first_stage(has_parent),
                ok,
                8,
            )[i] == (FsAction::Rename { from: PathRole::Temp, to: PathRole::Target })
                ==> trace(first_stage(has_parent), ok, 8)[i - 1] == FsAction::Close,
{
    lemma_trace_split(has_parent, ok);
    lemma_trace_from_temp(ok);
    let t = trace(first_stage(has_parent), ok, 8);
    let rename = FsAction::Rename { from: PathRole::Temp, to: PathRole::Target };
    if temp_complete(ok) {
        let k: int = if has_parent { 6 } else { 5 };
        assert(t[k] == rename);
    }
}

/// The temporary file is removed exactly when the rename failed, and the
/// rename's failure is what is reported then.
pub proof fn lemma_temp_removed_after_failed_rename(has_parent: bool, ok: spec_fn(FsStep) -> bool)
    ensures
        trace(first_stage(has_parent), ok, 8).contains(FsAction::RemoveFile(PathRole::Temp))
            <==> write_result(ok) == Err::<(), FsStep>(FsStep::Rename),
{
    lemma_trace_split(has_parent, ok);
    lemma_trace_from_temp(ok);
    let t = trace(first_stage(has_parent), ok, 8);
    if write_result(ok) == Err::<(), FsStep>(FsStep::Rename) {
        let k: int = if has_parent { 7 } else { 6 };
        assert(t[k] == FsAction::RemoveFile(PathRole::Temp));
    }
}

} // verus!
