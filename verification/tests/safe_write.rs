use gpui_ext::safe_write::{FsAction, FsStep, PathRole, SafeWrite, Stage};
use std::collections::HashMap;

/// An in-memory file system whose operations fail on the steps listed in `failing`.
struct FakeFs {
    files: HashMap<String, Vec<u8>>,
    dirs: Vec<String>,
    failing: Vec<FsStep>,
    actions: Vec<FsAction>,
}

fn step_of(action: &FsAction) -> FsStep {
    match action {
        FsAction::CreateDirAll(_) => FsStep::CreateParentDirs,
        FsAction::CreateFile(_) => FsStep::CreateTemp,
        FsAction::WriteAll => FsStep::WriteContents,
        FsAction::Flush => FsStep::Flush,
        FsAction::SyncAll => FsStep::SyncAll,
        FsAction::Close => FsStep::CloseTemp,
        FsAction::Rename { .. } => FsStep::Rename,
        FsAction::RemoveFile(_) => FsStep::RemoveTemp,
        FsAction::Finish(_) => unreachable!(),
    }
}

fn temp_name(target: &str, w: &SafeWrite) -> String {
    let mut name = target.to_string();
    for ext in w.temp_extensions() {
        name.push('.');
        name.push_str(&ext);
    }
    name
}

/// Drives a safe write of `content` to `target` (in directory `parent`) on `fs`.
fn drive(fs: &mut FakeFs, parent: Option<&str>, target: &str, content: &[u8], letter: u8) -> Result<(), FsStep> {
    let mut w = SafeWrite::start_with_letter(parent.is_some(), letter);
    let temp = temp_name(target, &w);
    let path = |role: PathRole| -> String {
        match role {
            PathRole::Parent => parent.unwrap().to_string(),
            PathRole::Temp => temp.clone(),
            PathRole::Target => target.to_string(),
        }
    };
    for _ in 0..20 {
        let action = w.next_action();
        if let FsAction::Finish(result) = action {
            return result;
        }
        fs.actions.push(action);
        let ok = !fs.failing.contains(&step_of(&action));
        if ok {
            match action {
                FsAction::CreateDirAll(r) => fs.dirs.push(path(r)),
                FsAction::CreateFile(r) => {
                    fs.files.insert(path(r), Vec::new());
                }
                FsAction::WriteAll => {
                    fs.files.insert(temp.clone(), content.to_vec());
                }
                FsAction::Rename { from, to } => {
                    let data = fs.files.remove(&path(from)).unwrap();
                    fs.files.insert(path(to), data);
                }
                FsAction::RemoveFile(r) => {
                    fs.files.remove(&path(r));
                }
                _ => {}
            }
        }
        w.record(ok);
    }
    panic!("safe write did not finish");
}

fn fs_with_target(failing: Vec<FsStep>) -> FakeFs {
    let mut files = HashMap::new();
    files.insert("dir/Config.json".to_string(), b"old".to_vec());
    FakeFs { files, dirs: Vec::new(), failing, actions: Vec::new() }
}

#[test]
fn successful_write_replaces_target() {
    let mut fs = fs_with_target(vec![]);
    let r = drive(&mut fs, Some("dir"), "dir/Config.json", b"new", b'q');
    assert_eq!(r, Ok(()));
    assert_eq!(fs.files.get("dir/Config.json").unwrap(), b"new");
    assert_eq!(fs.files.len(), 1);
    assert_eq!(fs.dirs, vec!["dir".to_string()]);
    assert_eq!(
        fs.actions,
        vec![
            FsAction::CreateDirAll(PathRole::Parent),
            FsAction::CreateFile(PathRole::Temp),
            FsAction::WriteAll,
            FsAction::Flush,
            FsAction::SyncAll,
            FsAction::Close,
            FsAction::Rename { from: PathRole::Temp, to: PathRole::Target },
        ]
    );
}

#[test]
fn temp_file_is_named_after_target() {
    let w = SafeWrite::start_with_letter(true, b'K');
    assert_eq!(w.temp_extensions(), vec!["K".to_string(), "new".to_string()]);
    assert_eq!(temp_name("dir/Config.json", &w), "dir/Config.json.K.new");
    assert_eq!(w.letter(), b'K');
}

#[test]
fn random_letter_is_ascii_letter() {
    for _ in 0..200 {
        let w = SafeWrite::start(false);
        assert!(w.letter().is_ascii_alphabetic());
        let exts = w.temp_extensions();
        assert_eq!(exts.len(), 2);
        assert_eq!(exts[0].len(), 1);
        assert_eq!(exts[1], "new");
    }
}

#[test]
fn no_parent_skips_directory_creation() {
    let w = SafeWrite::start_with_letter(false, b'a');
    assert_eq!(w.stage(), Stage::Run(FsStep::CreateTemp));
    assert_eq!(w.next_action(), FsAction::CreateFile(PathRole::Temp));
    let w = SafeWrite::start_with_letter(true, b'a');
    assert_eq!(w.next_action(), FsAction::CreateDirAll(PathRole::Parent));
}

#[test]
fn failed_parent_creation_is_ignored() {
    let mut fs = fs_with_target(vec![FsStep::CreateParentDirs]);
    let r = drive(&mut fs, Some("dir"), "dir/Config.json", b"new", b'a');
    assert_eq!(r, Ok(()));
    assert_eq!(fs.files.get("dir/Config.json").unwrap(), b"new");
}

#[test]
fn failure_before_rename_leaves_target_alone() {
    for step in [FsStep::CreateTemp, FsStep::WriteContents, FsStep::Flush, FsStep::SyncAll] {
        let mut fs = fs_with_target(vec![step]);
        let r = drive(&mut fs, Some("dir"), "dir/Config.json", b"new", b'a');
        assert_eq!(r, Err(step));
        assert_eq!(fs.files.get("dir/Config.json").unwrap(), b"old");
        assert!(!fs.actions.contains(&FsAction::Rename { from: PathRole::Temp, to: PathRole::Target }));
        assert!(!fs.actions.contains(&FsAction::RemoveFile(PathRole::Temp)));
    }
}

#[test]
fn failed_write_keeps_temp_file() {
    let mut fs = fs_with_target(vec![FsStep::WriteContents]);
    let r = drive(&mut fs, None, "dir/Config.json", b"new", b'z');
    assert_eq!(r, Err(FsStep::WriteContents));
    assert!(fs.files.contains_key("dir/Config.json.z.new"));
}

#[test]
fn failed_rename_removes_temp_and_reports_rename() {
    let mut fs = fs_with_target(vec![FsStep::Rename]);
    let r = drive(&mut fs, Some("dir"), "dir/Config.json", b"new", b'a');
    assert_eq!(r, Err(FsStep::Rename));
    assert_eq!(fs.files.get("dir/Config.json").unwrap(), b"old");
    assert!(!fs.files.contains_key("dir/Config.json.a.new"));
    assert_eq!(fs.actions.last(), Some(&FsAction::RemoveFile(PathRole::Temp)));
}

#[test]
fn failed_removal_still_reports_rename() {
    let mut fs = fs_with_target(vec![FsStep::Rename, FsStep::RemoveTemp]);
    let r = drive(&mut fs, Some("dir"), "dir/Config.json", b"new", b'a');
    assert_eq!(r, Err(FsStep::Rename));
    assert!(fs.files.contains_key("dir/Config.json.a.new"));
}

#[test]
fn finished_write_stays_finished() {
    let mut w = SafeWrite::start_with_letter(false, b'a');
    w.record(false);
    assert_eq!(w.stage(), Stage::Done(Err(FsStep::CreateTemp)));
    w.record(true);
    assert_eq!(w.next_action(), FsAction::Finish(Err(FsStep::CreateTemp)));
}

#[test]
fn write_finishes_within_eight_operations() {
    let mut fs = fs_with_target(vec![FsStep::Rename]);
    drive(&mut fs, Some("dir"), "dir/Config.json", b"new", b'a').unwrap_err();
    assert_eq!(fs.actions.len(), 8);
}
