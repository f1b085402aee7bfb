use vstd::prelude::*;
use vstd::string::*;
use std::path::PathBuf;
use crate::log::{Level, Notice};
use crate::util::{input_of, invalid_path_message, path_display, path_is_dir, path_is_file, resolve_path};

verus! {

/// The file commands. A missing target path stands for the current directory.
#[derive(Debug)]
pub enum FileCommands {
    List { target_path: Option<String> },
    Open { target_path: Option<String> },
    Delete { target_path: Option<String> },
    Rename { path: String, target_path: String },
    Write { path: String },
}

/// What deleting a resolved path comes to.
#[derive(Clone, Copy, Debug, PartialEq, Eq, Structural)]
pub enum DeleteAction {
    RemoveFile,
    RemoveDirAll,
    Unsupported,
}

/// A file system action whose outcome is reported.
#[derive(Clone, Copy, Debug, PartialEq, Eq, Structural)]
pub enum Action {
    Open,
    RemoveFile,
    RemoveDirAll,
    Rename,
    Create,
    Write,
    ReadDir,
}

/// A regular file is removed alone, a directory with all it holds; anything
/// else is refused.
pub fn delete_action(is_file: bool, is_dir: bool) -> (r: DeleteAction)
    ensures
        is_file ==> r == DeleteAction::RemoveFile,
        !is_file && is_dir ==> r == DeleteAction::RemoveDirAll,
        !is_file && !is_dir ==> r == DeleteAction::Unsupported,
{
    if is_file {
        DeleteAction::RemoveFile
    } else if is_dir {
        DeleteAction::RemoveDirAll
    } else {
        DeleteAction::Unsupported
    }
}

/// What a success message of an action starts with.
pub open spec fn success_prefix(a: Action) -> Seq<char> {
    match a {
        Action::Open => "opened: "@,
        Action::RemoveFile => "file deleted: "@,
        Action::RemoveDirAll => "directory deleted: "@,
        Action::Rename => "renamed: "@,
        Action::Create => "file created: "@,
        Action::Write => "file written: "@,
        Action::ReadDir => "directory read: "@,
    }
}

/// What a failure message of an action starts with.
pub open spec fn failure_prefix(a: Action) -> Seq<char> {
    match a {
        Action::Open => "open failed: "@,
        Action::RemoveFile => "failed to delete file: "@,
        Action::RemoveDirAll => "failed to delete directory: "@,
        Action::Rename => "rename failed: "@,
        Action::Create => "failed to create file: "@,
        Action::Write => "failed to write file: "@,
        Action::ReadDir => "failed to read directory: "@,
    }
}

fn success_prefix_str(a: Action) -> (r: &'static str)
    ensures
        r@ == success_prefix(a),
{
    match a {
        Action::Open => "opened: ",
        Action::RemoveFile => "file deleted: ",
        Action::RemoveDirAll => "directory deleted: ",
        Action::Rename => "renamed: ",
        Action::Create => "file created: ",
        Action::Write => "file written: ",
        Action::ReadDir => "directory read: ",
    }
}

fn failure_prefix_str(a: Action) -> (r: &'static str)
    ensures
        r@ == failure_prefix(a),
{
    match a {
        Action::Open => "open failed: ",
        Action::RemoveFile => "failed to delete file: ",
        Action::RemoveDirAll => "failed to delete directory: ",
        Action::Rename => "rename failed: ",
        Action::Create => "failed to create file: ",
        Action::Write => "failed to write file: ",
        Action::ReadDir => "failed to read directory: ",
    }
}

/// The one notice that reports an action: success naming `subject`, or
/// failure with the underlying message.
pub fn action_notice(action: Action, subject: &str, outcome: &Result<(), String>) -> (r: Notice)
    ensures
        outcome is Ok ==> r@ == (Level::Success, success_prefix(action) + subject@),
        outcome matches Err(e) ==> r@ == (Level::Error, failure_prefix(action) + e@),
{
    match outcome {
        Ok(()) => {
            let mut m = String::from_str(success_prefix_str(action));
            m.append(subject);
            Notice::new(Level::Success, m)
        },
        Err(e) => {
            let mut m = String::from_str(failure_prefix_str(action));
            m.append(e.as_str());
            Notice::new(Level::Error, m)
        },
    }
}

/// What a rename reports as its subject: both paths.
pub fn rename_subject(source: &str, dest: &str) -> (r: String)
    ensures
        r@ == source@ + " -> "@ + dest@,
{
    let mut m = String::from_str(source);
    m.append(" -> ");
    m.append(dest);
    m
}

/// What a file command comes to once its paths are resolved: a notice alone,
/// where there is nothing to do, or the one file system action to perform.
#[derive(Debug)]
pub enum Plan {
    Report(Notice),
    List(PathBuf),
    Open(PathBuf),
    RemoveFile(PathBuf),
    RemoveDirAll(PathBuf),
    Rename(PathBuf, PathBuf),
    Write(String),
}

/// What the message of an unsupported delete target starts with.
pub open spec fn unsupported_prefix() -> Seq<char> {
    "target does not exist or is not supported: "@
}

pub open spec fn unsupported_message(target: Seq<char>) -> Seq<char> {
    unsupported_prefix() + target
}

/// The plan reports that `input` does not resolve.
pub open spec fn reports_invalid(r: Plan, input: Seq<char>) -> bool {
    r matches Plan::Report(n) && n@ == (Level::Error, invalid_path_message(input))
}

/// The plans a command may come to, whatever the file system holds.
pub open spec fn plan_fits(cmd: FileCommands, r: Plan) -> bool {
    match cmd {
        FileCommands::List { target_path } => reports_invalid(r, input_of(target_path)) || r is List,
        FileCommands::Open { target_path } => reports_invalid(r, input_of(target_path)) || r is Open,
        FileCommands::Delete { target_path } => {
            ||| reports_invalid(r, input_of(target_path))
            ||| r is RemoveFile
            ||| r is RemoveDirAll
            ||| (r matches Plan::Report(n) && n@.0 == Level::Error && unsupported_prefix().is_prefix_of(
                n@.1,
            ))
        },
        FileCommands::Rename { path, target_path } => {
            ||| reports_invalid(r, path@)
            ||| reports_invalid(r, target_path@)
            ||| r is Rename
        },
        FileCommands::Write { path } => r matches Plan::Write(p) && p@ == path@,
    }
}

/// The error of a delete target that is neither a file nor a directory.
pub fn unsupported_notice(target: &str) -> (r: Notice)
    ensures
        r@ == (Level::Error, unsupported_message(target@)),
{
    let mut m = String::from_str("target does not exist or is not supported: ");
    m.append(target);
    Notice::new(Level::Error, m)
}

/// A plan that only reports the error `m`.
fn error_plan(m: String) -> (r: Plan)
    ensures
        r matches Plan::Report(n) && n@ == (Level::Error, m@),
{
    Plan::Report(Notice::new(Level::Error, m))
}

/// The plan of a listing, from the resolution of its target: the listing of
/// the resolved path, or the resolution error alone.
pub fn plan_list(target: Result<PathBuf, String>) -> (r: Plan)
    ensures
        target matches Ok(p) ==> r == Plan::List(p),
        target matches Err(m) ==> (r matches Plan::Report(n) && n@ == (Level::Error, m@)),
{
    match target {
        Ok(p) => Plan::List(p),
        Err(m) => error_plan(m),
    }
}

/// The plan of an open, from the resolution of its target: opening the
/// resolved path, or the resolution error alone.
pub fn plan_open(target: Result<PathBuf, String>) -> (r: Plan)
    ensures
        target matches Ok(p) ==> r == Plan::Open(p),
        target matches Err(m) ==> (r matches Plan::Report(n) && n@ == (Level::Error, m@)),
{
    match target {
        Ok(p) => Plan::Open(p),
        Err(m) => error_plan(m),
    }
}

/// The plan of a rename, from the resolutions of its source and destination:
/// the first error where either fails, else moving the source to the
/// destination.
pub fn plan_rename(source: Result<PathBuf, String>, dest: Result<PathBuf, String>) -> (r: Plan)
    ensures
        source matches Err(m) ==> (r matches Plan::Report(n) && n@ == (Level::Error, m@)),
        source is Ok ==> (dest matches Err(m) ==> (r matches Plan::Report(n) && n@ == (
            Level::Error,
            m@,
        ))),
        source matches Ok(s) ==> (dest matches Ok(d) ==> r == Plan::Rename(s, d)),
{
    match source {
        Err(m) => error_plan(m),
        Ok(s) => match dest {
            Ok(d) => Plan::Rename(s, d),
            Err(m) => error_plan(m),
        },
    }
}

/// The plan for deleting a resolved path of the given kind, shown as `shown`.
pub fn plan_delete(target: PathBuf, is_file: bool, is_dir: bool, shown: &str) -> (r: Plan)
    ensures
        is_file ==> r == Plan::RemoveFile(target),
        !is_file && is_dir ==> r == Plan::RemoveDirAll(target),
        !is_file && !is_dir ==> (r matches Plan::Report(n) && n@ == (Level::Error, unsupported_message(shown@))),
{
    match delete_action(is_file, is_dir) {
        DeleteAction::RemoveFile => Plan::RemoveFile(target),
        DeleteAction::RemoveDirAll => Plan::RemoveDirAll(target),
        DeleteAction::Unsupported => Plan::Report(unsupported_notice(shown)),
    }
}

/// Resolves the paths of a file command and decides what it comes to. A path
/// that does not resolve ends the command with its error; a rename resolves
/// its source first and its destination only after that.
pub fn handle_command(file_commands: &FileCommands) -> (r: Plan)
    ensures
        plan_fits(*file_commands, r),
{
    match file_commands {
        FileCommands::List { target_path } => plan_list(resolve_path(target_path)),
        FileCommands::Open { target_path } => plan_open(resolve_path(target_path)),
        FileCommands::Delete { target_path } => match resolve_path(target_path) {
            Ok(p) => {
                let is_file = path_is_file(&p);
                let is_dir = path_is_dir(&p);
                let shown = path_display(&p);
                proof {
                    assert(unsupported_message(shown@).subrange(0, unsupported_prefix().len() as int)
                        =~= unsupported_prefix());
                }
                plan_delete(p, is_file, is_dir, shown.as_str())
            },
            Err(m) => error_plan(m),
        },
        FileCommands::Rename { path, target_path } => {
            let source = resolve_path(&Some(path.clone()));
            if source.is_err() {
                return plan_rename(source, Err(String::new()));
            }
            plan_rename(source, resolve_path(&Some(target_path.clone())))
        },
        FileCommands::Write { path } => Plan::Write(path.clone()),
    }
}

} // verus!
