//! The expansion of the catalog archive: the command that expands it, and
//! what the way the command ended means for the run.
//!
//! The command is run by the caller, who reports how it ended.

use crate::error::{ExpansionError, ExpansionErrorView};
use crate::paths::{manifest_path, manifest_path_of};
use crate::text::{append_str, string_of};
use vstd::prelude::*;

verus! {

/// How the expansion tool ended.
#[derive(Debug, Clone, Copy, PartialEq, Eq, Structural)]
pub enum ProcessOutcome {
    /// It could not be started.
    LaunchFailed,
    /// It was still running when the time allowed was over.
    TimedOut,
    /// It ended with this exit code.
    Exited { code: i32 },
}

/// The command line that expands an archive, every file of it, into the
/// archive's directory.
pub open spec fn expansion_command(archive_path: Seq<char>) -> Seq<char> {
    "expand.exe -R "@ + archive_path
}

/// What a run gets from the expansion of an archive: the path of the manifest
/// where the tool ended with exit code 0, and otherwise the failure that says
/// how it ended, with the command line.
pub open spec fn expansion_result(archive_path: Seq<char>, outcome: ProcessOutcome) -> Result<
    Seq<char>,
    ExpansionErrorView,
> {
    let command = expansion_command(archive_path);
    match outcome {
        ProcessOutcome::LaunchFailed => Err(ExpansionErrorView::ProcessLaunchFailed { command }),
        ProcessOutcome::TimedOut => Err(ExpansionErrorView::Timeout { command }),
        ProcessOutcome::Exited { code } => if code == 0 {
            Ok(manifest_path(archive_path))
        } else {
            Err(ExpansionErrorView::NonZeroExit { command, code })
        },
    }
}

/// The command line that expands the archive at `archive_path`.
pub fn expand_command(archive_path: &str) -> (r: String)
    ensures
        r@ == expansion_command(archive_path@),
{
    let mut out: Vec<char> = Vec::new();
    append_str(&mut out, "expand.exe -R ");
    append_str(&mut out, archive_path);
    string_of(&out)
}

/// The manifest that the expansion of `cab_path` has left, given how the
/// expansion tool ended.
pub fn cab_to_xml(cab_path: &str, outcome: ProcessOutcome) -> (r: Result<String, ExpansionError>)
    ensures
        match r {
            Ok(path) => expansion_result(cab_path@, outcome) == Ok::<Seq<char>, ExpansionErrorView>(
                path@,
            ),
            Err(e) => expansion_result(cab_path@, outcome) == Err::<Seq<char>, ExpansionErrorView>(
                e@,
            ),
        },
{
    match outcome {
        ProcessOutcome::LaunchFailed => Err(
            ExpansionError::ProcessLaunchFailed { command: expand_command(cab_path) },
        ),
        ProcessOutcome::TimedOut => Err(ExpansionError::Timeout { command: expand_command(cab_path) }),
        ProcessOutcome::Exited { code } => {
            if code == 0 {
                Ok(manifest_path_of(cab_path))
            } else {
                Err(ExpansionError::NonZeroExit { command: expand_command(cab_path), code })
            }
        },
    }
}

} // verus!
