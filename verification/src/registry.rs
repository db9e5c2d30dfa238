//! Moving the clipboard's registry key aside, and back.
//!
//! The system's own clipboard history is switched off by renaming its key. A
//! key cannot be renamed in place: its values are copied to a new key and the
//! old key is deleted. The caller does each step on the registry and reports
//! how it went; the sequence below says which step is next.

use vstd::prelude::*;

verus! {

/// The key that the system reads the clipboard's settings from.
pub const CLIPBOARD_PATH: &'static str = "SOFTWARE\\Microsoft\\Clipboard";

/// The key that the settings are kept under while they are moved aside.
pub const CLIPBOARD_PATH_BACKUP: &'static str = "SOFTWARE\\Microsoft\\Clipboard-Backup";

/// Which way the key is moved.
#[derive(Debug, Clone, Copy, PartialEq, Eq, Structural)]
pub enum Direction {
    /// From the system's key to the backup key.
    Backup,
    /// From the backup key to the system's key.
    Recover,
}

/// The key that a move takes the values from.
pub fn source_key(direction: Direction) -> (key: &'static str)
    ensures
        key@ == match direction {
            Direction::Backup => CLIPBOARD_PATH@,
            Direction::Recover => CLIPBOARD_PATH_BACKUP@,
        },
{
    match direction {
        Direction::Backup => CLIPBOARD_PATH,
        Direction::Recover => CLIPBOARD_PATH_BACKUP,
    }
}

/// The key that a move puts the values under.
pub fn target_key(direction: Direction) -> (key: &'static str)
    ensures
        key@ == match direction {
            Direction::Backup => CLIPBOARD_PATH_BACKUP@,
            Direction::Recover => CLIPBOARD_PATH@,
        },
{
    match direction {
        Direction::Backup => CLIPBOARD_PATH_BACKUP,
        Direction::Recover => CLIPBOARD_PATH,
    }
}

/// A step of a move.
#[derive(Debug, Clone, Copy, PartialEq, Eq, Structural)]
pub enum RenameStep {
    /// Open the source key.
    OpenSource,
    /// Read all values of the source key.
    ReadValues,
    /// Create the target key.
    CreateTarget,
    /// Write the values that were read to the target key.
    CopyValues,
    /// Delete the source key with all below it.
    DeleteSource,
    /// Delete the target key again, since the source key could not be deleted.
    DeleteTarget,
    /// The move is over: `true` where the key was moved.
    Finished(bool),
}

/// How a step went.
#[derive(Debug, Clone, Copy, PartialEq, Eq, Structural)]
pub enum StepResult {
    /// The step was done.
    Done,
    /// The target key was opened, not created: it was there already.
    AlreadyThere,
    /// The step failed.
    Failed,
}

/// The step that follows `step` after it went as `result` says.
///
/// The steps follow each other in the order of their declaration as long as
/// each is done. A failure ends the move without success, and so does a
/// target key that is there already. Only a source key that cannot be deleted
/// has something undone first: the target key is deleted again, and however
/// that goes, the move is over without success.
pub open spec fn following(step: RenameStep, result: StepResult) -> RenameStep {
    match step {
        RenameStep::OpenSource => if result == StepResult::Done {
            RenameStep::ReadValues
        } else {
            RenameStep::Finished(false)
        },
        RenameStep::ReadValues => if result == StepResult::Done {
            RenameStep::CreateTarget
        } else {
            RenameStep::Finished(false)
        },
        RenameStep::CreateTarget => if result == StepResult::Done {
            RenameStep::CopyValues
        } else {
            RenameStep::Finished(false)
        },
        RenameStep::CopyValues => if result == StepResult::Done {
            RenameStep::DeleteSource
        } else {
            RenameStep::Finished(false)
        },
        RenameStep::DeleteSource => if result == StepResult::Done {
            RenameStep::Finished(true)
        } else {
            RenameStep::DeleteTarget
        },
        RenameStep::DeleteTarget => RenameStep::Finished(false),
        RenameStep::Finished(moved) => RenameStep::Finished(moved),
    }
}

/// The number of steps that are left at most, counting `step`.
pub open spec fn steps_left(step: RenameStep) -> nat {
    match step {
        RenameStep::OpenSource => 6,
        RenameStep::ReadValues => 5,
        RenameStep::CreateTarget => 4,
        RenameStep::CopyValues => 3,
        RenameStep::DeleteSource => 2,
        RenameStep::DeleteTarget => 1,
        RenameStep::Finished(_) => 0,
    }
}

/// The first step of a move.
pub fn first_step() -> (step: RenameStep)
    ensures
        step == RenameStep::OpenSource,
{
    RenameStep::OpenSource
}

/// The step to take after `step` went as `result` says.
pub fn next_step(step: RenameStep, result: StepResult) -> (next: RenameStep)
    ensures
        next == following(step, result),
{
    let done = match result {
        StepResult::Done => true,
        _ => false,
    };
    match step {
        RenameStep::OpenSource => if done {
            RenameStep::ReadValues
        } else {
            RenameStep::Finished(false)
        },
        RenameStep::ReadValues => if done {
            RenameStep::CreateTarget
        } else {
            RenameStep::Finished(false)
        },
        RenameStep::CreateTarget => if done {
            RenameStep::CopyValues
        } else {
            RenameStep::Finished(false)
        },
        RenameStep::CopyValues => if done {
            RenameStep::DeleteSource
        } else {
            RenameStep::Finished(false)
        },
        RenameStep::DeleteSource => if done {
            RenameStep::Finished(true)
        } else {
            RenameStep::DeleteTarget
        },
        RenameStep::DeleteTarget => RenameStep::Finished(false),
        RenameStep::Finished(moved) => RenameStep::Finished(moved),
    }
}

/// Whether a move that ended says that the key was moved; `None` while the
/// move is not over.
pub fn rename_result(step: RenameStep) -> (moved: Option<bool>)
    ensures
        moved == match step {
            RenameStep::Finished(m) => Some(m),
            _ => None::<bool>,
        },
{
    match step {
        RenameStep::Finished(m) => Some(m),
        _ => None,
    }
}

/// A move ends: each step leaves fewer steps to take, so that after six steps
/// at most the move is over.
pub proof fn law_rename_ends(step: RenameStep, result: StepResult)
    requires
        !(step is Finished),
    ensures
        steps_left(following(step, result)) < steps_left(step),
{
}

/// A move succeeds only at the deletion of the source key: the one step that
/// ends a move with success is `DeleteSource`, done.
pub proof fn law_rename_succeeds_last(step: RenameStep, result: StepResult)
    requires
        !(step is Finished),
    ensures
        following(step, result) == RenameStep::Finished(true) <==> (step
            == RenameStep::DeleteSource && result == StepResult::Done),
{
}

/// A move that is over stays as it ended.
pub proof fn law_rename_stays_finished(moved: bool, result: StepResult)
    ensures
        following(RenameStep::Finished(moved), result) == RenameStep::Finished(moved),
{
}

} // verus!
