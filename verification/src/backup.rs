//! The backup rotation scheme.
//!
//! A backup archives the target directory under today's name.  Names carry
//! a rotation index 0..=255: the archive attempt starts at index 0 and, on
//! learning that the name is already taken, tries the next index; any other
//! I/O failure aborts at once, and exhausting all 256 indices in one day is
//! the rotation-limit error.  The archive writing itself — a fresh file,
//! compressed, filled with the directory tree — is plain file I/O done by
//! the unverified shell; each attempt's outcome comes back here, where the
//! next move is decided.

use vstd::prelude::*;

use crate::error::GenericError;

verus! {

/// What one archive attempt at one rotation index reported.
#[derive(Clone, Copy, Debug, PartialEq, Eq, Structural)]
pub enum ArchiveOutcome {
    /// The archive file was created and written.
    Created,
    /// A file of that name already exists; the index is taken.
    AlreadyExists,
    /// Any other I/O failure, with the OS error code.
    Failed(i32),
}

/// The next move of the backup loop.
#[derive(Clone, Debug, PartialEq, Eq)]
pub enum BackupStep {
    /// The archive was written; the backup is complete.
    Done,
    /// The name was taken; try this index next.
    Retry(u8),
    /// Give up with this error; no further index is tried.
    Fail(GenericError),
}

/// Decides the move after one archive attempt: success completes the
/// backup, a taken name advances to the next index until all 256 are
/// exhausted, and any other failure aborts immediately.
pub fn backup_step(index: u8, outcome: &ArchiveOutcome) -> (r: BackupStep)
    ensures
        outcome is Created ==> r is Done,
        outcome matches ArchiveOutcome::Failed(e) ==> r == BackupStep::Fail(
            GenericError::IOError { errno: *e },
        ),
        outcome is AlreadyExists && index < 255 ==> r == BackupStep::Retry((index + 1) as u8),
        outcome is AlreadyExists && index == 255 ==> r == BackupStep::Fail(
            GenericError::RotationLimitExceeded,
        ),
{
    match outcome {
        ArchiveOutcome::Created => BackupStep::Done,
        ArchiveOutcome::Failed(e) => BackupStep::Fail(GenericError::IOError { errno: *e }),
        ArchiveOutcome::AlreadyExists => {
            if index < 255 {
                BackupStep::Retry(index + 1)
            } else {
                BackupStep::Fail(GenericError::RotationLimitExceeded)
            }
        },
    }
}

/// The index the rotation settles on when attempts are driven by which of
/// the 256 names exist: starting at `i`, the first index whose name is
/// free, or `None` when every remaining index is taken.
pub open spec fn rotation_result(occupied: Seq<bool>, i: int) -> Option<int>
    decreases 256 - i
        when 0 <= i <= 255
{
    if !occupied[i] {
        Some(i)
    } else if i == 255 {
        None
    } else {
        rotation_result(occupied, i + 1)
    }
}

proof fn lemma_rotation_from(occupied: Seq<bool>, i: int)
    requires
        occupied.len() == 256,
        0 <= i <= 255,
    ensures
        match rotation_result(occupied, i) {
            Some(k) => i <= k < 256 && !occupied[k] && (forall|j: int|
                i <= j < k ==> occupied[j]),
            None => forall|j: int| i <= j < 256 ==> occupied[j],
        },
    decreases 256 - i,
{
    if occupied[i] && i < 255 {
        lemma_rotation_from(occupied, i + 1);
    }
}

/// Backup naming picks the lowest unused rotation index: when the attempts
/// are driven by which names exist on disk — a taken name advances to the
/// next index, exactly as `backup_step` decides — the rotation settles on
/// the smallest free index, every index below it being taken; and when all
/// 256 indices of the day are taken, it settles on nothing, which
/// `backup_step` turns into the rotation-limit error on index 255.
pub proof fn lemma_rotation_picks_lowest(occupied: Seq<bool>)
    requires
        occupied.len() == 256,
    ensures
        match rotation_result(occupied, 0) {
            Some(k) => 0 <= k < 256 && !occupied[k] && (forall|j: int|
                0 <= j < k ==> occupied[j]),
            None => forall|j: int| 0 <= j < 256 ==> occupied[j],
        },
{
    lemma_rotation_from(occupied, 0);
}

} // verus!
