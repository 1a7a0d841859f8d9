//! Note lifecycle rules: trash retention and reminder suppression.
use vstd::prelude::*;

verus! {

/// How long a trashed note is kept before it is deleted for good: exactly
/// 30 × 24 hours, in milliseconds.
pub const TRASH_RETENTION_MS: i64 = 30 * 24 * 60 * 60 * 1000;

/// Where a note lives.
#[derive(Debug, Clone, Copy, PartialEq, Eq, Structural)]
pub enum NoteState {
    Active,
    Archived,
    Trashed,
}

/// When a note was trashed and when it is to be deleted for good.
#[derive(Debug, Clone, Copy, PartialEq, Eq, Structural)]
pub struct TrashPolicy {
    pub trashed_at_epoch_ms: i64,
    pub hard_delete_at_epoch_ms: i64,
}

/// The retention policy of a note trashed at `trashed_at_epoch_ms`: it is
/// deleted exactly `TRASH_RETENTION_MS` later.
pub fn compute_trash_policy(trashed_at_epoch_ms: i64) -> (p: TrashPolicy)
    requires
        trashed_at_epoch_ms + TRASH_RETENTION_MS <= i64::MAX,
    ensures
        p.trashed_at_epoch_ms == trashed_at_epoch_ms,
        p.hard_delete_at_epoch_ms == trashed_at_epoch_ms + TRASH_RETENTION_MS,
        p.hard_delete_at_epoch_ms - p.trashed_at_epoch_ms == 30 * 24 * 60 * 60 * 1000,
{
    TrashPolicy { trashed_at_epoch_ms, hard_delete_at_epoch_ms: trashed_at_epoch_ms + TRASH_RETENTION_MS }
}

/// Whether reminders of a note in `state` are suppressed: exactly when the
/// note is archived or trashed.
pub open spec fn suppresses_reminders(state: NoteState) -> bool {
    state == NoteState::Archived || state == NoteState::Trashed
}

/// Whether reminders of a note in `state` are suppressed.
pub fn is_reminder_suppressed(state: NoteState) -> (r: bool)
    ensures
        r == suppresses_reminders(state),
        r <==> state != NoteState::Active,
{
    match state {
        NoteState::Archived | NoteState::Trashed => true,
        NoteState::Active => false,
    }
}

} // verus!
