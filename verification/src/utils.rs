//! Shared pieces of the mutation workflow: the error taxonomy and the modal
//! state machines (edit and delete) that every resource reuses.
//!
//! The edit modal is generic over its target: `None` drives a create flow,
//! `Some(record)` an edit flow. Draft fields live beside the machine and are
//! never written back into the source record; all visible list changes
//! happen only through a reload, never by mutating the list directly.

use crate::table::ReloadController;
use vstd::prelude::*;

verus! {

/// Failure taxonomy of the server endpoints.
///
/// Validation failures are caught client-side and never reach the store;
/// authorization failures carry no detail; store and hashing failures are
/// surfaced as opaque messages.
#[derive(Clone, Debug, PartialEq, Eq)]
pub enum ServerError {
    /// The caller is not logged in, or lacks the required privilege.
    Unauthorized,
    /// A submitted password is outside the accepted length bounds.
    InvalidPassword,
    /// Login was attempted with an unknown user or a wrong password.
    WrongCredentials,
    /// Password hashing failed in the hashing backend.
    Hashing,
}

impl ServerError {
    /// The message shown to the client for this failure.
    pub fn message(&self) -> (r: String)
        ensures
            self is Unauthorized ==> r@ == "Unauthorized"@,
            self is InvalidPassword ==> r@ == "Password is invalid."@,
            self is WrongCredentials ==> r@ == "Wrong password or invalid user"@,
            self is Hashing ==> r@ == "Failed to hash the password"@,
    {
        match self {
            ServerError::Unauthorized => "Unauthorized".to_owned(),
            ServerError::InvalidPassword => "Password is invalid.".to_owned(),
            ServerError::WrongCredentials => "Wrong password or invalid user".to_owned(),
            ServerError::Hashing => "Failed to hash the password".to_owned(),
        }
    }
}

/// What trimming leaves of a text: a function of the characters alone, the
/// same in every process and on every machine. It is the result that
/// `str::trim` names.
pub uninterp spec fn trim_of(s: Seq<char>) -> Seq<char>;

/// Relies on str::trim: it returns the argument without leading and
/// trailing whitespace, a function of the characters alone, and never
/// panics.
#[verifier::external_body]
pub(crate) fn trim(s: &str) -> (r: &str)
    ensures
        r@ == trim_of(s@),
        r@.len() <= s@.len(),
{
    s.trim()
}

/// The create/update modal's state machine, generic over the record type.
///
/// `target` is `None` when the modal is closed, `Some(None)` for a create
/// flow and `Some(Some(record))` for an edit flow. `waiting` marks the
/// transient submitting phase; `server_error` carries a failed round-trip's
/// message for display while the drafts stay intact.
pub struct EditModalState<T> {
    pub target: Option<Option<T>>,
    pub waiting: bool,
    pub server_error: Option<String>,
}

impl<T> EditModalState<T> {
    /// The modal is open (create or edit) when it has a target.
    pub open spec fn is_open(self) -> bool {
        self.target is Some
    }

    /// The modal is in its transient submitting phase.
    pub open spec fn is_submitting(self) -> bool {
        self.is_open() && self.waiting
    }

    /// Closed, idle, nothing to display.
    pub open spec fn is_closed(self) -> bool {
        self.target is None && !self.waiting && self.server_error is None
    }

    pub fn new() -> (s: EditModalState<T>)
        ensures
            s.is_closed(),
    {
        EditModalState { target: None, waiting: false, server_error: None }
    }

    /// Open the modal for a create (`None`) or edit (`Some(record)`) flow;
    /// a fresh flow starts idle and without a stale failure message.
    pub fn open_with(&mut self, target: Option<T>)
        ensures
            final(self).target == Some(target),
            !final(self).waiting,
            final(self).server_error is None,
    {
        self.target = Some(target);
        self.waiting = false;
        self.server_error = None;
    }

    /// Cancel, or close after success: the flow is destroyed.
    pub fn close(&mut self)
        ensures
            final(self).is_closed(),
    {
        self.target = None;
        self.waiting = false;
        self.server_error = None;
    }

    /// Attempt to submit. Submission fires only when the modal is open, not
    /// already submitting, and the validation error list is empty — with a
    /// non-empty error list Submit is disabled and the state is untouched.
    pub fn submit(&mut self, errors: &Vec<String>) -> (fired: bool)
        ensures
            fired == (old(self).target is Some && !old(self).waiting && errors@.len() == 0),
            final(self).target == old(self).target,
            final(self).server_error == old(self).server_error,
            final(self).waiting == (old(self).waiting || fired),
            errors@.len() > 0 ==> *final(self) == *old(self) && !fired,
    {
        if self.target.is_some() && !self.waiting && errors.len() == 0 {
            self.waiting = true;
            true
        } else {
            false
        }
    }

    /// The round-trip failed: revert to the open phase with the message
    /// attached; the target — and with it the drafts — is preserved so the
    /// user can correct and resubmit.
    pub fn on_error(&mut self, message: String)
        ensures
            final(self).target == old(self).target,
            !final(self).waiting,
            final(self).server_error == Some(message),
    {
        self.waiting = false;
        self.server_error = Some(message);
    }

    /// The round-trip succeeded: the flow is destroyed and the list is told
    /// to re-read the store of record.
    pub fn on_success(&mut self, reload: &mut ReloadController)
        requires
            old(reload).token < u64::MAX,
        ensures
            final(self).is_closed(),
            final(reload).token == old(reload).token + 1,
    {
        self.close();
        reload.reload();
    }
}

/// The delete confirmation flow: a parallel, simpler two-state machine
/// gated on a single identity value, not the full record.
pub struct DeleteModalState {
    pub target: Option<String>,
    pub waiting: bool,
}

impl DeleteModalState {
    pub fn new() -> (s: DeleteModalState)
        ensures
            s.target is None,
            !s.waiting,
    {
        DeleteModalState { target: None, waiting: false }
    }

    /// Ask for confirmation before deleting one identity.
    pub fn request(&mut self, identity: String)
        ensures
            final(self).target == Some(identity),
            final(self).waiting == old(self).waiting,
    {
        self.target = Some(identity);
    }

    /// Cancel: the confirmation is destroyed.
    pub fn cancel(&mut self)
        ensures
            final(self).target is None,
            !final(self).waiting,
    {
        self.target = None;
        self.waiting = false;
    }

    /// Confirm. The identity to delete is released exactly once: only when
    /// a confirmation is pending and no delete is already under way.
    pub fn confirm(&mut self) -> (fire: Option<String>)
        ensures
            old(self).target is Some && !old(self).waiting ==> fire == old(self).target
                && final(self).waiting,
            !(old(self).target is Some && !old(self).waiting) ==> fire is None && *final(self)
                == *old(self),
            final(self).target == old(self).target,
    {
        if self.waiting {
            return None;
        }
        match &self.target {
            Some(identity) => {
                let fire = Some(identity.clone());
                self.waiting = true;
                fire
            },
            None => None,
        }
    }

    /// Settle the delete round-trip: the confirmation state clears either
    /// way; only success forces a reload, a failure is merely handed back
    /// for best-effort reporting.
    pub fn settle(&mut self, outcome: Result<(), String>, reload: &mut ReloadController) -> (log:
        Option<String>)
        requires
            old(reload).token < u64::MAX,
        ensures
            final(self).target is None,
            !final(self).waiting,
            outcome is Ok ==> final(reload).token == old(reload).token + 1 && log is None,
            outcome matches Err(e) ==> *final(reload) == *old(reload) && log == Some(e),
    {
        self.target = None;
        self.waiting = false;
        match outcome {
            Ok(_) => {
                reload.reload();
                None
            },
            Err(e) => Some(e),
        }
    }
}

} // verus!
