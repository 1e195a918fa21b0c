//! The reveal modal: confirm, reveal, show once. The worker re-reads the
//! file and checks the reference; the raw value arrives in
//! [`RevealPhase::Ready`] and is dropped (and wiped) when the modal closes.
//! It never lives in any longer-lived state.

use vstd::prelude::*;
use crate::domain::FindingRef;
use crate::keys::{KeyCode, is_cancel_key, is_close_key, is_confirm_key};
use crate::worker::WorkerRevealSecret;

verus! {

/// Command the modal hands back to the app layer.
#[derive(Debug, Clone, Copy, PartialEq, Eq, Structural)]
pub enum RevealCommand {
    /// The user confirmed the reveal; dispatch it to the worker.
    Confirm,
    /// Close the modal (back to the list), dropping any revealed value.
    Close,
    /// The key changed nothing that needs dispatching.
    NoOp,
}

/// Current phase of the reveal modal.
#[derive(Debug)]
pub enum RevealPhase {
    /// Waiting for an explicit confirm before anything is revealed.
    Confirm,
    /// The reveal was sent to the worker; waiting for the result.
    Revealing,
    /// The raw value arrived and is shown once; dropped on close.
    Ready { secret: WorkerRevealSecret },
    /// The reveal failed; no value was or will be shown.
    Failed { message: String },
}

/// State machine for one reveal modal.
#[derive(Debug)]
pub struct RevealModal {
    /// Sensitive file being revealed.
    pub path: String,
    /// Reference pinning the exact value to reveal (marker + line + hash).
    pub reference: FindingRef,
    /// Current phase.
    pub phase: RevealPhase,
}

/// What a key does on the reveal modal in phase `p`: the command, and
/// whether the modal moves on to `Revealing`.
pub open spec fn reveal_command(p: RevealPhase, key: KeyCode) -> RevealCommand {
    match p {
        RevealPhase::Confirm => if is_confirm_key(key) {
            RevealCommand::Confirm
        } else if is_cancel_key(key) {
            RevealCommand::Close
        } else {
            RevealCommand::NoOp
        },
        RevealPhase::Revealing => RevealCommand::NoOp,
        RevealPhase::Ready { .. } => RevealCommand::Close,
        RevealPhase::Failed { .. } => if is_close_key(key) {
            RevealCommand::Close
        } else {
            RevealCommand::NoOp
        },
    }
}

impl RevealModal {
    /// A reveal modal waiting for confirmation.
    pub fn new(path: String, reference: FindingRef) -> (m: RevealModal)
        ensures
            m.path == path,
            m.reference == reference,
            m.phase is Confirm,
    {
        RevealModal { path, reference, phase: RevealPhase::Confirm }
    }

    /// Handle one key press inside the modal: confirming moves to
    /// `Revealing` (every key is then swallowed until the result arrives);
    /// a shown value closes on any key.
    pub fn handle_key(&mut self, key: KeyCode) -> (r: RevealCommand)
        ensures
            r == reveal_command(old(self).phase, key),
            final(self).path == old(self).path,
            final(self).reference == old(self).reference,
            r is Confirm ==> final(self).phase is Revealing,
            !(r is Confirm) ==> final(self).phase == old(self).phase,
    {
        match &self.phase {
            RevealPhase::Confirm => match key {
                KeyCode::Char('y') | KeyCode::Enter => {
                    self.phase = RevealPhase::Revealing;
                    RevealCommand::Confirm
                },
                KeyCode::Char('n') | KeyCode::Esc => RevealCommand::Close,
                _ => RevealCommand::NoOp,
            },
            RevealPhase::Revealing => RevealCommand::NoOp,
            RevealPhase::Ready { .. } => RevealCommand::Close,
            RevealPhase::Failed { .. } => match key {
                KeyCode::Enter | KeyCode::Esc => RevealCommand::Close,
                _ => RevealCommand::NoOp,
            },
        }
    }

    /// Show the value the worker delivered.
    pub fn set_ready(&mut self, secret: WorkerRevealSecret)
        ensures
            final(self).phase == (RevealPhase::Ready { secret }),
            final(self).path == old(self).path,
            final(self).reference == old(self).reference,
    {
        self.phase = RevealPhase::Ready { secret };
    }

    /// Show a failure message (never the raw value).
    pub fn set_failed(&mut self, message: String)
        ensures
            final(self).phase == (RevealPhase::Failed { message }),
            final(self).path == old(self).path,
            final(self).reference == old(self).reference,
    {
        self.phase = RevealPhase::Failed { message };
    }
}

} // verus!
