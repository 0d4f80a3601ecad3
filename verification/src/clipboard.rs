//! Delivery of a secret to the clipboard, with a deferred clear that spares
//! whatever the user copied in the meantime.
//!
//! The clipboard and the timer are outside this crate. The caller performs
//! each action that `step` hands out and comes back with the event that
//! followed.

use crate::error::SecretError;
use vstd::prelude::*;

verus! {

/// Seconds between a delivery and the attempt to clear it.
pub const CLIPBOARD_CLEAR_SECONDS: u64 = 10;

/// Where one delivery stands. Each delivery has a state of its own, which
/// holds the text it put on the clipboard.
#[derive(Clone, Debug, PartialEq, Eq)]
pub enum GuardState {
    /// The text was handed to the clipboard; the answer is awaited.
    Writing { text: String },
    /// The text is on the clipboard and the delay runs.
    Waiting { text: String },
    /// The delay is over; the clipboard's contents are awaited.
    Checking { text: String },
    /// Nothing is left to do.
    Finished,
}

/// What happened outside.
#[derive(Clone, Debug, PartialEq, Eq)]
pub enum GuardEvent {
    /// The clipboard took the text.
    WriteSucceeded,
    /// The clipboard refused the text, for the reason given.
    WriteFailed { reason: String },
    /// The delay has run out.
    DelayElapsed,
    /// The clipboard was read and held `contents`.
    ContentsRead { contents: String },
    /// The clipboard could not be read.
    ReadFailed,
}

/// What the caller is to do next.
#[derive(Clone, Debug, PartialEq, Eq)]
pub enum GuardAction {
    /// Put `text` on the clipboard and report how that went.
    Write { text: String },
    /// Tell the requester that delivery succeeded; apart from that, wait
    /// `seconds` and report that the delay has run out.
    ReportAndWait { seconds: u64 },
    /// Tell the requester that delivery failed with `error`.
    Fail { error: SecretError },
    /// Read the clipboard and report its contents.
    ReadContents,
    /// Put the empty text on the clipboard.
    Clear,
    /// Nothing.
    Nothing,
}

/// The state and the first action of a delivery of `text`.
pub open spec fn begin(text: String) -> (GuardState, GuardAction) {
    (GuardState::Writing { text }, GuardAction::Write { text })
}

/// The next state and the action for an event. An event that the state does
/// not wait for changes nothing and asks for nothing.
pub open spec fn next(state: GuardState, event: GuardEvent) -> (GuardState, GuardAction) {
    match (state, event) {
        (GuardState::Writing { text }, GuardEvent::WriteSucceeded) => (
            GuardState::Waiting { text },
            GuardAction::ReportAndWait { seconds: CLIPBOARD_CLEAR_SECONDS },
        ),
        (GuardState::Writing { text }, GuardEvent::WriteFailed { reason }) => (
            GuardState::Finished,
            GuardAction::Fail { error: SecretError::Clipboard(reason) },
        ),
        (GuardState::Waiting { text }, GuardEvent::DelayElapsed) => (
            GuardState::Checking { text },
            GuardAction::ReadContents,
        ),
        (GuardState::Checking { text }, GuardEvent::ContentsRead { contents }) => (
            GuardState::Finished,
            if contents@ == text@ {
                GuardAction::Clear
            } else {
                GuardAction::Nothing
            },
        ),
        (GuardState::Checking { text }, GuardEvent::ReadFailed) => (
            GuardState::Finished,
            GuardAction::Nothing,
        ),
        _ => (state, GuardAction::Nothing),
    }
}

/// What the clipboard holds once `action` has been carried out on a clipboard
/// that held `contents`.
pub open spec fn clipboard_after(action: GuardAction, contents: Seq<char>) -> Seq<char> {
    match action {
        GuardAction::Write { text } => text@,
        GuardAction::Clear => Seq::<char>::empty(),
        _ => contents,
    }
}

/// Starts a delivery of `text`: the caller is to write it to the clipboard.
pub fn secure_copy(text: String) -> (started: (GuardState, GuardAction))
    ensures
        started == begin(text),
{
    let copy = text.clone();
    (GuardState::Writing { text }, GuardAction::Write { text: copy })
}

/// Takes a delivery one step further.
pub fn step(state: GuardState, event: GuardEvent) -> (stepped: (GuardState, GuardAction))
    ensures
        stepped == next(state, event),
{
    match state {
        GuardState::Writing { text } => match event {
            GuardEvent::WriteSucceeded => (
                GuardState::Waiting { text },
                GuardAction::ReportAndWait { seconds: CLIPBOARD_CLEAR_SECONDS },
            ),
            GuardEvent::WriteFailed { reason } => (
                GuardState::Finished,
                GuardAction::Fail { error: SecretError::Clipboard(reason) },
            ),
            _ => (GuardState::Writing { text }, GuardAction::Nothing),
        },
        GuardState::Waiting { text } => match event {
            GuardEvent::DelayElapsed => (GuardState::Checking { text }, GuardAction::ReadContents),
            _ => (GuardState::Waiting { text }, GuardAction::Nothing),
        },
        GuardState::Checking { text } => match event {
            GuardEvent::ContentsRead { contents } => {
                if contents == text {
                    (GuardState::Finished, GuardAction::Clear)
                } else {
                    (GuardState::Finished, GuardAction::Nothing)
                }
            },
            GuardEvent::ReadFailed => (GuardState::Finished, GuardAction::Nothing),
            _ => (GuardState::Checking { text }, GuardAction::Nothing),
        },
        GuardState::Finished => (GuardState::Finished, GuardAction::Nothing),
    }
}

/// A delivery of `text` whose write succeeds clears the clipboard after the
/// delay if the clipboard still holds `text`, and leaves it as it is if it
/// holds anything else by then.
pub proof fn lemma_clear_only_own_text(text: String, current: String)
    ensures
        ({
            let written = next(begin(text).0, GuardEvent::WriteSucceeded);
            let elapsed = next(written.0, GuardEvent::DelayElapsed);
            let checked = next(elapsed.0, GuardEvent::ContentsRead { contents: current });
            &&& clipboard_after(begin(text).1, current@) == text@
            &&& written.1 == (GuardAction::ReportAndWait { seconds: 10 })
            &&& elapsed.1 == GuardAction::ReadContents
            &&& checked.0 == GuardState::Finished
            &&& current@ == text@ ==> clipboard_after(checked.1, current@) == Seq::<char>::empty()
            &&& current@ != text@ ==> clipboard_after(checked.1, current@) == current@
        }),
{
}

/// A delivery whose write fails reports the failure and never touches the
/// clipboard afterwards, whatever events follow.
pub proof fn lemma_failed_write_ends_delivery(text: String, reason: String, later: GuardEvent)
    ensures
        ({
            let failed = next(begin(text).0, GuardEvent::WriteFailed { reason });
            &&& failed.1 == (GuardAction::Fail { error: SecretError::Clipboard(reason) })
            &&& failed.0 == GuardState::Finished
            &&& next(failed.0, later) == (GuardState::Finished, GuardAction::Nothing)
        }),
{
}

} // verus!
