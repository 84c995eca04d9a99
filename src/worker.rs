//! The coalescing request channel through which the frame loop asks the analysis
//! worker for another pass.
use std::sync::mpsc::SyncSender;
use std::sync::mpsc::TrySendError;
use vstd::prelude::*;

verus! {

/// Declares std's `SyncSender`, the requesting end of the worker's channel.
#[verifier::external_type_specification]
#[verifier::external_body]
#[verifier::reject_recursive_types(T)]
pub struct ExSyncSender<T>(SyncSender<T>);

/// What a non-blocking send into the request mailbox reported.
#[derive(Clone, Copy, Debug, PartialEq, Eq, Structural)]
pub enum SendOutcome {
    /// The mailbox was empty and now holds the request.
    Sent,
    /// The mailbox already held an undelivered request.
    Full,
    /// The worker's end of the channel is gone.
    Disconnected,
}

/// What became of a request for another analysis pass.
#[derive(Clone, Copy, Debug, PartialEq, Eq, Structural)]
pub enum Submission {
    /// The request was deposited; the worker will wake for it.
    Queued,
    /// A request was already pending, so this one was dropped: the pending one
    /// stands for both.
    Coalesced,
}

/// The worker stopped while its requester still runs. Nothing can recover from
/// this: the caller is expected to abort.
#[derive(Clone, Copy, Debug, PartialEq, Eq, Structural)]
pub struct WorkerStopped;

/// Relies on `SyncSender::try_send`: it never blocks, and reports one of the
/// three outcomes, which depend on the state of the channel at that moment.
#[verifier::external_body]
fn try_signal(tx: &SyncSender<()>) -> (r: SendOutcome) {
    match tx.try_send(()) {
        Ok(()) => SendOutcome::Sent,
        Err(TrySendError::Full(())) => SendOutcome::Full,
        Err(TrySendError::Disconnected(())) => SendOutcome::Disconnected,
    }
}

/// The coalescing policy: a request that finds the mailbox full is dropped without
/// error; a vanished worker is an error.
pub fn submission_from(outcome: SendOutcome) -> (r: Result<Submission, WorkerStopped>)
    ensures
        r == match outcome {
            SendOutcome::Sent => Ok::<Submission, WorkerStopped>(Submission::Queued),
            SendOutcome::Full => Ok(Submission::Coalesced),
            SendOutcome::Disconnected => Err(WorkerStopped),
        },
{
    match outcome {
        SendOutcome::Sent => Ok(Submission::Queued),
        SendOutcome::Full => Ok(Submission::Coalesced),
        SendOutcome::Disconnected => Err(WorkerStopped),
    }
}

/// Notifies the worker on the other side of `tx` that there is more work to be
/// done, without ever blocking: the request is queued when the mailbox is empty,
/// coalesced into the pending one when it is full, and `Err` when the worker is
/// gone.
pub fn submit_work(tx: &SyncSender<()>) -> (r: Result<Submission, WorkerStopped>)
    ensures
        exists|o: SendOutcome| r == #[trigger] spec_submission(o),
{
    let outcome = try_signal(tx);
    let r = submission_from(outcome);
    assert(r == spec_submission(outcome));
    r
}

/// What `submission_from` returns for `outcome`.
pub open spec fn spec_submission(outcome: SendOutcome) -> Result<Submission, WorkerStopped> {
    match outcome {
        SendOutcome::Sent => Ok(Submission::Queued),
        SendOutcome::Full => Ok(Submission::Coalesced),
        SendOutcome::Disconnected => Err(WorkerStopped),
    }
}

} // verus!
