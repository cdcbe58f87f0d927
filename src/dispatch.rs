//! The steps every storage operation goes through: acquire a token, send the
//! request, validate the status, read the body, then done or failed.
use vstd::prelude::*;
use crate::credentials::CredentialsScope;
use crate::error::{is_success, status_is_success, Operation, StorageError};

verus! {

/// Where an operation stands.
pub enum DispatchState {
    /// A token for the operation's scope is wanted.
    AcquireToken,
    /// The request is to be sent with this bearer token.
    Send { token: String },
    /// The body is to be read (decoded, or streamed to its destination).
    ReadBody,
    /// The operation succeeded.
    Done,
    /// The operation failed with this error.
    Failed { error: StorageError },
}

/// What the outside world reported for the current step.
pub enum DispatchEvent {
    TokenReady(String),
    TokenFailed(StorageError),
    Responded(u16),
    TransportFailed,
    /// The request could not be prepared (its source could not be read).
    SendFailed(StorageError),
    BodyRead,
    BodyFailed(StorageError),
}

/// Whether an operation reads the response body: listing, metadata and
/// download do; upload and delete do not.
pub open spec fn reads_body(op: Operation) -> bool {
    match op {
        Operation::ListObjects | Operation::GetMetadata | Operation::GetObject => true,
        Operation::UploadObject | Operation::DeleteObject => false,
    }
}

/// The state after an event. A non-2xx status fails with `HttpStatus` of the
/// operation, a transport failure with `Network`; an event that does not
/// belong to the current state leaves it as it is.
pub open spec fn next_state(op: Operation, s: DispatchState, e: DispatchEvent) -> DispatchState {
    match s {
        DispatchState::AcquireToken => match e {
            DispatchEvent::TokenReady(t) => DispatchState::Send { token: t },
            DispatchEvent::TokenFailed(err) => DispatchState::Failed { error: err },
            _ => s,
        },
        DispatchState::Send { .. } => match e {
            DispatchEvent::Responded(status) => if !is_success(status) {
                DispatchState::Failed { error: StorageError::HttpStatus { operation: op, status } }
            } else if reads_body(op) {
                DispatchState::ReadBody
            } else {
                DispatchState::Done
            },
            DispatchEvent::TransportFailed => DispatchState::Failed { error: StorageError::Network },
            DispatchEvent::SendFailed(err) => DispatchState::Failed { error: err },
            _ => s,
        },
        DispatchState::ReadBody => match e {
            DispatchEvent::BodyRead => DispatchState::Done,
            DispatchEvent::BodyFailed(err) => DispatchState::Failed { error: err },
            _ => s,
        },
        DispatchState::Done | DispatchState::Failed { .. } => s,
    }
}

/// Whether a state is final.
pub open spec fn is_terminal(s: DispatchState) -> bool {
    s is Done || s is Failed
}

/// An operation in progress.
pub struct Dispatch {
    pub operation: Operation,
    pub state: DispatchState,
}

/// Once an operation is done or failed, no event changes it.
pub proof fn lemma_terminal_absorbs(op: Operation, s: DispatchState, e: DispatchEvent)
    requires
        is_terminal(s),
    ensures
        next_state(op, s, e) == s,
{
}

/// Every operation that gets a token and a response ends, after at most one
/// more event, done or failed; it is done only on a 2xx status.
pub proof fn lemma_response_decides(op: Operation, token: String, status: u16, e: DispatchEvent)
    ensures
        ({
            let s = next_state(op, DispatchState::Send { token }, DispatchEvent::Responded(status));
            &&& !is_success(status) ==> s == DispatchState::Failed {
                error: StorageError::HttpStatus { operation: op, status },
            }
            &&& is_success(status) ==> (s is Done || s is ReadBody)
            &&& s is ReadBody && (e is BodyRead || e is BodyFailed) ==> is_terminal(next_state(op, s, e))
        }),
{
}

impl Dispatch {
    /// A new operation, which first wants a token.
    pub fn new(operation: Operation) -> (r: Dispatch)
        ensures
            r.operation == operation,
            r.state is AcquireToken,
    {
        Dispatch { operation, state: DispatchState::AcquireToken }
    }

    /// The scope of the token this operation wants.
    pub fn scope(&self) -> (r: CredentialsScope)
        ensures
            r == self.operation.spec_scope(),
    {
        self.operation.scope()
    }

    /// Whether this operation reads the response body.
    pub fn reads_body(&self) -> (r: bool)
        ensures
            r == reads_body(self.operation),
    {
        match self.operation {
            Operation::ListObjects | Operation::GetMetadata | Operation::GetObject => true,
            Operation::UploadObject | Operation::DeleteObject => false,
        }
    }

    /// The operation after an event.
    pub fn step(self, event: DispatchEvent) -> (r: Dispatch)
        ensures
            r.operation == self.operation,
            r.state == next_state(self.operation, self.state, event),
    {
        let op = self.operation;
        let body = self.reads_body();
        let state = match self.state {
            DispatchState::AcquireToken => match event {
                DispatchEvent::TokenReady(t) => DispatchState::Send { token: t },
                DispatchEvent::TokenFailed(err) => DispatchState::Failed { error: err },
                _ => DispatchState::AcquireToken,
            },
            DispatchState::Send { token } => match event {
                DispatchEvent::Responded(status) => if !status_is_success(status) {
                    DispatchState::Failed {
                        error: StorageError::HttpStatus { operation: op, status },
                    }
                } else if body {
                    DispatchState::ReadBody
                } else {
                    DispatchState::Done
                },
                DispatchEvent::TransportFailed => DispatchState::Failed {
                    error: StorageError::Network,
                },
                DispatchEvent::SendFailed(err) => DispatchState::Failed { error: err },
                _ => DispatchState::Send { token },
            },
            DispatchState::ReadBody => match event {
                DispatchEvent::BodyRead => DispatchState::Done,
                DispatchEvent::BodyFailed(err) => DispatchState::Failed { error: err },
                _ => DispatchState::ReadBody,
            },
            DispatchState::Done => DispatchState::Done,
            DispatchState::Failed { error } => DispatchState::Failed { error },
        };
        Dispatch { operation: op, state }
    }
}

} // verus!
