//! The command/response vocabulary exchanged with the coordinator.

use std::sync::Arc;

use tokio::sync::oneshot;
use tokio::sync::watch;

use vstd::prelude::*;

use crate::error::CoordError;
use crate::session::EndTransactionAction;
use crate::session::ParamType;
use crate::session::Session;
use crate::session::Statement;

verus! {

/// Current state of the out-of-band cancellation signal.
///
/// The signal is a single slot, last value wins: a reader sees only the most
/// recent write, never a queue of past values.
#[derive(Clone, Copy, Debug, PartialEq, Eq, Structural)]
pub enum Cancelled {
    /// No cancellation is pending.
    NotCancelled,
    /// The in-flight operation should be abandoned.
    Cancelled,
}

/// Details the coordinator reports on a successful startup handshake.
#[derive(Clone, Copy, Debug, PartialEq, Eq, Structural)]
pub struct StartupResponse {
    /// Secret that authorizes out-of-band cancellation of this connection's
    /// in-flight operations.
    pub secret_key: u32,
}

/// Outcome of executing a portal or closing a transaction.
#[derive(Clone, Copy, Debug, PartialEq, Eq, Structural)]
pub enum ExecuteResponse {
    /// The statement finished and affected this many rows.
    RowsAffected(u64),
    /// There was nothing to execute.
    EmptyQuery,
}

/// A coordinator reply: the session is unconditionally handed back, beside
/// the result for the specific request, so the caller regains exclusive
/// ownership whether the request succeeded or failed.
pub struct Response<T> {
    /// Success or failure of the request itself.
    pub result: Result<T, CoordError>,
    /// The session value, returned to its owner.
    pub session: Session,
}

/// A request sent to the coordinator. Session-bearing variants carry the
/// session value and a single-use reply slot; the coordinator answers on the
/// slot and returns the session inside the [`Response`].
pub enum Command {
    /// Begin a session on a connection. Carries the write end of the
    /// cancellation signal so the coordinator can cancel later operations.
    Startup {
        /// The session the coordinator will own for the duration of the
        /// handshake.
        session: Session,
        /// Write end of the connection's cancellation signal.
        cancel_tx: Arc<watch::Sender<Cancelled>>,
        /// Single-use reply slot.
        tx: oneshot::Sender<Response<StartupResponse>>,
    },
    /// Save a statement as a named prepared statement.
    Describe {
        /// Name under which the prepared statement is saved.
        name: String,
        /// The statement, or `None` to describe the empty statement.
        stmt: Option<Statement>,
        /// Caller-supplied parameter type hints.
        param_types: Vec<Option<ParamType>>,
        /// The session, in transit to the coordinator.
        session: Session,
        /// Single-use reply slot.
        tx: oneshot::Sender<Response<()>>,
    },
    /// Bind a statement plus parameters to a named portal.
    Declare {
        /// Name of the portal.
        name: String,
        /// The statement to bind.
        stmt: Statement,
        /// Caller-supplied parameter type hints.
        param_types: Vec<Option<ParamType>>,
        /// The session, in transit to the coordinator.
        session: Session,
        /// Single-use reply slot.
        tx: oneshot::Sender<Response<()>>,
    },
    /// Run a previously declared portal.
    Execute {
        /// Name of the portal to run.
        portal_name: String,
        /// The session, in transit to the coordinator.
        session: Session,
        /// Single-use reply slot.
        tx: oneshot::Sender<Response<ExecuteResponse>>,
    },
    /// Close the current transaction with the given action.
    Commit {
        /// Whether to commit or roll back.
        action: EndTransactionAction,
        /// The session, in transit to the coordinator.
        session: Session,
        /// Single-use reply slot.
        tx: oneshot::Sender<Response<ExecuteResponse>>,
    },
    /// Request a textual snapshot of coordinator-visible schema state.
    DumpCatalog {
        /// The session, in transit to the coordinator.
        session: Session,
        /// Single-use reply slot.
        tx: oneshot::Sender<Response<String>>,
    },
    /// Hand the session back for good; no reply is awaited.
    Terminate {
        /// The session, surrendered to the coordinator.
        session: Session,
    },
    /// Cancel the in-flight operation of *another* connection, identified by
    /// its connection id and the secret established at its startup. Sent
    /// fire-and-forget, outside any session.
    CancelRequest {
        /// Identifier of the target connection.
        conn_id: u32,
        /// Secret that authorizes the cancellation.
        secret_key: u32,
    },
}

} // verus!
