//! The per-connection session value and the plain data carried by requests.

use vstd::prelude::*;

verus! {

/// All per-connection execution state, owned by exactly one of the session
/// client, the coordinator, or a command/response in transit between them.
///
/// The value is deliberately move-only (no `Clone`): the type system itself
/// rules out a duplicated session.
#[derive(Debug)]
pub struct Session {
    /// Identifier of the connection this session belongs to.
    pub conn_id: u32,
    /// Name of the user the connection was established for.
    pub user: String,
}

impl Session {
    /// Creates a fresh session for the given connection and user.
    pub fn new(conn_id: u32, user: String) -> (r: Session)
        ensures
            r.conn_id == conn_id,
            r.user == user,
    {
        Session { conn_id, user }
    }
}

/// How a transaction is closed by an end-transaction request.
#[derive(Clone, Copy, Debug, PartialEq, Eq, Structural)]
pub enum EndTransactionAction {
    /// Commit the transaction.
    Commit,
    /// Roll the transaction back.
    Rollback,
}

/// A SQL statement, carried as its text.
#[derive(Debug)]
pub struct Statement {
    /// The statement's source text.
    pub sql: String,
}

/// A parameter type hint for a prepared statement, carried as a type
/// identifier.
#[derive(Clone, Copy, Debug, PartialEq, Eq, Structural)]
pub struct ParamType {
    /// Identifier of the wire type.
    pub oid: u32,
}

} // verus!
