//! Clients for talking to the coordinator.
//!
//! Three types narrow capabilities step by step: a [`Client`] is a bare
//! handle to the command channel plus the identifier allocator; a
//! [`ConnClient`] is bound to one allocated connection identifier; a
//! [`SessionClient`] has completed the startup handshake and owns the
//! session value and a cancellation signal.
//!
//! Every request follows the same discipline: the session is taken out of
//! the client, travels to the coordinator inside the command, and comes back
//! inside the [`Response`], which the embedding feeds to
//! [`SessionClient::complete_request`]. The contracts here prove that the
//! session is restored after every completed request, successful or failed,
//! and that a client is in the session-less state only while exactly one
//! request is in flight. Awaiting the reply itself is asynchronous and is
//! the embedding's part; the receiving endpoints are handed out by the
//! request methods.

use std::sync::Arc;

use tokio::sync::mpsc;
use tokio::sync::oneshot;
use tokio::sync::watch;

use vstd::pervasive::unreached;
use vstd::prelude::*;

use crate::channel::clone_cancel_rx;
use crate::channel::clone_cancel_tx;
use crate::channel::clone_cmd_tx;
use crate::channel::mpsc_send;
use crate::channel::oneshot_pair;
use crate::channel::watch_pair;
use crate::channel::watch_send;
use crate::command::Cancelled;
use crate::command::Command;
use crate::command::ExecuteResponse;
use crate::command::Response;
use crate::command::StartupResponse;
use crate::error::CoordError;
use crate::error::Disconnected;
use crate::id_alloc::IdAllocator;
use crate::session::EndTransactionAction;
use crate::session::ParamType;
use crate::session::Session;
use crate::session::Statement;

verus! {

/// A coordinator client: a handle to the command channel and the shared
/// connection-identifier allocator.
///
/// The allocator is a sequential value, so the handle hands out connections
/// through `&mut self`; an embedding that mints connections from several
/// tasks keeps the handle behind a lock of its own choosing.
pub struct Client {
    cmd_tx: mpsc::UnboundedSender<Command>,
    id_alloc: IdAllocator,
}

impl Client {
    /// The set of connection identifiers currently allocated.
    pub closed spec fn allocated(self) -> Set<u32> {
        self.id_alloc.allocated()
    }

    /// Lower bound (inclusive) of the identifier range.
    pub closed spec fn id_lo(self) -> u32 {
        self.id_alloc.lo()
    }

    /// Upper bound (exclusive) of the identifier range.
    pub closed spec fn id_hi(self) -> u32 {
        self.id_alloc.hi()
    }

    /// Well-formedness of the identifier allocator.
    pub closed spec fn wf(self) -> bool {
        self.id_alloc.wf()
    }

    /// The channel endpoint this client sends commands on.
    pub closed spec fn sender_view(self) -> mpsc::UnboundedSender<Command> {
        self.cmd_tx
    }

    /// Creates a client that sends commands on `cmd_tx` and draws connection
    /// identifiers from `[1, 65536)`.
    pub fn new(cmd_tx: mpsc::UnboundedSender<Command>) -> (r: Client)
        ensures
            r.sender_view() == cmd_tx,
            r.wf(),
            r.allocated() == Set::<u32>::empty(),
            r.id_lo() == 1,
            r.id_hi() == 65536,
    {
        Client { cmd_tx, id_alloc: IdAllocator::new(1, 65536) }
    }

    /// Creates a client that draws connection identifiers from
    /// `[low, high)`; useful where the embedding bounds connections itself.
    pub fn with_id_range(cmd_tx: mpsc::UnboundedSender<Command>, low: u32, high: u32) -> (r:
        Client)
        requires
            low <= high,
        ensures
            r.sender_view() == cmd_tx,
            r.wf(),
            r.allocated() == Set::<u32>::empty(),
            r.id_lo() == low,
            r.id_hi() == high,
    {
        Client { cmd_tx, id_alloc: IdAllocator::new(low, high) }
    }

    /// Allocates a client for an incoming connection.
    ///
    /// The new connection's identifier is the lowest one free, was not
    /// allocated before the call, and is allocated after it; the call fails
    /// with [`CoordError::IdExhausted`] exactly when every identifier in the
    /// range is in use.
    pub fn new_conn(&mut self) -> (r: Result<ConnClient, CoordError>)
        requires
            old(self).wf(),
        ensures
            final(self).wf(),
            final(self).sender_view() == old(self).sender_view(),
            final(self).id_lo() == old(self).id_lo(),
            final(self).id_hi() == old(self).id_hi(),
            match r {
                Ok(conn) => {
                    &&& conn.sender_view() == old(self).sender_view()
                    &&& old(self).id_lo() <= conn.id() < old(self).id_hi()
                    &&& !old(self).allocated().contains(conn.id())
                    &&& final(self).allocated() == old(self).allocated().insert(conn.id())
                    &&& forall|j: u32|
                        old(self).id_lo() <= j < conn.id() ==> old(self).allocated().contains(j)
                },
                Err(e) => {
                    &&& e is IdExhausted
                    &&& final(self).allocated() == old(self).allocated()
                    &&& forall|j: u32|
                        old(self).id_lo() <= j < old(self).id_hi() ==> old(
                            self,
                        ).allocated().contains(j)
                },
            },
    {
        match self.id_alloc.allocate() {
            Ok(id) => Ok(ConnClient { conn_id: id, cmd_tx: clone_cmd_tx(&self.cmd_tx) }),
            Err(_) => Err(CoordError::IdExhausted),
        }
    }

    /// Releases a connection, returning its identifier to the pool so a
    /// later [`Client::new_conn`] may reuse it. Every connection must be
    /// released exactly once, including ones whose startup failed.
    pub fn free_conn(&mut self, conn: ConnClient)
        requires
            old(self).wf(),
        ensures
            final(self).wf(),
            final(self).sender_view() == old(self).sender_view(),
            final(self).id_lo() == old(self).id_lo(),
            final(self).id_hi() == old(self).id_hi(),
            final(self).allocated() == old(self).allocated().remove(conn.id()),
    {
        self.id_alloc.free(conn.conn_id);
    }
}

/// A coordinator client bound to one connection identifier, which it owns
/// until it is handed back through [`Client::free_conn`].
pub struct ConnClient {
    conn_id: u32,
    cmd_tx: mpsc::UnboundedSender<Command>,
}

impl ConnClient {
    /// The connection identifier this client owns.
    pub closed spec fn id(self) -> u32 {
        self.conn_id
    }

    /// The channel endpoint this client sends commands on: the one of the
    /// [`Client`] it was minted from.
    pub closed spec fn sender_view(self) -> mpsc::UnboundedSender<Command> {
        self.cmd_tx
    }

    /// Returns the ID of the connection associated with this client.
    pub fn conn_id(&self) -> (r: u32)
        ensures
            r == self.id(),
    {
        self.conn_id
    }

    /// Upgrades this connection client to a session client by starting the
    /// handshake.
    ///
    /// The session and the write end of a fresh cancellation signal travel
    /// to the coordinator inside the startup command; the returned receiver
    /// yields the coordinator's reply, which the embedding feeds to
    /// [`SessionClient::finish_startup`]. Until then the session client is
    /// in its in-flight state. When the channel to the coordinator is
    /// severed, the connection client and the session come back unchanged so
    /// that nothing is leaked.
    pub fn startup(self, session: Session) -> (r: Result<
        (SessionClient, oneshot::Receiver<Response<StartupResponse>>),
        (ConnClient, Session),
    >)
        ensures
            match r {
                Ok((client, _)) => !client.has_session() && client.conn_view() == self
                    && client.id() == self.id(),
                Err((conn, s)) => conn == self && conn.id() == self.id() && s == session,
            },
    {
        let (cancel_tx_raw, cancel_rx) = watch_pair(Cancelled::NotCancelled);
        let cancel_tx = Arc::new(cancel_tx_raw);
        let cancel_tx_coord = clone_cancel_tx(&cancel_tx);
        let (tx, rx) = oneshot_pair::<Response<StartupResponse>>();
        match mpsc_send(&self.cmd_tx, Command::Startup { session, cancel_tx: cancel_tx_coord, tx }) {
            Ok(()) => Ok((SessionClient { inner: self, session: None, cancel_tx, cancel_rx }, rx)),
            Err(c) => match c {
                Command::Startup { session: s, cancel_tx: _, tx: _ } => Err((self, s)),
                _ => unreached(),
            },
        }
    }

    /// Cancels the query currently running on another connection,
    /// identified by its connection id and the secret established at its
    /// startup. Fire-and-forget: no session is involved and no reply comes.
    pub fn cancel_request(&mut self, conn_id: u32, secret_key: u32) -> (r: Result<
        (),
        Disconnected,
    >)
        ensures
            *final(self) == *old(self),
    {
        match mpsc_send(&self.cmd_tx, Command::CancelRequest { conn_id, secret_key }) {
            Ok(()) => Ok(()),
            Err(_) => Err(Disconnected),
        }
    }
}

/// Decides whether a cancellation observation resolves: exactly when the
/// observed signal value is [`Cancelled::Cancelled`]. A spurious wake-up
/// that observes [`Cancelled::NotCancelled`] keeps the observation waiting.
pub fn cancellation_resolved(observed: Cancelled) -> (r: bool)
    ensures
        r <==> observed is Cancelled,
{
    match observed {
        Cancelled::Cancelled => true,
        Cancelled::NotCancelled => false,
    }
}

/// A coordinator client bound to a started session.
///
/// The client owns the session value except while exactly one request is in
/// flight; every completed request restores it, whatever the result. End the
/// session with [`SessionClient::terminate`], which surrenders the session
/// and dissolves the client back into its [`ConnClient`] so the connection
/// identifier can be released.
pub struct SessionClient {
    inner: ConnClient,
    session: Option<Session>,
    cancel_tx: Arc<watch::Sender<Cancelled>>,
    cancel_rx: watch::Receiver<Cancelled>,
}

impl SessionClient {
    /// Whether the client currently holds the session (no request in
    /// flight).
    pub closed spec fn has_session(self) -> bool {
        self.session is Some
    }

    /// The session as the client holds it: `Some` between requests, `None`
    /// while one is in flight.
    pub closed spec fn session_view(self) -> Option<Session> {
        self.session
    }

    /// The connection identifier this session runs on.
    pub closed spec fn id(self) -> u32 {
        self.inner.conn_id
    }

    /// The connection client inside, which a request never changes and
    /// which [`SessionClient::terminate`] hands back.
    pub closed spec fn conn_view(self) -> ConnClient {
        self.inner
    }

    /// The shared write end of the cancellation signal.
    pub closed spec fn cancel_tx_view(self) -> Arc<watch::Sender<Cancelled>> {
        self.cancel_tx
    }

    /// The read end of the cancellation signal, which
    /// [`SessionClient::canceled`] hands out copies of.
    pub closed spec fn cancel_rx_view(self) -> watch::Receiver<Cancelled> {
        self.cancel_rx
    }

    /// Everything but the session — the connection client and both
    /// cancellation endpoints — is the same in both states: no request
    /// touches it.
    pub open spec fn handles_unchanged(self, other: SessionClient) -> bool {
        &&& self.conn_view() == other.conn_view()
        &&& self.cancel_tx_view() == other.cancel_tx_view()
        &&& self.cancel_rx_view() == other.cancel_rx_view()
    }

    /// Reports whether the session is currently held (no request in
    /// flight). A client discarded in this state still owns a session, which
    /// an embedding should treat as a lifecycle defect.
    pub fn is_active(&self) -> (r: bool)
        ensures
            r == self.has_session(),
    {
        self.session.is_some()
    }

    /// Completes the startup handshake with the coordinator's reply.
    ///
    /// On success the session client holds the returned session and is ready
    /// for requests. On failure no live session client remains: the bare
    /// connection client comes back, so discarding it cannot leak a session,
    /// and its identifier can be released as usual.
    pub fn finish_startup(self, resp: Response<StartupResponse>) -> (r: Result<
        (SessionClient, StartupResponse),
        (ConnClient, CoordError),
    >)
        requires
            !self.has_session(),
        ensures
            match r {
                Ok((client, sr)) => {
                    &&& resp.result == Ok::<StartupResponse, CoordError>(sr)
                    &&& client.has_session()
                    &&& client.session_view() == Some(resp.session)
                    &&& client.handles_unchanged(self)
                    &&& client.id() == self.id()
                },
                Err((conn, e)) => {
                    &&& resp.result == Err::<StartupResponse, CoordError>(e)
                    &&& conn == self.conn_view()
                    &&& conn.id() == self.id()
                },
            },
            r is Ok <==> resp.result is Ok,
    {
        let SessionClient { inner, session: _, cancel_tx, cancel_rx } = self;
        let Response { result, session } = resp;
        match result {
            Ok(sr) => Ok(
                (SessionClient { inner, session: Some(session), cancel_tx, cancel_rx }, sr),
            ),
            Err(e) => Err((inner, e)),
        }
    }

    /// Hands a coordinator reply back to the client, restoring the session
    /// it carries — whether the request succeeded or failed — and yielding
    /// the request's result.
    pub fn complete_request<T>(&mut self, resp: Response<T>) -> (r: Result<T, CoordError>)
        requires
            !old(self).has_session(),
        ensures
            final(self).has_session(),
            final(self).session_view() == Some(resp.session),
            final(self).id() == old(self).id(),
            final(self).handles_unchanged(*old(self)),
            r == resp.result,
    {
        let Response { result, session } = resp;
        self.session = Some(session);
        result
    }

    /// Saves the specified statement as a prepared statement under `name`,
    /// sending the session along; the reply arrives on the returned
    /// receiver and is completed with [`SessionClient::complete_request`].
    /// When the channel to the coordinator is severed, the session is
    /// recovered from the undelivered command and stays with the client.
    pub fn describe(
        &mut self,
        name: String,
        stmt: Option<Statement>,
        param_types: Vec<Option<ParamType>>,
    ) -> (r: Result<oneshot::Receiver<Response<()>>, Disconnected>)
        requires
            old(self).has_session(),
        ensures
            final(self).id() == old(self).id(),
            final(self).handles_unchanged(*old(self)),
            r is Ok ==> !final(self).has_session(),
            r is Err ==> final(self).has_session() && final(self).session_view() == old(
                self,
            ).session_view(),
    {
        let session = self.session.take().unwrap();
        let (tx, rx) = oneshot_pair::<Response<()>>();
        match mpsc_send(
            &self.inner.cmd_tx,
            Command::Describe { name, stmt, param_types, session, tx },
        ) {
            Ok(()) => Ok(rx),
            Err(c) => match c {
                Command::Describe { session: s, .. } => {
                    self.session = Some(s);
                    Err(Disconnected)
                },
                _ => unreached(),
            },
        }
    }

    /// Binds a statement plus parameters to the portal named `name`. Same
    /// request discipline as [`SessionClient::describe`].
    pub fn declare(&mut self, name: String, stmt: Statement, param_types: Vec<Option<ParamType>>)
        -> (r: Result<oneshot::Receiver<Response<()>>, Disconnected>)
        requires
            old(self).has_session(),
        ensures
            final(self).id() == old(self).id(),
            final(self).handles_unchanged(*old(self)),
            r is Ok ==> !final(self).has_session(),
            r is Err ==> final(self).has_session() && final(self).session_view() == old(
                self,
            ).session_view(),
    {
        let session = self.session.take().unwrap();
        let (tx, rx) = oneshot_pair::<Response<()>>();
        match mpsc_send(
            &self.inner.cmd_tx,
            Command::Declare { name, stmt, param_types, session, tx },
        ) {
            Ok(()) => Ok(rx),
            Err(c) => match c {
                Command::Declare { session: s, .. } => {
                    self.session = Some(s);
                    Err(Disconnected)
                },
                _ => unreached(),
            },
        }
    }

    /// Runs the previously declared portal named `portal_name`. Same request
    /// discipline as [`SessionClient::describe`].
    pub fn execute(&mut self, portal_name: String) -> (r: Result<
        oneshot::Receiver<Response<ExecuteResponse>>,
        Disconnected,
    >)
        requires
            old(self).has_session(),
        ensures
            final(self).id() == old(self).id(),
            final(self).handles_unchanged(*old(self)),
            r is Ok ==> !final(self).has_session(),
            r is Err ==> final(self).has_session() && final(self).session_view() == old(
                self,
            ).session_view(),
    {
        let session = self.session.take().unwrap();
        let (tx, rx) = oneshot_pair::<Response<ExecuteResponse>>();
        match mpsc_send(&self.inner.cmd_tx, Command::Execute { portal_name, session, tx }) {
            Ok(()) => Ok(rx),
            Err(c) => match c {
                Command::Execute { session: s, .. } => {
                    self.session = Some(s);
                    Err(Disconnected)
                },
                _ => unreached(),
            },
        }
    }

    /// Closes the current transaction with `action`. Same request
    /// discipline as [`SessionClient::describe`].
    pub fn end_transaction(&mut self, action: EndTransactionAction) -> (r: Result<
        oneshot::Receiver<Response<ExecuteResponse>>,
        Disconnected,
    >)
        requires
            old(self).has_session(),
        ensures
            final(self).id() == old(self).id(),
            final(self).handles_unchanged(*old(self)),
            r is Ok ==> !final(self).has_session(),
            r is Err ==> final(self).has_session() && final(self).session_view() == old(
                self,
            ).session_view(),
    {
        let session = self.session.take().unwrap();
        let (tx, rx) = oneshot_pair::<Response<ExecuteResponse>>();
        match mpsc_send(&self.inner.cmd_tx, Command::Commit { action, session, tx }) {
            Ok(()) => Ok(rx),
            Err(c) => match c {
                Command::Commit { session: s, .. } => {
                    self.session = Some(s);
                    Err(Disconnected)
                },
                _ => unreached(),
            },
        }
    }

    /// Requests a textual snapshot of coordinator-visible schema state.
    /// Same request discipline as [`SessionClient::describe`].
    pub fn dump_catalog(&mut self) -> (r: Result<
        oneshot::Receiver<Response<String>>,
        Disconnected,
    >)
        requires
            old(self).has_session(),
        ensures
            final(self).id() == old(self).id(),
            final(self).handles_unchanged(*old(self)),
            r is Ok ==> !final(self).has_session(),
            r is Err ==> final(self).has_session() && final(self).session_view() == old(
                self,
            ).session_view(),
    {
        let session = self.session.take().unwrap();
        let (tx, rx) = oneshot_pair::<Response<String>>();
        match mpsc_send(&self.inner.cmd_tx, Command::DumpCatalog { session, tx }) {
            Ok(()) => Ok(rx),
            Err(c) => match c {
                Command::DumpCatalog { session: s, .. } => {
                    self.session = Some(s);
                    Err(Disconnected)
                },
                _ => unreached(),
            },
        }
    }

    /// Terminates this client session: the session travels to the
    /// coordinator for good, the client is consumed, and the bare connection
    /// client comes back so its identifier can be released. An `Err` in the
    /// pair means the channel was already severed; it carries the session,
    /// recovered from the undelivered command so nothing is leaked, and the
    /// embedding should treat it as fatal.
    pub fn terminate(self) -> (r: (ConnClient, Result<(), (Session, Disconnected)>))
        requires
            self.has_session(),
        ensures
            r.0 == self.conn_view(),
            r.0.id() == self.id(),
            r.1 matches Err((s, _)) ==> Some(s) == self.session_view(),
    {
        let SessionClient { inner, session, cancel_tx: _, cancel_rx: _ } = self;
        let s = match session {
            Some(s) => s,
            None => unreached(),
        };
        match mpsc_send(&inner.cmd_tx, Command::Terminate { session: s }) {
            Ok(()) => (inner, Ok(())),
            Err(c) => match c {
                Command::Terminate { session: s } => (inner, Err((s, Disconnected))),
                _ => unreached(),
            },
        }
    }

    /// Dissolves a session client that no longer holds the session — one
    /// whose in-flight request will never complete because the coordinator
    /// is gone — back into its connection client, so the connection
    /// identifier can still be released. A client that holds the session
    /// must go through [`SessionClient::terminate`] instead.
    pub fn abandon(self) -> (r: ConnClient)
        requires
            !self.has_session(),
        ensures
            r == self.conn_view(),
            r.id() == self.id(),
    {
        let SessionClient { inner, session: _, cancel_tx: _, cancel_rx: _ } = self;
        inner
    }

    /// Hands out a read handle on this client's own cancellation signal —
    /// the one whose write end went to the coordinator at startup. An
    /// observation resolves once the current value satisfies
    /// [`cancellation_resolved`]; the embedding awaits changes on the handle
    /// and loops past spurious [`Cancelled::NotCancelled`] wake-ups.
    pub fn canceled(&self) -> (r: watch::Receiver<Cancelled>)
        ensures
            r == self.cancel_rx_view(),
    {
        clone_cancel_rx(&self.cancel_rx)
    }

    /// Resets the cancellation signal to [`Cancelled::NotCancelled`] so a
    /// cancellation delivered for an earlier statement does not bleed into
    /// the next one.
    pub fn reset_canceled(&mut self)
        ensures
            *final(self) == *old(self),
    {
        let _ = watch_send(&self.cancel_tx, Cancelled::NotCancelled);
    }

    /// Returns a mutable reference to the session bound to this client.
    pub fn session(&mut self) -> (r: &mut Session)
        requires
            old(self).has_session(),
        ensures
            *r == old(self).session_view().unwrap(),
            final(self).has_session(),
            final(self).session_view() == Some(*final(r)),
            final(self).id() == old(self).id(),
            final(self).handles_unchanged(*old(self)),
    {
        match self.session.as_mut() {
            Some(s) => s,
            None => unreached(),
        }
    }
}

} // verus!
