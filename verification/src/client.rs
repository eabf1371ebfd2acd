//! The life cycle of a client's connection pool.
//!
//! The client decides; its caller acts. Each transition takes what the caller
//! observes of the pool it holds, changes the client's state and says what the
//! caller has to do with the pool: open one, close it, or nothing.

use vstd::prelude::*;
use crate::error::{DbError, DbErrorView, DbResult};

verus! {

/// The largest number of connections that a pool may hold.
pub const MAX_CONNECTIONS: u32 = 5;

/// The client of one PostgreSQL server.
///
/// It knows the connection string and whether a pool is held for it. Whether
/// a held pool is still alive only the pool can tell, so the transitions ask
/// for it.
#[derive(Clone, Debug, PartialEq, Eq)]
pub struct PostgresClient {
    connection_string: String,
    pool_held: bool,
}

/// The mathematical value of a [`PostgresClient`].
pub struct PostgresClientView {
    pub connection_string: Seq<char>,
    pub pool_held: bool,
}

impl View for PostgresClient {
    type V = PostgresClientView;

    closed spec fn view(&self) -> PostgresClientView {
        PostgresClientView {
            connection_string: self.connection_string@,
            pool_held: self.pool_held,
        }
    }
}

/// The order to open a pool.
#[derive(Clone, Debug, PartialEq, Eq)]
pub struct PoolRequest {
    pub connection_string: String,
    pub max_connections: u32,
}

/// The mathematical value of a [`PoolRequest`].
pub struct PoolRequestView {
    pub connection_string: Seq<char>,
    pub max_connections: u32,
}

impl View for PoolRequest {
    type V = PoolRequestView;

    open spec fn view(&self) -> PoolRequestView {
        PoolRequestView {
            connection_string: self.connection_string@,
            max_connections: self.max_connections,
        }
    }
}

/// What the caller has to do to connect.
#[derive(Clone, Debug, PartialEq, Eq)]
pub enum ConnectStep {
    /// The client is connected; nothing is to be done.
    AlreadyConnected,
    /// A pool is to be opened as requested, and the outcome reported with
    /// [`PostgresClient::finish_connect`].
    Open(PoolRequest),
}

/// What the caller has to do to disconnect.
#[derive(Clone, Copy, Debug, PartialEq, Eq, Structural)]
pub enum DisconnectStep {
    /// The client is not connected; nothing is to be done.
    AlreadyDisconnected,
    /// The pool that the caller holds is to be closed and discarded.
    Close,
}

/// What the caller has to do to reconnect: first what disconnecting asks for,
/// then open a pool as requested and report the outcome with
/// [`PostgresClient::finish_connect`].
#[derive(Clone, Debug, PartialEq, Eq)]
pub struct ReconnectStep {
    pub disconnect: DisconnectStep,
    pub open: PoolRequest,
}

impl PostgresClientView {
    /// Whether the client is connected: it holds a pool and the pool is not
    /// closed.
    pub open spec fn connected(self, pool_closed: bool) -> bool {
        self.pool_held && !pool_closed
    }

    /// The client after disconnecting: a live pool is given up, anything else
    /// stays as it is.
    pub open spec fn disconnected(self, pool_closed: bool) -> PostgresClientView {
        if self.connected(pool_closed) {
            PostgresClientView { pool_held: false, ..self }
        } else {
            self
        }
    }

    /// The client once a pool has been opened for it.
    pub open spec fn opened(self) -> PostgresClientView {
        PostgresClientView { pool_held: true, ..self }
    }

    /// The client pointed at another server.
    pub open spec fn pointed_at(self, connection_string: Seq<char>) -> PostgresClientView {
        PostgresClientView { connection_string: connection_string, ..self }
    }

    /// The request for a pool to the client's server.
    pub open spec fn request(self) -> PoolRequestView {
        PoolRequestView { connection_string: self.connection_string, max_connections: 5 }
    }

    /// What disconnecting asks of the caller.
    pub open spec fn disconnect_step(self, pool_closed: bool) -> DisconnectStep {
        if self.connected(pool_closed) {
            DisconnectStep::Close
        } else {
            DisconnectStep::AlreadyDisconnected
        }
    }
}

/// Connecting and then asking gives true; disconnecting and then asking gives
/// false; disconnecting a client that is not connected changes nothing and
/// asks nothing of the caller.
///
/// A pool that has just been opened is not closed, and a pool that was found
/// closed stays closed: `later_closed` is what the pool reports after the
/// disconnect.
pub proof fn lemma_connection_round_trip(
    client: PostgresClientView,
    pool_closed: bool,
    later_closed: bool,
)
    requires
        client.pool_held && pool_closed ==> later_closed,
    ensures
        client.opened().connected(false),
        !client.disconnected(pool_closed).connected(later_closed),
        !client.connected(pool_closed) ==> client.disconnected(pool_closed) == client
            && client.disconnect_step(pool_closed) == DisconnectStep::AlreadyDisconnected,
{
}

impl PostgresClient {
    /// A client for the server at `connection_string`. It holds no pool yet,
    /// and making it never fails.
    pub fn new(connection_string: &str) -> (client: DbResult<PostgresClient>)
        ensures
            client matches Ok(c) && c@ == (PostgresClientView {
                connection_string: connection_string@,
                pool_held: false,
            }),
    {
        Ok(PostgresClient { connection_string: connection_string.to_owned(), pool_held: false })
    }

    /// The connection string of the client.
    pub fn get_connection_string(&self) -> (s: String)
        ensures
            s@ == self@.connection_string,
    {
        self.connection_string.clone()
    }

    /// Whether the client holds a pool.
    pub fn holds_pool(&self) -> (held: bool)
        ensures
            held == self@.pool_held,
    {
        self.pool_held
    }

    /// Succeeds when the client holds a pool, and fails with a connection
    /// error otherwise.
    pub fn require_pool(&self) -> (r: DbResult<()>)
        ensures
            r is Ok <==> self@.pool_held,
            r matches Err(e) ==> e@ == DbErrorView::Connection(
                "Database client is not connected"@,
            ),
    {
        if self.pool_held {
            Ok(())
        } else {
            Err(DbError::Connection("Database client is not connected".to_owned()))
        }
    }

    /// Whether the client is connected, given what its pool reports. This
    /// never fails and changes nothing.
    pub fn is_connected(&self, pool_closed: bool) -> (connected: bool)
        ensures
            connected == self@.connected(pool_closed),
    {
        self.pool_held && !pool_closed
    }

    /// The statement to run for a round trip to the server, or a connection
    /// error where the client holds no pool.
    pub fn test_connection(&self) -> (r: DbResult<String>)
        ensures
            r is Ok <==> self@.pool_held,
            r matches Ok(sql) ==> sql@ == "SELECT 1"@,
            r matches Err(e) ==> e@ == DbErrorView::Connection(
                "Database client is not connected"@,
            ),
    {
        match self.require_pool() {
            Ok(_) => Ok("SELECT 1".to_owned()),
            Err(e) => Err(e),
        }
    }

    /// Begins to connect: nothing is to be done where the client is
    /// connected, else a pool of at most five connections is requested for
    /// the client's connection string.
    pub fn connect(&self, pool_closed: bool) -> (step: ConnectStep)
        ensures
            self@.connected(pool_closed) ==> step is AlreadyConnected,
            !self@.connected(pool_closed) ==> (step matches ConnectStep::Open(request)
                && request@ == self@.request()),
    {
        if self.is_connected(pool_closed) {
            ConnectStep::AlreadyConnected
        } else {
            ConnectStep::Open(self.request())
        }
    }

    fn request(&self) -> (request: PoolRequest)
        ensures
            request@ == self@.request(),
    {
        PoolRequest {
            connection_string: self.connection_string.clone(),
            max_connections: MAX_CONNECTIONS,
        }
    }

    /// Takes note of how opening the pool went. On success the client holds
    /// the new pool (in place of any it held before); on failure it is left
    /// as it was, and the failure is reported as a connection error with the
    /// message given.
    pub fn finish_connect(&mut self, outcome: Result<(), String>) -> (r: DbResult<()>)
        ensures
            outcome is Ok ==> r is Ok && final(self)@ == old(self)@.opened(),
            outcome matches Err(message) ==> (r matches Err(e) && e@ == DbErrorView::Connection(
                message@,
            )) && final(self)@ == old(self)@,
    {
        match outcome {
            Ok(_) => {
                self.pool_held = true;
                Ok(())
            },
            Err(message) => Err(DbError::Connection(message)),
        }
    }

    /// Disconnects: a connected client gives up its pool, which the caller
    /// has to close; any other client is left as it is. This never fails.
    pub fn disconnect(&mut self, pool_closed: bool) -> (step: DisconnectStep)
        ensures
            step == old(self)@.disconnect_step(pool_closed),
            final(self)@ == old(self)@.disconnected(pool_closed),
    {
        if self.is_connected(pool_closed) {
            self.pool_held = false;
            DisconnectStep::Close
        } else {
            DisconnectStep::AlreadyDisconnected
        }
    }

    /// Begins to reconnect to the same server: disconnects, then requests a
    /// new pool.
    pub fn reconnect(&mut self, pool_closed: bool) -> (step: ReconnectStep)
        ensures
            step.disconnect == old(self)@.disconnect_step(pool_closed),
            step.open@ == old(self)@.request(),
            final(self)@ == old(self)@.disconnected(pool_closed),
    {
        let disconnect = self.disconnect(pool_closed);
        ReconnectStep { disconnect: disconnect, open: self.request() }
    }

    /// Begins to reconnect to another server: disconnects, takes the new
    /// connection string, then requests a pool for it. The client keeps the
    /// new connection string even if opening the pool fails afterwards.
    pub fn reconnect_with_string(&mut self, connection_string: &str, pool_closed: bool) -> (step:
        ReconnectStep)
        ensures
            step.disconnect == old(self)@.disconnect_step(pool_closed),
            step.open@ == old(self)@.pointed_at(connection_string@).request(),
            final(self)@ == old(self)@.disconnected(pool_closed).pointed_at(connection_string@),
    {
        let disconnect = self.disconnect(pool_closed);
        self.connection_string = connection_string.to_owned();
        ReconnectStep { disconnect: disconnect, open: self.request() }
    }
}

} // verus!
