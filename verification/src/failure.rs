//! The kinds of backend failure, and the one answer that all of them get.

use vstd::prelude::*;

verus! {

/// Why the service cannot start.
#[derive(Debug, Clone, Copy, PartialEq, Eq, Structural)]
pub enum StartupError {
    /// A setting is missing or malformed.
    Settings,
    /// The certificate bundle could not be opened or read.
    CertificateLoad,
    /// The entry at this position of the bundle is malformed or is not
    /// acceptable as a root.
    CertificateParse { entry: usize },
}

/// Why no connection could be leased from the pool.
#[derive(Debug, Clone, Copy, PartialEq, Eq, Structural)]
pub enum PoolFault {
    /// No connection became available within the pool's timeout.
    Exhausted,
    /// A new connection could not be established or authenticated; a failed
    /// TLS handshake is of this kind.
    Establish,
}

/// Why a query on a leased connection failed.
#[derive(Debug, Clone, Copy, PartialEq, Eq, Structural)]
pub enum QueryFault {
    /// The database refused the statement or its result could not be read:
    /// the connection itself is sound.
    Rejected,
    /// The transport under the connection failed.
    Connection,
}

/// A failure of the backend, by origin.
#[derive(Debug, Clone, Copy, PartialEq, Eq, Structural)]
pub enum DatabaseError {
    Pool(PoolFault),
    Query(QueryFault),
}

/// What becomes of a lease when a request ends.
#[derive(Debug, Clone, Copy, PartialEq, Eq, Structural)]
pub enum Release {
    /// The request holds no connection.
    Nothing,
    /// The connection goes back to the idle set.
    Healthy,
    /// The connection is discarded; the pool replaces it on demand.
    Broken,
}

/// The status of a successful listing.
pub const STATUS_OK: u16 = 200;

/// The status of every backend failure.
pub const STATUS_INTERNAL_ERROR: u16 = 500;

/// The text that every backend failure is answered with.
pub open spec fn generic_message() -> Seq<char> {
    "An internal error occurred. Please try again later."@
}

impl QueryFault {
    /// Sorts a failed query: it is a failure of the connection if the
    /// connection has closed or the transport under it reported the error,
    /// and a rejected query otherwise.
    pub fn classify(closed: bool, transport: bool) -> (fault: QueryFault)
        ensures
            fault == (if closed || transport {
                QueryFault::Connection
            } else {
                QueryFault::Rejected
            }),
    {
        if closed || transport {
            QueryFault::Connection
        } else {
            QueryFault::Rejected
        }
    }

    /// How the lease ends after this fault: only a failure of the transport
    /// costs the connection.
    pub fn release(&self) -> (r: Release)
        ensures
            r == (if *self == QueryFault::Connection {
                Release::Broken
            } else {
                Release::Healthy
            }),
    {
        match self {
            QueryFault::Connection => Release::Broken,
            QueryFault::Rejected => Release::Healthy,
        }
    }
}

impl DatabaseError {
    /// The status sent for this failure: the same for every kind.
    pub fn status(&self) -> (code: u16)
        ensures
            code == STATUS_INTERNAL_ERROR,
    {
        STATUS_INTERNAL_ERROR
    }

    /// The text sent for this failure: the same for every kind, so that
    /// nothing of the backend shows.
    pub fn message(&self) -> (text: String)
        ensures
            text@ == generic_message(),
    {
        internal_error_message()
    }
}

/// The text that every backend failure is answered with, as a string.
pub fn internal_error_message() -> (text: String)
    ensures
        text@ == generic_message(),
{
    "An internal error occurred. Please try again later.".to_owned()
}

} // verus!
