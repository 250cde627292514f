//! The error taxonomy of the orchestration core.

use vstd::prelude::*;
use vstd::string::StringExecFns;

verus! {

/// Failure of the durable store.
#[derive(Clone, Copy, Debug, PartialEq, Eq, Structural)]
pub enum StorageError {
    /// The store could not be reached or the query failed.
    Unavailable,
    /// A uniqueness constraint rejected the insert.
    Duplicate,
}

/// Failure of one step against the relay network.
#[derive(Clone, Copy, Debug, PartialEq, Eq, Structural)]
pub enum RelayError {
    /// No session could be established.
    Connect,
    /// The profile document was rejected or could not be sent.
    Profile,
    /// The signed event was not accepted by any relay.
    Emit,
    /// A session could not be torn down cleanly.
    Disconnect,
}

/// The only failure a publish attempt reports to its caller.
#[derive(Clone, Copy, Debug, PartialEq, Eq, Structural)]
pub enum PublishError {
    /// The emit step failed.
    Emit,
}

/// Everything that can end a channel's cycle or an item's publish attempt.
#[derive(Clone, Copy, Debug, PartialEq, Eq, Structural)]
pub enum Error {
    /// The identity store or the ledger failed.
    DbError(StorageError),
    /// The upstream feed or API was unavailable or malformed.
    UpstreamFetch,
    /// A stored secret key could not be parsed.
    Nostr,
    /// The relay network rejected the note.
    NostrWrapper(RelayError),
    /// An answer arrived that the current phase does not wait for.
    UnexpectedEvent,
}

impl StorageError {
    /// The text of the error.
    pub open spec fn message_spec(self) -> Seq<char> {
        match self {
            StorageError::Unavailable => "store unavailable"@,
            StorageError::Duplicate => "duplicate key"@,
        }
    }

    /// The text of the error.
    pub fn message(&self) -> (s: String)
        ensures
            s@ == self.message_spec(),
    {
        match self {
            StorageError::Unavailable => String::from_str("store unavailable"),
            StorageError::Duplicate => String::from_str("duplicate key"),
        }
    }
}

impl RelayError {
    /// The text of the error.
    pub open spec fn message_spec(self) -> Seq<char> {
        match self {
            RelayError::Connect => "connect failed"@,
            RelayError::Profile => "profile sync failed"@,
            RelayError::Emit => "emit failed"@,
            RelayError::Disconnect => "disconnect failed"@,
        }
    }

    /// The text of the error.
    pub fn message(&self) -> (s: String)
        ensures
            s@ == self.message_spec(),
    {
        match self {
            RelayError::Connect => String::from_str("connect failed"),
            RelayError::Profile => String::from_str("profile sync failed"),
            RelayError::Emit => String::from_str("emit failed"),
            RelayError::Disconnect => String::from_str("disconnect failed"),
        }
    }
}

impl PublishError {
    /// The relay failure behind a failed publish attempt.
    pub open spec fn cause_spec(self) -> RelayError {
        RelayError::Emit
    }

    /// The relay failure behind a failed publish attempt.
    pub fn cause(&self) -> (e: RelayError)
        ensures
            e == self.cause_spec(),
    {
        RelayError::Emit
    }
}

impl Error {
    /// The text of the error: the name of its source, then the detail.
    pub open spec fn message_spec(self) -> Seq<char> {
        match self {
            Error::DbError(e) => "Database error: "@ + e.message_spec(),
            Error::UpstreamFetch => "Youtube error: upstream fetch failed"@,
            Error::Nostr => "Nostr error: invalid secret key"@,
            Error::NostrWrapper(e) => "NostrWrapper error: "@ + e.message_spec(),
            Error::UnexpectedEvent => "Custom error: unexpected event"@,
        }
    }

    /// The text of the error: the name of its source, then the detail.
    pub fn message(&self) -> (s: String)
        ensures
            s@ == self.message_spec(),
    {
        match self {
            Error::DbError(e) => {
                let detail = e.message();
                String::from_str("Database error: ").concat(detail.as_str())
            },
            Error::UpstreamFetch => String::from_str("Youtube error: upstream fetch failed"),
            Error::Nostr => String::from_str("Nostr error: invalid secret key"),
            Error::NostrWrapper(e) => {
                let detail = e.message();
                String::from_str("NostrWrapper error: ").concat(detail.as_str())
            },
            Error::UnexpectedEvent => String::from_str("Custom error: unexpected event"),
        }
    }

    /// The error that a failed publish attempt becomes at the level of a cycle.
    pub open spec fn from_publish_spec(e: PublishError) -> Error {
        Error::NostrWrapper(e.cause_spec())
    }

    /// The error that a failed publish attempt becomes at the level of a cycle.
    pub fn from_publish(e: PublishError) -> (r: Error)
        ensures
            r == Error::from_publish_spec(e),
    {
        Error::NostrWrapper(e.cause())
    }
}

} // verus!
