use vstd::prelude::*;
use crate::session::SessionState;

verus! {

/// How many packages the broadcast channel holds for a slow session before
/// it drops the oldest.
pub const BROADCAST_BUFFER_SIZE: usize = 32;

/// Why the server stopped.
#[derive(Debug, Clone, Copy, PartialEq, Eq, Structural)]
pub enum ServerError {
    /// The listener could not be bound, or failed while accepting.
    IOError,
    /// The task that accepts connections could not be joined.
    JoinError,
    /// The persistence backend refused a connection.
    RedisError,
}

impl ServerError {
    /// The text of each error.
    pub open spec fn text(self) -> Seq<char> {
        match self {
            ServerError::IOError => "IOError"@,
            ServerError::JoinError => "Join error"@,
            ServerError::RedisError => "Error on redis"@,
        }
    }

    /// A human-readable description of the error.
    pub fn message(&self) -> (res: String)
        ensures
            res@ == self.text(),
    {
        match self {
            ServerError::IOError => "IOError".to_owned(),
            ServerError::JoinError => "Join error".to_owned(),
            ServerError::RedisError => "Error on redis".to_owned(),
        }
    }
}

/// What an attempt to take the next connection came to.
#[derive(Debug, Clone, Copy, PartialEq, Eq, Structural)]
pub enum AcceptOutcome {
    /// A peer connected, and the store gave the session a handle.
    Connected,
    /// The listener failed.
    ListenerFailed,
    /// A peer connected, but the store gave no handle.
    StoreFailed,
}

/// The decision on an accepted connection: a session that has subscribed to
/// the broadcast channel and runs, or the error that ends the accept loop.
pub fn on_accept(outcome: AcceptOutcome) -> (res: Result<SessionState, ServerError>)
    ensures
        res == match outcome {
            AcceptOutcome::Connected => Ok::<SessionState, ServerError>(SessionState::Running),
            AcceptOutcome::ListenerFailed => Err::<SessionState, ServerError>(
                ServerError::IOError,
            ),
            AcceptOutcome::StoreFailed => Err::<SessionState, ServerError>(
                ServerError::RedisError,
            ),
        },
{
    match outcome {
        AcceptOutcome::Connected => Ok(SessionState::new().subscribed()),
        AcceptOutcome::ListenerFailed => Err(ServerError::IOError),
        AcceptOutcome::StoreFailed => Err(ServerError::RedisError),
    }
}

} // verus!
