//! What can go wrong, sorted by the layer that has to react: a bad address
//! is the configuration's fault, the connect failures are transient and left
//! to the pool's retry policy, and a failed probe means "discard this one".

use vstd::prelude::*;

verus! {

/// Why a liveness probe did not prove the connection usable.
#[derive(Debug)]
pub enum ProbeFailure {
    /// The round trip itself failed (transport error, timeout, error reply).
    Transport(redis::RedisError),
    /// The round trip completed but the reply was not the canonical one.
    UnexpectedReply(String),
}

/// The errors of the adapter, each wrapping what the client reported.
#[derive(Debug)]
pub enum ManagerError {
    /// The address could not be parsed; raised at construction only.
    InvalidAddress(redis::RedisError),
    /// Establishing the session took longer than the configured bound.
    ConnectTimeout(redis::RedisError),
    /// The transport failed: host unreachable, connection refused, reset.
    NetworkUnreachable(redis::RedisError),
    /// The transport worked but the service rejected the session (bad
    /// credentials, unknown database, an error reply during the handshake).
    ProtocolHandshakeFailed(redis::RedisError),
    /// The active probe of an idle connection failed.
    ValidationFailed(ProbeFailure),
}

impl ManagerError {
    /// The errors that opening a session can produce.
    pub open spec fn is_connect_failure(&self) -> bool {
        ||| self is ConnectTimeout
        ||| self is NetworkUnreachable
        ||| self is ProtocolHandshakeFailed
    }
}

/// The class of a failed connect attempt, from what the client says of the
/// error: a timeout first, then any other transport failure, and otherwise a
/// refusal by the service itself.
pub open spec fn connect_failure_spec(timed_out: bool, io_failure: bool, e: redis::RedisError) -> ManagerError {
    if timed_out {
        ManagerError::ConnectTimeout(e)
    } else if io_failure {
        ManagerError::NetworkUnreachable(e)
    } else {
        ManagerError::ProtocolHandshakeFailed(e)
    }
}

/// Sorts a failed connect attempt into the error taxonomy, given whether the
/// client reports it as a timeout and as an I/O failure.
pub fn classify_connect_failure(timed_out: bool, io_failure: bool, e: redis::RedisError) -> (r: ManagerError)
    ensures
        r == connect_failure_spec(timed_out, io_failure, e),
        r.is_connect_failure(),
{
    if timed_out {
        ManagerError::ConnectTimeout(e)
    } else if io_failure {
        ManagerError::NetworkUnreachable(e)
    } else {
        ManagerError::ProtocolHandshakeFailed(e)
    }
}

/// The command of the liveness probe: a no-op every server answers.
pub open spec fn probe_command_spec() -> Seq<char> {
    "PING"@
}

/// The text of the liveness probe's command.
pub fn probe_command() -> (r: &'static str)
    ensures
        r@ == probe_command_spec(),
{
    proof {
        reveal_strlit("PING");
    }
    "PING"
}

/// The reply a live server gives to the liveness probe.
pub open spec fn probe_reply() -> Seq<char> {
    "PONG"@
}

/// Judges the outcome of one probe round trip: success only when it
/// completed and the reply is the canonical one; everything else is a
/// validation failure carrying what went wrong.
pub fn check_probe(outcome: Result<String, redis::RedisError>) -> (r: Result<(), ManagerError>)
    ensures
        r is Ok <==> (outcome is Ok && outcome->Ok_0@ == probe_reply()),
        r is Err ==> r->Err_0 is ValidationFailed,
        outcome is Err ==> r == Err::<(), ManagerError>(
            ManagerError::ValidationFailed(ProbeFailure::Transport(outcome->Err_0)),
        ),
        (outcome is Ok && outcome->Ok_0@ != probe_reply()) ==> r == Err::<(), ManagerError>(
            ManagerError::ValidationFailed(ProbeFailure::UnexpectedReply(outcome->Ok_0)),
        ),
{
    match outcome {
        Ok(reply) => {
            let expected = "PONG".to_owned();
            proof {
                reveal_strlit("PONG");
            }
            if reply == expected {
                Ok(())
            } else {
                Err(ManagerError::ValidationFailed(ProbeFailure::UnexpectedReply(reply)))
            }
        },
        Err(e) => Err(ManagerError::ValidationFailed(ProbeFailure::Transport(e))),
    }
}

} // verus!
