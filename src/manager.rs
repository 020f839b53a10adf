//! The adapter a resource pool plugs in: immutable parameters resolved once
//! at construction, and the three lifecycle operations the pool calls.

use crate::error::{check_probe, classify_connect_failure, probe_command, ManagerError};
use crate::transport::{
    open_client, open_session, open_session_within, parse_address, parsed_info, query_text,
    redis_url_accepted, transport_open, transport_open_flag,
};
use std::time::Duration;
use vstd::prelude::*;

verus! {

/// Opens, probes and inspects Redis connections on behalf of a pool.
///
/// It holds no mutable state, so any number of callers may use one instance
/// at once; each connection it hands out is independent of the others.
#[derive(Debug)]
pub struct RedisConnectionManager {
    connection_info: redis::ConnectionInfo,
    timeout: Option<Duration>,
}

impl RedisConnectionManager {
    /// The resolved endpoint that every new session is opened to.
    pub closed spec fn info_spec(&self) -> redis::ConnectionInfo {
        self.connection_info
    }

    /// The bound on establishing a session; `None` leaves the transport's default.
    pub closed spec fn timeout_spec(&self) -> Option<Duration> {
        self.timeout
    }

    /// Creates a manager for the Redis URL `params`, with no connect timeout.
    /// Only parses: no connection is attempted.
    pub fn new(params: &str) -> (r: Result<RedisConnectionManager, ManagerError>)
        ensures
            r is Ok <==> redis_url_accepted(params@),
            r is Ok ==> r->Ok_0.info_spec() == parsed_info(params@),
            r is Ok ==> r->Ok_0.timeout_spec() is None,
            r is Err ==> r->Err_0 is InvalidAddress,
            params@.len() == 0 ==> r is Err,
    {
        RedisConnectionManager::with_timeout(params, None)
    }

    /// Creates a manager for the Redis URL `params` whose sessions must be
    /// established within `timeout`, where one is given. Only parses: no
    /// connection is attempted, and a malformed address is reported here
    /// rather than on each later connect.
    pub fn with_timeout(params: &str, timeout: Option<Duration>) -> (r: Result<RedisConnectionManager, ManagerError>)
        ensures
            r is Ok <==> redis_url_accepted(params@),
            r is Ok ==> r->Ok_0.info_spec() == parsed_info(params@),
            r is Ok ==> r->Ok_0.timeout_spec() == timeout,
            r is Err ==> r->Err_0 is InvalidAddress,
            params@.len() == 0 ==> r is Err,
    {
        match parse_address(params) {
            Ok(connection_info) => Ok(RedisConnectionManager { connection_info, timeout }),
            Err(e) => Err(ManagerError::InvalidAddress(e)),
        }
    }

    /// Creates a manager from an already structured endpoint description.
    pub fn from_connection_info(info: redis::ConnectionInfo, timeout: Option<Duration>) -> (r: RedisConnectionManager)
        ensures
            r.info_spec() == info,
            r.timeout_spec() == timeout,
    {
        RedisConnectionManager { connection_info: info, timeout }
    }

    /// The endpoint every new session is opened to.
    pub fn connection_info(&self) -> (r: &redis::ConnectionInfo)
        ensures
            *r == self.info_spec(),
    {
        &self.connection_info
    }

    /// The configured connect timeout.
    pub fn timeout(&self) -> (r: Option<Duration>)
        ensures
            r == self.timeout_spec(),
    {
        self.timeout
    }

    /// Opens one new session to the configured endpoint, within the
    /// configured timeout if there is one. Nothing is retried: a failure is
    /// classified and handed back to the caller.
    pub fn connect(&self) -> (r: Result<redis::Connection, ManagerError>)
        ensures
            r is Ok ==> transport_open_flag(r->Ok_0),
            r is Err ==> r->Err_0.is_connect_failure(),
    {
        let client = match open_client(self.connection_info.clone()) {
            Ok(client) => client,
            Err(e) => {
                let timed_out = e.is_timeout();
                let io_failure = e.is_io_error();
                return Err(classify_connect_failure(timed_out, io_failure, e));
            },
        };
        let outcome = match self.timeout {
            Some(timeout) => open_session_within(&client, timeout),
            None => open_session(&client),
        };
        match outcome {
            Ok(conn) => Ok(conn),
            Err(e) => {
                let timed_out = e.is_timeout();
                let io_failure = e.is_io_error();
                Err(classify_connect_failure(timed_out, io_failure, e))
            },
        }
    }

    /// The active check: one probe round trip over `conn`. Succeeds only if
    /// the server answered with the canonical reply; any transport error,
    /// timeout or other reply is a `ValidationFailed`.
    pub fn is_valid(&self, conn: &mut redis::Connection) -> (r: Result<(), ManagerError>)
        ensures
            r is Ok ==> transport_open_flag(*final(conn)) == transport_open_flag(*old(conn)),
            !transport_open_flag(*old(conn)) ==> !transport_open_flag(*final(conn)),
            r is Err ==> r->Err_0 is ValidationFailed,
    {
        let outcome = query_text(probe_command(), conn);
        check_probe(outcome)
    }

    /// The passive check: whether `conn`'s own record of its past I/O says
    /// the transport is closed. Performs no I/O and never fails.
    pub fn has_broken(&self, conn: &mut redis::Connection) -> (r: bool)
        ensures
            r == !transport_open_flag(*old(conn)),
            *final(conn) == *old(conn),
    {
        !transport_open(conn)
    }
}

} // verus!
