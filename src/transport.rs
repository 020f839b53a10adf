//! The outside Redis client as this library sees it: its types are carried
//! through unopened, and each call the library makes goes through one
//! function here whose contract states what the client's source shows.

use redis::ConnectionLike;
use std::time::Duration;
use vstd::prelude::*;

verus! {

#[verifier::external_type_specification]
#[verifier::external_body]
pub struct ExConnectionInfo(redis::ConnectionInfo);

#[verifier::external_type_specification]
#[verifier::external_body]
pub struct ExRedisError(redis::RedisError);

#[verifier::external_type_specification]
#[verifier::external_body]
pub struct ExClient(redis::Client);

#[verifier::external_type_specification]
#[verifier::external_body]
pub struct ExConnection(redis::Connection);

/// Whether the Redis client accepts `s` as a connection URL. Parsing depends
/// on the text alone and performs no I/O (Unix-socket URLs are accepted on
/// Unix targets only, which a build fixes once).
pub uninterp spec fn redis_url_accepted(s: Seq<char>) -> bool;

/// The endpoint description the Redis client parses `s` into, where it
/// accepts it. Like acceptance, it depends on the text alone.
pub uninterp spec fn parsed_info(s: Seq<char>) -> redis::ConnectionInfo;

/// Relies on `<&str as redis::IntoConnectionInfo>::into_connection_info`:
/// it parses a URL and succeeds exactly when the text is a Redis URL; an
/// empty text is not a URL at all.
#[verifier::external_body]
pub(crate) fn parse_address(s: &str) -> (r: Result<redis::ConnectionInfo, redis::RedisError>)
    ensures
        r is Ok <==> redis_url_accepted(s@),
        r is Ok ==> r->Ok_0 == parsed_info(s@),
        s@.len() == 0 ==> r is Err,
{
    redis::IntoConnectionInfo::into_connection_info(s)
}

/// Relies on `redis::Client::open`, which for an already parsed
/// `ConnectionInfo` only stores it and never fails.
#[verifier::external_body]
pub(crate) fn open_client(info: redis::ConnectionInfo) -> (r: Result<redis::Client, redis::RedisError>)
    ensures
        r is Ok,
{
    redis::Client::open(info)
}

/// Relies on `redis::Client::get_connection`: opens one session, bounded
/// only by the transport's own defaults. A connection is built with its open
/// flag set, and every setup step that could clear it fails the call.
#[verifier::external_body]
pub(crate) fn open_session(client: &redis::Client) -> (r: Result<redis::Connection, redis::RedisError>)
    ensures
        r is Ok ==> transport_open_flag(r->Ok_0),
{
    client.get_connection()
}

/// Relies on `redis::Client::get_connection_with_timeout`: opens one
/// session, giving up once `timeout` has passed. As for `open_session`, a
/// connection handed back has its open flag set.
#[verifier::external_body]
pub(crate) fn open_session_within(client: &redis::Client, timeout: Duration) -> (r: Result<redis::Connection, redis::RedisError>)
    ensures
        r is Ok ==> transport_open_flag(r->Ok_0),
{
    client.get_connection_with_timeout(timeout)
}

/// Relies on `redis::cmd(command).query::<String>`: one round trip on
/// `conn`, handing back the server's reply as text. The connection clears
/// its open flag only on I/O that fails the call, and never sets it again.
#[verifier::external_body]
pub(crate) fn query_text(command: &str, conn: &mut redis::Connection) -> (r: Result<String, redis::RedisError>)
    ensures
        r is Ok ==> transport_open_flag(*final(conn)) == transport_open_flag(*old(conn)),
        !transport_open_flag(*old(conn)) ==> !transport_open_flag(*final(conn)),
{
    redis::cmd(command).query::<String>(conn)
}

/// The "transport still open" flag that a connection's own past I/O left
/// behind. It is a field of the connection value, which only methods taking
/// the connection mutably (its I/O) can change.
pub uninterp spec fn transport_open_flag(c: redis::Connection) -> bool;

/// Relies on `<redis::Connection as redis::ConnectionLike>::is_open`: it
/// reads the connection's open flag; no I/O is done.
#[verifier::external_body]
pub(crate) fn transport_open(conn: &redis::Connection) -> (r: bool)
    ensures
        r == transport_open_flag(*conn),
{
    conn.is_open()
}

/// `<redis::ConnectionInfo as Clone>::clone`: a copy of the endpoint
/// description, so that each session gets a client of its own.
pub assume_specification[ <redis::ConnectionInfo as Clone>::clone ](info: &redis::ConnectionInfo) -> (r: redis::ConnectionInfo)
    ensures
        r == *info,
;

/// `redis::RedisError::is_timeout`: whether the error came from an I/O timeout.
pub assume_specification[ redis::RedisError::is_timeout ](e: &redis::RedisError) -> (r: bool);

/// `redis::RedisError::is_io_error`: whether the error is of the I/O kind.
pub assume_specification[ redis::RedisError::is_io_error ](e: &redis::RedisError) -> (r: bool);

} // verus!
