//! The shapes of the replies that a node gives.

use vstd::prelude::*;
use crate::address::Address;
use crate::store::Db;
use crate::value::Value;

verus! {

/// The reply to a read: the value, or `Unit` for a missing key.
#[derive(Debug, PartialEq)]
pub struct GetResponse {
    pub data: Value,
}

/// The reply to a write.
#[derive(Debug, PartialEq)]
pub struct SetResponse {
    pub status: Value,
}

/// The reply to a delete: whether an entry was removed.
#[derive(Debug, PartialEq)]
pub struct DelResponse {
    pub deleted: bool,
}

/// The reply to a listing: every key once, in no particular order.
#[derive(Debug, PartialEq)]
pub struct KeysResponse {
    pub keys: Vec<String>,
}

/// The reply to a purge.
#[derive(Debug, PartialEq)]
pub struct PurgeResponse {
    pub purged: bool,
}

/// The reply to a ping.
#[derive(Debug, PartialEq)]
pub struct PingResponse {
    pub pong: bool,
}

/// The reply to a join: the code of the cluster and its members.
#[derive(Debug, PartialEq)]
pub struct JoinResponse {
    pub code: String,
    pub neighbours: Vec<Address>,
}

/// The reply to an accepted fanout.
#[derive(Debug, PartialEq)]
pub struct FanoutResponse {
    pub fanout: String,
}

/// The status that a refused request is answered with.
pub const BAD_REQUEST: u16 = 400;

/// The reply to a request that is refused; the state of the node is then
/// as it was.
#[derive(Debug, Clone, Copy, PartialEq, Eq, Structural)]
pub enum ErrorResponse {
    /// The host of a join cannot serve as a base for paths.
    InvalidHost,
    /// The code presented is not the code of this node.
    InvalidCode,
}

impl ErrorResponse {
    /// The text of the error, as the reply carries it.
    pub open spec fn text(&self) -> Seq<char> {
        match self {
            ErrorResponse::InvalidHost => "invalid host"@,
            ErrorResponse::InvalidCode => "invalid code"@,
        }
    }

    /// The status that the reply carries: that of a bad request.
    pub fn status(&self) -> (status: u16)
        ensures
            status == BAD_REQUEST,
    {
        BAD_REQUEST
    }

    /// The text of the error.
    pub fn error(&self) -> (text: String)
        ensures
            text@ == self.text(),
    {
        match self {
            ErrorResponse::InvalidHost => "invalid host".to_owned(),
            ErrorResponse::InvalidCode => "invalid code".to_owned(),
        }
    }
}

/// Any reply of a node.
#[derive(Debug)]
#[non_exhaustive]
pub enum Response {
    GET(GetResponse),
    SET(SetResponse),
    DEL(DelResponse),
    KEYS(KeysResponse),
    PURGE(PurgeResponse),
    PONG(PingResponse),
    JOIN(JoinResponse),
    FANOUT(FanoutResponse),
    SYNC(Db),
}

} // verus!
