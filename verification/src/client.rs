//! The calls that a node makes to its peers: where each goes and what it
//! carries, and how often a failed call is tried again.

use vstd::prelude::*;
use crate::address::{joined, Address};
use crate::routes::internal::{FanoutRequest, JoinRequest, SyncRequest};
use crate::value::Value;

verus! {

/// How often a call that failed in transport is tried again.
pub const RETRIES: usize = 50;

/// What is left of the retries of one call.
#[derive(Debug, Clone, Copy, PartialEq, Eq, Structural)]
pub struct Limit(pub usize);

impl Limit {
    /// Decides whether a call is tried again: only after a failure, and
    /// only while retries are left; one of them is then used up.
    pub fn retry(&self, failed: bool) -> (again: Option<Limit>)
        ensures
            again is Some <==> failed && self.0 > 0,
            again is Some ==> again->0 == Limit((self.0 - 1) as usize),
    {
        if failed && self.0 > 0 {
            Some(Limit(self.0 - 1))
        } else {
            None
        }
    }
}

/// The number of times that a call is made when each attempt fails while
/// `failures` failures are still to come.
pub open spec fn attempts(limit: Limit, failures: nat) -> nat
    decreases limit.0,
{
    if failures > 0 && limit.0 > 0 {
        1 + attempts(Limit((limit.0 - 1) as usize), (failures - 1) as nat)
    } else {
        1
    }
}

/// A call is made at most once more than its limit says, however many
/// failures come; with fewer failures than the limit it is made once per
/// failure and once more.
pub proof fn lemma_attempts_bounded(limit: Limit, failures: nat)
    ensures
        attempts(limit, failures) <= limit.0 + 1,
        failures <= limit.0 ==> attempts(limit, failures) == failures + 1,
    decreases limit.0,
{
    if failures > 0 && limit.0 > 0 {
        lemma_attempts_bounded(Limit((limit.0 - 1) as usize), (failures - 1) as nat);
    }
}

/// Why a call could not be made.
#[derive(Debug, Clone, Copy, PartialEq, Eq, Structural)]
pub enum ClientError {
    /// The address of the peer cannot serve as a base for the path of the
    /// endpoint, or the URL library made no URL of it.
    InvalidUrl,
}

impl ClientError {
    /// The text of the error.
    pub fn message(&self) -> (text: String)
        ensures
            text@ == "invalid url"@,
    {
        "invalid url".to_owned()
    }
}

/// What a call carries.
#[derive(Debug, PartialEq)]
pub enum Body {
    /// Nothing.
    Empty,
    Join(JoinRequest),
    Sync(SyncRequest),
    Fanout(FanoutRequest),
    /// The new value of a key; `Unit` marks a deletion.
    Update(Value),
}

/// One call to a peer, ready to be sent.
#[derive(Debug, PartialEq)]
pub struct Request {
    /// The URL of the endpoint.
    pub url: Address,
    pub body: Body,
}

/// The URLs that a sequence of calls goes to.
pub open spec fn urls(calls: Seq<Request>) -> Seq<Seq<char>> {
    calls.map_values(|call: Request| call.url@)
}

/// The URL that an optional call goes to.
pub open spec fn call_url(call: Option<Request>) -> Option<Seq<char>> {
    match call {
        Some(call) => Some(call.url@),
        None => None,
    }
}

/// The URL two segments below a base.
pub open spec fn path2(base: Seq<char>, first: Seq<char>, second: Seq<char>) -> Option<Seq<char>> {
    match joined(base, first) {
        Some(below) => joined(below, second),
        None => None,
    }
}

/// The URL three segments below a base.
pub open spec fn path3(
    base: Seq<char>,
    first: Seq<char>,
    second: Seq<char>,
    third: Seq<char>,
) -> Option<Seq<char>> {
    match path2(base, first, second) {
        Some(below) => joined(below, third),
        None => None,
    }
}

/// Where a probe of `host` goes: `ping` below the host.
pub open spec fn ping_url(host: Address) -> Option<Seq<char>> {
    joined(host@, "ping"@)
}

/// Where a join goes: `_internal/join` below the peer.
pub open spec fn join_url(peer: Address) -> Option<Seq<char>> {
    path2(peer@, "_internal"@, "join"@)
}

/// Where a sync goes: `_internal/sync` below the peer.
pub open spec fn sync_url(peer: Address) -> Option<Seq<char>> {
    path2(peer@, "_internal"@, "sync"@)
}

/// Where a fanout goes: `_internal/fanout` below the peer.
pub open spec fn fanout_url(peer: Address) -> Option<Seq<char>> {
    path2(peer@, "_internal"@, "fanout"@)
}

/// Where the update of a key goes: `_internal/update` and the key below
/// the peer.
pub open spec fn update_url(peer: Address, key: Seq<char>) -> Option<Seq<char>> {
    path3(peer@, "_internal"@, "update"@, key)
}

/// No call goes to a peer whose address cannot be a base.
pub proof fn lemma_opaque_peer_gets_no_call(peer: Address, key: Seq<char>)
    requires
        peer.opaque(),
    ensures
        ping_url(peer) is None,
        join_url(peer) is None,
        sync_url(peer) is None,
        fanout_url(peer) is None,
        update_url(peer, key) is None,
{
}

fn below2(base: &Address, first: &str, second: &str) -> (url: Option<Address>)
    ensures
        url is Some <==> path2(base@, first@, second@) is Some,
        url is Some ==> path2(base@, first@, second@) == Some(url->0@),
{
    match base.join(first) {
        Some(below) => below.join(second),
        None => None,
    }
}

/// Builds the calls of a node.
#[derive(Debug)]
pub struct Client {
    /// The retries that each call starts with.
    pub retries: Limit,
}

impl Client {
    /// Makes a client whose calls are retried `RETRIES` times.
    pub fn new() -> (client: Client)
        ensures
            client.retries.0 == RETRIES,
    {
        Client { retries: Limit(RETRIES) }
    }

    /// The probe of a peer.
    pub fn ping(&self, host: &Address) -> (call: Result<Request, ClientError>)
        ensures
            call is Ok <==> ping_url(*host) is Some,
            call is Ok ==> ping_url(*host) == Some(call->Ok_0.url@) && call->Ok_0.body is Empty,
            call is Err ==> call->Err_0 == ClientError::InvalidUrl,
    {
        match host.join("ping") {
            Some(url) => Ok(Request { url, body: Body::Empty }),
            None => Err(ClientError::InvalidUrl),
        }
    }

    /// The push of one key to one peer: its new value, or `Unit` for a
    /// deletion. A peer whose address gives no URL gets no call.
    pub fn internal_update(&self, send_to: &Address, key: &str, value: &Value) -> (call: Option<
        Request,
    >)
        ensures
            call is Some <==> update_url(*send_to, key@) is Some,
            call is Some ==> update_url(*send_to, key@) == Some(call->0.url@),
            call is Some ==> call->0.body is Update && call->0.body->Update_0@ == value@,
    {
        match below2(send_to, "_internal", "update") {
            Some(below) => match below.join(key) {
                Some(url) => Some(Request { url, body: Body::Update(value.clone()) }),
                None => None,
            },
            None => None,
        }
    }

    /// The announcement of `me` to the peer `join_with`.
    pub fn join(&self, me: &Address, join_with: &Address) -> (call: Result<Request, ClientError>)
        ensures
            call is Ok <==> join_url(*join_with) is Some,
            call is Ok ==> join_url(*join_with) == Some(call->Ok_0.url@),
            call is Ok ==> call->Ok_0.body is Join && call->Ok_0.body->Join_0.host == *me,
            call is Err ==> call->Err_0 == ClientError::InvalidUrl,
    {
        match below2(join_with, "_internal", "join") {
            Some(url) => Ok(Request { url, body: Body::Join(JoinRequest { host: me.clone() }) }),
            None => Err(ClientError::InvalidUrl),
        }
    }

    /// The request for the whole store of the peer `sync_with`, presenting
    /// `code`.
    pub fn sync(&self, sync_with: &Address, code: &str) -> (call: Result<Request, ClientError>)
        ensures
            call is Ok <==> sync_url(*sync_with) is Some,
            call is Ok ==> sync_url(*sync_with) == Some(call->Ok_0.url@),
            call is Ok ==> call->Ok_0.body is Sync && call->Ok_0.body->Sync_0.code@ == code@,
            call is Err ==> call->Err_0 == ClientError::InvalidUrl,
    {
        match below2(sync_with, "_internal", "sync") {
            Some(url) => Ok(Request { url, body: Body::Sync(SyncRequest { code: code.to_owned() }) }),
            None => Err(ClientError::InvalidUrl),
        }
    }

    /// The announcement of the new member `host` to the peer `neighbour`,
    /// presenting `code`.
    pub fn fanout(&self, neighbour: &Address, host: &Address, code: &str) -> (call: Result<
        Request,
        ClientError,
    >)
        ensures
            call is Ok <==> fanout_url(*neighbour) is Some,
            call is Ok ==> fanout_url(*neighbour) == Some(call->Ok_0.url@),
            call is Ok ==> call->Ok_0.body is Fanout && call->Ok_0.body->Fanout_0.host == *host
                && call->Ok_0.body->Fanout_0.code@ == code@,
            call is Err ==> call->Err_0 == ClientError::InvalidUrl,
    {
        match below2(neighbour, "_internal", "fanout") {
            Some(url) => Ok(
                Request {
                    url,
                    body: Body::Fanout(FanoutRequest { code: code.to_owned(), host: host.clone() }),
                },
            ),
            None => Err(ClientError::InvalidUrl),
        }
    }
}

impl Clone for Client {
    fn clone(&self) -> (copy: Client)
        ensures
            copy.retries == self.retries,
    {
        Client { retries: self.retries }
    }
}

} // verus!
