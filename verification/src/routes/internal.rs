//! The membership endpoints: join, fanout and sync, and the push of an
//! update from a peer.

use vstd::prelude::*;
use crate::address::Address;
use crate::client::{fanout_url, urls, Client, Request};
use crate::config::RuntimeConfig;
use crate::neighbours::with_member;
use crate::responses::{ErrorResponse, FanoutResponse, JoinResponse, SetResponse};
use crate::routes::{ok_reponse, ok_status};
use crate::store::{listed_entries, map_insert, map_pairs, store_entries, texts, Db};
use crate::value::Value;

verus! {

/// A node asks to be made a member.
#[derive(Debug, PartialEq)]
pub struct JoinRequest {
    /// How the new member is reached.
    pub host: Address,
}

/// A member asks for the whole store.
#[derive(Debug, PartialEq)]
pub struct SyncRequest {
    /// The code that the asking node holds.
    pub code: String,
}

/// A member announces a new member.
#[derive(Debug, PartialEq)]
pub struct FanoutRequest {
    /// The code that the announcing node holds.
    pub code: String,
    /// How the new member is reached.
    pub host: Address,
}

/// What a node does on an accepted join: the announcements to send, and
/// the reply.
#[derive(Debug)]
pub struct JoinOutcome {
    /// The announcement of the new member to each neighbour that the node
    /// had before it, in their order. They are sent one by one; a failure
    /// of one stops neither the others nor the reply.
    pub fanouts: Vec<Request>,
    /// The reply to the new member.
    pub response: JoinResponse,
}

/// The members of a node after it has accepted `host`.
pub open spec fn members_with(members: Set<Seq<char>>, host: Seq<char>) -> Set<Seq<char>> {
    members.insert(host)
}

/// Tells whether every call of a sequence is a fanout that announces
/// `host` and presents `code`.
pub open spec fn all_announce(calls: Seq<Request>, host: Address, code: Seq<char>) -> bool {
    forall|i: int|
        0 <= i < calls.len() ==> (#[trigger] calls[i]).body is Fanout
            && calls[i].body->Fanout_0.host == host && calls[i].body->Fanout_0.code@ == code
}

/// The announcements of a new member: one call to the fanout endpoint of
/// each neighbour, in their order, presenting the code of this node. A
/// neighbour whose address gives no URL gets none.
pub fn fanout_to_neighbours(cfg: &RuntimeConfig, host: &Address) -> (calls: Vec<Request>)
    ensures
        urls(calls@) == cfg.neighbours.addresses().filter_map(|peer: Address| fanout_url(peer)),
        all_announce(calls@, *host, cfg.base_code@),
{
    let client = Client::new();
    let neighbours = cfg.neighbours.to_vec();
    let ghost url_of = |peer: Address| fanout_url(peer);
    let mut calls: Vec<Request> = Vec::new();
    let mut i: usize = 0;
    while i < neighbours.len()
        invariant
            i <= neighbours.len(),
            neighbours@ == cfg.neighbours.addresses(),
            url_of == |peer: Address| fanout_url(peer),
            urls(calls@) == neighbours@.take(i as int).filter_map(url_of),
            all_announce(calls@, *host, cfg.base_code@),
        decreases neighbours.len() - i,
    {
        proof {
            neighbours@.lemma_filter_map_take_succ(url_of, i as int);
        }
        let ghost before = calls@;
        match client.fanout(&neighbours[i], host, cfg.base_code.as_str()) {
            Ok(call) => {
                calls.push(call);
                assert(urls(calls@) =~= urls(before) + seq![call.url@]);
            },
            Err(_) => {
                assert(urls(calls@) =~= urls(before) + Seq::<Seq<char>>::empty());
            },
        }
        i += 1;
    }
    proof {
        assert(neighbours@.take(neighbours.len() as int) =~= neighbours@);
    }
    calls
}

/// Handles a join. A host that cannot serve as a base is refused and
/// nothing changes. Any other host is announced to the neighbours known so
/// far and made a member; the reply holds the code of this node and its
/// members, the host among them.
pub fn inner_join(req: JoinRequest, cfg: &mut RuntimeConfig) -> (done: Result<
    JoinOutcome,
    ErrorResponse,
>)
    ensures
        done is Err <==> req.host.opaque(),
        done is Err ==> done->Err_0 == ErrorResponse::InvalidHost && *final(cfg) == *old(cfg),
        done is Ok ==> final(cfg).same_settings(old(cfg)),
        done is Ok ==> final(cfg).neighbours.addresses() == with_member(
            old(cfg).neighbours.addresses(),
            req.host,
        ),
        done is Ok ==> final(cfg).neighbours.members() == members_with(
            old(cfg).neighbours.members(),
            req.host@,
        ),
        done is Ok ==> done->Ok_0.response.code@ == old(cfg).base_code@,
        done is Ok ==> done->Ok_0.response.neighbours@ == final(cfg).neighbours.addresses(),
        done is Ok ==> urls(done->Ok_0.fanouts@) == old(cfg).neighbours.addresses().filter_map(
            |peer: Address| fanout_url(peer),
        ),
        done is Ok ==> all_announce(done->Ok_0.fanouts@, req.host, old(cfg).base_code@),
{
    if req.host.cannot_be_a_base() {
        return Err(ErrorResponse::InvalidHost);
    }
    let fanouts = fanout_to_neighbours(cfg, &req.host);
    cfg.neighbours.insert(req.host);
    let response = JoinResponse { code: cfg.base_code.clone(), neighbours: cfg.neighbours.to_vec() };
    Ok(JoinOutcome { fanouts, response })
}

/// Handles a sync: the whole store for the code of this node, a refusal
/// for any other. The store is left as it is.
pub fn inner_sync(req: &SyncRequest, cache: &Db, cfg: &RuntimeConfig) -> (done: Result<
    Vec<(String, Value)>,
    ErrorResponse,
>)
    ensures
        done is Ok <==> req.code@ == cfg.base_code@,
        done is Ok ==> listed_entries(done->Ok_0@) == store_entries(*cache),
        done is Ok ==> texts(done->Ok_0@.map_values(|pair: (String, Value)| pair.0))
            .no_duplicates(),
        done is Err ==> done->Err_0 == ErrorResponse::InvalidCode,
{
    if cfg.base_code == req.code {
        Ok(map_pairs(cache))
    } else {
        Err(ErrorResponse::InvalidCode)
    }
}

/// Handles a fanout: with the code of this node the host is made a
/// member; with any other code the request is refused and nothing changes.
pub fn inner_fanout(req: FanoutRequest, cfg: &mut RuntimeConfig) -> (done: Result<
    FanoutResponse,
    ErrorResponse,
>)
    ensures
        done is Ok <==> req.code@ == old(cfg).base_code@,
        done is Ok ==> done->Ok_0.fanout@ == "success"@,
        done is Ok ==> final(cfg).same_settings(old(cfg)),
        done is Ok ==> final(cfg).neighbours.addresses() == with_member(
            old(cfg).neighbours.addresses(),
            req.host,
        ),
        done is Ok ==> final(cfg).neighbours.members() == members_with(
            old(cfg).neighbours.members(),
            req.host@,
        ),
        done is Err ==> done->Err_0 == ErrorResponse::InvalidCode && *final(cfg) == *old(cfg),
{
    if cfg.base_code == req.code {
        cfg.neighbours.insert(req.host);
        Ok(FanoutResponse { fanout: "success".to_owned() })
    } else {
        Err(ErrorResponse::InvalidCode)
    }
}

/// Handles the push of an update from a peer: binds `name` to the value.
/// Nothing is published, so an update is not passed on.
pub fn inner_update(name: String, simple_map: Value, cache: &mut Db) -> (response: SetResponse)
    ensures
        store_entries(*final(cache)) == store_entries(*old(cache)).insert(name@, simple_map@),
        response.status@ == ok_status(),
{
    map_insert(cache, name, simple_map);
    ok_reponse()
}

/// Gives the configuration of the node, for diagnostics.
pub fn inner_config(cfg: &RuntimeConfig) -> (copy: RuntimeConfig)
    ensures
        copy.same_settings(cfg),
        copy.neighbours.addresses() == cfg.neighbours.addresses(),
{
    cfg.clone()
}

} // verus!
