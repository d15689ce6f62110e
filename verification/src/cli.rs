//! What the long-running tasks of a node decide: what a snapshot holds
//! and which snapshots are kept or loaded, where a write is propagated to,
//! what a health check does to the neighbours, and the steps of a join.
//!
//! The tasks themselves wait, read and send; each hands what it got to a
//! function of this module and does what the function answers.

use vstd::prelude::*;
use crate::address::Address;
use crate::backup::{
    ascending, backup_name, format_utc, is_backup_name, pruned, recognise, snapshot_name,
    sort_names, stamp_format, utc_text,
};
use crate::client::{join_url, ping_url, sync_url, update_url, urls, Client, Request};
use crate::config::RuntimeConfig;
use crate::neighbours::{serializations, with_member, with_members, Neighbours};
use crate::responses::JoinResponse;
use crate::store::{listed_entries, map_pairs, restore, store_entries, texts, Db};
use crate::transport::Message;
use crate::value::Value;

verus! {

/// One snapshot to write.
#[derive(Debug)]
pub struct Snapshot {
    /// The directory to write to; it is made if it is missing.
    pub dir: String,
    /// The name of the file.
    pub file_name: String,
    /// The entries of the store.
    pub entries: Vec<(String, Value)>,
}

/// One turn of the snapshot task, at the time given by the seconds since
/// the start of 1970 in UTC and the nanoseconds within the second: the
/// whole store, to be written under a name made of that time. `None` for
/// a time outside the range of the calendar.
pub fn fs_loop(cfg: &RuntimeConfig, cache: &Db, secs: i64, nanos: u32) -> (turn: Option<Snapshot>)
    ensures
        turn is Some <==> utc_text(secs as int, nanos as int, stamp_format()) is Some,
        turn is Some ==> turn->0.file_name@ == backup_name(
            utc_text(secs as int, nanos as int, stamp_format())->0,
        ),
        turn is Some ==> is_backup_name(turn->0.file_name@),
        turn is Some ==> turn->0.dir@ == cfg.backup_dir@,
        turn is Some ==> listed_entries(turn->0.entries@) == store_entries(*cache),
        turn is Some ==> texts(turn->0.entries@.map_values(|pair: (String, Value)| pair.0))
            .no_duplicates(),
{
    match format_utc(secs, nanos, "%Y%m%dT%H%M%S%6f") {
        Some(stamp) => Some(
            Snapshot {
                dir: cfg.backup_dir.clone(),
                file_name: snapshot_name(stamp.as_str()),
                entries: map_pairs(cache),
            },
        ),
        None => None,
    }
}

/// Picks the snapshots out of the names found in a backup directory and
/// puts them in ascending order, the oldest first.
pub fn fetch_data_dir_filenames(names: Vec<String>) -> (filenames: Vec<String>)
    ensures
        ascending(texts(filenames@)),
        texts(filenames@).to_multiset() == texts(names@).filter(
            |name: Seq<char>| is_backup_name(name),
        ).to_multiset(),
{
    let ghost wanted = |name: Seq<char>| is_backup_name(name);
    let mut filenames: Vec<String> = Vec::new();
    let mut i: usize = 0;
    while i < names.len()
        invariant
            i <= names.len(),
            wanted == |name: Seq<char>| is_backup_name(name),
            texts(filenames@) == texts(names@.take(i as int)).filter(wanted),
        decreases names.len() - i,
    {
        proof {
            assert(texts(names@.take(i as int + 1)) =~= texts(names@.take(i as int)).push(
                names@[i as int]@,
            ));
            texts(names@.take(i as int)).lemma_filter_push(names@[i as int]@, wanted);
        }
        if recognise(names[i].as_str()) {
            let ghost before = texts(filenames@);
            filenames.push(names[i].clone());
            assert(texts(filenames@) =~= before.push(names@[i as int]@));
        }
        i += 1;
    }
    proof {
        assert(names@.take(names.len() as int) =~= names@);
    }
    sort_names(&mut filenames);
    filenames
}

/// One turn of the pruning task: of the snapshots found, in ascending
/// order, those to remove, so that the newest `backup_amount` stay. A
/// removal that fails is passed over.
pub fn clean_data_dir(cfg: &RuntimeConfig, filenames: &Vec<String>) -> (doomed: Vec<String>)
    ensures
        texts(doomed@) == pruned(texts(filenames@), cfg.backup_amount as nat),
{
    let mut doomed: Vec<String> = Vec::new();
    if cfg.backup_amount >= filenames.len() {
        assert(texts(doomed@) =~= Seq::<Seq<char>>::empty());
        return doomed;
    }
    let count: usize = filenames.len() - cfg.backup_amount;
    let ghost old_ones = texts(filenames@).take(count as int);
    let mut k: usize = 0;
    while k < count
        invariant
            k <= count,
            count <= filenames.len(),
            old_ones == texts(filenames@).take(count as int),
            texts(doomed@) == old_ones.reverse().take(k as int),
        decreases count - k,
    {
        let ghost before = texts(doomed@);
        doomed.push(filenames[count - 1 - k].clone());
        assert(texts(doomed@) =~= before.push(filenames@[count - 1 - k]@));
        assert(old_ones.reverse()[k as int] == filenames@[count - 1 - k]@);
        assert(texts(doomed@) =~= old_ones.reverse().take(k as int + 1));
        k += 1;
    }
    assert(old_ones.reverse().take(count as int) =~= old_ones.reverse());
    doomed
}

/// Chooses the snapshot that a starting node loads: none where loading is
/// switched off or no snapshot was found, else the last of the ascending
/// list, which is the newest.
pub fn load_from_backup(config: &RuntimeConfig, filenames: &Vec<String>) -> (chosen: Option<String>)
    ensures
        chosen is Some <==> !config.backup_skip_loading && filenames@.len() > 0,
        chosen is Some ==> chosen->0@ == texts(filenames@).last(),
{
    if config.backup_skip_loading || filenames.len() == 0 {
        None
    } else {
        Some(filenames[filenames.len() - 1].clone())
    }
}

/// Propagates one local change: a call to the update endpoint of each
/// neighbour, in their order, carrying the key and its new value, or
/// `Unit` for a deletion. A neighbour whose address gives no URL gets
/// none. The calls are sent one by one, and a failure of one stops none of
/// the others.
pub fn server_sender(cfg: &RuntimeConfig, message: &Message) -> (calls: Vec<Request>)
    ensures
        urls(calls@) == cfg.neighbours.addresses().filter_map(
            |peer: Address| update_url(peer, message.key()),
        ),
        forall|i: int|
            0 <= i < calls@.len() ==> (#[trigger] calls@[i]).body is Update
                && calls@[i].body->Update_0@ == message.payload(),
{
    let client = Client::new();
    let unit = Value::Unit;
    let (key, value) = match message {
        Message::Created(key, value) => (key, value),
        Message::Deleted(key) => (key, &unit),
    };
    let neighbours = cfg.neighbours.to_vec();
    let ghost url_of = |peer: Address| update_url(peer, message.key());
    let mut calls: Vec<Request> = Vec::new();
    let mut i: usize = 0;
    while i < neighbours.len()
        invariant
            i <= neighbours.len(),
            key@ == message.key(),
            value@ == message.payload(),
            url_of == |peer: Address| update_url(peer, message.key()),
            urls(calls@) == neighbours@.take(i as int).filter_map(url_of),
            forall|j: int|
                0 <= j < calls@.len() ==> (#[trigger] calls@[j]).body is Update
                    && calls@[j].body->Update_0@ == message.payload(),
        decreases neighbours.len() - i,
    {
        proof {
            neighbours@.lemma_filter_map_take_succ(url_of, i as int);
        }
        let ghost before = calls@;
        match client.internal_update(&neighbours[i], key.as_str(), value) {
            Some(call) => {
                calls.push(call);
                assert(urls(calls@) =~= urls(before) + seq![call.url@]);
            },
            None => {
                assert(urls(calls@) =~= urls(before) + Seq::<Seq<char>>::empty());
            },
        }
        i += 1;
    }
    proof {
        assert(neighbours@.take(neighbours.len() as int) =~= neighbours@);
    }
    calls
}

/// The seconds that a node waits before its first health check.
pub const HEALTH_CHECK_DELAY: u64 = 10;

/// The seconds between two health checks.
pub const HEALTH_CHECK_PERIOD: u64 = 60;

/// One neighbour to probe, with the call that probes it; a neighbour whose
/// address gives no URL has no call and counts as not answering.
#[derive(Debug)]
pub struct Probe {
    pub peer: Address,
    pub call: Option<Request>,
}

/// What the probe of one neighbour gave.
#[derive(Debug)]
pub struct Pinged {
    pub peer: Address,
    /// Whether the neighbour answered.
    pub alive: bool,
}

/// What moves a health check on.
#[derive(Debug)]
pub enum HealthEvent {
    /// The period is over: a check begins.
    Tick,
    /// Every probe has been answered or has failed.
    Probed(Vec<Pinged>),
}

/// What a health check asks for next.
#[derive(Debug)]
pub enum HealthAction {
    /// Probe these neighbours, all at once.
    Ping(Vec<Probe>),
    /// Announce this node to these neighbours; failures are passed over.
    Join(Vec<Request>),
}

/// The neighbours that answered, in the order of the results.
pub open spec fn answering(results: Seq<Pinged>) -> Seq<Address> {
    results.filter(|result: Pinged| result.alive).map_values(|result: Pinged| result.peer)
}

/// The addresses of the neighbours that answered.
pub open spec fn survivors(results: Seq<Pinged>) -> Seq<Seq<char>> {
    results.filter(|result: Pinged| result.alive).map_values(|result: Pinged| result.peer@)
}

/// The neighbours to probe: all but the node itself.
pub open spec fn probed(neighbours: Seq<Address>, me: Seq<char>) -> Seq<Address> {
    neighbours.filter(|peer: Address| peer@ != me)
}

/// One step of the health check.
///
/// On a tick the neighbours other than the node itself are to be probed,
/// and nothing changes. When the probes are done the neighbours become
/// those that answered, so that a neighbour that did not answer is gone
/// and one that did stays; the node is then announced to each of them.
pub fn sync_neighbours(cfg: &mut RuntimeConfig, event: HealthEvent) -> (action: HealthAction)
    ensures
        final(cfg).same_settings(old(cfg)),
        event is Tick ==> *final(cfg) == *old(cfg) && action is Ping,
        event is Tick ==> action->Ping_0@.map_values(|probe: Probe| probe.peer) == probed(
            old(cfg).neighbours.addresses(),
            old(cfg).external_address@,
        ),
        event is Tick ==> forall|i: int|
            0 <= i < action->Ping_0@.len() ==> crate::client::call_url(
                (#[trigger] action->Ping_0@[i]).call,
            ) == ping_url(action->Ping_0@[i].peer),
        event is Probed ==> action is Join,
        event is Probed ==> final(cfg).neighbours.addresses() == with_members(
            Seq::empty(),
            answering(event->Probed_0@),
        ),
        event is Probed ==> final(cfg).neighbours.members() == survivors(event->Probed_0@).to_set(),
        event is Probed ==> urls(action->Join_0@) == event->Probed_0@.filter(
            |result: Pinged| result.alive,
        ).filter_map(|result: Pinged| join_url(result.peer)),
        event is Probed ==> forall|i: int|
            0 <= i < action->Join_0@.len() ==> (#[trigger] action->Join_0@[i]).body is Join
                && action->Join_0@[i].body->Join_0.host == old(cfg).external_address,
{
    let client = Client::new();
    match event {
        HealthEvent::Tick => {
            let mut others = cfg.neighbours.clone();
            others.remove(&cfg.external_address);
            let others = others.to_vec();
            let mut probes: Vec<Probe> = Vec::new();
            let mut i: usize = 0;
            while i < others.len()
                invariant
                    i <= others.len(),
                    probes@.map_values(|probe: Probe| probe.peer) == others@.take(i as int),
                    forall|j: int|
                        0 <= j < probes@.len() ==> crate::client::call_url(
                            (#[trigger] probes@[j]).call,
                        ) == ping_url(probes@[j].peer),
                decreases others.len() - i,
            {
                let call = match client.ping(&others[i]) {
                    Ok(call) => Some(call),
                    Err(_) => None,
                };
                let ghost before = probes@.map_values(|probe: Probe| probe.peer);
                probes.push(Probe { peer: others[i].clone(), call });
                assert(probes@.map_values(|probe: Probe| probe.peer) =~= before.push(
                    others@[i as int],
                ));
                assert(others@.take(i as int + 1) =~= others@.take(i as int).push(
                    others@[i as int],
                ));
                i += 1;
            }
            proof {
                assert(others@.take(others.len() as int) =~= others@);
            }
            HealthAction::Ping(probes)
        },
        HealthEvent::Probed(results) => {
            let ghost answered = |result: Pinged| result.alive;
            let ghost url_of = |result: Pinged| join_url(result.peer);
            let ghost peer_of = |result: Pinged| result.peer@;
            let ghost address_of = |result: Pinged| result.peer;
            let mut alive = Neighbours::new();
            let mut calls: Vec<Request> = Vec::new();
            assert(alive.members() =~= Set::<Seq<char>>::empty());
            assert(results@.take(0).filter(answered) =~= Seq::<Pinged>::empty()) by {
                reveal(Seq::filter);
            }
            assert(results@.take(0).filter(answered).map_values(peer_of).to_set()
                =~= Set::<Seq<char>>::empty());
            assert(results@.take(0).filter(answered).filter_map(url_of) =~= Seq::<
                Seq<char>,
            >::empty());
            assert(results@.take(0).filter(answered).map_values(address_of) =~= Seq::<
                Address,
            >::empty());
            let mut i: usize = 0;
            while i < results.len()
                invariant
                    i <= results.len(),
                    *cfg == *old(cfg),
                    answered == |result: Pinged| result.alive,
                    url_of == |result: Pinged| join_url(result.peer),
                    peer_of == |result: Pinged| result.peer@,
                    address_of == |result: Pinged| result.peer,
                    alive.addresses() == with_members(
                        Seq::empty(),
                        results@.take(i as int).filter(answered).map_values(address_of),
                    ),
                    alive.members() == results@.take(i as int).filter(answered).map_values(
                        peer_of,
                    ).to_set(),
                    urls(calls@) == results@.take(i as int).filter(answered).filter_map(url_of),
                    forall|j: int|
                        0 <= j < calls@.len() ==> (#[trigger] calls@[j]).body is Join
                            && calls@[j].body->Join_0.host == cfg.external_address,
                decreases results.len() - i,
            {
                let ghost head = results@.take(i as int).filter(answered);
                proof {
                    assert(results@.take(i as int + 1) =~= results@.take(i as int).push(
                        results@[i as int],
                    ));
                    results@.take(i as int).lemma_filter_push(results@[i as int], answered);
                }
                if results[i].alive {
                    proof {
                        let longer = head.push(results@[i as int]);
                        assert(longer.map_values(peer_of) =~= head.map_values(peer_of).push(
                            results@[i as int].peer@,
                        ));
                        head.map_values(peer_of).lemma_push_to_set_commute(
                            results@[i as int].peer@,
                        );
                        assert(longer.map_values(address_of) =~= head.map_values(
                            address_of,
                        ).push(results@[i as int].peer));
                        assert(longer.map_values(address_of).drop_last() =~= head.map_values(
                            address_of,
                        ));
                        assert(longer.take(head.len() as int) =~= head);
                        longer.lemma_filter_map_take_succ(url_of, head.len() as int);
                        assert(longer.take(head.len() as int + 1) =~= longer);
                    }
                    alive.insert(results[i].peer.clone());
                    let ghost before = calls@;
                    match client.join(&cfg.external_address, &results[i].peer) {
                        Ok(call) => {
                            calls.push(call);
                            assert(urls(calls@) =~= urls(before) + seq![call.url@]);
                        },
                        Err(_) => {
                            assert(urls(calls@) =~= urls(before) + Seq::<Seq<char>>::empty());
                        },
                    }
                }
                i += 1;
            }
            proof {
                assert(results@.take(results.len() as int) =~= results@);
            }
            cfg.neighbours = alive;
            HealthAction::Join(calls)
        },
    }
}

/// A neighbour that answered its probe is a survivor, and one whose every
/// probe went unanswered is none.
pub proof fn lemma_survivors(results: Seq<Pinged>, i: int)
    requires
        0 <= i < results.len(),
    ensures
        results[i].alive ==> survivors(results).to_set().contains(results[i].peer@),
        (forall|j: int|
            0 <= j < results.len() && results[j].peer@ == results[i].peer@ ==> !results[j].alive)
            ==> !survivors(results).to_set().contains(results[i].peer@),
{
    let answered = |result: Pinged| result.alive;
    let kept = results.filter(answered);
    if results[i].alive {
        results.lemma_filter_contains(answered, i);
        let k = choose|k: int| 0 <= k < kept.len() && kept[k] == results[i];
        assert(survivors(results)[k] == results[i].peer@);
    }
    if survivors(results).to_set().contains(results[i].peer@) {
        let k = choose|k: int|
            0 <= k < survivors(results).len() && survivors(results)[k] == results[i].peer@;
        assert(kept[k].peer@ == results[i].peer@);
        results.lemma_filter_pred(answered, k);
        assert(kept.contains(kept[k]));
        results.lemma_filter_contains_rev(answered, kept[k]);
        let j = choose|j: int| 0 <= j < results.len() && results[j] == kept[k];
        assert(results[j].alive && results[j].peer@ == results[i].peer@);
    }
}

/// How far a join has come.
#[derive(Debug)]
pub enum JoinStage {
    /// Nothing has been sent.
    Start,
    /// The peer has been probed.
    Pinging,
    /// The node has announced itself to the peer.
    Joining,
    /// The peer has accepted the node and has been asked for its store.
    Syncing(JoinResponse),
    /// The node is a member and holds the store of the peer.
    Done,
    /// The join was given up; the node is as it was before.
    Failed,
}

/// What moves a join on.
#[derive(Debug)]
pub enum JoinEvent {
    /// The join is to begin.
    Begin,
    /// The peer answered the probe.
    Pong,
    /// The peer accepted the node.
    Joined(JoinResponse),
    /// The peer sent its store.
    Synced(Vec<(String, Value)>),
    /// The last call failed or was refused.
    Failure,
}

/// What a join asks for next.
#[derive(Debug)]
pub enum JoinAction {
    /// Make this call and report what came of it.
    Call(Request),
    /// Serve from this store: the join is done.
    Install(Db),
    /// Give the start of the node up, to begin anew.
    Abort,
}

/// The members of a node after it has joined `peer` and has been sent the
/// members `received`.
pub open spec fn members_after_join(
    mine: Set<Seq<char>>,
    received: Set<Seq<char>>,
    peer: Seq<char>,
) -> Set<Seq<char>> {
    mine.union(received).insert(peer)
}

/// The call that a step of a join asks for, where it asks for one.
pub open spec fn call_of(action: JoinAction) -> Option<Seq<char>> {
    match action {
        JoinAction::Call(call) => Some(call.url@),
        _ => None,
    }
}

/// Tells whether an event is the one that a stage waits for.
pub open spec fn awaited(stage: JoinStage, event: JoinEvent) -> bool {
    ||| stage is Start && event is Begin
    ||| stage is Pinging && event is Pong
    ||| stage is Joining && event is Joined
    ||| stage is Syncing && event is Synced
}

/// One step of the join of the cluster of the peer `join_address`.
///
/// The steps follow one another: probe the peer, announce this node to
/// it, ask it for its store with the code it gave, and only then take
/// over the code, the members it named and the peer itself, and the store.
/// An event that does not belong to the stage, a failure, or a call that
/// cannot be made gives the join up; until the store has arrived the
/// configuration is left as it was.
pub fn join_cache(
    stage: JoinStage,
    event: JoinEvent,
    join_address: &Address,
    config: &mut RuntimeConfig,
) -> (next: (JoinStage, JoinAction))
    ensures
        !awaited(stage, event) ==> next.0 is Failed && next.1 is Abort,
        next.1 is Abort ==> next.0 is Failed,
        next.1 is Install ==> stage is Syncing && event is Synced,
        !(stage is Syncing && event is Synced) ==> *final(config) == *old(config),
        stage is Start && event is Begin ==> call_of(next.1) == ping_url(*join_address),
        stage is Start && event is Begin && next.1 is Call ==> next.0 is Pinging
            && next.1->Call_0.body is Empty,
        stage is Pinging && event is Pong ==> call_of(next.1) == join_url(*join_address),
        stage is Pinging && event is Pong && next.1 is Call ==> next.0 is Joining
            && next.1->Call_0.body is Join
            && next.1->Call_0.body->Join_0.host == old(config).external_address,
        stage is Joining && event is Joined ==> call_of(next.1) == sync_url(*join_address),
        stage is Joining && event is Joined && next.1 is Call ==> next.0 == JoinStage::Syncing(
            event->Joined_0,
        ) && next.1->Call_0.body is Sync
            && next.1->Call_0.body->Sync_0.code@ == event->Joined_0.code@,
        stage is Syncing && event is Synced ==> next.0 is Done && next.1 is Install,
        stage is Syncing && event is Synced ==> store_entries(next.1->Install_0) == listed_entries(
            event->Synced_0@,
        ),
        stage is Syncing && event is Synced ==> final(config).same_node(old(config)),
        stage is Syncing && event is Synced ==> final(config).base_code@
            == stage->Syncing_0.code@,
        stage is Syncing && event is Synced ==> final(config).neighbours.addresses()
            == with_member(
            with_members(old(config).neighbours.addresses(), stage->Syncing_0.neighbours@),
            *join_address,
        ),
        stage is Syncing && event is Synced ==> final(config).neighbours.members()
            == members_after_join(
            old(config).neighbours.members(),
            serializations(stage->Syncing_0.neighbours@).to_set(),
            join_address@,
        ),
{
    let client = Client::new();
    match (stage, event) {
        (JoinStage::Start, JoinEvent::Begin) => match client.ping(join_address) {
            Ok(call) => (JoinStage::Pinging, JoinAction::Call(call)),
            Err(_) => (JoinStage::Failed, JoinAction::Abort),
        },
        (JoinStage::Pinging, JoinEvent::Pong) => match client.join(
            &config.external_address,
            join_address,
        ) {
            Ok(call) => (JoinStage::Joining, JoinAction::Call(call)),
            Err(_) => (JoinStage::Failed, JoinAction::Abort),
        },
        (JoinStage::Joining, JoinEvent::Joined(response)) => match client.sync(
            join_address,
            response.code.as_str(),
        ) {
            Ok(call) => (JoinStage::Syncing(response), JoinAction::Call(call)),
            Err(_) => (JoinStage::Failed, JoinAction::Abort),
        },
        (JoinStage::Syncing(response), JoinEvent::Synced(pairs)) => {
            let db = restore(pairs);
            config.neighbours.extend(&response.neighbours);
            config.neighbours.insert(join_address.clone());
            config.base_code = response.code;
            (JoinStage::Done, JoinAction::Install(db))
        },
        _ => (JoinStage::Failed, JoinAction::Abort),
    }
}

/// When a node joins a peer, the node ends with the code of the peer and
/// with the members of the peer and the peer itself among its own, and the
/// peer ends with the node among its members.
///
/// The peer replies with its code and with its members after it has added
/// the node; the node takes the code over and adds the members replied and
/// the peer to its own.
pub proof fn lemma_join_protocol(
    peer: Seq<char>,
    peer_code: Seq<char>,
    peer_members: Set<Seq<char>>,
    node: Seq<char>,
    node_members: Set<Seq<char>>,
    reply_code: Seq<char>,
    reply_members: Set<Seq<char>>,
    node_code_after: Seq<char>,
)
    requires
        reply_code == peer_code,
        reply_members == crate::routes::internal::members_with(peer_members, node),
        node_code_after == reply_code,
    ensures
        node_code_after == peer_code,
        peer_members.insert(peer).subset_of(members_after_join(node_members, reply_members, peer)),
        node_members.subset_of(members_after_join(node_members, reply_members, peer)),
        crate::routes::internal::members_with(peer_members, node).contains(node),
{
}

} // verus!
