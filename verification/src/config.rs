//! The configuration state of a node: its addresses, its neighbours, the
//! code of its cluster and the settings of its backups.

use vstd::prelude::*;
use crate::address::Address;
use crate::arguments::{Args, SubArg, TempPathBuf};
use crate::encoding::{base64, base64_sha3, base64_sha3_text, base64_text, lemma_base64_len};
use crate::neighbours::Neighbours;

verus! {

/// The number of random bytes that a fresh code is made of.
pub const CODE_BYTES: usize = 32;

/// The backup directory of a node that is given none.
pub open spec fn default_backup_dir() -> Seq<char> {
    "datadir"@
}

/// The address that a node binds to when it is given none.
pub open spec fn default_address() -> Seq<char> {
    "127.0.0.1:9226"@
}

/// The order to join the cluster of a running node.
#[derive(Debug, PartialEq)]
pub struct JoinCommand {
    /// The node to join.
    pub address: Address,
}

impl JoinCommand {
    /// The order to join that the settings hold, if they hold one.
    pub fn from_args(args: &Args) -> (command: Option<JoinCommand>)
        ensures
            command is Some <==> args.sub_cmd is Some && args.sub_cmd->0 is Join,
            command is Some ==> command->0.address == args.sub_cmd->0->join_address,
    {
        match &args.sub_cmd {
            Some(SubArg::Join { join_address, .. }) => Some(
                JoinCommand { address: join_address.clone() },
            ),
            _ => None,
        }
    }
}

/// How a node starts. The ways exclude one another: a node that joins a
/// cluster takes its store from the peer and reads no snapshot.
#[derive(Debug)]
pub enum Startup {
    /// Remove every snapshot of the directory and stop, serving nothing.
    RemoveBackups(TempPathBuf),
    /// Join the cluster of a running node and serve its store.
    Join(JoinCommand),
    /// Serve the newest snapshot, or an empty store.
    Load,
}

impl Startup {
    /// The way to start that the settings ask for.
    pub fn from_args(args: &Args) -> (startup: Startup)
        ensures
            args.sub_cmd is None ==> startup is Load,
            args.sub_cmd is Some && args.sub_cmd->0 is Join ==> startup is Join
                && startup->Join_0.address == args.sub_cmd->0->join_address,
            args.sub_cmd is Some && args.sub_cmd->0 is RemoveBackup ==> startup is RemoveBackups
                && startup->RemoveBackups_0.path@ == args.sub_cmd->0->RemoveBackup_backup_dir.path@,
    {
        match &args.sub_cmd {
            Some(SubArg::RemoveBackup { backup_dir }) => Startup::RemoveBackups(
                TempPathBuf { path: backup_dir.path.clone() },
            ),
            Some(SubArg::Join { join_address, .. }) => Startup::Join(
                JoinCommand { address: join_address.clone() },
            ),
            None => Startup::Load,
        }
    }
}

/// Calls `rand::thread_rng` and `rand::Rng::fill` on a buffer of `count`
/// bytes.
///
/// Trusted: the buffer comes back with its length; its content is
/// whatever the generator gave. The generator panics only where the
/// system gives it no entropy.
#[verifier::external_body]
fn random_bytes(count: usize) -> (bytes: Vec<u8>)
    ensures
        bytes@.len() == count,
{
    let mut buffer = vec![0u8; count];
    rand::Rng::fill(&mut rand::thread_rng(), &mut buffer[..]);
    buffer
}

/// The state that the membership protocol, the propagation of writes and
/// the backups of a node work on.
#[derive(Debug, PartialEq)]
pub struct RuntimeConfig {
    /// The socket address that the node binds to, as text.
    pub address: String,
    /// How peers reach this node.
    pub external_address: Address,
    /// The directory that holds the snapshots.
    pub backup_dir: String,
    /// The seconds between two snapshots.
    pub backup_interval: u64,
    /// How many snapshots are kept.
    pub backup_amount: usize,
    /// Whether a start leaves the snapshots on disk unread.
    pub backup_skip_loading: bool,
    /// The peers that this node believes to be alive.
    pub neighbours: Neighbours,
    /// The shared secret of the cluster: a request that changes the
    /// membership must present it.
    pub base_code: String,
    /// The random text that the node's own code was derived from.
    pub identifier: String,
}

impl RuntimeConfig {
    /// Tells whether two configurations agree in everything but their
    /// neighbours and the code of their cluster.
    pub open spec fn same_node(&self, other: &RuntimeConfig) -> bool {
        &&& self.address@ == other.address@
        &&& self.external_address == other.external_address
        &&& self.backup_dir@ == other.backup_dir@
        &&& self.backup_interval == other.backup_interval
        &&& self.backup_amount == other.backup_amount
        &&& self.backup_skip_loading == other.backup_skip_loading
        &&& self.identifier@ == other.identifier@
    }

    /// Tells whether two configurations agree in everything but their
    /// neighbours.
    pub open spec fn same_settings(&self, other: &RuntimeConfig) -> bool {
        &&& self.same_node(other)
        &&& self.base_code@ == other.base_code@
    }

    /// Makes a fresh random code: the base64 text of `CODE_BYTES` random
    /// bytes, 43 characters long.
    pub fn generate_code() -> (code: String)
        ensures
            exists|bytes: Seq<u8>| bytes.len() == CODE_BYTES && code@ == base64_text(bytes),
            code@.len() == 43,
    {
        let bytes = random_bytes(CODE_BYTES);
        proof {
            lemma_base64_len(bytes@);
        }
        base64(bytes.as_slice())
    }
}

impl Default for RuntimeConfig {
    /// The configuration of a node that was given no setting: a fresh
    /// identifier, the code derived from it, and no neighbour.
    fn default() -> (config: RuntimeConfig)
        ensures
            config.address@ == default_address(),
            config.external_address@ == "http://127.0.0.1:9226/"@,
            config.backup_dir@ == default_backup_dir(),
            config.backup_interval == 10,
            config.backup_amount == 10,
            !config.backup_skip_loading,
            config.neighbours@.len() == 0,
            config.base_code@ == base64_sha3_text(config.identifier@),
            config.base_code@.len() == 86,
            config.identifier@.len() == 43,
    {
        let identifier = RuntimeConfig::generate_code();
        RuntimeConfig {
            address: "127.0.0.1:9226".to_owned(),
            external_address: Address::loopback(),
            backup_dir: "datadir".to_owned(),
            backup_interval: 10,
            backup_amount: 10,
            backup_skip_loading: false,
            neighbours: Neighbours::new(),
            base_code: base64_sha3(identifier.as_str()),
            identifier,
        }
    }
}

impl Clone for RuntimeConfig {
    fn clone(&self) -> (copy: RuntimeConfig)
        ensures
            copy.address@ == self.address@,
            copy.external_address == self.external_address,
            copy.backup_dir@ == self.backup_dir@,
            copy.backup_interval == self.backup_interval,
            copy.backup_amount == self.backup_amount,
            copy.backup_skip_loading == self.backup_skip_loading,
            copy.neighbours.addresses() == self.neighbours.addresses(),
            copy.base_code@ == self.base_code@,
            copy.identifier@ == self.identifier@,
    {
        RuntimeConfig {
            address: self.address.clone(),
            external_address: self.external_address.clone(),
            backup_dir: self.backup_dir.clone(),
            backup_interval: self.backup_interval,
            backup_amount: self.backup_amount,
            backup_skip_loading: self.backup_skip_loading,
            neighbours: self.neighbours.clone(),
            base_code: self.base_code.clone(),
            identifier: self.identifier.clone(),
        }
    }
}

} // verus!
