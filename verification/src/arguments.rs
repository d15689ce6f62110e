//! The settings that a node is started with, and the configuration that
//! they give.

use vstd::prelude::*;
use vstd::string::StrSliceExecFns;
use vstd::string::StringExecFns;
use crate::address::{url_parse, Address};
use crate::config::RuntimeConfig;
use crate::encoding::base64_sha3_text;
use crate::neighbours::{serializations, with_members, Neighbours};

verus! {

/// A directory, as the text of its path.
#[derive(Debug)]
pub struct TempPathBuf {
    pub path: String,
}

impl TempPathBuf {
    /// The directory with the given path.
    pub fn new(path: &str) -> (dir: TempPathBuf)
        ensures
            dir.path@ == path@,
    {
        TempPathBuf { path: path.to_owned() }
    }

    /// The text of the path.
    pub fn display(&self) -> (text: String)
        ensures
            text@ == self.path@,
    {
        self.path.clone()
    }
}

impl Clone for TempPathBuf {
    fn clone(&self) -> (copy: TempPathBuf)
        ensures
            copy == *self,
    {
        TempPathBuf { path: self.path.clone() }
    }
}

impl std::str::FromStr for TempPathBuf {
    type Err = std::convert::Infallible;

    fn from_str(s: &str) -> (dir: Result<TempPathBuf, std::convert::Infallible>)
        ensures
            dir is Ok,
            dir->Ok_0.path@ == s@,
    {
        Ok(TempPathBuf::new(s))
    }
}

/// How much a node logs.
#[derive(Debug, Clone, Copy, PartialEq, Eq, Structural)]
pub enum LevelFilter {
    Off,
    Error,
    Warn,
    Info,
    Debug,
    Trace,
}

/// The form of the log.
#[derive(Debug, Clone, Copy, PartialEq, Eq, Structural)]
pub enum OutputFormat {
    Compact,
    Json,
    Pretty,
}

/// The settings of the log.
#[derive(Debug)]
pub struct LoggerArgs {
    /// Log errors only.
    pub quiet: bool,
    /// Log nothing.
    pub ultra_quiet: bool,
    /// Log debug messages too.
    pub verbose: bool,
    /// Log everything.
    pub trace: bool,
    /// The level, where none of the switches is set.
    pub logger_level: Option<LevelFilter>,
    /// The form of the log: `compact`, `json` or `pretty`.
    pub output: String,
}

/// The settings of the backups.
#[derive(Debug)]
pub struct BackupArgs {
    /// The directory that holds the snapshots.
    pub backup_dir: TempPathBuf,
    /// The seconds between two snapshots.
    pub backup_interval: u64,
    /// How many snapshots are kept.
    pub backup_amount: usize,
    /// Whether a start leaves the snapshots on disk unread.
    pub backup_skip_loading: bool,
}

/// The settings of the node itself.
#[derive(Debug)]
pub struct DefaultArgs {
    /// The socket address to bind to, as text.
    pub address: String,
    /// The neighbours to start with, one list for each time that the
    /// setting was given.
    pub neighbours: Vec<Vec<Address>>,
}

/// What the node is to do instead of starting a cluster of its own.
#[derive(Debug)]
pub enum SubArg {
    /// Join the cluster of a running node.
    Join {
        default_args: DefaultArgs,
        logger_args: LoggerArgs,
        backup_args: BackupArgs,
        /// The node to join.
        join_address: Address,
        /// How peers reach this node, where that differs from the address
        /// it binds to.
        external_address: Option<Address>,
    },
    /// Remove every snapshot and stop.
    RemoveBackup {
        backup_dir: TempPathBuf,
    },
}

/// Everything that a node is started with.
#[derive(Debug)]
pub struct Args {
    pub default_args: DefaultArgs,
    pub logger_args: LoggerArgs,
    pub backup_args: BackupArgs,
    pub sub_cmd: Option<SubArg>,
}

/// The level and the form of the log.
#[derive(Debug, Clone, Copy, PartialEq, Eq, Structural)]
pub struct LoggerSetup {
    pub level: LevelFilter,
    pub output: OutputFormat,
}

/// The level that settings of the log give: the first of the switches
/// `ultra_quiet`, `quiet`, `verbose` and `trace` that is set decides, then
/// the level given, and `Info` where nothing is given.
pub open spec fn chosen_level(args: LoggerArgs) -> LevelFilter {
    if args.ultra_quiet {
        LevelFilter::Off
    } else if args.quiet {
        LevelFilter::Error
    } else if args.verbose {
        LevelFilter::Debug
    } else if args.trace {
        LevelFilter::Trace
    } else {
        match args.logger_level {
            Some(level) => level,
            None => LevelFilter::Info,
        }
    }
}

/// The form of the log that a text names.
pub open spec fn named_format(text: Seq<char>) -> Option<OutputFormat> {
    if text == "json"@ {
        Some(OutputFormat::Json)
    } else if text == "compact"@ {
        Some(OutputFormat::Compact)
    } else if text == "pretty"@ {
        Some(OutputFormat::Pretty)
    } else {
        None
    }
}

/// The text of the URL that a socket address is reached by where no
/// other is given: `http://` and the address.
pub open spec fn http_of(address: Seq<char>) -> Seq<char> {
    "http://"@ + address
}

/// The members that lists of addresses give, each address joining in its
/// turn.
pub open spec fn listed_neighbours(lists: Seq<Vec<Address>>) -> Seq<Address>
    decreases lists.len(),
{
    if lists.len() == 0 {
        Seq::empty()
    } else {
        with_members(listed_neighbours(lists.drop_last()), lists.last()@)
    }
}

/// The neighbours that lists of addresses name.
pub open spec fn named_neighbours(lists: Seq<Vec<Address>>) -> Set<Seq<char>>
    decreases lists.len(),
{
    if lists.len() == 0 {
        Set::empty()
    } else {
        named_neighbours(lists.drop_last()).union(serializations(lists.last()@).to_set())
    }
}

/// Tells whether a character is white space: a space, a tab, a line break
/// or one of the other blank characters of Unicode.
pub open spec fn is_white_space(c: char) -> bool {
    let n = c as u32;
    (0x09 <= n <= 0x0d) || n == 0x20 || n == 0x85 || n == 0xa0 || n == 0x1680 || (0x2000 <= n
        <= 0x200a) || n == 0x2028 || n == 0x2029 || n == 0x202f || n == 0x205f || n == 0x3000
}

/// A text without the white space at its two ends.
pub open spec fn trimmed(text: Seq<char>) -> Seq<char>
    decreases text.len(),
{
    if text.len() > 0 && is_white_space(text.first()) {
        trimmed(text.drop_first())
    } else if text.len() > 0 && is_white_space(text.last()) {
        trimmed(text.drop_last())
    } else {
        text
    }
}

/// The pieces of a text between its commas; a text without a comma is one
/// piece, and so is the empty text.
pub open spec fn comma_separated(text: Seq<char>) -> Seq<Seq<char>>
    decreases text.len(),
{
    if text.len() == 0 {
        seq![Seq::empty()]
    } else {
        let before = comma_separated(text.drop_last());
        if text.last() == ',' {
            before.push(Seq::empty())
        } else {
            before.drop_last().push(before.last().push(text.last()))
        }
    }
}

/// The URLs that a list of texts gives, each text without the white space
/// at its ends: `None` where one of them is no URL.
pub open spec fn parsed_list(items: Seq<Seq<char>>) -> Option<Seq<Seq<char>>>
    decreases items.len(),
{
    if items.len() == 0 {
        Some(Seq::empty())
    } else {
        match (parsed_list(items.drop_last()), url_parse(trimmed(items.last()))) {
            (Some(list), Some(url)) => Some(list.push(url)),
            _ => None,
        }
    }
}

/// Tells whether a character is white space.
pub fn white_space(c: char) -> (yes: bool)
    ensures
        yes == is_white_space(c),
{
    let n: u32 = c as u32;
    (0x09 <= n && n <= 0x0d) || n == 0x20 || n == 0x85 || n == 0xa0 || n == 0x1680 || (0x2000 <= n
        && n <= 0x200a) || n == 0x2028 || n == 0x2029 || n == 0x202f || n == 0x205f || n == 0x3000
}

/// Parses the piece of `input` between two positions, without the white
/// space at its ends, as a URL.
fn parse_piece(input: &str, start: usize, end: usize) -> (url: Option<Address>)
    requires
        start <= end <= input@.len(),
    ensures
        url is Some <==> url_parse(trimmed(input@.subrange(start as int, end as int))) is Some,
        url is Some ==> url_parse(trimmed(input@.subrange(start as int, end as int))) == Some(
            url->0@,
        ),
{
    let ghost piece = input@.subrange(start as int, end as int);
    let mut lo: usize = start;
    while lo < end && white_space(input.get_char(lo))
        invariant
            start <= lo <= end <= input@.len(),
            trimmed(piece) == trimmed(input@.subrange(lo as int, end as int)),
        decreases end - lo,
    {
        assert(input@.subrange(lo as int, end as int).drop_first() =~= input@.subrange(
            lo as int + 1,
            end as int,
        ));
        lo += 1;
    }
    let mut hi: usize = end;
    while lo < hi && white_space(input.get_char(hi - 1))
        invariant
            lo <= hi <= end <= input@.len(),
            lo < end ==> !is_white_space(input@[lo as int]),
            trimmed(piece) == trimmed(input@.subrange(lo as int, hi as int)),
        decreases hi - lo,
    {
        assert(input@.subrange(lo as int, hi as int).drop_last() =~= input@.subrange(
            lo as int,
            hi as int - 1,
        ));
        hi -= 1;
    }
    Address::parse(input.substring_char(lo, hi))
}

/// Parses a list of URLs that are separated by commas; white space around
/// a URL is passed over. `None` where a piece of the text is no URL.
pub fn parse_vec(input: &str) -> (addresses: Option<Vec<Address>>)
    ensures
        addresses is Some <==> parsed_list(comma_separated(input@)) is Some,
        addresses is Some ==> parsed_list(comma_separated(input@)) == Some(serializations(addresses->0@)),
{
    let n = input.unicode_len();
    let mut out: Vec<Address> = Vec::new();
    let mut failed = false;
    let ghost mut done: Seq<Seq<char>> = Seq::empty();
    let mut start: usize = 0;
    let mut i: usize = 0;
    assert(input@.take(0) =~= Seq::<char>::empty());
    assert(done.push(input@.subrange(0, 0)) =~= seq![Seq::<char>::empty()]);
    assert(serializations(out@) =~= Seq::empty());
    while i < n
        invariant
            n == input@.len(),
            start <= i <= n,
            comma_separated(input@.take(i as int)) == done.push(
                input@.subrange(start as int, i as int),
            ),
            failed <==> parsed_list(done) is None,
            !failed ==> parsed_list(done) == Some(serializations(out@)),
        decreases n - i,
    {
        proof {
            assert(input@.take(i as int + 1).drop_last() =~= input@.take(i as int));
            let before = done.push(input@.subrange(start as int, i as int));
            assert(before.drop_last() =~= done);
        }
        if input.get_char(i) == ',' {
            let ghost piece = input@.subrange(start as int, i as int);
            let url = parse_piece(input, start, i);
            proof {
                assert(done.push(piece).drop_last() =~= done);
                assert(input@.subrange(i as int + 1, i as int + 1) =~= Seq::<char>::empty());
            }
            match url {
                Some(address) => {
                    if !failed {
                        let ghost shorter = serializations(out@);
                        out.push(address);
                        assert(serializations(out@) =~= shorter.push(address@));
                    }
                },
                None => {
                    failed = true;
                },
            }
            proof {
                done = done.push(piece);
            }
            start = i + 1;
        } else {
            assert(input@.subrange(start as int, i as int).push(input@[i as int])
                =~= input@.subrange(start as int, i as int + 1));
        }
        i += 1;
    }
    let ghost piece = input@.subrange(start as int, n as int);
    let url = parse_piece(input, start, n);
    proof {
        assert(input@.take(n as int) =~= input@);
        assert(done.push(piece).drop_last() =~= done);
    }
    match url {
        Some(address) => {
            if failed {
                None
            } else {
                let ghost shorter = serializations(out@);
                out.push(address);
                assert(serializations(out@) =~= shorter.push(address@));
                Some(out)
            }
        },
        None => None,
    }
}

/// The URL that a socket address is reached by: `None` where the URL
/// library makes no URL of it.
pub fn addr_to_url(addr: &str) -> (url: Option<Address>)
    ensures
        url is Some <==> url_parse(http_of(addr@)) is Some,
        url is Some ==> url_parse(http_of(addr@)) == Some(url->0@),
{
    let text = "http://".to_owned().concat(addr);
    Address::parse(text.as_str())
}

impl Args {
    /// The settings of the node: those of the join where the node is to
    /// join, else its own.
    pub open spec fn node_settings(&self) -> DefaultArgs {
        match self.sub_cmd {
            Some(SubArg::Join { default_args, .. }) => default_args,
            _ => self.default_args,
        }
    }

    /// The settings of the backups: those of the join where the node is to
    /// join, else its own.
    pub open spec fn backup_settings(&self) -> BackupArgs {
        match self.sub_cmd {
            Some(SubArg::Join { backup_args, .. }) => backup_args,
            _ => self.backup_args,
        }
    }

    /// The settings of the log: those of the join where the node is to
    /// join, else its own.
    pub open spec fn logger_settings(&self) -> LoggerArgs {
        match self.sub_cmd {
            Some(SubArg::Join { logger_args, .. }) => logger_args,
            _ => self.logger_args,
        }
    }

    /// The external address that is given with a join, if any.
    pub open spec fn given_external_address(&self) -> Option<Address> {
        match self.sub_cmd {
            Some(SubArg::Join { external_address, .. }) => external_address,
            _ => None,
        }
    }

    /// Makes the configuration that the node starts with: a fresh
    /// identifier and the code derived from it, the settings given, and as
    /// external address the one given with a join, else the URL of the
    /// address that the node binds to. `None` where the URL library makes
    /// no URL of that address.
    pub fn as_runtime_config(&self) -> (made: Option<RuntimeConfig>)
        ensures
            made is None <==> self.given_external_address() is None && url_parse(
                http_of(self.node_settings().address@),
            ) is None,
            made is Some ==> made->0.address@ == self.node_settings().address@,
            made is Some ==> made->0.backup_dir@ == self.backup_settings().backup_dir.path@,
            made is Some ==> made->0.backup_interval == self.backup_settings().backup_interval,
            made is Some ==> made->0.backup_amount == self.backup_settings().backup_amount,
            made is Some ==> made->0.backup_skip_loading
                == self.backup_settings().backup_skip_loading,
            made is Some && self.given_external_address() is Some ==> made->0.external_address
                == self.given_external_address()->0,
            made is Some && self.given_external_address() is None ==> url_parse(
                http_of(self.node_settings().address@),
            ) == Some(made->0.external_address@),
            made is Some ==> made->0.neighbours.addresses() == listed_neighbours(
                self.node_settings().neighbours@,
            ),
            made is Some ==> made->0.neighbours.members() == named_neighbours(
                self.node_settings().neighbours@,
            ),
            made is Some ==> made->0.base_code@ == base64_sha3_text(made->0.identifier@),
            made is Some ==> made->0.identifier@.len() == 43,
    {
        let (default_args, backup_args, given) = match &self.sub_cmd {
            Some(SubArg::Join { default_args, backup_args, external_address, .. }) => (
                default_args,
                backup_args,
                match external_address {
                    Some(address) => Some(address.clone()),
                    None => None,
                },
            ),
            _ => (&self.default_args, &self.backup_args, None),
        };
        let external_address = match given {
            Some(address) => address,
            None => match addr_to_url(default_args.address.as_str()) {
                Some(address) => address,
                None => {
                    return None;
                },
            },
        };
        let mut neighbours = Neighbours::new();
        assert(neighbours.members() =~= Set::<Seq<char>>::empty());
        let mut i: usize = 0;
        while i < default_args.neighbours.len()
            invariant
                i <= default_args.neighbours.len(),
                neighbours.addresses() == listed_neighbours(
                    default_args.neighbours@.take(i as int),
                ),
                neighbours.members() == named_neighbours(default_args.neighbours@.take(i as int)),
            decreases default_args.neighbours.len() - i,
        {
            proof {
                let longer = default_args.neighbours@.take(i as int + 1);
                assert(longer.drop_last() =~= default_args.neighbours@.take(i as int));
            }
            neighbours.extend(&default_args.neighbours[i]);
            i += 1;
        }
        proof {
            assert(default_args.neighbours@.take(default_args.neighbours.len() as int)
                =~= default_args.neighbours@);
        }
        let fresh = RuntimeConfig::default();
        Some(
            RuntimeConfig {
                address: default_args.address.clone(),
                external_address,
                backup_dir: backup_args.backup_dir.path.clone(),
                backup_interval: backup_args.backup_interval,
                backup_amount: backup_args.backup_amount,
                backup_skip_loading: backup_args.backup_skip_loading,
                neighbours,
                base_code: fresh.base_code,
                identifier: fresh.identifier,
            },
        )
    }

    /// Chooses the level and the form of the log. `None` where the form
    /// is none of `compact`, `json` and `pretty`.
    pub fn set_logger(&self) -> (setup: Option<LoggerSetup>)
        ensures
            setup is Some <==> named_format(self.logger_settings().output@) is Some,
            setup is Some ==> setup->0.level == chosen_level(self.logger_settings()),
            setup is Some ==> Some(setup->0.output) == named_format(self.logger_settings().output@),
    {
        let args = match &self.sub_cmd {
            Some(SubArg::Join { logger_args, .. }) => logger_args,
            _ => &self.logger_args,
        };
        let level = if args.ultra_quiet {
            LevelFilter::Off
        } else if args.quiet {
            LevelFilter::Error
        } else if args.verbose {
            LevelFilter::Debug
        } else if args.trace {
            LevelFilter::Trace
        } else {
            match args.logger_level {
                Some(level) => level,
                None => LevelFilter::Info,
            }
        };
        let output = if args.output == "json".to_owned() {
            OutputFormat::Json
        } else if args.output == "compact".to_owned() {
            OutputFormat::Compact
        } else if args.output == "pretty".to_owned() {
            OutputFormat::Pretty
        } else {
            return None;
        };
        Some(LoggerSetup { level, output })
    }
}

} // verus!
