use racher::address::Address;
use racher::arguments::{
    addr_to_url, parse_vec, white_space, Args, BackupArgs, DefaultArgs, LevelFilter, LoggerArgs,
    LoggerSetup, OutputFormat, SubArg, TempPathBuf,
};
use racher::config::{JoinCommand, RuntimeConfig, Startup, CODE_BYTES};
use racher::encoding::base64_sha3;
use racher::neighbours::Neighbours;

fn url(text: &str) -> Address {
    Address::parse(text).unwrap()
}

fn logger() -> LoggerArgs {
    LoggerArgs {
        quiet: false,
        ultra_quiet: false,
        verbose: false,
        trace: false,
        logger_level: None,
        output: String::from("compact"),
    }
}

fn backups(dir: &str, interval: u64, amount: usize, skip: bool) -> BackupArgs {
    BackupArgs {
        backup_dir: TempPathBuf::new(dir),
        backup_interval: interval,
        backup_amount: amount,
        backup_skip_loading: skip,
    }
}

fn plain_args() -> Args {
    Args {
        default_args: DefaultArgs {
            address: String::from("127.0.0.1:9226"),
            neighbours: vec![
                vec![url("http://10.0.0.1:9226"), url("http://10.0.0.2:9226")],
                vec![url("http://10.0.0.2:9226"), url("http://10.0.0.3:9226")],
            ],
        },
        logger_args: logger(),
        backup_args: backups("/tmp/backups", 60, 10, false),
        sub_cmd: None,
    }
}

fn join_args(external: Option<Address>) -> Args {
    let mut args = plain_args();
    let mut quiet = logger();
    quiet.quiet = true;
    args.sub_cmd = Some(SubArg::Join {
        default_args: DefaultArgs { address: String::from("0.0.0.0:9300"), neighbours: vec![] },
        logger_args: quiet,
        backup_args: backups("/var/joined", 5, 2, true),
        join_address: url("http://10.0.0.1:9226"),
        external_address: external,
    });
    args
}

#[test]
fn generated_code_is_base64_of_32_bytes() {
    assert_eq!(CODE_BYTES, 32);
    let code = RuntimeConfig::generate_code();
    assert_eq!(code.len(), 43);
    assert!(code.chars().all(|c| c.is_ascii_alphanumeric() || c == '-' || c == '_'));
    assert_ne!(code, RuntimeConfig::generate_code());
}

#[test]
fn default_configuration() {
    let config = RuntimeConfig::default();
    assert_eq!(config.address, "127.0.0.1:9226");
    assert_eq!(config.external_address, url("http://127.0.0.1:9226"));
    assert_eq!(config.backup_dir, "datadir");
    assert_eq!(config.backup_interval, 10);
    assert_eq!(config.backup_amount, 10);
    assert!(!config.backup_skip_loading);
    assert!(config.neighbours.is_empty());
    assert_eq!(config.identifier.len(), 43);
    assert_eq!(config.base_code, base64_sha3(&config.identifier));
    assert_eq!(config.base_code.len(), 86);
    assert_eq!(config.clone(), config);
}

#[test]
fn configuration_from_plain_settings() {
    let config = plain_args().as_runtime_config().unwrap();
    assert_eq!(config.address, "127.0.0.1:9226");
    assert_eq!(config.external_address.as_str(), "http://127.0.0.1:9226/");
    assert_eq!(config.backup_dir, "/tmp/backups");
    assert_eq!(config.backup_interval, 60);
    assert_eq!(config.backup_amount, 10);
    assert!(!config.backup_skip_loading);
    let expected = Neighbours::from_vec(&vec![
        url("http://10.0.0.1:9226"),
        url("http://10.0.0.2:9226"),
        url("http://10.0.0.3:9226"),
    ]);
    assert_eq!(config.neighbours, expected);
    assert_eq!(config.neighbours.len(), 3);
    assert_eq!(config.base_code, base64_sha3(&config.identifier));
}

#[test]
fn configuration_of_a_join_takes_the_settings_of_the_join() {
    let config = join_args(None).as_runtime_config().unwrap();
    assert_eq!(config.address, "0.0.0.0:9300");
    assert_eq!(config.external_address.as_str(), "http://0.0.0.0:9300/");
    assert_eq!(config.backup_dir, "/var/joined");
    assert_eq!(config.backup_interval, 5);
    assert_eq!(config.backup_amount, 2);
    assert!(config.backup_skip_loading);
    assert!(config.neighbours.is_empty());
}

#[test]
fn configuration_of_a_join_takes_the_external_address_given() {
    let external = url("http://cache.example.com:80");
    let config = join_args(Some(external.clone())).as_runtime_config().unwrap();
    assert_eq!(config.external_address, external);
    assert_eq!(config.address, "0.0.0.0:9300");
}

#[test]
fn configuration_needs_an_address_that_makes_a_url() {
    let mut args = plain_args();
    args.default_args.address = String::from("not an address");
    assert!(args.as_runtime_config().is_none());
}

#[test]
fn socket_addresses_become_http_urls() {
    assert_eq!(addr_to_url("127.0.0.1:9226").unwrap().as_str(), "http://127.0.0.1:9226/");
    assert_eq!(addr_to_url("[::1]:80").unwrap().as_str(), "http://[::1]/");
    assert!(addr_to_url("").is_none());
}

#[test]
fn join_command_is_read_from_the_settings() {
    assert_eq!(JoinCommand::from_args(&plain_args()), None);
    assert_eq!(
        JoinCommand::from_args(&join_args(None)),
        Some(JoinCommand { address: url("http://10.0.0.1:9226") })
    );
    let mut args = plain_args();
    args.sub_cmd = Some(SubArg::RemoveBackup { backup_dir: TempPathBuf::new("/tmp") });
    assert_eq!(JoinCommand::from_args(&args), None);
}

#[test]
fn log_level_follows_the_switches() {
    let level = |change: &dyn Fn(&mut LoggerArgs)| {
        let mut args = plain_args();
        change(&mut args.logger_args);
        args.set_logger().unwrap().level
    };
    assert_eq!(level(&|_| {}), LevelFilter::Info);
    assert_eq!(level(&|l| l.logger_level = Some(LevelFilter::Warn)), LevelFilter::Warn);
    assert_eq!(level(&|l| l.trace = true), LevelFilter::Trace);
    assert_eq!(
        level(&|l| {
            l.trace = true;
            l.verbose = true
        }),
        LevelFilter::Debug
    );
    assert_eq!(
        level(&|l| {
            l.verbose = true;
            l.quiet = true
        }),
        LevelFilter::Error
    );
    assert_eq!(
        level(&|l| {
            l.quiet = true;
            l.ultra_quiet = true;
            l.logger_level = Some(LevelFilter::Trace)
        }),
        LevelFilter::Off
    );
}

#[test]
fn log_form_is_one_of_three() {
    let form = |text: &str| {
        let mut args = plain_args();
        args.logger_args.output = String::from(text);
        args.set_logger().map(|setup| setup.output)
    };
    assert_eq!(form("compact"), Some(OutputFormat::Compact));
    assert_eq!(form("json"), Some(OutputFormat::Json));
    assert_eq!(form("pretty"), Some(OutputFormat::Pretty));
    assert_eq!(form("xml"), None);
    assert_eq!(form(""), None);
}

#[test]
fn log_settings_of_a_join_are_those_of_the_join() {
    assert_eq!(
        join_args(None).set_logger(),
        Some(LoggerSetup { level: LevelFilter::Error, output: OutputFormat::Compact })
    );
}

#[test]
fn directories_are_held_by_their_path() {
    let dir: TempPathBuf = "/tmp/x".parse().unwrap();
    assert_eq!(dir.path, "/tmp/x");
    assert_eq!(dir.display(), "/tmp/x");
    assert_eq!(TempPathBuf::new("relative").path, "relative");
}

fn parsed(input: &str) -> Option<Vec<String>> {
    parse_vec(input).map(|list| list.iter().map(|url| url.as_str().to_string()).collect())
}

#[test]
fn neighbour_lists_are_separated_by_commas() {
    assert_eq!(
        parsed("http://10.0.0.1:9226,http://10.0.0.2:9226"),
        Some(vec![String::from("http://10.0.0.1:9226/"), String::from("http://10.0.0.2:9226/")])
    );
    assert_eq!(parsed("http://a.example"), Some(vec![String::from("http://a.example/")]));
}

#[test]
fn neighbour_lists_may_hold_white_space() {
    assert_eq!(
        parsed("  http://a.example ,\thttp://b.example/x\n, \u{a0}http://c.example\u{3000}"),
        Some(vec![
            String::from("http://a.example/"),
            String::from("http://b.example/x"),
            String::from("http://c.example/"),
        ])
    );
}

#[test]
fn neighbour_lists_with_a_bad_piece_are_refused() {
    assert_eq!(parsed(""), None);
    assert_eq!(parsed("   "), None);
    assert_eq!(parsed("http://a.example,"), None);
    assert_eq!(parsed(",http://a.example"), None);
    assert_eq!(parsed("http://a.example,,http://b.example"), None);
    assert_eq!(parsed("http://a.example,10.0.0.1:9226"), None);
    assert_eq!(parsed("not a url,http://a.example"), None);
}

#[test]
fn white_space_is_what_the_standard_library_trims() {
    for code in 0..=0x10ffff_u32 {
        if let Some(c) = char::from_u32(code) {
            assert_eq!(white_space(c), c.is_whitespace(), "U+{:04X}", code);
        }
    }
}

#[test]
fn pieces_are_trimmed_like_the_standard_library_trims() {
    for text in [" a , b", "a,b ", "\u{2003}http://x.example\u{2003}", "x\r\n"] {
        let expected: Option<Vec<String>> = text
            .split(",")
            .map(|piece| Address::parse(piece.trim()).map(|url| url.as_str().to_string()))
            .collect();
        assert_eq!(parsed(text), expected);
    }
}

#[test]
fn startup_follows_the_settings() {
    assert!(matches!(Startup::from_args(&plain_args()), Startup::Load));
    match Startup::from_args(&join_args(None)) {
        Startup::Join(command) => assert_eq!(command.address, url("http://10.0.0.1:9226")),
        _ => panic!("a join is asked for"),
    }
    let mut args = plain_args();
    args.sub_cmd = Some(SubArg::RemoveBackup { backup_dir: TempPathBuf::new("/tmp/gone") });
    match Startup::from_args(&args) {
        Startup::RemoveBackups(dir) => assert_eq!(dir.path, "/tmp/gone"),
        _ => panic!("a removal is asked for"),
    }
}
