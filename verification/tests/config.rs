use rmbtd::config::constants::{make_chunk, random_chunk, MAX_CHUNK_SIZE, MIN_CHUNK_SIZE};
use rmbtd::config::file::{read_config_file, setting_values, FileError, FileSettings};
use rmbtd::config::level::LogLevel;
use rmbtd::config::parser::{
    addr_texts, parse_addr, parse_cli, parse_cli_on, parse_syslog_target, read_secret_keys, AddrReading, Cli,
    CliError, CliRequest,
};
use rmbtd::config::{apply_overrides, Config, Overrides};
use rmbtd::net::{IpAddr, SocketAddr};

// ── Secret keys ─────────────────────────────────────────────────────────────────
#[test]
fn secret_keys_are_read_line_by_line() {
    let content = "# comment line\nmysecretkey1 production\r\n\noldsecretkey   staging area  \n\
                   abcd\n  spaced1  \n#hidden key\nfiveß";
    let keys = read_secret_keys(content).unwrap();
    let pairs: Vec<(&str, &str)> =
        keys.iter().map(|k| (k.key.as_str(), k.label.as_str())).collect();
    assert_eq!(
        pairs,
        vec![
            ("mysecretkey1", "production"),
            ("oldsecretkey", "staging area"),
            ("spaced1", ""),
            ("fiveß", ""),
        ]
    );
}

#[test]
fn lines_shorter_than_five_characters_are_skipped() {
    // four characters, though more than four bytes
    assert!(read_secret_keys("äöüß\n").is_err());
    assert_eq!(read_secret_keys("äöüßa\n").unwrap()[0].key, "äöüßa");
}

#[test]
fn no_keys_is_an_error() {
    assert!(read_secret_keys("").is_err());
    assert!(read_secret_keys("# nothing\nabc\n").is_err());
}

// ── Addresses ───────────────────────────────────────────────────────────────────
const NOTHING: AddrReading = AddrReading { socket: None, ip: None, v6: None, v4: None };

fn v4(octets: [u8; 4], port: u16) -> SocketAddr {
    SocketAddr::new(IpAddr::V4(octets), port)
}

fn v6(octets: [u8; 16], port: u16) -> SocketAddr {
    SocketAddr::new(IpAddr::V6(octets), port)
}

#[test]
fn bare_port_listens_everywhere() {
    assert_eq!(parse_addr(" 443 ", &NOTHING), Some(v4([0; 4], 443)));
    assert_eq!(parse_addr("65536", &NOTHING), None);
    assert_eq!(parse_addr("", &NOTHING), None);
    assert_eq!(parse_addr("nonsense", &NOTHING), None);
}

#[test]
fn socket_address_is_taken_as_it_is() {
    let sa = v4([127, 0, 0, 1], 80);
    let reading = AddrReading { socket: Some(sa), ..NOTHING };
    assert_eq!(parse_addr("127.0.0.1:80", &reading), Some(sa));
}

#[test]
fn parts_are_put_together() {
    let one = [0, 0, 0, 0, 0, 0, 0, 0, 0, 0, 0, 0, 0, 0, 0, 1];
    let reading = AddrReading { v6: Some(one), ..NOTHING };
    assert_eq!(parse_addr("[::1]:+44", &reading), Some(v6(one, 44)));
    assert_eq!(parse_addr("[::1]:x", &reading), None);
    assert_eq!(parse_addr("[::1]", &reading), None);
    let reading = AddrReading { v4: Some([1, 2, 3, 4]), ..NOTHING };
    assert_eq!(parse_addr("1.2.3.4:+7", &reading), Some(v4([1, 2, 3, 4], 7)));
    assert_eq!(parse_addr("1.2.3.4:", &reading), None);
}

#[test]
fn texts_to_read_are_cut_out() {
    let t = addr_texts(" [fe80::1]:443 ");
    assert_eq!(t.whole, "[fe80::1]:443");
    assert_eq!(t.bracketed.as_deref(), Some("fe80::1"));
    assert_eq!(t.before_colon.as_deref(), Some("[fe80"));
    let t = addr_texts("443");
    assert_eq!(t.whole, "443");
    assert!(t.bracketed.is_none() && t.before_colon.is_none());
}

#[test]
fn syslog_port_defaults_to_514() {
    let ip = IpAddr::V4([10, 0, 0, 1]);
    let reading = AddrReading { ip: Some(ip), ..NOTHING };
    assert_eq!(parse_syslog_target(&reading), Some(SocketAddr::new(ip, 514)));
    let sa = SocketAddr::new(ip, 1514);
    let reading = AddrReading { socket: Some(sa), ..NOTHING };
    assert_eq!(parse_syslog_target(&reading), Some(sa));
    assert_eq!(parse_syslog_target(&NOTHING), None);
}

// ── Command line ────────────────────────────────────────────────────────────────
fn read(args: &[&str]) -> Result<CliRequest, CliError> {
    let args: Vec<String> = args.iter().map(|a| a.to_string()).collect();
    let readings: Vec<AddrReading> = args.iter().map(|_| NOTHING).collect();
    parse_cli(&args, &readings)
}

fn run(args: &[&str]) -> Cli {
    match read(args) {
        Ok(CliRequest::Run(cli)) => cli,
        _ => panic!("not a server"),
    }
}

#[test]
fn defaults_hold_without_arguments() {
    let cli = run(&[]);
    assert!(cli.tcp_addrs.is_empty());
    assert_eq!(cli.tls_addrs, vec![v6([0; 16], 443), v4([0; 4], 443)]);
    assert_eq!(cli.config.num_workers, 200);
    assert_eq!(cli.config.secret_key_path, "secret.key");
    assert!(cli.config.check_token);
    assert!(!cli.config.v2_only && !cli.config.log_full_ip && !cli.config.tls13_only);
    assert_eq!(cli.config.log_level, LogLevel::Off);
    assert!(cli.config.cert_path.is_none() && cli.config.key_path.is_none());
    assert!(cli.config.syslog_target.is_none());
}

#[test]
fn options_are_applied() {
    let cli = run(&[
        "-l", "8080", "-l", "8081", "-L", "8443", "-c", "cert.pem", "-k", "key.pem", "-S",
        "keys", "-t", "12", "-log", "DEBUG", "-s", "--v2-only", "--log-full-ip", "--tls13-only",
        "--no-token-check",
    ]);
    assert_eq!(cli.tcp_addrs, vec![v4([0; 4], 8080), v4([0; 4], 8081)]);
    assert_eq!(cli.tls_addrs, vec![v4([0; 4], 8443)]);
    assert_eq!(cli.config.cert_path.as_deref(), Some("cert.pem"));
    assert_eq!(cli.config.key_path.as_deref(), Some("key.pem"));
    assert_eq!(cli.config.secret_key_path, "keys");
    assert_eq!(cli.config.num_workers, 12);
    assert_eq!(cli.config.log_level, LogLevel::Debug);
    assert!(cli.config.v2_only && cli.config.log_full_ip && cli.config.tls13_only);
    assert!(!cli.config.check_token);
}

#[test]
fn log_levels_have_their_names() {
    for (name, level) in [
        ("off", LogLevel::Off),
        ("Error", LogLevel::Error),
        ("WARN", LogLevel::Warn),
        ("info", LogLevel::Info),
        ("debug", LogLevel::Debug),
        ("tRaCe", LogLevel::Trace),
    ] {
        assert_eq!(run(&["-log", name]).config.log_level, level);
    }
}

#[test]
fn syslog_target_is_taken_from_its_reading() {
    let args = vec!["--syslog".to_string(), "10.0.0.1".to_string()];
    let ip = IpAddr::V4([10, 0, 0, 1]);
    let readings = vec![NOTHING, AddrReading { ip: Some(ip), ..NOTHING }];
    match parse_cli(&args, &readings) {
        Ok(CliRequest::Run(cli)) => {
            assert_eq!(cli.config.syslog_target, Some(SocketAddr::new(ip, 514)))
        }
        _ => panic!("not a server"),
    }
}

#[test]
fn help_and_version_stop_the_reading() {
    assert!(matches!(read(&["-h", "--nonsense"]), Ok(CliRequest::Help)));
    assert!(matches!(read(&["--v2-only", "--help"]), Ok(CliRequest::Help)));
    assert!(matches!(read(&["-v"]), Ok(CliRequest::Version)));
    assert!(matches!(read(&["--version"]), Ok(CliRequest::Version)));
}

#[test]
fn option_without_its_value_is_passed_over() {
    assert_eq!(run(&["-t"]).config.num_workers, 200);
    assert_eq!(run(&["--v2-only", "-S"]).config.secret_key_path, "secret.key");
}

#[test]
fn bad_arguments_are_refused() {
    assert!(matches!(read(&["-l", "x"]), Err(CliError::InvalidAddress(1))));
    assert!(matches!(read(&["-s", "-L", "x"]), Err(CliError::InvalidAddress(2))));
    assert!(matches!(read(&["--syslog", "x"]), Err(CliError::InvalidSyslogTarget(1))));
    assert!(matches!(read(&["-t", "-1"]), Err(CliError::InvalidWorkerCount(1))));
    assert!(matches!(read(&["-log", "loud"]), Err(CliError::InvalidLogLevel(1))));
    assert!(matches!(read(&["--v2-only", "--frob"]), Err(CliError::UnknownOption(1))));
}

// ── Overrides ───────────────────────────────────────────────────────────────────
fn no_overrides() -> Overrides {
    Overrides {
        num_workers: None,
        log_level: None,
        cert_path: None,
        key_path: None,
        secret_key_path: None,
        v2_only: false,
        syslog_target: None,
        log_full_ip: false,
    }
}

#[test]
fn overrides_can_only_tighten() {
    let mut base = Config::default();
    base.v2_only = true;
    base.log_full_ip = true;
    base.num_workers = 7;
    let same = apply_overrides(base.clone(), no_overrides());
    assert!(same.v2_only && same.log_full_ip);
    assert_eq!(same.num_workers, 7);
    let mut over = no_overrides();
    over.v2_only = true;
    over.num_workers = Some(3);
    over.cert_path = Some("c".to_string());
    over.secret_key_path = Some("s".to_string());
    over.log_level = Some(LogLevel::Info);
    let config = apply_overrides(Config::default(), over);
    assert!(config.v2_only && !config.log_full_ip && config.check_token);
    assert_eq!(config.num_workers, 3);
    assert_eq!(config.cert_path.as_deref(), Some("c"));
    assert_eq!(config.key_path, None);
    assert_eq!(config.secret_key_path, "s");
    assert_eq!(config.log_level, LogLevel::Info);
}

// ── Configuration file ──────────────────────────────────────────────────────────
fn read_file(content: &str) -> Result<FileSettings, FileError> {
    let ip = IpAddr::V4([10, 0, 0, 1]);
    let readings: Vec<AddrReading> = setting_values(content)
        .iter()
        .map(|v| AddrReading { ip: if v == "10.0.0.1" { Some(ip) } else { None }, ..NOTHING })
        .collect();
    read_config_file(content, &readings)
}

#[test]
fn configuration_file_is_read() {
    let content = "# rmbtd\n\nv2_only = true\r\n  syslog=10.0.0.1\nlog_full_ip = false\n\
                   log_full_ip = true\nlogger = Debug";
    let values = setting_values(content);
    assert_eq!(values, ["", "", "true", "10.0.0.1", "false", "true", "Debug"]);
    let file = read_file(content).unwrap();
    assert!(file.v2_only && file.log_full_ip);
    assert_eq!(file.log_level, Some(LogLevel::Debug));
    let target = SocketAddr::new(IpAddr::V4([10, 0, 0, 1]), 514);
    assert_eq!(file.syslog_target, Some(target));
    let config = file.config();
    assert!(config.v2_only && config.log_full_ip && config.check_token);
    assert_eq!(config.log_level, LogLevel::Debug);
    assert_eq!(config.syslog_target, Some(target));
    assert_eq!(config.num_workers, 200);
}

#[test]
fn configuration_file_may_be_empty() {
    let file = read_file("").unwrap();
    assert!(!file.v2_only && !file.log_full_ip);
    assert!(file.log_level.is_none() && file.syslog_target.is_none());
}

#[test]
fn token_check_is_governed_by_the_configuration_file() {
    assert!(read_file("").unwrap().config().check_token);
    assert!(read_file("check_token = true").unwrap().config().check_token);
    let off = read_file("check_token = false\nv2_only = true").unwrap().config();
    assert!(!off.check_token && off.v2_only);
    assert_eq!(read_file("check_token = no").err(), Some(FileError::InvalidValue(0)));
}

#[test]
fn faults_in_the_configuration_file_are_located() {
    assert_eq!(read_file("v2_only\n").err(), Some(FileError::NotASetting(0)));
    assert_eq!(read_file("\nfrob = 1\nx").err(), Some(FileError::UnknownName(1)));
    assert_eq!(read_file("v2_only = yes").err(), Some(FileError::InvalidValue(0)));
    assert_eq!(read_file("log_full_ip =").err(), Some(FileError::InvalidValue(0)));
    assert_eq!(read_file("syslog = nowhere").err(), Some(FileError::InvalidValue(0)));
    assert_eq!(read_file("#\nlogger = loud").err(), Some(FileError::InvalidValue(1)));
}

#[test]
fn command_line_builds_on_the_configuration_file() {
    let base = || {
        let file = read_file("v2_only = true\nlogger = debug\nsyslog = 10.0.0.1").unwrap();
        file.config()
    };
    let on = |args: &[&str]| {
        let args: Vec<String> = args.iter().map(|a| a.to_string()).collect();
        let readings: Vec<AddrReading> = args.iter().map(|_| NOTHING).collect();
        match parse_cli_on(base(), &args, &readings) {
            Ok(CliRequest::Run(cli)) => cli.config,
            _ => panic!("not a server"),
        }
    };
    let same = on(&[]);
    assert!(same.v2_only && !same.log_full_ip);
    assert_eq!(same.log_level, LogLevel::Debug);
    assert!(same.syslog_target.is_some());
    let more = on(&["-log", "off", "--log-full-ip", "-t", "3"]);
    assert!(more.v2_only && more.log_full_ip);
    assert_eq!(more.log_level, LogLevel::Off);
    assert_eq!(more.num_workers, 3);
}

// ── Chunks ──────────────────────────────────────────────────────────────────────
#[test]
fn chunks_end_with_their_marker() {
    let random = random_chunk();
    assert_eq!(random.len(), MAX_CHUNK_SIZE as usize);
    assert!(random.iter().any(|b| *b != 0), "not filled");
    for size in [1, 2, MIN_CHUNK_SIZE as usize, MAX_CHUNK_SIZE as usize] {
        for terminal in [false, true] {
            let chunk = make_chunk(&random, size, terminal);
            assert_eq!(chunk.len(), size);
            assert_eq!(chunk[size - 1], if terminal { 0xff } else { 0 });
            assert_eq!(chunk[..size - 1], random[..size - 1]);
        }
    }
}
