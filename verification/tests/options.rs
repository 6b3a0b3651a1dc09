use kodiak_server::options::{
    choose_ports, cloud_server, first_label_end, level_filter, level_or_fallback,
    server_id_of_host, STANDARD_HTTPS_PORT, STANDARD_HTTP_PORT,
};
use kodiak_server::{LevelFilter, Options, ServerId, ServerKind, ServerNumber};

fn number(n: u8) -> ServerNumber {
    match ServerNumber::new(n) {
        Some(number) => number,
        None => panic!("a server number other than zero was turned down"),
    }
}

fn cloud(n: u8) -> Option<ServerId> {
    Some(ServerId { number: number(n), kind: ServerKind::Cloud })
}

fn with_host(host: &str) -> Options {
    let mut options = Options::new();
    options.hostname = Some(host.to_string());
    options
}

#[test]
fn options_without_arguments() {
    let options = Options::new();
    assert_eq!(options.bots, None);
    assert_eq!(options.debug_http, "info");
    assert_eq!(options.debug_game, "info");
    assert_eq!(options.debug_engine, "warn");
    assert_eq!(options.debug_plasma, "warn");
    assert_eq!(options.domain_backup, "./domain_backup.json");
    assert_eq!(options.server_id, None);
    assert_eq!(options.hostname, None);
    assert_eq!(options.http_port, None);
    assert_eq!(options.https_port, None);
    assert_eq!(options.domain, None);
    assert_eq!(options.certificate_path, None);
    assert_eq!(options.private_key_path, None);
    assert_eq!(options.http_bandwidth_limit, 500_000);
    assert_eq!(options.http_bandwidth_burst, None);
    assert_eq!(options.client_authenticate_rate_limit, 10);
    assert_eq!(options.client_authenticate_burst, 16);
    assert!(!options.cpu_profile);
    assert!(!options.heap_profile);
}

#[test]
fn default_filters() {
    let options = Options::new();
    assert_eq!(options.debug_http_filter(), LevelFilter::Info);
    assert_eq!(options.debug_game_filter(), LevelFilter::Info);
    assert_eq!(options.debug_engine_filter(), LevelFilter::Warn);
    assert_eq!(options.debug_plasma_filter(), LevelFilter::Warn);
}

#[test]
fn filters_follow_their_options() {
    let mut options = Options::new();
    options.debug_http = "trace".to_string();
    options.debug_game = "OFF".to_string();
    options.debug_engine = "Debug".to_string();
    options.debug_plasma = "eRRoR".to_string();
    assert_eq!(options.debug_http_filter(), LevelFilter::Trace);
    assert_eq!(options.debug_game_filter(), LevelFilter::Off);
    assert_eq!(options.debug_engine_filter(), LevelFilter::Debug);
    assert_eq!(options.debug_plasma_filter(), LevelFilter::Error);
}

#[test]
fn unknown_levels_fall_back() {
    let mut options = Options::new();
    options.debug_http = "verbose".to_string();
    options.debug_game = String::new();
    options.debug_engine = " warn".to_string();
    options.debug_plasma = "3".to_string();
    assert_eq!(options.debug_http_filter(), LevelFilter::Info);
    assert_eq!(options.debug_game_filter(), LevelFilter::Info);
    assert_eq!(options.debug_engine_filter(), LevelFilter::Warn);
    assert_eq!(options.debug_plasma_filter(), LevelFilter::Warn);
}

#[test]
fn level_filter_knows_the_six_names() {
    assert_eq!(level_filter("off", LevelFilter::Trace), LevelFilter::Off);
    assert_eq!(level_filter("error", LevelFilter::Trace), LevelFilter::Error);
    assert_eq!(level_filter("warn", LevelFilter::Trace), LevelFilter::Warn);
    assert_eq!(level_filter("info", LevelFilter::Trace), LevelFilter::Info);
    assert_eq!(level_filter("debug", LevelFilter::Off), LevelFilter::Debug);
    assert_eq!(level_filter("trace", LevelFilter::Off), LevelFilter::Trace);
}

#[test]
fn level_filter_ignores_ascii_case_only() {
    assert_eq!(level_filter("WARN", LevelFilter::Off), LevelFilter::Warn);
    assert_eq!(level_filter("wArN", LevelFilter::Off), LevelFilter::Warn);
    assert_eq!(level_filter("warning", LevelFilter::Off), LevelFilter::Off);
    assert_eq!(level_filter("war", LevelFilter::Off), LevelFilter::Off);
    assert_eq!(level_filter("inf\u{f6}", LevelFilter::Off), LevelFilter::Off);
    assert_eq!(level_filter("\u{130}nfo", LevelFilter::Off), LevelFilter::Off);
    assert_eq!(level_filter("info\n", LevelFilter::Off), LevelFilter::Off);
}

#[test]
fn level_or_fallback_prefers_the_named_level() {
    assert_eq!(level_or_fallback(Some(LevelFilter::Debug), LevelFilter::Info), LevelFilter::Debug);
    assert_eq!(level_or_fallback(None, LevelFilter::Info), LevelFilter::Info);
}

#[test]
fn first_label_ends_at_the_first_dot() {
    assert_eq!(first_label_end("3.example.com"), 1);
    assert_eq!(first_label_end("example"), 7);
    assert_eq!(first_label_end(""), 0);
    assert_eq!(first_label_end(".com"), 0);
    assert_eq!(first_label_end("a..b"), 1);
    assert_eq!(first_label_end("\u{e9}\u{e9}.x"), 2);
}

#[test]
fn server_number_is_never_zero() {
    assert_eq!(ServerNumber::new(0), None);
    assert_eq!(number(1).get(), 1);
    assert_eq!(number(255).get(), 255);
}

#[test]
fn cloud_server_of_a_number() {
    assert_eq!(cloud_server(Some(4)), cloud(4));
    assert_eq!(cloud_server(Some(0)), None);
    assert_eq!(cloud_server(None), None);
}

#[test]
fn server_id_of_numbered_host() {
    assert_eq!(server_id_of_host("3.example.com"), cloud(3));
    assert_eq!(server_id_of_host("12"), cloud(12));
    assert_eq!(server_id_of_host("255.a.b.c"), cloud(255));
    assert_eq!(server_id_of_host("007.example.com"), cloud(7));
    assert_eq!(server_id_of_host("+7.example.com"), cloud(7));
    assert_eq!(server_id_of_host("1."), cloud(1));
}

#[test]
fn server_id_of_unnumbered_host() {
    assert_eq!(server_id_of_host("example.com"), None);
    assert_eq!(server_id_of_host(""), None);
    assert_eq!(server_id_of_host(".3"), None);
    assert_eq!(server_id_of_host("0.example.com"), None);
    assert_eq!(server_id_of_host("000"), None);
    assert_eq!(server_id_of_host("256.example.com"), None);
    assert_eq!(server_id_of_host("-1.example.com"), None);
    assert_eq!(server_id_of_host("+.example.com"), None);
    assert_eq!(server_id_of_host("++1.example.com"), None);
    assert_eq!(server_id_of_host("1a.example.com"), None);
    assert_eq!(server_id_of_host(" 1.example.com"), None);
    assert_eq!(server_id_of_host("\u{661}.example.com"), None);
}

#[test]
fn server_id_comes_from_the_host_name() {
    assert_eq!(with_host("9.example.com").server_id(), cloud(9));
    assert_eq!(with_host("www.example.com").server_id(), None);
    assert_eq!(Options::new().server_id(), None);
}

#[test]
fn given_server_id_comes_first() {
    let given = ServerId { number: number(2), kind: ServerKind::Local };
    let mut options = with_host("9.example.com");
    options.server_id = Some(given);
    assert_eq!(options.server_id(), Some(given));
    options.hostname = None;
    assert_eq!(options.server_id(), Some(given));
}

#[test]
fn standard_ports() {
    assert_eq!(STANDARD_HTTP_PORT, 80);
    assert_eq!(STANDARD_HTTPS_PORT, 443);
}

#[test]
fn choose_ports_by_privilege() {
    assert_eq!(choose_ports(true, None, None), (80, 443));
    assert_eq!(choose_ports(false, None, None), (8080, 8443));
}

#[test]
fn choose_ports_prefers_what_was_given() {
    assert_eq!(choose_ports(true, Some(8000), None), (8000, 443));
    assert_eq!(choose_ports(false, Some(8000), None), (8000, 8443));
    assert_eq!(choose_ports(true, None, Some(4430)), (80, 4430));
    assert_eq!(choose_ports(false, None, Some(4430)), (8080, 4430));
    assert_eq!(choose_ports(true, Some(1), Some(2)), (1, 2));
    assert_eq!(choose_ports(false, Some(1), Some(2)), (1, 2));
}

#[test]
fn given_ports_are_used_whoever_runs_the_process() {
    let mut options = Options::new();
    options.http_port = Some(8000);
    options.https_port = Some(4430);
    assert_eq!(options.http_and_https_ports(), (8000, 4430));
}

#[test]
fn default_ports_are_standard_or_unprivileged() {
    let ports = Options::new().http_and_https_ports();
    assert!(ports == (80, 443) || ports == (8080, 8443));
    let mut options = Options::new();
    options.https_port = Some(4430);
    let ports = options.http_and_https_ports();
    assert!(ports == (80, 4430) || ports == (8080, 4430));
}

#[test]
fn bandwidth_burst_defaults_to_twice_the_static_size() {
    let options = Options::new();
    assert_eq!(options.bandwidth_burst(0), 0);
    assert_eq!(options.bandwidth_burst(1_000), 2_000);
    assert_eq!(options.bandwidth_burst(2_147_483_647), 4_294_967_294);
}

#[test]
fn given_bandwidth_burst_is_used() {
    let mut options = Options::new();
    options.http_bandwidth_burst = Some(5);
    assert_eq!(options.bandwidth_burst(1_000), 5);
    assert_eq!(options.bandwidth_burst(usize::MAX), 5);
}

#[test]
fn certificate_paths_need_both() {
    let mut options = Options::new();
    assert_eq!(options.certificate_private_key_paths(), None);
    options.certificate_path = Some("chain.pem".to_string());
    assert_eq!(options.certificate_private_key_paths(), None);
    options.private_key_path = Some("key.pem".to_string());
    assert_eq!(options.certificate_private_key_paths(), Some(("chain.pem", "key.pem")));
    options.certificate_path = None;
    assert_eq!(options.certificate_private_key_paths(), None);
}
