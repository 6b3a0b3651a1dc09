//! Server options, as the argument parser of the host hands them over, and
//! the rules that read them.

use std::str::FromStr;
use vstd::prelude::*;
use vstd::string::*;

verus! {

/// How much a logger lets through.
#[derive(Clone, Copy, Debug, PartialEq, Eq)]
pub enum LevelFilter {
    /// Nothing.
    Off,
    /// Errors.
    Error,
    /// Warnings and errors.
    Warn,
    /// Information, warnings and errors.
    Info,
    /// All of these and what helps to debug.
    Debug,
    /// Everything.
    Trace,
}

/// Where a server runs.
#[derive(Clone, Copy, Debug, PartialEq, Eq)]
pub enum ServerKind {
    /// In the cloud, under a numbered host name.
    Cloud,
    /// On a developer's machine.
    Local,
}

/// The number of a server: never zero.
#[derive(Clone, Copy, Debug, PartialEq, Eq)]
pub struct ServerNumber {
    number: u8,
}

impl View for ServerNumber {
    type V = u8;

    closed spec fn view(&self) -> u8 {
        self.number
    }
}

impl ServerNumber {
    #[verifier::type_invariant]
    spec fn nonzero(self) -> bool {
        self.number != 0
    }

    /// The server number `number`, unless it is zero.
    pub fn new(number: u8) -> (made: Option<ServerNumber>)
        ensures
            number == 0 ==> made is None,
            number != 0 ==> made is Some && made.unwrap()@ == number,
    {
        if number == 0 {
            None
        } else {
            Some(ServerNumber { number })
        }
    }

    /// The number.
    pub fn get(&self) -> (number: u8)
        ensures
            number == self@,
            number != 0,
    {
        proof {
            use_type_invariant(self);
        }
        self.number
    }
}

/// Which server this is.
#[derive(Clone, Copy, Debug, PartialEq, Eq)]
pub struct ServerId {
    /// Its number among the servers of its kind.
    pub number: ServerNumber,
    /// Where it runs.
    pub kind: ServerKind,
}

/// The code point of `c`, an ASCII capital letter taken as its small letter.
pub open spec fn ascii_lowercase(c: char) -> int {
    if 'A' <= c && c <= 'Z' {
        c as int + 32
    } else {
        c as int
    }
}

/// `a` and `b` are the same but for the case of their ASCII letters.
pub open spec fn eq_ignore_ascii_case(a: Seq<char>, b: Seq<char>) -> bool {
    &&& a.len() == b.len()
    &&& forall|i: int|
        0 <= i < a.len() ==> ascii_lowercase(#[trigger] a[i]) == ascii_lowercase(b[i])
}

/// The level that `text` names: one of the six names, in either case.
pub open spec fn level_named(text: Seq<char>) -> Option<LevelFilter> {
    if eq_ignore_ascii_case(text, seq!['O', 'F', 'F']) {
        Some(LevelFilter::Off)
    } else if eq_ignore_ascii_case(text, seq!['E', 'R', 'R', 'O', 'R']) {
        Some(LevelFilter::Error)
    } else if eq_ignore_ascii_case(text, seq!['W', 'A', 'R', 'N']) {
        Some(LevelFilter::Warn)
    } else if eq_ignore_ascii_case(text, seq!['I', 'N', 'F', 'O']) {
        Some(LevelFilter::Info)
    } else if eq_ignore_ascii_case(text, seq!['D', 'E', 'B', 'U', 'G']) {
        Some(LevelFilter::Debug)
    } else if eq_ignore_ascii_case(text, seq!['T', 'R', 'A', 'C', 'E']) {
        Some(LevelFilter::Trace)
    } else {
        None
    }
}

/// The level that `text` names, or `fallback` where it names none.
pub open spec fn level_or(text: Seq<char>, fallback: LevelFilter) -> LevelFilter {
    match level_named(text) {
        Some(level) => level,
        None => fallback,
    }
}

/// The number that the decimal digits `digits` write.
pub open spec fn decimal_value(digits: Seq<char>) -> nat
    decreases digits.len(),
{
    if digits.len() == 0 {
        0
    } else {
        (10 * decimal_value(digits.drop_last()) + (digits.last() as int - '0' as int)) as nat
    }
}

/// `digits` is one decimal digit or more, and nothing else.
pub open spec fn is_decimal(digits: Seq<char>) -> bool {
    &&& digits.len() > 0
    &&& forall|i: int| 0 <= i < digits.len() ==> '0' <= #[trigger] digits[i] && digits[i] <= '9'
}

/// The server number that `text` writes: decimal digits, after a plus sign
/// or without one, whose value is from 1 to 255.
pub open spec fn server_number_written(text: Seq<char>) -> Option<u8> {
    let digits = if text.len() > 0 && text[0] == '+' {
        text.drop_first()
    } else {
        text
    };
    if is_decimal(digits) && 0 < decimal_value(digits) <= 255 {
        Some(decimal_value(digits) as u8)
    } else {
        None
    }
}

/// `n` is where the first label of `host` ends: at its first dot, or at its
/// end where it has none.
pub open spec fn ends_first_label(host: Seq<char>, n: int) -> bool {
    &&& 0 <= n <= host.len()
    &&& forall|i: int| 0 <= i < n ==> #[trigger] host[i] != '.'
    &&& n < host.len() ==> host[n] == '.'
}

/// The first label of `host`: what stands before its first dot, or all of it
/// where it has none.
pub open spec fn first_label(host: Seq<char>) -> Seq<char> {
    host.take(choose|n: int| ends_first_label(host, n))
}

/// A host name has one place where its first label ends.
pub proof fn lemma_first_label_ends_once(host: Seq<char>, n: int)
    requires
        ends_first_label(host, n),
    ensures
        first_label(host) == host.take(n),
{
    let m = choose|m: int| ends_first_label(host, m);
    if m < n {
        assert(host[m] != '.');
    } else if n < m {
        assert(host[n] != '.');
    }
}

/// `id` is the cloud server of the number `written`, and no server where no
/// number is written.
pub open spec fn is_cloud_server_of(id: Option<ServerId>, written: Option<u8>) -> bool {
    match written {
        Some(number) => id is Some && id.unwrap().number@ == number && id.unwrap().kind
            == ServerKind::Cloud,
        None => id is None,
    }
}

/// The standard port of secure HTTP.
pub const STANDARD_HTTPS_PORT: u16 = 443;

/// The standard port of plain HTTP.
pub const STANDARD_HTTP_PORT: u16 = 80;

/// The port of secure HTTP for a process that may not bind the standard one.
pub const UNPRIVILEGED_HTTPS_PORT: u16 = 8443;

/// The port of plain HTTP for a process that may not bind the standard one.
pub const UNPRIVILEGED_HTTP_PORT: u16 = 8080;

/// The ports for plain and for secure HTTP: each is the one asked for, or
/// else the standard port where the process may bind it and the
/// unprivileged stand-in where not.
pub open spec fn ports_chosen(
    privileged: bool,
    http_port: Option<u16>,
    https_port: Option<u16>,
) -> (u16, u16) {
    (
        match http_port {
            Some(port) => port,
            None => if privileged {
                STANDARD_HTTP_PORT
            } else {
                UNPRIVILEGED_HTTP_PORT
            },
        },
        match https_port {
            Some(port) => port,
            None => if privileged {
                STANDARD_HTTPS_PORT
            } else {
                UNPRIVILEGED_HTTPS_PORT
            },
        },
    )
}

/// Calls `LevelFilter::from_str` of the `log` crate, which compares `text`
/// with the names OFF, ERROR, WARN, INFO, DEBUG and TRACE, in this order and
/// without regard to ASCII case, and gives the level of the first that
/// matches or an error. The contract claims that the result is the level so
/// named, and none where the call gave an error.
#[verifier::external_body]
fn parse_level_filter(text: &str) -> (parsed: Option<LevelFilter>)
    ensures
        parsed == level_named(text@),
{
    match log::LevelFilter::from_str(text) {
        Ok(log::LevelFilter::Off) => Some(LevelFilter::Off),
        Ok(log::LevelFilter::Error) => Some(LevelFilter::Error),
        Ok(log::LevelFilter::Warn) => Some(LevelFilter::Warn),
        Ok(log::LevelFilter::Info) => Some(LevelFilter::Info),
        Ok(log::LevelFilter::Debug) => Some(LevelFilter::Debug),
        Ok(log::LevelFilter::Trace) => Some(LevelFilter::Trace),
        Err(_) => None,
    }
}

/// Calls `str::parse` at `std::num::NonZeroU8`, which accepts decimal digits
/// after an optional plus sign and nothing else, and fails on no digit, on a
/// value above 255 and on zero. The contract claims that the result is the
/// value so written, and none where the call failed.
#[verifier::external_body]
fn parse_server_number(text: &str) -> (parsed: Option<u8>)
    ensures
        parsed == server_number_written(text@),
{
    match text.parse::<std::num::NonZeroU8>() {
        Ok(number) => Some(number.get()),
        Err(_) => None,
    }
}

/// Calls `Uid::effective` and `Uid::is_root` of the `nix` crate: whether the
/// process runs with the effective user id of root. Nothing is claimed of
/// the result, which depends on how the process was started.
#[verifier::external_body]
fn effective_user_is_root() -> (privileged: bool) {
    nix::unistd::Uid::effective().is_root()
}

/// The level that `parsed` holds, or `fallback` where it holds none.
pub fn level_or_fallback(
    parsed: Option<LevelFilter>,
    fallback: LevelFilter,
) -> (level: LevelFilter)
    ensures
        level == match parsed {
            Some(named) => named,
            None => fallback,
        },
{
    match parsed {
        Some(named) => named,
        None => fallback,
    }
}

/// The level that `text` names, or `fallback` where it names none.
pub fn level_filter(text: &str, fallback: LevelFilter) -> (level: LevelFilter)
    ensures
        level == level_or(text@, fallback),
{
    level_or_fallback(parse_level_filter(text), fallback)
}

/// Where the first label of `host` ends.
pub fn first_label_end(host: &str) -> (end: usize)
    ensures
        ends_first_label(host@, end as int),
{
    let len: usize = host.unicode_len();
    let mut i: usize = 0;
    while i < len
        invariant
            i <= len,
            len == host@.len(),
            forall|j: int| 0 <= j < i ==> #[trigger] host@[j] != '.',
        decreases len - i,
    {
        if host.get_char(i) == '.' {
            return i;
        }
        i += 1;
    }
    i
}

/// The cloud server of number `written`, if that is a number other than
/// zero.
pub fn cloud_server(written: Option<u8>) -> (id: Option<ServerId>)
    ensures
        written != Some(0u8) ==> is_cloud_server_of(id, written),
        written == Some(0u8) ==> id is None,
{
    match written {
        Some(number) => match ServerNumber::new(number) {
            Some(number) => Some(ServerId { number, kind: ServerKind::Cloud }),
            None => None,
        },
        None => None,
    }
}

/// The server that the host name `host` stands for: the cloud server whose
/// number its first label writes, if it writes one.
pub fn server_id_of_host(host: &str) -> (id: Option<ServerId>)
    ensures
        is_cloud_server_of(id, server_number_written(first_label(host@))),
{
    let end: usize = first_label_end(host);
    proof {
        lemma_first_label_ends_once(host@, end as int);
    }
    let label = host.substring_char(0, end);
    cloud_server(parse_server_number(label))
}

/// The ports for plain and for secure HTTP, for a process that may bind the
/// standard ports if it is `privileged`.
pub fn choose_ports(
    privileged: bool,
    http_port: Option<u16>,
    https_port: Option<u16>,
) -> (ports: (u16, u16))
    ensures
        ports == ports_chosen(privileged, http_port, https_port),
{
    let (http_default, https_default): (u16, u16) = if privileged {
        (STANDARD_HTTP_PORT, STANDARD_HTTPS_PORT)
    } else {
        (UNPRIVILEGED_HTTP_PORT, UNPRIVILEGED_HTTPS_PORT)
    };
    (
        match http_port {
            Some(port) => port,
            None => http_default,
        },
        match https_port {
            Some(port) => port,
            None => https_default,
        },
    )
}

/// Server options, to be specified as arguments.
pub struct Options {
    /// Override bot count to a constant.
    pub bots: Option<u16>,
    /// Log incoming HTTP requests
    pub debug_http: String,
    /// Log game diagnostics
    pub debug_game: String,
    /// Log game engine diagnostics
    pub debug_engine: String,
    /// Log plasma diagnostics
    pub debug_plasma: String,
    /// Where the domain backup is kept.
    pub domain_backup: String,
    /// Server ID.
    pub server_id: Option<ServerId>,
    /// Alternative to `server_id`.
    pub hostname: Option<String>,
    /// Override the port of plain HTTP.
    pub http_port: Option<u16>,
    /// Override the port of secure HTTP.
    pub https_port: Option<u16>,
    /// Domain (without server id prepended).
    pub domain: Option<String>,
    /// Certificate chain path.
    pub certificate_path: Option<String>,
    /// Private key path.
    pub private_key_path: Option<String>,
    /// HTTP request bandwidth limiting (in bytes per second).
    pub http_bandwidth_limit: u32,
    /// HTTP request rate limiting burst (in bytes).
    ///
    /// Implicit minimum is double the total size of the client static files.
    pub http_bandwidth_burst: Option<u32>,
    /// Client authenticate rate limiting period (in seconds).
    pub client_authenticate_rate_limit: u64,
    /// Client authenticate rate limiting burst.
    pub client_authenticate_burst: u32,
    /// Whether to profile the processor.
    pub cpu_profile: bool,
    /// Whether to profile the heap.
    pub heap_profile: bool,
}

impl Options {
    /// The options of a server that was given no argument.
    pub fn new() -> (options: Options)
        ensures
            options.bots is None,
            options.debug_http@ == "info"@,
            options.debug_game@ == "info"@,
            options.debug_engine@ == "warn"@,
            options.debug_plasma@ == "warn"@,
            options.domain_backup@ == "./domain_backup.json"@,
            options.server_id is None,
            options.hostname is None,
            options.http_port is None,
            options.https_port is None,
            options.domain is None,
            options.certificate_path is None,
            options.private_key_path is None,
            options.http_bandwidth_limit == 500_000,
            options.http_bandwidth_burst is None,
            options.client_authenticate_rate_limit == 10,
            options.client_authenticate_burst == 16,
            !options.cpu_profile,
            !options.heap_profile,
    {
        Options {
            bots: None,
            debug_http: "info".to_owned(),
            debug_game: "info".to_owned(),
            debug_engine: "warn".to_owned(),
            debug_plasma: "warn".to_owned(),
            domain_backup: "./domain_backup.json".to_owned(),
            server_id: None,
            hostname: None,
            http_port: None,
            https_port: None,
            domain: None,
            certificate_path: None,
            private_key_path: None,
            http_bandwidth_limit: 500_000,
            http_bandwidth_burst: None,
            client_authenticate_rate_limit: 10,
            client_authenticate_burst: 16,
            cpu_profile: false,
            heap_profile: false,
        }
    }

    /// The level at which incoming HTTP requests are logged: informational
    /// unless `debug_http` names another.
    pub fn debug_http_filter(&self) -> (level: LevelFilter)
        ensures
            level == level_or(self.debug_http@, LevelFilter::Info),
    {
        level_filter(self.debug_http.as_str(), LevelFilter::Info)
    }

    /// The level at which game diagnostics are logged: informational unless
    /// `debug_game` names another.
    pub fn debug_game_filter(&self) -> (level: LevelFilter)
        ensures
            level == level_or(self.debug_game@, LevelFilter::Info),
    {
        level_filter(self.debug_game.as_str(), LevelFilter::Info)
    }

    /// The level at which game engine diagnostics are logged: warnings
    /// unless `debug_engine` names another.
    pub fn debug_engine_filter(&self) -> (level: LevelFilter)
        ensures
            level == level_or(self.debug_engine@, LevelFilter::Warn),
    {
        level_filter(self.debug_engine.as_str(), LevelFilter::Warn)
    }

    /// The level at which plasma diagnostics are logged: warnings unless
    /// `debug_plasma` names another.
    pub fn debug_plasma_filter(&self) -> (level: LevelFilter)
        ensures
            level == level_or(self.debug_plasma@, LevelFilter::Warn),
    {
        level_filter(self.debug_plasma.as_str(), LevelFilter::Warn)
    }

    /// The paths of the certificate chain and of the private key, where both
    /// were given.
    pub fn certificate_private_key_paths(&self) -> (paths: Option<(&str, &str)>)
        ensures
            match (self.certificate_path, self.private_key_path) {
                (Some(certificate), Some(key)) => paths is Some && paths.unwrap().0@
                    == certificate@ && paths.unwrap().1@ == key@,
                _ => paths is None,
            },
    {
        match (&self.certificate_path, &self.private_key_path) {
            (Some(certificate), Some(key)) => Some((certificate.as_str(), key.as_str())),
            _ => None,
        }
    }

    /// The server id that was given, or else the one that the host name
    /// stands for.
    pub fn server_id(&self) -> (id: Option<ServerId>)
        ensures
            match (self.server_id, self.hostname) {
                (Some(given), _) => id == Some(given),
                (None, Some(host)) => is_cloud_server_of(
                    id,
                    server_number_written(first_label(host@)),
                ),
                (None, None) => id is None,
            },
    {
        match self.server_id {
            Some(given) => Some(given),
            None => match &self.hostname {
                Some(host) => server_id_of_host(host.as_str()),
                None => None,
            },
        }
    }

    /// The burst of the HTTP rate limit: the one that was given, or else
    /// double the total size of the client static files.
    pub fn bandwidth_burst(&self, static_size: usize) -> (burst: u32)
        requires
            self.http_bandwidth_burst is None ==> 2 * static_size <= u32::MAX,
        ensures
            burst == match self.http_bandwidth_burst {
                Some(given) => given as int,
                None => 2 * static_size,
            },
    {
        match self.http_bandwidth_burst {
            Some(given) => given,
            None => (static_size as u32) * 2,
        }
    }

    /// The ports for plain and for secure HTTP: each is the one that was
    /// given, or else the standard port if the process runs as root and the
    /// unprivileged stand-in if not.
    pub fn http_and_https_ports(&self) -> (ports: (u16, u16))
        ensures
            ports == ports_chosen(true, self.http_port, self.https_port) || ports == ports_chosen(
                false,
                self.http_port,
                self.https_port,
            ),
    {
        choose_ports(effective_user_is_root(), self.http_port, self.https_port)
    }
}

} // verus!
