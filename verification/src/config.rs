use vstd::prelude::*;
use vstd::string::StringExecFns;

verus! {

/// Where the server listens, and with how many workers.
#[derive(Debug)]
pub struct ServerConfig {
    pub host: String,
    pub port: u16,
    pub workers: usize,
}

/// How the Generation Service is reached: base URL, call timeout and the
/// retry budget.
#[derive(Debug)]
pub struct AiCoreConfig {
    pub url: String,
    pub timeout_seconds: u64,
    pub max_retries: u32,
}

/// Log level and format.
#[derive(Debug)]
pub struct LoggingConfig {
    pub level: String,
    pub format: String,
}

/// The backend's configuration.
#[derive(Debug)]
pub struct Config {
    pub server: ServerConfig,
    pub ai_core: AiCoreConfig,
    pub logging: LoggingConfig,
}

/// The character of one decimal digit.
pub open spec fn digit_char(d: nat) -> char {
    if d == 0 {
        '0'
    } else if d == 1 {
        '1'
    } else if d == 2 {
        '2'
    } else if d == 3 {
        '3'
    } else if d == 4 {
        '4'
    } else if d == 5 {
        '5'
    } else if d == 6 {
        '6'
    } else if d == 7 {
        '7'
    } else if d == 8 {
        '8'
    } else {
        '9'
    }
}

/// The decimal digits of `n`, most significant first, no leading zeroes
/// (a single `0` for zero).
pub open spec fn decimal_of(n: nat) -> Seq<char>
    decreases n,
{
    if n < 10 {
        seq![digit_char(n)]
    } else {
        decimal_of(n / 10).push(digit_char(n % 10))
    }
}

/// The one-character text of a decimal digit.
fn digit_str(d: u64) -> (s: &'static str)
    requires
        d < 10,
    ensures
        s@ =~= seq![digit_char(d as nat)],
{
    proof {
        reveal_strlit("0");
        reveal_strlit("1");
        reveal_strlit("2");
        reveal_strlit("3");
        reveal_strlit("4");
        reveal_strlit("5");
        reveal_strlit("6");
        reveal_strlit("7");
        reveal_strlit("8");
        reveal_strlit("9");
    }
    match d {
        0 => "0",
        1 => "1",
        2 => "2",
        3 => "3",
        4 => "4",
        5 => "5",
        6 => "6",
        7 => "7",
        8 => "8",
        _ => "9",
    }
}

/// Appends the decimal rendering of `n`.
fn push_decimal(s: &mut String, n: u64)
    ensures
        final(s)@ == old(s)@ + decimal_of(n as nat),
    decreases n,
{
    if n >= 10 {
        push_decimal(s, n / 10);
        let d = digit_str(n % 10);
        s.append(d);
        proof {
            assert((n / 10) as nat == n as nat / 10);
            assert((n % 10) as nat == n as nat % 10);
            assert(old(s)@ + decimal_of((n as nat) / 10) + seq![digit_char((n as nat) % 10)]
                =~= old(s)@ + decimal_of(n as nat));
        }
    } else {
        let d = digit_str(n);
        s.append(d);
        proof {
            assert(old(s)@ + seq![digit_char(n as nat)] =~= old(s)@ + decimal_of(n as nat));
        }
    }
}

/// The decimal rendering of `n`.
pub fn decimal_string(n: u64) -> (s: String)
    ensures
        s@ == decimal_of(n as nat),
{
    let mut s = String::new();
    push_decimal(&mut s, n);
    proof {
        assert(Seq::<char>::empty() + decimal_of(n as nat) =~= decimal_of(n as nat));
    }
    s
}

impl Config {
    /// The built-in defaults; the worker count is the caller's (it comes from
    /// the machine).
    pub fn new_default(workers: usize) -> (c: Config)
        ensures
            c.server.host@ == "127.0.0.1"@,
            c.server.port == 8080,
            c.server.workers == workers,
            c.ai_core.url@ == "http://127.0.0.1:8000"@,
            c.ai_core.timeout_seconds == 300,
            c.ai_core.max_retries == 3,
            c.logging.level@ == "info"@,
            c.logging.format@ == "json"@,
    {
        Config {
            server: ServerConfig { host: "127.0.0.1".to_owned(), port: 8080, workers },
            ai_core: AiCoreConfig {
                url: "http://127.0.0.1:8000".to_owned(),
                timeout_seconds: 300,
                max_retries: 3,
            },
            logging: LoggingConfig { level: "info".to_owned(), format: "json".to_owned() },
        }
    }

    /// The bind address, `host:port`.
    pub fn server_url(&self) -> (r: String)
        ensures
            r@ == self.server.host@ + ":"@ + decimal_of(self.server.port as nat),
    {
        let mut s = self.server.host.clone();
        s.append(":");
        push_decimal(&mut s, self.server.port as u64);
        s
    }

    /// The liveness endpoint of the Generation Service.
    pub fn ai_core_health_url(&self) -> (r: String)
        ensures
            r@ == self.ai_core.url@ + "/health"@,
    {
        let mut s = self.ai_core.url.clone();
        s.append("/health");
        s
    }

    /// The generation endpoint of the Generation Service.
    pub fn ai_core_run_url(&self) -> (r: String)
        ensures
            r@ == self.ai_core.url@ + "/run"@,
    {
        let mut s = self.ai_core.url.clone();
        s.append("/run");
        s
    }
}

} // verus!
