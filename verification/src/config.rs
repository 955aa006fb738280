//! Where the server listens and which store it talks to, from the three
//! settings that the process is started with.

use vstd::prelude::*;

verus! {

/// The port used where none is set.
pub const DEFAULT_PORT: u16 = 8000;

/// The host used where none is set.
pub open spec fn default_host() -> Seq<char> {
    "0.0.0.0"@
}

/// Why the settings give no configuration.
#[derive(Debug, Clone, Copy, PartialEq, Eq)]
pub enum ConfigError {
    /// The port is set and is no number from 0 to 65535.
    InvalidPort,
    /// No connection string is set.
    MissingDatabaseUrl,
}

/// The settings of a server.
#[derive(Debug, Clone, PartialEq, Eq)]
pub struct ServerConfig {
    pub host: String,
    pub port: u16,
    pub database_url: String,
}

/// A configuration as a mathematical value.
pub ghost struct ConfigView {
    pub host: Seq<char>,
    pub port: int,
    pub database_url: Seq<char>,
}

impl View for ServerConfig {
    type V = ConfigView;

    open spec fn view(&self) -> ConfigView {
        ConfigView { host: self.host@, port: self.port as int, database_url: self.database_url@ }
    }
}

/// Whether `c` is one of the ten decimal digits.
pub open spec fn is_digit(c: char) -> bool {
    48 <= c as u32 <= 57
}

/// The number that a run of decimal digits writes, leading zeros allowed;
/// `None` where some character is no digit. The empty run writes 0.
pub open spec fn decimal(text: Seq<char>) -> Option<nat>
    decreases text.len(),
{
    if text.len() == 0 {
        Some(0)
    } else if !is_digit(text.last()) {
        None
    } else {
        match decimal(text.drop_last()) {
            Some(value) => Some(value * 10 + (text.last() as u32 - 48) as nat),
            None => None,
        }
    }
}

/// The number from 0 to 65535 that a run of digits writes; `None` for
/// the empty run, for a larger number and where some character is no digit.
pub open spec fn number_of(digits: Seq<char>) -> Option<u16> {
    if digits.len() == 0 {
        None
    } else {
        match decimal(digits) {
            Some(value) => if value <= 65535 {
                Some(value as u16)
            } else {
                None
            },
            None => None,
        }
    }
}

/// The port that `text` writes: an optional `+`, then at least one digit
/// and digits only, with a value of 65535 at most.
pub open spec fn port_of(text: Seq<char>) -> Option<u16> {
    if text.len() > 0 && text[0] == '+' {
        number_of(text.drop_first())
    } else {
        number_of(text)
    }
}

/// The view of an optional text.
pub open spec fn text_view(text: Option<String>) -> Option<Seq<char>> {
    match text {
        Some(t) => Some(t@),
        None => None,
    }
}

/// The configuration that the three settings give: the host or its
/// default, the port or its default, and the connection string, which
/// must be there. A bad port is reported before a missing connection
/// string.
pub open spec fn config_of(
    host: Option<Seq<char>>,
    port: Option<Seq<char>>,
    database_url: Option<Seq<char>>,
) -> Result<ConfigView, ConfigError> {
    let host = match host {
        Some(h) => h,
        None => default_host(),
    };
    let port = match port {
        Some(p) => port_of(p),
        None => Some(DEFAULT_PORT),
    };
    match (port, database_url) {
        (None, _) => Err(ConfigError::InvalidPort),
        (Some(_), None) => Err(ConfigError::MissingDatabaseUrl),
        (Some(p), Some(url)) => Ok(ConfigView { host, port: p as int, database_url: url }),
    }
}

/// A prefix of a run of digits is a run of digits, and writes no more
/// than the whole.
proof fn lemma_decimal_prefix(text: Seq<char>, k: int)
    requires
        0 <= k <= text.len(),
    ensures
        decimal(text) matches Some(whole) ==> decimal(text.take(k)) matches Some(part) && part
            <= whole,
    decreases text.len(),
{
    if k == text.len() {
        assert(text.take(k) =~= text);
    } else {
        assert(text.drop_last().take(k) =~= text.take(k));
        lemma_decimal_prefix(text.drop_last(), k);
    }
}

/// Reads a port number as `port_of` says.
pub fn parse_port(text: &str) -> (port: Option<u16>)
    ensures
        port == port_of(text@),
{
    let n = text.unicode_len();
    if n == 0 {
        return None;
    }
    let start: usize = if text.get_char(0) == '+' {
        1
    } else {
        0
    };
    if start == n {
        return None;
    }
    let ghost digits = text@.subrange(start as int, n as int);
    assert(digits =~= if start == 1 {
        text@.drop_first()
    } else {
        text@
    });
    let mut value: u32 = 0;
    let mut i: usize = start;
    assert(digits.take(0) =~= Seq::<char>::empty());
    while i < n
        invariant
            start <= i <= n,
            n == text@.len(),
            digits == text@.subrange(start as int, n as int),
            port_of(text@) == number_of(digits),
            decimal(digits.take(i - start)) == Some(value as nat),
            value <= 65535,
        decreases n - i,
    {
        let c = text.get_char(i);
        let code: u32 = c as u32;
        let ghost upto = digits.take(i + 1 - start);
        assert(upto.drop_last() =~= digits.take(i - start));
        assert(upto.last() == c);
        proof {
            lemma_decimal_prefix(digits, i + 1 - start);
        }
        if code < 48 || code > 57 {
            return None;
        }
        let next: u32 = value * 10 + (code - 48);
        if next > 65535 {
            return None;
        }
        value = next;
        i += 1;
    }
    assert(digits.take(n - start) =~= digits);
    Some(value as u16)
}

impl ServerConfig {
    /// Builds the configuration from the values of the host, port and
    /// connection-string settings, each `None` where it is not set.
    pub fn from_settings(
        host: Option<String>,
        port: Option<String>,
        database_url: Option<String>,
    ) -> (res: Result<ServerConfig, ConfigError>)
        ensures
            match config_of(text_view(host), text_view(port), text_view(database_url)) {
                Ok(view) => res matches Ok(config) && config@ == view,
                Err(e) => res == Err::<ServerConfig, ConfigError>(e),
            },
    {
        let host = match host {
            Some(h) => h,
            None => "0.0.0.0".to_owned(),
        };
        let port = match port {
            Some(p) => match parse_port(p.as_str()) {
                Some(number) => number,
                None => {
                    return Err(ConfigError::InvalidPort);
                },
            },
            None => DEFAULT_PORT,
        };
        match database_url {
            Some(database_url) => Ok(ServerConfig { host, port, database_url }),
            None => Err(ConfigError::MissingDatabaseUrl),
        }
    }
}

} // verus!
