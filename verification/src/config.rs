//! Configuration settings and their loading rules.
//!
//! Reading files and the process environment happens in the embedding
//! application; what is verified here is everything decidable from plain
//! values: defaults, numeric override parsing, validation bounds, and the
//! proxy precedence order.

use vstd::prelude::*;
use vstd::string::StrSliceExecFns;
use vstd::string::StringExecFns;

use crate::botguard::clone_opt_string;
use crate::error::Error;

verus! {

/// Default server port.
pub const DEFAULT_SERVER_PORT: u16 = 4416;

/// Default token TTL in hours.
pub const DEFAULT_TOKEN_TTL_HOURS: u64 = 6;

/// Largest accepted token TTL in hours (ten years).
pub const MAX_TOKEN_TTL_HOURS: u64 = 87600;

/// Main configuration of the provider.
#[derive(Debug, Clone)]
pub struct Settings {
    /// Server configuration.
    pub server: ServerSettings,
    /// Token generation and caching configuration.
    pub token: TokenSettings,
    /// Logging configuration.
    pub logging: LoggingSettings,
    /// Outbound proxy configuration.
    pub network: NetworkSettings,
    /// Sandbox engine configuration.
    pub botguard: BotguardSettings,
}

/// HTTP server configuration.
#[derive(Debug, Clone)]
pub struct ServerSettings {
    /// Host address to bind.
    pub host: String,
    /// Port to listen on.
    pub port: u16,
    /// Request timeout in seconds.
    pub timeout_secs: u64,
}

/// Token generation and caching configuration.
#[derive(Debug, Clone)]
pub struct TokenSettings {
    /// Token TTL in hours.
    pub ttl_hours: u64,
    /// Whether to cache finished tokens.
    pub enable_cache: bool,
    /// Upper bound on cache entries.
    pub max_cache_entries: usize,
}

/// Logging configuration.
#[derive(Debug, Clone)]
pub struct LoggingSettings {
    /// Log level label.
    pub level: String,
    /// Whether verbose logging is on.
    pub verbose: bool,
}

/// Outbound proxy configuration, in precedence order.
#[derive(Debug, Clone)]
pub struct NetworkSettings {
    /// Proxy for TLS traffic; takes precedence over the others.
    pub https_proxy: Option<String>,
    /// Proxy for plain traffic; second in precedence.
    pub http_proxy: Option<String>,
    /// Proxy for any traffic; last in precedence.
    pub all_proxy: Option<String>,
}

/// Sandbox engine configuration.
#[derive(Debug, Clone)]
pub struct BotguardSettings {
    /// Snapshot file path for warm starts.
    pub snapshot_path: Option<String>,
    /// Custom user agent for script downloads.
    pub user_agent: Option<String>,
    /// Whether warm-start snapshots are disabled.
    pub disable_snapshot: bool,
}

impl Settings {
    /// Whether the settings pass validation: the TTL is positive and bounded.
    pub open spec fn spec_valid(&self) -> bool {
        1 <= self.token.ttl_hours <= MAX_TOKEN_TTL_HOURS
    }

    /// The proxy URL in precedence order: TLS proxy, then plain, then any.
    pub open spec fn spec_proxy_url(&self) -> Option<String> {
        if self.network.https_proxy is Some {
            self.network.https_proxy
        } else if self.network.http_proxy is Some {
            self.network.http_proxy
        } else {
            self.network.all_proxy
        }
    }

    /// Creates settings with default values.
    pub fn new() -> (r: Settings)
        ensures
            r.server.host@ == "::"@,
            r.server.port == DEFAULT_SERVER_PORT,
            r.server.timeout_secs == 30,
            r.token.ttl_hours == DEFAULT_TOKEN_TTL_HOURS,
            r.token.enable_cache,
            r.token.max_cache_entries == 1000,
            r.logging.level@ == "info"@,
            !r.logging.verbose,
            r.network.https_proxy is None,
            r.network.http_proxy is None,
            r.network.all_proxy is None,
            r.botguard.snapshot_path is None,
            r.botguard.user_agent is None,
            !r.botguard.disable_snapshot,
            r.spec_valid(),
    {
        Settings {
            server: ServerSettings {
                host: String::from_str("::"),
                port: DEFAULT_SERVER_PORT,
                timeout_secs: 30,
            },
            token: TokenSettings {
                ttl_hours: DEFAULT_TOKEN_TTL_HOURS,
                enable_cache: true,
                max_cache_entries: 1000,
            },
            logging: LoggingSettings { level: String::from_str("info"), verbose: false },
            network: NetworkSettings { https_proxy: None, http_proxy: None, all_proxy: None },
            botguard: BotguardSettings {
                snapshot_path: None,
                user_agent: None,
                disable_snapshot: false,
            },
        }
    }

    /// Checks the validation bounds; the error names the offending field.
    pub fn validate(&self) -> (r: Result<(), Error>)
        ensures
            r is Ok <==> self.spec_valid(),
            r matches Err(e) ==> e is Config,
    {
        if self.token.ttl_hours < 1 || self.token.ttl_hours > MAX_TOKEN_TTL_HOURS {
            return Err(Error::config(String::from_str("token.ttl_hours out of range")));
        }
        Ok(())
    }

    /// The proxy URL to use, by precedence: TLS proxy, then plain, then any.
    pub fn get_proxy_url(&self) -> (r: Option<String>)
        ensures
            r == self.spec_proxy_url(),
    {
        if let Some(p) = &self.network.https_proxy {
            return Some(p.clone());
        }
        if let Some(p) = &self.network.http_proxy {
            return Some(p.clone());
        }
        clone_opt_string(&self.network.all_proxy)
    }

    /// Applies plain-text environment overrides for host, port and TTL, as
    /// the embedding application read them. A value that does not parse as a
    /// decimal number in range is a configuration error.
    pub fn apply_env_overrides(
        self,
        host: Option<&str>,
        port: Option<&str>,
        ttl_hours: Option<&str>,
    ) -> (r: Result<Settings, Error>)
        ensures
            r matches Ok(s) ==> {
                &&& s.server.host@ == (if host is Some {
                    host->0@
                } else {
                    self.server.host@
                })
                &&& port matches Some(p) ==> dec_value(p@) is Some && s.server.port
                    == dec_value(p@)->0
                &&& port is None ==> s.server.port == self.server.port
                &&& ttl_hours matches Some(t) ==> dec_value(t@) is Some && s.token.ttl_hours
                    == dec_value(t@)->0
                &&& ttl_hours is None ==> s.token.ttl_hours == self.token.ttl_hours
            },
            r is Err ==> (port matches Some(p) && !(dec_value(p@) matches Some(v) && v <= u16::MAX))
                || (ttl_hours matches Some(t) && dec_value(t@) is None),
            r matches Err(e) ==> e is Config,
    {
        let mut settings = self;
        if let Some(h) = host {
            settings.server.host = String::from_str(h);
        }
        if let Some(p) = port {
            match parse_decimal(p) {
                Some(v) if v <= u16::MAX as u64 => {
                    settings.server.port = v as u16;
                },
                _ => {
                    return Err(Error::config(String::from_str("invalid port override")));
                },
            }
        }
        if let Some(t) = ttl_hours {
            match parse_decimal(t) {
                Some(v) => {
                    settings.token.ttl_hours = v;
                },
                None => {
                    return Err(Error::config(String::from_str("invalid TTL override")));
                },
            }
        }
        Ok(settings)
    }

    /// Copy of the settings; field-by-field, so the result is known equal.
    pub fn duplicate(&self) -> (r: Settings)
        ensures
            r == *self,
    {
        Settings {
            server: ServerSettings {
                host: self.server.host.clone(),
                port: self.server.port,
                timeout_secs: self.server.timeout_secs,
            },
            token: TokenSettings {
                ttl_hours: self.token.ttl_hours,
                enable_cache: self.token.enable_cache,
                max_cache_entries: self.token.max_cache_entries,
            },
            logging: LoggingSettings {
                level: self.logging.level.clone(),
                verbose: self.logging.verbose,
            },
            network: NetworkSettings {
                https_proxy: clone_opt_string(&self.network.https_proxy),
                http_proxy: clone_opt_string(&self.network.http_proxy),
                all_proxy: clone_opt_string(&self.network.all_proxy),
            },
            botguard: BotguardSettings {
                snapshot_path: clone_opt_string(&self.botguard.snapshot_path),
                user_agent: clone_opt_string(&self.botguard.user_agent),
                disable_snapshot: self.botguard.disable_snapshot,
            },
        }
    }
}

impl Default for Settings {
    /// Default settings: see `Settings::new`.
    fn default() -> (r: Settings)
        ensures
            r.server.port == DEFAULT_SERVER_PORT,
            r.token.ttl_hours == DEFAULT_TOKEN_TTL_HOURS,
            r.spec_valid(),
    {
        Settings::new()
    }
}

/// The value of a decimal numeral, when every character is a digit and there
/// is at least one. Recursion peels the last digit, so a left-to-right scan
/// matches it directly.
pub open spec fn dec_value(s: Seq<char>) -> Option<u64>
    decreases s.len(),
{
    if s.len() == 0 {
        None
    } else {
        let d = (s.last() as u32) as int - 48;
        if !(0 <= d <= 9) {
            None
        } else if s.len() == 1 {
            Some(d as u64)
        } else {
            match dec_value(s.drop_last()) {
                Some(high) => if high * 10 + d <= u64::MAX {
                    Some((high * 10 + d) as u64)
                } else {
                    None
                },
                None => None,
            }
        }
    }
}

/// Parses a decimal numeral; `None` for an empty string, a non-digit, or a
/// value beyond `u64::MAX`.
pub fn parse_decimal(s: &str) -> (r: Option<u64>)
    ensures
        r == dec_value(s@),
{
    let n = s.unicode_len();
    if n == 0 {
        return None;
    }
    let mut value: u64 = 0;
    let mut i: usize = 0;
    while i < n
        invariant
            s@.len() == n,
            0 < n,
            i <= n,
            i == 0 ==> value == 0,
            i > 0 ==> dec_value(s@.take(i as int)) == Some(value),
        decreases n - i,
    {
        let c = s.get_char(i);
        let u = c as u32;
        if u < 48 || u > 57 {
            proof {
                lemma_dec_value_bad_digit(s@, i as int);
            }
            return None;
        }
        let d = (u - 48) as u64;
        proof {
            assert(s@.take(i + 1).last() == s@[i as int]);
            assert(s@.take(i + 1).drop_last() =~= s@.take(i as int));
        }
        if value > (u64::MAX - d) / 10 {
            proof {
                assert(dec_value(s@.take(i + 1)) is None);
                lemma_dec_value_none_prefix(s@, i + 1);
            }
            return None;
        }
        value = value * 10 + d;
        i = i + 1;
    }
    proof {
        assert(s@.take(n as int) =~= s@);
    }
    Some(value)
}

/// A numeral with a non-digit at position `i` has no value.
proof fn lemma_dec_value_bad_digit(s: Seq<char>, i: int)
    requires
        0 <= i < s.len(),
        !(48 <= s[i] as u32 <= 57),
    ensures
        dec_value(s) is None,
    decreases s.len(),
{
    if s.len() > 0 {
        if i == s.len() - 1 {
        } else {
            lemma_dec_value_bad_digit(s.drop_last(), i);
        }
    }
}

/// A numeral whose prefix has no value has no value.
proof fn lemma_dec_value_none_prefix(s: Seq<char>, i: int)
    requires
        0 < i <= s.len(),
        dec_value(s.take(i)) is None,
    ensures
        dec_value(s) is None,
    decreases s.len() - i,
{
    if i == s.len() {
        assert(s.take(i) =~= s);
    } else {
        assert(s.take(i + 1).drop_last() =~= s.take(i));
        lemma_dec_value_none_prefix(s, i + 1);
    }
}

/// Configuration loader holding the defaults that file and environment
/// values override.
#[derive(Debug)]
pub struct ConfigLoader {
    /// Default settings.
    defaults: Settings,
}

impl ConfigLoader {
    /// Creates a loader with default settings.
    pub fn new() -> (r: ConfigLoader)
        ensures
            r.spec_defaults().server.port == DEFAULT_SERVER_PORT,
            r.spec_defaults().token.ttl_hours == DEFAULT_TOKEN_TTL_HOURS,
            r.spec_defaults().spec_valid(),
    {
        ConfigLoader { defaults: Settings::new() }
    }

    /// The loader's default settings.
    pub closed spec fn spec_defaults(&self) -> Settings {
        self.defaults
    }

    /// Loads configuration: settings read from a file take precedence over
    /// the defaults, and the result is validated. The embedding application
    /// reads and decodes the file; absence of one means the defaults.
    pub fn load(&self, file_settings: Option<Settings>) -> (r: Result<Settings, Error>)
        ensures
            r matches Ok(s) ==> s.spec_valid(),
            file_settings matches Some(f) ==> (r == Ok::<Settings, Error>(f) || (r is Err
                && !f.spec_valid())),
            file_settings is None ==> (r == Ok::<Settings, Error>(self.spec_defaults()) || (
            r is Err && !self.spec_defaults().spec_valid())),
    {
        let settings = match file_settings {
            Some(f) => f,
            None => self.defaults.duplicate(),
        };
        match settings.validate() {
            Ok(()) => Ok(settings),
            Err(e) => Err(e),
        }
    }

    /// Loads configuration from the defaults alone; environment overrides are
    /// applied by the caller through `Settings::apply_env_overrides`.
    pub fn from_env_only(&self) -> (r: Result<Settings, Error>)
        ensures
            r matches Ok(s) ==> s == self.spec_defaults() && s.spec_valid(),
            r is Err ==> !self.spec_defaults().spec_valid(),
    {
        let settings = self.defaults.duplicate();
        match settings.validate() {
            Ok(()) => Ok(settings),
            Err(e) => Err(e),
        }
    }

    /// Shared view of the default settings.
    pub fn defaults(&self) -> (r: &Settings)
        ensures
            r == self.spec_defaults(),
    {
        &self.defaults
    }
}

/// Arguments for server mode, as parsed from the command line.
#[derive(Debug)]
pub struct ServerArgs {
    /// Port to listen on, overriding the configuration.
    pub port: Option<u16>,
    /// Host to bind, overriding the configuration.
    pub host: Option<String>,
    /// Whether verbose logging is on.
    pub verbose: bool,
}

impl ServerArgs {
    /// Applies the command-line overrides, which take precedence over every
    /// other configuration source.
    pub fn apply_to(&self, settings: Settings) -> (r: Settings)
        ensures
            r.server.port == if self.port is Some {
                self.port->0
            } else {
                settings.server.port
            },
            r.server.host@ == if self.host is Some {
                self.host->0@
            } else {
                settings.server.host@
            },
            r.logging.verbose == self.verbose,
            r.token == settings.token,
            r.network == settings.network,
            r.botguard == settings.botguard,
    {
        let mut settings = settings;
        if let Some(port) = self.port {
            settings.server.port = port;
        }
        if let Some(host) = &self.host {
            settings.server.host = host.clone();
        }
        settings.logging.verbose = self.verbose;
        settings
    }
}

impl Default for ConfigLoader {
    /// A loader with default settings.
    fn default() -> (r: ConfigLoader)
        ensures
            r.spec_defaults().spec_valid(),
    {
        ConfigLoader::new()
    }
}

} // verus!
