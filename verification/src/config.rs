//! API configuration: defaults, the values read from the environment, and
//! the parsing of sizes, flags and numbers that those values hold.

use vstd::prelude::*;
use vstd::string::StringExecFns;

use crate::paths::{join, path_join};
use crate::text::{
    ascii_upper, char_upper, chars_of, lower_eq, lower_seq, parse_unsigned, parse_unsigned_chars,
    parse_unsigned_str, trim, trim_bounds,
};

verus! {

/// A module loaded into every new session: its id and the path of its source file.
pub struct DefaultModuleConfig {
    pub module_id: String,
    pub path: String,
}

pub enum ConfigError {
    Invalid(String),
}

impl ConfigError {
    /// The text the error carries.
    pub fn message(&self) -> (m: String)
        ensures
            match self {
                ConfigError::Invalid(s) => m@ == s@,
            },
    {
        match self {
            ConfigError::Invalid(s) => s.clone(),
        }
    }

    /// The error for a bind address that does not parse; `reason` is the parser's message.
    pub fn bad_bind_address(reason: &str) -> (e: ConfigError)
        ensures
            e == ConfigError::Invalid(e->Invalid_0) && e->Invalid_0@ == "invalid bind address: "@ + reason@,
    {
        ConfigError::Invalid("invalid bind address: ".to_string().concat(reason))
    }

    /// The error as `Display` writes it: "invalid configuration: " and the text.
    pub fn text(&self) -> (m: String)
        ensures
            match self {
                ConfigError::Invalid(s) => m@ == "invalid configuration: "@ + s@,
            },
    {
        match self {
            ConfigError::Invalid(s) => "invalid configuration: ".to_string().concat(s.as_str()),
        }
    }
}

/// Runtime settings of the API. Paths are text; `request_timeout` is in seconds.
pub struct ApiConfig {
    pub host: String,
    pub port: u16,
    pub data_root: String,
    pub flows_dir: String,
    pub request_timeout: u64,
    pub max_body_size: usize,
    pub log_level: String,
    pub include_router_decision: bool,
    pub log_user_messages: bool,
    pub version: String,
    pub default_modules: Vec<DefaultModuleConfig>,
}

/// The environment variables that configure the API, each as read (`None` when unset).
pub struct EnvValues {
    pub data_root: Option<String>,
    pub flows_dir: Option<String>,
    pub request_timeout_secs: Option<String>,
    pub max_body_size: Option<String>,
    pub host: Option<String>,
    pub port: Option<String>,
    pub log_level: Option<String>,
    pub include_router_decision: Option<String>,
    pub log_user_messages: Option<String>,
    pub version: Option<String>,
}

pub open spec fn opt_view(o: Option<String>) -> Option<Seq<char>> {
    match o {
        Some(s) => Some(s@),
        None => None,
    }
}

/// The data root used when none is configured.
pub open spec fn spec_default_data_root() -> Seq<char> {
    "ai-flow-runtime/data"@
}

pub fn default_data_root() -> (r: String)
    ensures
        r@ == spec_default_data_root(),
{
    "ai-flow-runtime/data".to_string()
}

/// A configured path, when there is one.
pub fn env_path(value: Option<&str>) -> (r: Option<String>)
    ensures
        match value {
            Some(v) => r is Some && r->0@ == v@,
            None => r is None,
        },
{
    match value {
        Some(v) => Some(v.to_string()),
        None => None,
    }
}

/// A number of a type whose largest value is `max`, or `default` when unset or unparsable.
pub open spec fn env_number(value: Option<Seq<char>>, max: nat, default: nat) -> nat {
    match value {
        Some(v) => match parse_unsigned(v, max) {
            Some(n) => n,
            None => default,
        },
        None => default,
    }
}

pub fn env_u16(value: Option<&str>, default: u16) -> (r: u16)
    ensures
        r as nat == env_number(
            match value { Some(v) => Some(v@), None => None },
            u16::MAX as nat,
            default as nat,
        ),
{
    match value {
        Some(v) => match parse_unsigned_str(v, u16::MAX as u64) {
            Some(n) => n as u16,
            None => default,
        },
        None => default,
    }
}

pub fn env_u64(value: Option<&str>, default: u64) -> (r: u64)
    ensures
        r as nat == env_number(
            match value { Some(v) => Some(v@), None => None },
            u64::MAX as nat,
            default as nat,
        ),
{
    match value {
        Some(v) => match parse_unsigned_str(v, u64::MAX) {
            Some(n) => n,
            None => default,
        },
        None => default,
    }
}

/// Text that switches a flag on: `1`, `true`, `yes` or `on`, in any letter case.
pub open spec fn is_truthy(v: Seq<char>) -> bool {
    let l = lower_seq(v);
    l == "1"@ || l == "true"@ || l == "yes"@ || l == "on"@
}

pub fn truthy(v: &str) -> (b: bool)
    ensures
        b == is_truthy(v@),
{
    proof {
        reveal_strlit("1");
        reveal_strlit("true");
        reveal_strlit("yes");
        reveal_strlit("on");
    }
    let c = chars_of(v);
    let one = chars_of("1");
    let t = chars_of("true");
    let y = chars_of("yes");
    let o = chars_of("on");
    assert(c@.subrange(0, c@.len() as int) == c@);
    lower_eq(&c, 0, c.len(), &one) || lower_eq(&c, 0, c.len(), &t) || lower_eq(&c, 0, c.len(), &y)
        || lower_eq(&c, 0, c.len(), &o)
}

/// A flag: truthy text when set, `default` when unset.
pub fn env_bool(value: Option<&str>, default: bool) -> (b: bool)
    ensures
        b == match value {
            Some(v) => is_truthy(v@),
            None => default,
        },
{
    match value {
        Some(v) => truthy(v),
        None => default,
    }
}

/// A body size ends in the unit `unit` followed by `B`, in any letter case.
pub open spec fn has_unit(t: Seq<char>, unit: char) -> bool {
    t.len() >= 2 && ascii_upper(t[t.len() - 2]) == unit && ascii_upper(t[t.len() - 1]) == 'B'
}

/// The number of bytes a body-size setting denotes, without regard to machine limits:
/// after trimming, `<n>MB` is `n` MiB and `<n>KB` is `n` KiB (the unit in any letter case,
/// with optional whitespace before it); any other text must be a plain number of bytes.
pub open spec fn body_size_value(value: Seq<char>) -> Option<nat> {
    let t = trim(value);
    if has_unit(t, 'M') {
        match parse_unsigned(trim(t.take(t.len() - 2)), usize::MAX as nat) {
            Some(n) => Some(n * 1048576),
            None => None,
        }
    } else if has_unit(t, 'K') {
        match parse_unsigned(trim(t.take(t.len() - 2)), usize::MAX as nat) {
            Some(n) => Some(n * 1024),
            None => None,
        }
    } else {
        parse_unsigned(value, usize::MAX as nat)
    }
}

/// A body size whose byte count fits in `usize` (or that is rejected anyway).
pub open spec fn body_size_fits(value: Seq<char>) -> bool {
    match body_size_value(value) {
        Some(n) => n <= usize::MAX,
        None => true,
    }
}

pub open spec fn body_size_message(value: Seq<char>) -> Seq<char> {
    "invalid body size: "@ + value
}

/// Whether the byte count of a body-size setting fits in `usize`.
pub fn body_size_in_range(value: &str) -> (b: bool)
    ensures
        b == body_size_fits(value@),
{
    match body_size_bytes(value) {
        Some(n) => n <= usize::MAX as u128,
        None => true,
    }
}

/// The byte count of a body-size setting, in a type wide enough for any parsed number.
fn body_size_bytes(value: &str) -> (r: Option<u128>)
    ensures
        match body_size_value(value@) {
            Some(n) => r == Some(n as u128),
            None => r is None,
        },
{
    let v = chars_of(value);
    assert(v@.subrange(0, v@.len() as int) == v@);
    let (lo, hi) = trim_bounds(&v, 0, v.len());
    let ghost t = v@.subrange(lo as int, hi as int);
    let mut unit: char = ' ';
    if hi - lo >= 2 && char_upper(v[hi - 1]) == 'B' {
        unit = char_upper(v[hi - 2]);
    }
    assert(t.len() >= 2 ==> t[t.len() - 2] == v@[hi - 2] && t[t.len() - 1] == v@[hi - 1]);
    if unit == 'M' || unit == 'K' {
        let (a, b) = trim_bounds(&v, lo, hi - 2);
        assert(v@.subrange(lo as int, hi - 2) == t.take(t.len() - 2));
        match parse_unsigned_chars(&v, a, b, usize::MAX as u64) {
            Some(n) => {
                if unit == 'M' {
                    Some((n as u128) * 1048576)
                } else {
                    Some((n as u128) * 1024)
                }
            },
            None => None,
        }
    } else {
        match parse_unsigned_chars(&v, 0, v.len(), usize::MAX as u64) {
            Some(n) => Some(n as u128),
            None => None,
        }
    }
}

/// The number of bytes a body-size setting denotes (`1MB`, `512kb`, `1024`, ...).
pub fn parse_body_size(value: &str) -> (r: Result<usize, ConfigError>)
    requires
        body_size_fits(value@),
    ensures
        match body_size_value(value@) {
            Some(n) => r == Ok::<usize, ConfigError>(n as usize),
            None => r matches Err(ConfigError::Invalid(m)) && m@ == body_size_message(value@),
        },
{
    match body_size_bytes(value) {
        Some(n) => Ok(n as usize),
        None => {
            let mut m = "invalid body size: ".to_string();
            m.append(value);
            proof {
                reveal_strlit("invalid body size: ");
            }
            Err(ConfigError::Invalid(m))
        },
    }
}

/// Whether the text of `API_DEFAULT_MODULES` holds anything to parse (set and not blank).
pub fn default_modules_given(raw: Option<&str>) -> (b: bool)
    ensures
        b == match raw {
            Some(r) => trim(r@).len() > 0,
            None => false,
        },
{
    match raw {
        Some(r) => {
            let v = chars_of(r);
            assert(v@.subrange(0, v@.len() as int) == v@);
            let (lo, hi) = trim_bounds(&v, 0, v.len());
            lo < hi
        },
        None => false,
    }
}

pub open spec fn modules_message(e: Seq<char>) -> Seq<char> {
    "API_DEFAULT_MODULES: "@ + e
}

impl ApiConfig {
    /// The configuration built from the environment's values and the parsed
    /// list of default modules (or the parser's message).
    pub fn from_env_values(
        env: &EnvValues,
        default_modules: Result<Vec<DefaultModuleConfig>, String>,
    ) -> (r: Result<ApiConfig, ConfigError>)
        requires
            body_size_fits(match &env.max_body_size { Some(s) => s@, None => "1MB"@ }),
        ensures
            ({
                let size_text = match &env.max_body_size { Some(s) => s@, None => "1MB"@ };
                let data_root = match &env.data_root { Some(s) => s@, None => spec_default_data_root() };
                match body_size_value(size_text) {
                    None => r matches Err(ConfigError::Invalid(m)) && m@ == body_size_message(size_text),
                    Some(size) => match default_modules {
                        Err(e) => r matches Err(ConfigError::Invalid(m)) && m@ == modules_message(e@),
                        Ok(mods) => r matches Ok(c) && {
                            &&& c.data_root@ == data_root
                            &&& c.flows_dir@ == match &env.flows_dir {
                                Some(s) => s@,
                                None => path_join(data_root, "flows"@),
                            }
                            &&& c.request_timeout as nat == env_number(
                                opt_view(env.request_timeout_secs), u64::MAX as nat, 30)
                            &&& c.max_body_size == size
                            &&& c.host@ == match &env.host { Some(s) => s@, None => "0.0.0.0"@ }
                            &&& c.port as nat == env_number(opt_view(env.port), u16::MAX as nat, 8080)
                            &&& c.log_level@ == match &env.log_level { Some(s) => s@, None => "info"@ }
                            &&& c.include_router_decision == match &env.include_router_decision {
                                Some(s) => is_truthy(s@),
                                None => false,
                            }
                            &&& c.log_user_messages == match &env.log_user_messages {
                                Some(s) => is_truthy(s@),
                                None => false,
                            }
                            &&& c.version@ == match &env.version { Some(s) => s@, None => "0.1.0"@ }
                            &&& c.default_modules == mods
                        },
                    },
                }
            }),
    {
        let data_root = match &env.data_root {
            Some(s) => s.clone(),
            None => default_data_root(),
        };
        let flows_dir = match &env.flows_dir {
            Some(s) => s.clone(),
            None => join(data_root.as_str(), "flows"),
        };
        let request_timeout = env_u64(as_str_opt(&env.request_timeout_secs), 30);
        let max_body_size = match &env.max_body_size {
            Some(s) => parse_body_size(s.as_str()),
            None => parse_body_size("1MB"),
        };
        let max_body_size = match max_body_size {
            Ok(n) => n,
            Err(e) => return Err(e),
        };
        let default_modules = match default_modules {
            Ok(m) => m,
            Err(e) => {
                let mut m = "API_DEFAULT_MODULES: ".to_string();
                m.append(e.as_str());
                proof {
                    reveal_strlit("API_DEFAULT_MODULES: ");
                }
                return Err(ConfigError::Invalid(m));
            },
        };
        let host = match &env.host {
            Some(s) => s.clone(),
            None => "0.0.0.0".to_string(),
        };
        let log_level = match &env.log_level {
            Some(s) => s.clone(),
            None => "info".to_string(),
        };
        let version = match &env.version {
            Some(s) => s.clone(),
            None => "0.1.0".to_string(),
        };
        Ok(ApiConfig {
            host,
            port: env_u16(as_str_opt(&env.port), 8080),
            data_root,
            flows_dir,
            request_timeout,
            max_body_size,
            log_level,
            include_router_decision: env_bool(as_str_opt(&env.include_router_decision), false),
            log_user_messages: env_bool(as_str_opt(&env.log_user_messages), false),
            version,
            default_modules,
        })
    }

    /// The configuration used by tests: data under `data_root`, the two default
    /// modules (company and small talk), one-MiB bodies and a thirty-second timeout.
    pub fn for_test(data_root: &str) -> (c: ApiConfig)
        ensures
            c.host@ == "127.0.0.1"@,
            c.port == 0,
            c.data_root@ == data_root@,
            c.flows_dir@ == path_join(data_root@, "flows"@),
            c.request_timeout == 30,
            c.max_body_size == 1048576,
            c.log_level@ == "warn"@,
            !c.include_router_decision,
            !c.log_user_messages,
            c.version@ == "test"@,
            c.default_modules@.len() == 2,
            c.default_modules@[0].module_id@ == "company"@,
            c.default_modules@[0].path@ == "company/acme.yaml"@,
            c.default_modules@[1].module_id@ == "smalltalk"@,
            c.default_modules@[1].path@ == "modules/smalltalk.yaml"@,
    {
        let mut modules: Vec<DefaultModuleConfig> = Vec::new();
        modules.push(DefaultModuleConfig {
            module_id: "company".to_string(),
            path: "company/acme.yaml".to_string(),
        });
        modules.push(DefaultModuleConfig {
            module_id: "smalltalk".to_string(),
            path: "modules/smalltalk.yaml".to_string(),
        });
        ApiConfig {
            host: "127.0.0.1".to_string(),
            port: 0,
            data_root: data_root.to_string(),
            flows_dir: join(data_root, "flows"),
            request_timeout: 30,
            max_body_size: 1024 * 1024,
            log_level: "warn".to_string(),
            include_router_decision: false,
            log_user_messages: false,
            version: "test".to_string(),
            default_modules: modules,
        }
    }

    /// The address the server binds: `<host>:<port>`, parsed by the caller.
    pub fn bind_address(&self) -> (a: String)
        ensures
            a@ == self.host@ + ":"@ + crate::text::decimal(self.port as nat),
    {
        let mut a = self.host.clone();
        a.append(":");
        let port = crate::text::u64_to_decimal(self.port as u64);
        a.append(port.as_str());
        a
    }

    /// A path of the data directory: absolute paths as they are, others under `data_root`.
    pub fn resolve_data_path(&self, relative: &str) -> (p: String)
        ensures
            p@ == path_join(self.data_root@, relative@),
    {
        join(self.data_root.as_str(), relative)
    }
}

fn as_str_opt(o: &Option<String>) -> (r: Option<&str>)
    ensures
        match o {
            Some(s) => r is Some && r->0@ == s@,
            None => r is None,
        },
{
    match o {
        Some(s) => Some(s.as_str()),
        None => None,
    }
}

} // verus!
