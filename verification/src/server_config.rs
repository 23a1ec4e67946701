//! The control plane's configuration as read from its environment.
use vstd::prelude::*;

use crate::node_config::{comma_list, opt_seq, parse_comma_list, str_or_default};
use crate::states::DeploymentProfile;
use crate::text::{chars_of, parse_i64, parse_i64_spec, str_eq, string_from, strings_view};

verus! {

/// Why a control-plane setting is refused.
pub enum ConfigError {
    InvalidProfile(String),
    InvalidOrigin { origin: String },
    WildcardOrigin,
    InvalidInteger { name: String },
}

pub enum ConfigErrorView {
    InvalidProfile(Seq<char>),
    InvalidOrigin(Seq<char>),
    WildcardOrigin,
    InvalidInteger(Seq<char>),
}

impl View for ConfigError {
    type V = ConfigErrorView;

    open spec fn view(&self) -> ConfigErrorView {
        match self {
            ConfigError::InvalidProfile(p) => ConfigErrorView::InvalidProfile(p@),
            ConfigError::InvalidOrigin { origin } => ConfigErrorView::InvalidOrigin(origin@),
            ConfigError::WildcardOrigin => ConfigErrorView::WildcardOrigin,
            ConfigError::InvalidInteger { name } => ConfigErrorView::InvalidInteger(name@),
        }
    }
}

impl ConfigError {
    /// The message the error is shown with.
    pub fn message(&self) -> (r: String)
        ensures
            r@ == config_error_message(self@),
    {
        match self {
            ConfigError::InvalidProfile(p) => crate::text::concat3("invalid deployment profile `", p.as_str(), "`"),
            ConfigError::InvalidOrigin { origin } => crate::text::concat3("invalid CORS origin `", origin.as_str(), "`"),
            ConfigError::WildcardOrigin => string_from(
                "wildcard CORS origin is not allowed in trusted development profile",
            ),
            ConfigError::InvalidInteger { name } => crate::text::concat3(
                "invalid integer environment variable `",
                name.as_str(),
                "`",
            ),
        }
    }
}

pub open spec fn config_error_message(e: ConfigErrorView) -> Seq<char> {
    match e {
        ConfigErrorView::InvalidProfile(p) => "invalid deployment profile `"@ + p + "`"@,
        ConfigErrorView::InvalidOrigin(o) => "invalid CORS origin `"@ + o + "`"@,
        ConfigErrorView::WildcardOrigin => "wildcard CORS origin is not allowed in trusted development profile"@,
        ConfigErrorView::InvalidInteger(n) => "invalid integer environment variable `"@ + n + "`"@,
    }
}

/// The deployment profile: `controlled_dev`, or `local_trusted` (also when unset).
pub open spec fn profile_spec(value: Option<Seq<char>>) -> Result<DeploymentProfile, ConfigErrorView> {
    match value {
        None => Ok(DeploymentProfile::LocalTrusted),
        Some(v) => if v == "controlled_dev"@ {
            Ok(DeploymentProfile::ControlledDev)
        } else if v == "local_trusted"@ {
            Ok(DeploymentProfile::LocalTrusted)
        } else {
            Err(ConfigErrorView::InvalidProfile(v))
        },
    }
}

pub fn parse_profile(value: Option<&str>) -> (r: Result<DeploymentProfile, ConfigError>)
    ensures
        match r {
            Ok(p) => profile_spec(
                match value {
                    Some(v) => Some(v@),
                    None => None,
                },
            ) == Ok::<DeploymentProfile, ConfigErrorView>(p),
            Err(e) => profile_spec(
                match value {
                    Some(v) => Some(v@),
                    None => None,
                },
            ) == Err::<DeploymentProfile, ConfigErrorView>(e@),
        },
{
    match value {
        None => Ok(DeploymentProfile::LocalTrusted),
        Some(v) => {
            if str_eq(v, "controlled_dev") {
                Ok(DeploymentProfile::ControlledDev)
            } else if str_eq(v, "local_trusted") {
                Ok(DeploymentProfile::LocalTrusted)
            } else {
                Err(ConfigError::InvalidProfile(string_from(v)))
            }
        },
    }
}

/// A character that an HTTP header value may hold: a tab, or any character from space
/// on but DEL.
pub open spec fn header_char(c: char) -> bool {
    c == '\t' || (' ' <= c && c != '\x7f')
}

/// `HeaderValue::from_str` accepts the text.
pub open spec fn valid_header_value(s: Seq<char>) -> bool {
    forall|i: int| 0 <= i < s.len() ==> header_char(#[trigger] s[i])
}

pub fn is_valid_header_value(s: &str) -> (b: bool)
    ensures
        b == valid_header_value(s@),
{
    let cs = chars_of(s);
    let mut i: usize = 0;
    while i < cs.len()
        invariant
            i <= cs@.len(),
            cs@ == s@,
            forall|k: int| 0 <= k < i ==> header_char(#[trigger] cs@[k]),
        decreases cs@.len() - i,
    {
        let c = cs[i];
        if !(c == '\t' || (' ' <= c && c != '\x7f')) {
            return false;
        }
        i += 1;
    }
    true
}

/// The origins a browser client may call from by default.
pub open spec fn default_origins() -> Seq<Seq<char>> {
    seq!["http://127.0.0.1:5173"@, "http://localhost:5173"@]
}

pub fn default_allowed_origins() -> (r: Vec<String>)
    ensures
        strings_view(r@) == default_origins(),
{
    let mut r: Vec<String> = Vec::new();
    r.push(string_from("http://127.0.0.1:5173"));
    r.push(string_from("http://localhost:5173"));
    assert(strings_view(r@) =~= default_origins());
    r
}

/// The first of `items`, from index `i` on, that cannot be an allowed origin: the
/// wildcard, or text that is no header value.
pub open spec fn first_bad_origin(items: Seq<Seq<char>>, i: int) -> Option<ConfigErrorView>
    decreases items.len() - i,
{
    if i < 0 || i >= items.len() {
        None
    } else if items[i] == "*"@ {
        Some(ConfigErrorView::WildcardOrigin)
    } else if !valid_header_value(items[i]) {
        Some(ConfigErrorView::InvalidOrigin(items[i]))
    } else {
        first_bad_origin(items, i + 1)
    }
}

/// The allowed origins from their setting: the defaults when unset or when it lists
/// none; else its entries, unless one is the wildcard or no header value.
pub open spec fn origins_spec(value: Option<Seq<char>>) -> Result<Seq<Seq<char>>, ConfigErrorView> {
    match value {
        None => Ok(default_origins()),
        Some(v) => {
            let items = comma_list(v);
            match first_bad_origin(items, 0) {
                Some(e) => Err(e),
                None => if items.len() == 0 {
                    Ok(default_origins())
                } else {
                    Ok(items)
                },
            }
        },
    }
}

#[verifier::loop_isolation(false)]
pub fn parse_allowed_origins(value: Option<&str>) -> (r: Result<Vec<String>, ConfigError>)
    ensures
        match r {
            Ok(os) => origins_spec(
                match value {
                    Some(v) => Some(v@),
                    None => None,
                },
            ) == Ok::<Seq<Seq<char>>, ConfigErrorView>(strings_view(os@)),
            Err(e) => origins_spec(
                match value {
                    Some(v) => Some(v@),
                    None => None,
                },
            ) == Err::<Seq<Seq<char>>, ConfigErrorView>(e@),
        },
{
    let v = match value {
        None => {
            return Ok(default_allowed_origins());
        },
        Some(v) => v,
    };
    let items = parse_comma_list(v);
    let ghost iv = strings_view(items@);
    let mut i: usize = 0;
    while i < items.len()
        invariant
            i <= items@.len(),
            iv == strings_view(items@),
            first_bad_origin(iv, 0) == first_bad_origin(iv, i as int),
        decreases items@.len() - i,
    {
        assert(iv[i as int] == items@[i as int]@);
        if str_eq(items[i].as_str(), "*") {
            return Err(ConfigError::WildcardOrigin);
        }
        if !is_valid_header_value(items[i].as_str()) {
            return Err(ConfigError::InvalidOrigin { origin: items[i].clone() });
        }
        i += 1;
    }
    if items.len() == 0 {
        Ok(default_allowed_origins())
    } else {
        Ok(items)
    }
}

/// An integer setting: `fallback` when unset, its value when it is an integer, an error
/// naming the variable otherwise.
pub open spec fn env_i64_spec(name: Seq<char>, value: Option<Seq<char>>, fallback: i64) -> Result<i64, ConfigErrorView> {
    match value {
        None => Ok(fallback),
        Some(v) => match parse_i64_spec(v) {
            Some(n) => Ok(n),
            None => Err(ConfigErrorView::InvalidInteger(name)),
        },
    }
}

pub fn parse_env_i64(name: &str, value: Option<&str>, fallback: i64) -> (r: Result<i64, ConfigError>)
    ensures
        match r {
            Ok(n) => env_i64_spec(
                name@,
                match value {
                    Some(v) => Some(v@),
                    None => None,
                },
                fallback,
            ) == Ok::<i64, ConfigErrorView>(n),
            Err(e) => env_i64_spec(
                name@,
                match value {
                    Some(v) => Some(v@),
                    None => None,
                },
                fallback,
            ) == Err::<i64, ConfigErrorView>(e@),
        },
{
    match value {
        None => Ok(fallback),
        Some(v) => match parse_i64(v) {
            Some(n) => Ok(n),
            None => Err(ConfigError::InvalidInteger { name: string_from(name) }),
        },
    }
}

/// A lenient boolean setting: `1`, `true`, `yes` and `on` are true, anything else set is
/// false, and unset gives `fallback`.
pub open spec fn env_bool_spec(value: Option<Seq<char>>, fallback: bool) -> bool {
    match value {
        None => fallback,
        Some(v) => v == "1"@ || v == "true"@ || v == "yes"@ || v == "on"@,
    }
}

pub fn parse_env_bool(value: Option<&str>, fallback: bool) -> (b: bool)
    ensures
        b == env_bool_spec(
            match value {
                Some(v) => Some(v@),
                None => None,
            },
            fallback,
        ),
{
    match value {
        None => fallback,
        Some(v) => str_eq(v, "1") || str_eq(v, "true") || str_eq(v, "yes") || str_eq(v, "on"),
    }
}

/// What the control plane runs with.
pub struct AppConfig {
    pub bind_address: String,
    pub database_url: String,
    pub profile: DeploymentProfile,
    pub allowed_origins: Vec<String>,
    pub stale_after_seconds: i64,
    pub offline_after_seconds: i64,
    pub enrollment_ttl_seconds: i64,
    pub runtime_expiry_seconds: i64,
    pub auto_approve_enrollments: bool,
    pub client_log_file: String,
}

/// The control plane's environment variables, each as set or absent.
pub struct AppEnv {
    pub bind_address: Option<String>,
    pub database_url: Option<String>,
    pub profile: Option<String>,
    pub allowed_origins: Option<String>,
    pub stale_after_seconds: Option<String>,
    pub offline_after_seconds: Option<String>,
    pub enrollment_ttl_seconds: Option<String>,
    pub runtime_expiry_seconds: Option<String>,
    pub auto_approve_enrollments: Option<String>,
    pub client_log_file: Option<String>,
}

/// The first refused setting, in the order they are read.
pub open spec fn app_config_error(env: AppEnv) -> Option<ConfigErrorView> {
    if profile_spec(opt_seq(env.profile)) is Err {
        Some(profile_spec(opt_seq(env.profile))->Err_0)
    } else if origins_spec(opt_seq(env.allowed_origins)) is Err {
        Some(origins_spec(opt_seq(env.allowed_origins))->Err_0)
    } else if env_i64_spec("CORTEX_HEARTBEAT_STALE_SECONDS"@, opt_seq(env.stale_after_seconds), 15) is Err {
        Some(env_i64_spec("CORTEX_HEARTBEAT_STALE_SECONDS"@, opt_seq(env.stale_after_seconds), 15)->Err_0)
    } else if env_i64_spec("CORTEX_HEARTBEAT_OFFLINE_SECONDS"@, opt_seq(env.offline_after_seconds), 45) is Err {
        Some(env_i64_spec("CORTEX_HEARTBEAT_OFFLINE_SECONDS"@, opt_seq(env.offline_after_seconds), 45)->Err_0)
    } else if env_i64_spec("CORTEX_ENROLLMENT_TTL_SECONDS"@, opt_seq(env.enrollment_ttl_seconds), 600) is Err {
        Some(env_i64_spec("CORTEX_ENROLLMENT_TTL_SECONDS"@, opt_seq(env.enrollment_ttl_seconds), 600)->Err_0)
    } else if env_i64_spec("CORTEX_RUNTIME_EXPIRY_SECONDS"@, opt_seq(env.runtime_expiry_seconds), 86400) is Err {
        Some(env_i64_spec("CORTEX_RUNTIME_EXPIRY_SECONDS"@, opt_seq(env.runtime_expiry_seconds), 86400)->Err_0)
    } else {
        None
    }
}

/// `c` is the configuration that `env` describes, each setting from its variable or
/// its default.
pub open spec fn app_config_ok(c: AppConfig, env: AppEnv) -> bool {
    &&& c.bind_address@ == str_or_default(env.bind_address, "127.0.0.1:8080"@)
    &&& c.database_url@ == str_or_default(env.database_url, "sqlite://.local/state/core.sqlite"@)
    &&& profile_spec(opt_seq(env.profile)) == Ok::<DeploymentProfile, ConfigErrorView>(c.profile)
    &&& origins_spec(opt_seq(env.allowed_origins)) == Ok::<Seq<Seq<char>>, ConfigErrorView>(
        strings_view(c.allowed_origins@),
    )
    &&& env_i64_spec("CORTEX_HEARTBEAT_STALE_SECONDS"@, opt_seq(env.stale_after_seconds), 15) == Ok::<
        i64,
        ConfigErrorView,
    >(c.stale_after_seconds)
    &&& env_i64_spec("CORTEX_HEARTBEAT_OFFLINE_SECONDS"@, opt_seq(env.offline_after_seconds), 45) == Ok::<
        i64,
        ConfigErrorView,
    >(c.offline_after_seconds)
    &&& env_i64_spec("CORTEX_ENROLLMENT_TTL_SECONDS"@, opt_seq(env.enrollment_ttl_seconds), 600) == Ok::<
        i64,
        ConfigErrorView,
    >(c.enrollment_ttl_seconds)
    &&& env_i64_spec("CORTEX_RUNTIME_EXPIRY_SECONDS"@, opt_seq(env.runtime_expiry_seconds), 86400) == Ok::<
        i64,
        ConfigErrorView,
    >(c.runtime_expiry_seconds)
    &&& c.auto_approve_enrollments == env_bool_spec(opt_seq(env.auto_approve_enrollments), false)
    &&& c.client_log_file@ == str_or_default(env.client_log_file, ".local/logs/client.log"@)
}

fn opt_str(o: &Option<String>) -> (r: Option<&str>)
    ensures
        match r {
            Some(s) => *o matches Some(x) && x@ == s@,
            None => o is None,
        },
{
    match o {
        Some(s) => Some(s.as_str()),
        None => None,
    }
}

fn or_default(o: &Option<String>, d: &str) -> (r: String)
    ensures
        r@ == str_or_default(*o, d@),
{
    match o {
        Some(s) => s.clone(),
        None => string_from(d),
    }
}

impl AppConfig {
    /// The configuration that `env` describes, or the first setting it refuses.
    pub fn from_env(env: &AppEnv) -> (r: Result<AppConfig, ConfigError>)
        ensures
            match r {
                Ok(c) => app_config_error(*env) is None && app_config_ok(c, *env),
                Err(e) => app_config_error(*env) == Some(e@),
            },
    {
        let profile = match parse_profile(opt_str(&env.profile)) {
            Ok(p) => p,
            Err(e) => {
                return Err(e);
            },
        };
        let allowed_origins = match parse_allowed_origins(opt_str(&env.allowed_origins)) {
            Ok(o) => o,
            Err(e) => {
                return Err(e);
            },
        };
        let stale = match parse_env_i64("CORTEX_HEARTBEAT_STALE_SECONDS", opt_str(&env.stale_after_seconds), 15) {
            Ok(n) => n,
            Err(e) => {
                return Err(e);
            },
        };
        let offline = match parse_env_i64(
            "CORTEX_HEARTBEAT_OFFLINE_SECONDS",
            opt_str(&env.offline_after_seconds),
            45,
        ) {
            Ok(n) => n,
            Err(e) => {
                return Err(e);
            },
        };
        let ttl = match parse_env_i64("CORTEX_ENROLLMENT_TTL_SECONDS", opt_str(&env.enrollment_ttl_seconds), 600) {
            Ok(n) => n,
            Err(e) => {
                return Err(e);
            },
        };
        let expiry = match parse_env_i64(
            "CORTEX_RUNTIME_EXPIRY_SECONDS",
            opt_str(&env.runtime_expiry_seconds),
            86_400,
        ) {
            Ok(n) => n,
            Err(e) => {
                return Err(e);
            },
        };
        Ok(
            AppConfig {
                bind_address: or_default(&env.bind_address, "127.0.0.1:8080"),
                database_url: or_default(&env.database_url, "sqlite://.local/state/core.sqlite"),
                profile,
                allowed_origins,
                stale_after_seconds: stale,
                offline_after_seconds: offline,
                enrollment_ttl_seconds: ttl,
                runtime_expiry_seconds: expiry,
                auto_approve_enrollments: parse_env_bool(opt_str(&env.auto_approve_enrollments), false),
                client_log_file: or_default(&env.client_log_file, ".local/logs/client.log"),
            },
        )
    }
}

} // verus!
