//! The node daemon's configuration as read from its environment, and the provider
//! adapter it picks for a runtime.
use vstd::prelude::*;

use crate::codex::CodexProviderAdapter;
use crate::dispatch::{FakeProviderAdapter, UnsupportedProviderAdapter};
use crate::protocol::{json_str, push_member, JsonValue, JsonView};
use crate::split::{split_on, split_on_exec};
use crate::text::{
    concat2, parse_u64, parse_u64_spec, str_eq, string_from, string_of, strings_view, trim,
    trim_chars,
};

verus! {

/// What a node daemon runs with.
#[derive(Debug)]
pub struct NodeConfig {
    pub core_url: String,
    pub display_name: String,
    pub heartbeat_interval_seconds: u64,
    pub state_path: String,
    pub workspace_paths: Vec<String>,
    pub codex_binary: String,
    pub codex_timeout_seconds: u64,
}

/// The node's environment variables, each as set or absent.
pub struct NodeEnv {
    pub core_url: Option<String>,
    pub display_name: Option<String>,
    pub heartbeat_seconds: Option<String>,
    pub state_path: Option<String>,
    pub workspaces: Option<String>,
    pub codex_binary: Option<String>,
    pub codex_timeout_seconds: Option<String>,
}

/// The message for a duration variable that is not a whole number of seconds.
pub open spec fn duration_error(name: Seq<char>) -> Seq<char> {
    name + " must be an unsigned integer number of seconds"@
}

/// A duration in seconds from variable `name`: `fallback_seconds` when unset, its value
/// when it is an unsigned integer, an error otherwise.
pub open spec fn duration_spec(name: Seq<char>, value: Option<Seq<char>>, fallback: u64) -> Result<u64, Seq<char>> {
    match value {
        None => Ok(fallback),
        Some(v) => match parse_u64_spec(v) {
            Some(n) => Ok(n),
            None => Err(duration_error(name)),
        },
    }
}

pub fn parse_env_duration_seconds(name: &str, value: Option<&str>, fallback_seconds: u64) -> (r: Result<
    u64,
    String,
>)
    ensures
        match r {
            Ok(n) => duration_spec(
                name@,
                match value {
                    Some(v) => Some(v@),
                    None => None,
                },
                fallback_seconds,
            ) == Ok::<u64, Seq<char>>(n),
            Err(e) => duration_spec(
                name@,
                match value {
                    Some(v) => Some(v@),
                    None => None,
                },
                fallback_seconds,
            ) == Err::<u64, Seq<char>>(e@),
        },
{
    match value {
        None => Ok(fallback_seconds),
        Some(v) => match parse_u64(v) {
            Some(n) => Ok(n),
            None => Err(concat2(name, " must be an unsigned integer number of seconds")),
        },
    }
}

/// The pieces of a comma-separated list, trimmed, without the blank ones.
pub open spec fn list_items(parts: Seq<Seq<char>>) -> Seq<Seq<char>>
    decreases parts.len(),
{
    if parts.len() == 0 {
        seq![]
    } else {
        let rest = list_items(parts.drop_last());
        if trim(parts.last()).len() > 0 {
            rest.push(trim(parts.last()))
        } else {
            rest
        }
    }
}

/// The entries of a comma-separated list: `value.split(',').map(str::trim)` without the
/// empty ones.
pub open spec fn comma_list(value: Seq<char>) -> Seq<Seq<char>> {
    list_items(split_on(value, ','))
}

pub fn parse_comma_list(value: &str) -> (r: Vec<String>)
    ensures
        strings_view(r@) == comma_list(value@),
{
    let cs = crate::text::chars_of(value);
    let parts = split_on_exec(&cs, ',');
    let ghost pv = parts@.map_values(|v: Vec<char>| v@);
    let mut out: Vec<String> = Vec::new();
    let mut i: usize = 0;
    while i < parts.len()
        invariant
            i <= parts@.len(),
            pv == parts@.map_values(|v: Vec<char>| v@),
            strings_view(out@) == list_items(pv.take(i as int)),
        decreases parts@.len() - i,
    {
        assert(pv[i as int] == parts@[i as int]@);
        assert(pv.take(i + 1).drop_last() =~= pv.take(i as int));
        let t = trim_chars(&parts[i]);
        if t.len() > 0 {
            let ghost before = out@;
            out.push(string_of(&t));
            assert(strings_view(out@) =~= strings_view(before).push(t@));
        }
        i += 1;
    }
    assert(pv.take(parts@.len() as int) =~= pv);
    out
}

/// The node configuration from its environment: each setting from its variable, else
/// its default; a duration that is not a whole number of seconds is an error.
pub open spec fn node_config_ok(c: NodeConfig, env: NodeEnv, default_state_path: Seq<char>) -> bool {
    &&& crate::urls::url_serialization(str_or_default(env.core_url, "http://127.0.0.1:8080"@)) == Some(
        c.core_url@,
    )
    &&& c.display_name@ == str_or_default(env.display_name, "Local Node"@)
    &&& duration_spec("CORTEX_NODE_HEARTBEAT_SECONDS"@, opt_seq(env.heartbeat_seconds), 5) == Ok::<
        u64,
        Seq<char>,
    >(c.heartbeat_interval_seconds)
    &&& c.state_path@ == str_or_default(env.state_path, default_state_path)
    &&& strings_view(c.workspace_paths@) == match env.workspaces {
        Some(w) => comma_list(w@),
        None => seq![],
    }
    &&& c.codex_binary@ == str_or_default(env.codex_binary, "codex"@)
    &&& duration_spec("CORTEX_CODEX_TIMEOUT_SECONDS"@, opt_seq(env.codex_timeout_seconds), 120) == Ok::<
        u64,
        Seq<char>,
    >(c.codex_timeout_seconds)
}

pub open spec fn opt_seq(o: Option<String>) -> Option<Seq<char>> {
    match o {
        Some(s) => Some(s@),
        None => None,
    }
}

pub open spec fn str_or_default(o: Option<String>, d: Seq<char>) -> Seq<char> {
    match o {
        Some(s) => s@,
        None => d,
    }
}

/// The first refused setting of the environment, if any: a control-plane URL that is no
/// URL, or a duration that is not a whole number of seconds.
pub open spec fn node_config_error(env: NodeEnv) -> Option<Seq<char>> {
    if crate::urls::url_serialization(str_or_default(env.core_url, "http://127.0.0.1:8080"@)) is None {
        Some("CORTEX_CORE_URL must be a valid URL"@)
    } else {
        duration_error_of(env)
    }
}

pub open spec fn duration_error_of(env: NodeEnv) -> Option<Seq<char>> {
    match duration_spec("CORTEX_NODE_HEARTBEAT_SECONDS"@, opt_seq(env.heartbeat_seconds), 5) {
        Err(e) => Some(e),
        Ok(_) => match duration_spec("CORTEX_CODEX_TIMEOUT_SECONDS"@, opt_seq(env.codex_timeout_seconds), 120) {
            Err(e) => Some(e),
            Ok(_) => None,
        },
    }
}

fn opt_str(o: &Option<String>) -> (r: Option<&str>)
    ensures
        match r {
            Some(s) => *o matches Some(x) && x@ == s@,
            None => o is None,
        },
{
    match o {
        Some(s) => Some(s.as_str()),
        None => None,
    }
}

fn or_default(o: &Option<String>, d: &str) -> (r: String)
    ensures
        r@ == str_or_default(*o, d@),
{
    match o {
        Some(s) => s.clone(),
        None => string_from(d),
    }
}

impl NodeConfig {
    /// The configuration that `env` describes; `default_state_path` is where the state
    /// lives when no path is set.
    pub fn from_env(env: &NodeEnv, default_state_path: &str) -> (r: Result<NodeConfig, String>)
        ensures
            match r {
                Ok(c) => node_config_error(*env) is None && node_config_ok(c, *env, default_state_path@),
                Err(e) => node_config_error(*env) == Some(e@),
            },
    {
        let url_text = or_default(&env.core_url, "http://127.0.0.1:8080");
        let core_url = match crate::urls::parse_url(url_text.as_str()) {
            Some(u) => u,
            None => {
                return Err(string_from("CORTEX_CORE_URL must be a valid URL"));
            },
        };
        let heartbeat = match parse_env_duration_seconds(
            "CORTEX_NODE_HEARTBEAT_SECONDS",
            opt_str(&env.heartbeat_seconds),
            5,
        ) {
            Ok(n) => n,
            Err(e) => {
                return Err(e);
            },
        };
        let timeout = match parse_env_duration_seconds(
            "CORTEX_CODEX_TIMEOUT_SECONDS",
            opt_str(&env.codex_timeout_seconds),
            120,
        ) {
            Ok(n) => n,
            Err(e) => {
                return Err(e);
            },
        };
        let workspace_paths = match &env.workspaces {
            Some(w) => parse_comma_list(w.as_str()),
            None => Vec::new(),
        };
        assert(env.workspaces is None ==> strings_view(workspace_paths@) =~= seq![]);
        Ok(
            NodeConfig {
                core_url,
                display_name: or_default(&env.display_name, "Local Node"),
                heartbeat_interval_seconds: heartbeat,
                state_path: or_default(&env.state_path, default_state_path),
                workspace_paths,
                codex_binary: or_default(&env.codex_binary, "codex"),
                codex_timeout_seconds: timeout,
            },
        )
    }
}

/// The adapter that runs a provider's runtimes on this node.
pub enum RuntimeManager {
    Fake(FakeProviderAdapter),
    Codex(CodexProviderAdapter),
    Unsupported(UnsupportedProviderAdapter),
}

/// Which adapter serves a provider key: the fake one for `fake` or no key, Codex for
/// `codex`, else the stand-in for an unsupported provider.
pub open spec fn manager_for(provider_key: Seq<char>, c: NodeConfig, m: RuntimeManager) -> bool {
    if provider_key == ""@ || provider_key == "fake"@ {
        m is Fake
    } else if provider_key == "codex"@ {
        m matches RuntimeManager::Codex(a) && a.codex_binary@ == c.codex_binary@ && a.timeout_seconds
            == c.codex_timeout_seconds
    } else {
        m matches RuntimeManager::Unsupported(u) && u.provider_key@ == provider_key
    }
}

impl RuntimeManager {
    pub fn for_provider(provider_key: &str, config: &NodeConfig) -> (r: Self)
        ensures
            manager_for(provider_key@, *config, r),
    {
        if str_eq(provider_key, "") || str_eq(provider_key, "fake") {
            RuntimeManager::Fake(FakeProviderAdapter)
        } else if str_eq(provider_key, "codex") {
            RuntimeManager::Codex(
                CodexProviderAdapter::new(config.codex_binary.as_str(), config.codex_timeout_seconds),
            )
        } else {
            RuntimeManager::Unsupported(
                UnsupportedProviderAdapter { provider_key: string_from(provider_key) },
            )
        }
    }
}


/// A capability a node reports: a key such as `provider.codex` and what it says of it.
pub struct CapabilitySummary {
    pub key: String,
    pub value: crate::protocol::JsonValue,
}

pub open spec fn codex_capability_spec(binary: Seq<char>, timeout_seconds: nat, available: bool) -> JsonView {
    JsonView::Object(
        seq![
            ("available"@, JsonView::Bool(available)),
            ("configured"@, JsonView::Bool(true)),
            ("binary"@, JsonView::Str(binary)),
            ("mode"@, JsonView::Str("exec"@)),
            ("timeout_seconds"@, JsonView::Number(crate::text::decimal(timeout_seconds))),
            (
                "unavailable_reason"@,
                if available {
                    JsonView::Null
                } else {
                    JsonView::Str("binary_not_found"@)
                },
            ),
        ],
    )
}

/// The capabilities a node reports: the fake provider, always available; the codex
/// provider with its binary, timeout and whether the binary was found; and workspace
/// validation by explicit path.
pub open spec fn capabilities_spec(binary: Seq<char>, timeout_seconds: nat, available: bool) -> Seq<
    (Seq<char>, JsonView),
> {
    seq![
        ("provider.fake"@, crate::protocol::obj1("available"@, JsonView::Bool(true))),
        ("provider.codex"@, codex_capability_spec(binary, timeout_seconds, available)),
        ("workspace.validation"@, crate::protocol::obj1("mode"@, JsonView::Str("explicit_path"@))),
    ]
}

pub fn node_capabilities(codex_binary: &str, codex_timeout_seconds: u64, codex_available: bool) -> (r:
    Vec<CapabilitySummary>)
    ensures
        r@.map_values(|c: CapabilitySummary| (c.key@, c.value@)) == capabilities_spec(
            codex_binary@,
            codex_timeout_seconds as nat,
            codex_available,
        ),
{
    let mut es: Vec<(String, JsonValue)> = Vec::new();
    assert(crate::protocol::entries_view(es@, 0) =~= seq![]);
    push_member(&mut es, "available", JsonValue::Bool(codex_available));
    push_member(&mut es, "configured", JsonValue::Bool(true));
    push_member(&mut es, "binary", json_str(codex_binary));
    push_member(&mut es, "mode", json_str("exec"));
    push_member(&mut es, "timeout_seconds", JsonValue::Number(crate::text::u64_to_string(codex_timeout_seconds)));
    let reason = if codex_available {
        JsonValue::Null
    } else {
        json_str("binary_not_found")
    };
    push_member(&mut es, "unavailable_reason", reason);
    let ghost ev = crate::protocol::entries_view(es@, es@.len());
    let codex = crate::protocol::json_object(es);
    assert(ev =~= match codex_capability_spec(codex_binary@, codex_timeout_seconds as nat, codex_available) {
        JsonView::Object(e) => e,
        _ => seq![],
    });
    let mut r: Vec<CapabilitySummary> = Vec::new();
    r.push(
        CapabilitySummary {
            key: string_from("provider.fake"),
            value: crate::protocol::json_obj1("available", JsonValue::Bool(true)),
        },
    );
    r.push(CapabilitySummary { key: string_from("provider.codex"), value: codex });
    r.push(
        CapabilitySummary {
            key: string_from("workspace.validation"),
            value: crate::protocol::json_obj1("mode", json_str("explicit_path")),
        },
    );
    assert(r@.map_values(|c: CapabilitySummary| (c.key@, c.value@)) =~= capabilities_spec(
        codex_binary@,
        codex_timeout_seconds as nat,
        codex_available,
    ));
    r
}

} // verus!
