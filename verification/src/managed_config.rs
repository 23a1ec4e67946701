//! The configuration of the managed-runtime node daemon, read from its environment: it
//! must be given its workspace roots, probes its Codex binary, and accepts a sandbox
//! endpoint only on loopback.
use vstd::prelude::*;

use crate::node_config::{duration_spec, opt_seq, parse_env_duration_seconds, str_or_default};
use crate::text::{string_from, strings_view, trim, trim_str};
use crate::urls::{parse_url, sandbox_url_allowed, sandbox_url_allowed_spec, url_serialization};
use crate::versions::{
    managed_codex_spec, parse_env_bool_strict, parse_required_workspaces, probe_managed_codex,
    required_workspaces_spec, strict_bool_spec,
};

verus! {

/// The daemon's environment variables, each as set or absent.
pub struct ManagedNodeEnv {
    pub core_url: Option<String>,
    pub display_name: Option<String>,
    pub heartbeat_seconds: Option<String>,
    pub state_path: Option<String>,
    pub workspaces: Option<String>,
    pub codex_binary: Option<String>,
    pub codex_ignore_user_config: Option<String>,
    pub codex_timeout_seconds: Option<String>,
    pub opensandbox_url: Option<String>,
    pub task_runtime_image: Option<String>,
    pub toolhive_url: Option<String>,
    pub toolhive_timeout_seconds: Option<String>,
}

/// What the daemon runs with.
pub struct ManagedNodeConfig {
    pub core_url: String,
    pub display_name: String,
    pub heartbeat_interval_seconds: u64,
    pub state_path: String,
    pub workspace_paths: Vec<String>,
    pub codex_binary: String,
    pub codex_version: Option<String>,
    pub codex_managed_unavailable_reason: Option<String>,
    pub codex_ignore_user_config: bool,
    pub codex_timeout_seconds: u64,
    pub opensandbox_url: Option<String>,
    pub task_runtime_image: String,
    pub toolhive_url: String,
    pub toolhive_timeout_seconds: u64,
}

pub open spec fn default_core_url() -> Seq<char> {
    "http://127.0.0.1:8080"@
}

pub open spec fn default_task_image() -> Seq<char> {
    "uprava/codex-runtime:0.2.24"@
}

pub open spec fn default_toolhive_url() -> Seq<char> {
    "http://127.0.0.1:18081"@
}

/// The sandbox URL text, when one is set to more than whitespace.
pub open spec fn sandbox_text(env: ManagedNodeEnv) -> Option<Seq<char>> {
    match env.opensandbox_url {
        Some(v) => if trim(v@).len() > 0 {
            Some(v@)
        } else {
            None
        },
        None => None,
    }
}

/// The first refused setting, in the order the daemon reads them, if any.
pub open spec fn managed_config_error(env: ManagedNodeEnv) -> Option<Seq<char>> {
    if url_serialization(str_or_default(env.core_url, default_core_url())) is None {
        Some("UPRAVA_CORE_URL must be a valid URL"@)
    } else if duration_spec("UPRAVA_NODE_HEARTBEAT_SECONDS"@, opt_seq(env.heartbeat_seconds), 5) is Err {
        Some(duration_spec("UPRAVA_NODE_HEARTBEAT_SECONDS"@, opt_seq(env.heartbeat_seconds), 5)->Err_0)
    } else if required_workspaces_spec(opt_seq(env.workspaces)) is None {
        Some("UPRAVA_NODE_WORKSPACES must list one or more allowed workspace roots"@)
    } else if strict_bool_spec("UPRAVA_CODEX_IGNORE_USER_CONFIG"@, opt_seq(env.codex_ignore_user_config), true) is Err {
        Some(
            strict_bool_spec(
                "UPRAVA_CODEX_IGNORE_USER_CONFIG"@,
                opt_seq(env.codex_ignore_user_config),
                true,
            )->Err_0,
        )
    } else if duration_spec("UPRAVA_CODEX_TIMEOUT_SECONDS"@, opt_seq(env.codex_timeout_seconds), 86400) is Err {
        Some(duration_spec("UPRAVA_CODEX_TIMEOUT_SECONDS"@, opt_seq(env.codex_timeout_seconds), 86400)->Err_0)
    } else if sandbox_text(env) is Some && url_serialization(sandbox_text(env)->0) is None {
        Some("UPRAVA_OPENSANDBOX_URL must be a valid URL"@)
    } else if sandbox_text(env) is Some && !sandbox_url_allowed_spec(
        url_serialization(sandbox_text(env)->0)->0,
    ) {
        Some(
            "UPRAVA_OPENSANDBOX_URL must be an unauthenticated loopback HTTP URL until API-key support is enabled"@,
        )
    } else if trim(str_or_default(env.task_runtime_image, default_task_image())).len() == 0 {
        Some("UPRAVA_TASK_RUNTIME_IMAGE must not be empty"@)
    } else if url_serialization(str_or_default(env.toolhive_url, default_toolhive_url())) is None {
        Some("UPRAVA_TOOLHIVE_URL must be a valid URL"@)
    } else if duration_spec("UPRAVA_TOOLHIVE_TIMEOUT_SECONDS"@, opt_seq(env.toolhive_timeout_seconds), 300) is Err {
        Some(
            duration_spec("UPRAVA_TOOLHIVE_TIMEOUT_SECONDS"@, opt_seq(env.toolhive_timeout_seconds), 300)->Err_0,
        )
    } else {
        None
    }
}

/// `c` is the configuration `env` describes: each setting from its variable, else its
/// default; the Codex version and why a managed Codex is unavailable from probing it.
pub open spec fn managed_config_ok(
    c: ManagedNodeConfig,
    env: ManagedNodeEnv,
    default_state_path: Seq<char>,
    codex_available: bool,
    codex_probe: Result<Seq<char>, Seq<char>>,
) -> bool {
    &&& url_serialization(str_or_default(env.core_url, default_core_url())) == Some(c.core_url@)
    &&& c.display_name@ == str_or_default(env.display_name, "Local Node"@)
    &&& duration_spec("UPRAVA_NODE_HEARTBEAT_SECONDS"@, opt_seq(env.heartbeat_seconds), 5) == Ok::<
        u64,
        Seq<char>,
    >(c.heartbeat_interval_seconds)
    &&& c.state_path@ == str_or_default(env.state_path, default_state_path)
    &&& required_workspaces_spec(opt_seq(env.workspaces)) == Some(strings_view(c.workspace_paths@))
    &&& c.codex_binary@ == str_or_default(env.codex_binary, "codex"@)
    &&& (opt_seq(c.codex_version), opt_seq(c.codex_managed_unavailable_reason)) == managed_codex_spec(
        codex_available,
        codex_probe,
    )
    &&& strict_bool_spec("UPRAVA_CODEX_IGNORE_USER_CONFIG"@, opt_seq(env.codex_ignore_user_config), true)
        == Ok::<bool, Seq<char>>(c.codex_ignore_user_config)
    &&& duration_spec("UPRAVA_CODEX_TIMEOUT_SECONDS"@, opt_seq(env.codex_timeout_seconds), 86400) == Ok::<
        u64,
        Seq<char>,
    >(c.codex_timeout_seconds)
    &&& opt_seq(c.opensandbox_url) == match sandbox_text(env) {
        Some(t) => url_serialization(t),
        None => None,
    }
    &&& c.task_runtime_image@ == str_or_default(env.task_runtime_image, default_task_image())
    &&& url_serialization(str_or_default(env.toolhive_url, default_toolhive_url())) == Some(c.toolhive_url@)
    &&& duration_spec("UPRAVA_TOOLHIVE_TIMEOUT_SECONDS"@, opt_seq(env.toolhive_timeout_seconds), 300) == Ok::<
        u64,
        Seq<char>,
    >(c.toolhive_timeout_seconds)
}

fn opt_str(o: &Option<String>) -> (r: Option<&str>)
    ensures
        match r {
            Some(s) => *o matches Some(x) && x@ == s@,
            None => o is None,
        },
{
    match o {
        Some(s) => Some(s.as_str()),
        None => None,
    }
}

fn or_default(o: &Option<String>, d: &str) -> (r: String)
    ensures
        r@ == str_or_default(*o, d@),
{
    match o {
        Some(s) => s.clone(),
        None => string_from(d),
    }
}

impl ManagedNodeEnv {
    /// The Codex binary the daemon is to probe and run: the one set, else `codex`.
    pub fn codex_binary(&self) -> (r: String)
        ensures
            r@ == str_or_default(self.codex_binary, "codex"@),
    {
        or_default(&self.codex_binary, "codex")
    }

    /// The sandbox URL as set, when it is more than whitespace.
    pub fn sandbox_url(&self) -> (r: Option<String>)
        ensures
            opt_seq(r) == sandbox_text(*self),
    {
        match &self.opensandbox_url {
            Some(v) => {
                let t = trim_str(v.as_str());
                if t.as_str().is_empty() {
                    None
                } else {
                    Some(v.clone())
                }
            },
            None => None,
        }
    }
}

impl ManagedNodeConfig {
    /// The configuration `env` describes. `default_state_path` is where the state lives
    /// when no path is set; `codex_available` and `codex_probe` are whether the Codex
    /// binary was found and what asking it for its version gave.
    pub fn from_env(
        env: &ManagedNodeEnv,
        default_state_path: &str,
        codex_available: bool,
        codex_probe: Result<String, String>,
    ) -> (r: Result<ManagedNodeConfig, String>)
        ensures
            match r {
                Ok(c) => managed_config_error(*env) is None && managed_config_ok(
                    c,
                    *env,
                    default_state_path@,
                    codex_available,
                    match codex_probe {
                        Ok(v) => Ok(v@),
                        Err(e) => Err(e@),
                    },
                ),
                Err(e) => managed_config_error(*env) == Some(e@),
            },
    {
        let core_text = or_default(&env.core_url, "http://127.0.0.1:8080");
        let core_url = match parse_url(core_text.as_str()) {
            Some(u) => u,
            None => {
                return Err(string_from("UPRAVA_CORE_URL must be a valid URL"));
            },
        };
        let heartbeat = match parse_env_duration_seconds(
            "UPRAVA_NODE_HEARTBEAT_SECONDS",
            opt_str(&env.heartbeat_seconds),
            5,
        ) {
            Ok(n) => n,
            Err(e) => {
                return Err(e);
            },
        };
        let state_path = or_default(&env.state_path, default_state_path);
        let workspace_paths = match parse_required_workspaces(opt_str(&env.workspaces)) {
            Ok(ws) => ws,
            Err(e) => {
                return Err(e);
            },
        };
        let codex_binary = or_default(&env.codex_binary, "codex");
        let (codex_version, codex_reason) = probe_managed_codex(codex_available, codex_probe);
        let ignore_user_config = match parse_env_bool_strict(
            "UPRAVA_CODEX_IGNORE_USER_CONFIG",
            opt_str(&env.codex_ignore_user_config),
            true,
        ) {
            Ok(b) => b,
            Err(e) => {
                return Err(e);
            },
        };
        let codex_timeout = match parse_env_duration_seconds(
            "UPRAVA_CODEX_TIMEOUT_SECONDS",
            opt_str(&env.codex_timeout_seconds),
            86400,
        ) {
            Ok(n) => n,
            Err(e) => {
                return Err(e);
            },
        };
        let opensandbox_url = match env.sandbox_url() {
            Some(text) => match parse_url(text.as_str()) {
                Some(u) => {
                    if !sandbox_url_allowed(u.as_str()) {
                        return Err(
                            string_from(
                                "UPRAVA_OPENSANDBOX_URL must be an unauthenticated loopback HTTP URL until API-key support is enabled",
                            ),
                        );
                    }
                    Some(u)
                },
                None => {
                    return Err(string_from("UPRAVA_OPENSANDBOX_URL must be a valid URL"));
                },
            },
            None => None,
        };
        let image = or_default(&env.task_runtime_image, "uprava/codex-runtime:0.2.24");
        if trim_str(image.as_str()).as_str().is_empty() {
            return Err(string_from("UPRAVA_TASK_RUNTIME_IMAGE must not be empty"));
        }
        let toolhive_text = or_default(&env.toolhive_url, "http://127.0.0.1:18081");
        let toolhive_url = match parse_url(toolhive_text.as_str()) {
            Some(u) => u,
            None => {
                return Err(string_from("UPRAVA_TOOLHIVE_URL must be a valid URL"));
            },
        };
        let toolhive_timeout = match parse_env_duration_seconds(
            "UPRAVA_TOOLHIVE_TIMEOUT_SECONDS",
            opt_str(&env.toolhive_timeout_seconds),
            300,
        ) {
            Ok(n) => n,
            Err(e) => {
                return Err(e);
            },
        };
        Ok(
            ManagedNodeConfig {
                core_url,
                display_name: or_default(&env.display_name, "Local Node"),
                heartbeat_interval_seconds: heartbeat,
                state_path,
                workspace_paths,
                codex_binary,
                codex_version,
                codex_managed_unavailable_reason: codex_reason,
                codex_ignore_user_config: ignore_user_config,
                codex_timeout_seconds: codex_timeout,
                opensandbox_url,
                task_runtime_image: image,
                toolhive_url,
                toolhive_timeout_seconds: toolhive_timeout,
            },
        )
    }
}

} // verus!
