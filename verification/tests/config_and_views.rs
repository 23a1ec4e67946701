use uprava_core::urls::{is_loopback_host, sandbox_url_allowed};
use uprava_core::auth::{
    approve_enrollment, expire_enrollment_state, open_enrollment,
    bearer_token, claim_enrollment_decision, claim_message, hash_secret, new_secret,
    request_correlation_id, stable_placement_id, stable_project_id, verify_node_credential,
    ClaimDecision, NodeCredentialRecord,
};
use uprava_core::git::{dirty_workspace_label, git_branch_label, git_status_badges, git_tracking_count};
use uprava_core::logging::{
    dropped_log_records, log_path_for_thread_error, log_settings, needs_rotation, otlp_enabled,
    otlp_export_failures, rotated_path, rotation_steps, size_after_write, LogCounters, LoggingError,
    RotationStep,
};
use uprava_core::managed_config::{ManagedNodeConfig, ManagedNodeEnv};
use uprava_core::node_config::{parse_env_duration_seconds, NodeConfig, NodeEnv};
use uprava_core::policy::AppError;
use uprava_core::projection::stream_resume_after_seq;
use uprava_core::server_config::{
    default_allowed_origins, parse_allowed_origins, parse_env_bool, parse_env_i64, parse_profile,
    AppConfig, AppEnv, ConfigError,
};
use uprava_core::states::{DeploymentProfile, EnrollmentState, NodePresence, WarningSeverity};
use uprava_core::text::{bounded_text, hex_prefix, sanitize_filename_segment, snippet, truncate_chars};
use uprava_core::urls::{control_scheme, control_url};
use uprava_core::versions::{
    codex_version_unavailable_reason, daemon_version, parse_env_bool_strict, parse_numeric_version,
    parse_required_workspaces, probe_managed_codex, split_whitespace,
};

fn empty_node_env() -> NodeEnv {
    NodeEnv {
        core_url: None,
        display_name: None,
        heartbeat_seconds: None,
        state_path: None,
        workspaces: None,
        codex_binary: None,
        codex_timeout_seconds: None,
    }
}

fn empty_app_env() -> AppEnv {
    AppEnv {
        bind_address: None,
        database_url: None,
        profile: None,
        allowed_origins: None,
        stale_after_seconds: None,
        offline_after_seconds: None,
        enrollment_ttl_seconds: None,
        runtime_expiry_seconds: None,
        auto_approve_enrollments: None,
        client_log_file: None,
    }
}

#[test]
fn node_config_from_env_uses_documented_defaults() {
    let config = NodeConfig::from_env(&empty_node_env(), "/home/u/.local/share/cortex-node/node.json")
        .unwrap_or_else(|e| panic!("default node config parses: {e}"));

    assert_eq!(config.core_url.as_str(), "http://127.0.0.1:8080/");
    assert_eq!(config.display_name, "Local Node");
    assert_eq!(config.heartbeat_interval_seconds, 5);
    assert!(config.workspace_paths.is_empty());
    assert_eq!(config.codex_binary, "codex");
    assert_eq!(config.codex_timeout_seconds, 120);
}

#[test]
fn node_config_parses_overrides_and_rejects_bad_values() {
    let mut env = empty_node_env();
    env.core_url = Some("http://127.0.0.1:19090".to_owned());
    env.heartbeat_seconds = Some("2".to_owned());
    env.workspaces = Some("/tmp/a, ,/tmp/b".to_owned());
    let config = NodeConfig::from_env(&env, "state.json").unwrap_or_else(|e| panic!("{e}"));
    assert_eq!(config.core_url, "http://127.0.0.1:19090/");
    assert_eq!(config.heartbeat_interval_seconds, 2);
    assert_eq!(config.workspace_paths, vec!["/tmp/a".to_owned(), "/tmp/b".to_owned()]);
    assert_eq!(config.state_path, "state.json");

    env.codex_timeout_seconds = Some("soon".to_owned());
    assert_eq!(
        NodeConfig::from_env(&env, "state.json").err().as_deref(),
        Some("CORTEX_CODEX_TIMEOUT_SECONDS must be an unsigned integer number of seconds")
    );
    env.core_url = Some("not a url".to_owned());
    assert_eq!(NodeConfig::from_env(&env, "state.json").err().as_deref(), Some("CORTEX_CORE_URL must be a valid URL"));
    assert_eq!(parse_env_duration_seconds("X", None, 7), Ok(7));
    assert_eq!(parse_env_duration_seconds("X", Some("+3"), 7), Ok(3));
}

#[test]
fn app_config_from_env_uses_documented_defaults() {
    let config = AppConfig::from_env(&empty_app_env()).unwrap_or_else(|e| panic!("{}", e.message()));

    assert_eq!(config.bind_address, "127.0.0.1:8080");
    assert_eq!(config.database_url, "sqlite://.local/state/core.sqlite");
    assert_eq!(config.profile, DeploymentProfile::LocalTrusted);
    assert_eq!(config.allowed_origins, vec!["http://127.0.0.1:5173".to_owned(), "http://localhost:5173".to_owned()]);
    assert_eq!(config.stale_after_seconds, 15);
    assert_eq!(config.offline_after_seconds, 45);
    assert_eq!(config.enrollment_ttl_seconds, 600);
    assert_eq!(config.runtime_expiry_seconds, 86_400);
    assert!(!config.auto_approve_enrollments);
    assert_eq!(config.client_log_file, ".local/logs/client.log");
}

#[test]
fn app_config_refuses_bad_settings() {
    let mut env = empty_app_env();
    env.profile = Some("controlled_dev".to_owned());
    env.allowed_origins = Some("http://a.test, http://b.test".to_owned());
    env.auto_approve_enrollments = Some("yes".to_owned());
    let config = AppConfig::from_env(&env).unwrap_or_else(|e| panic!("{}", e.message()));
    assert_eq!(config.profile, DeploymentProfile::ControlledDev);
    assert_eq!(config.allowed_origins, vec!["http://a.test".to_owned(), "http://b.test".to_owned()]);
    assert!(config.auto_approve_enrollments);

    env.profile = Some("prod".to_owned());
    let e = AppConfig::from_env(&env).err().expect("invalid profile");
    assert!(matches!(&e, ConfigError::InvalidProfile(p) if p == "prod"));
    assert_eq!(e.message(), "invalid deployment profile `prod`");

    env.profile = None;
    env.allowed_origins = Some("http://a.test,*".to_owned());
    assert!(matches!(AppConfig::from_env(&env), Err(ConfigError::WildcardOrigin)));
    env.allowed_origins = Some("http://a\u{7f}".to_owned());
    assert!(matches!(AppConfig::from_env(&env), Err(ConfigError::InvalidOrigin { .. })));
    env.allowed_origins = Some(" , ".to_owned());
    assert_eq!(AppConfig::from_env(&env).ok().map(|c| c.allowed_origins), Some(default_allowed_origins()));

    env.allowed_origins = None;
    env.stale_after_seconds = Some("x".to_owned());
    let e = AppConfig::from_env(&env).err().expect("invalid integer");
    assert_eq!(e.message(), "invalid integer environment variable `CORTEX_HEARTBEAT_STALE_SECONDS`");
    assert!(matches!(parse_profile(None), Ok(DeploymentProfile::LocalTrusted)));
    assert!(parse_allowed_origins(None).is_ok());
    assert!(matches!(parse_env_i64("N", Some("-5"), 1), Ok(-5)));
    assert!(!parse_env_bool(Some("TRUE"), true));
    assert!(parse_env_bool(None, true));
}

#[test]
fn stream_resume_after_seq_uses_last_event_id_header_when_query_is_absent() {
    assert_eq!(stream_resume_after_seq(None, Some("7")), 7);
}

#[test]
fn stream_resume_after_seq_prefers_query_cursor_over_last_event_id() {
    assert_eq!(stream_resume_after_seq(Some(3), Some("7")), 3);
}

#[test]
fn git_status_badges_parse_branch_dirty_and_tracking_state() {
    let status = "## main...origin/main [ahead 1, behind 2]\n M src/main.rs\n?? notes.md\n";

    let badges = git_status_badges(status);

    let kinds: Vec<&str> = badges.iter().map(|b| b.kind.as_str()).collect();
    assert_eq!(kinds, vec!["git_branch", "dirty_workspace", "branch_behind", "branch_ahead"]);
    assert_eq!(badges[0].label, "Git branch: main");
    assert_eq!(badges[1].severity, WarningSeverity::Warning);
    assert_eq!(badges[2].severity, WarningSeverity::Warning);
    assert_eq!(badges[3].severity, WarningSeverity::Info);
    assert_eq!(badges[1].label, "Git workspace has 2 changed path(s), including 1 untracked");
    assert_eq!(badges[2].label, "Branch is behind upstream by 2 commit(s)");
}

#[test]
fn git_status_badges_report_clean_branch_without_dirty_warning() {
    let status = "## feature/runtime-controls...origin/feature/runtime-controls\n";

    let badges = git_status_badges(status);

    let kinds: Vec<&str> = badges.iter().map(|b| b.kind.as_str()).collect();
    assert_eq!(kinds, vec!["git_branch"]);
    assert_eq!(badges[0].label, "Git branch: feature/runtime-controls");
}

#[test]
fn git_summary_helpers() {
    assert_eq!(git_branch_label("main [ahead 3]").as_deref(), Some("main"));
    assert_eq!(git_branch_label("   ").as_deref(), None);
    assert_eq!(git_tracking_count("main...o/main [ahead 3, behind 4]", "behind"), 4);
    assert_eq!(git_tracking_count("main...o/main [gone]", "ahead"), 0);
    assert_eq!(git_tracking_count("main", "ahead"), 0);
    assert_eq!(dirty_workspace_label(3, 0), "Git workspace has 3 changed path(s)");
    assert!(git_status_badges("").is_empty());
}

#[test]
fn numeric_versions_and_codex_support() {
    assert_eq!(parse_numeric_version("v0.144.1-beta"), Some((0, 144, 1)));
    assert_eq!(parse_numeric_version("1.2"), None);
    assert_eq!(parse_numeric_version("1.2.x"), None);
    assert_eq!(split_whitespace("  codex-cli  0.150.0 \n"), vec!["codex-cli".to_owned(), "0.150.0".to_owned()]);
    assert_eq!(codex_version_unavailable_reason("codex-cli 0.150.0"), None);
    assert_eq!(codex_version_unavailable_reason("codex-cli 0.144.0").as_deref(), Some("version_unsupported"));
    assert_eq!(codex_version_unavailable_reason("codex-cli dev").as_deref(), Some("version_unrecognized"));
    assert_eq!(
        probe_managed_codex(false, Ok("x".to_owned())),
        (None, Some("binary_not_found".to_owned()))
    );
    assert_eq!(
        probe_managed_codex(true, Err("version_probe_timeout".to_owned())),
        (None, Some("version_probe_timeout".to_owned()))
    );
    assert_eq!(probe_managed_codex(true, Ok("codex 1.0.0".to_owned())), (Some("codex 1.0.0".to_owned()), None));
    assert_eq!(daemon_version("0.1.0", Some("abc123")), "0.1.0+abc123");
    assert_eq!(daemon_version("0.1.0", Some("unknown")), "0.1.0");
    assert_eq!(daemon_version("0.1.0", None), "0.1.0");
    assert_eq!(parse_env_bool_strict("B", Some("TRUE"), false), Ok(true));
    assert_eq!(parse_env_bool_strict("B", Some("no"), false), Err("B must be true or false".to_owned()));
    assert_eq!(parse_required_workspaces(Some(" /a ,")), Ok(vec!["/a".to_owned()]));
    assert!(parse_required_workspaces(Some(" , ")).is_err());
}

#[test]
fn secrets_hash_to_sha256_hex() {
    assert_eq!(hash_secret("abc"), "ba7816bf8f01cfea414140de5dae2223b00361a396177a9cb410ff61f20015ad");
    assert_eq!(stable_placement_id("n", "/w").len(), "placement-".len() + 32);
    assert!(stable_project_id("n", "/w").starts_with("project-"));
    assert_ne!(stable_placement_id("n", "/w"), stable_placement_id("n", "/x"));
    assert!(new_secret("node").starts_with("node-"));
    assert_eq!(hex_prefix(&[0x0f, 0xa0, 0x11], 2), "0fa0");
}

#[test]
fn request_headers_are_read_safely() {
    assert_eq!(bearer_token(Some("Bearer tok")).as_deref(), Some("tok"));
    assert_eq!(bearer_token(Some("Bearer ")), None);
    assert_eq!(bearer_token(Some("Basic x")), None);
    assert_eq!(request_correlation_id(Some(" corr "), Some("req")), "corr");
    assert_eq!(request_correlation_id(Some(""), Some("req")), "req");
    assert!(!request_correlation_id(Some("  "), Some("req")).is_empty());
}

fn auth_code(r: Result<(), AppError>) -> String {
    match r {
        Err(AppError::Auth { code, .. }) => code,
        Err(_) => "other".to_owned(),
        Ok(()) => "ok".to_owned(),
    }
}

#[test]
fn node_credentials_are_checked_in_order() {
    let good = NodeCredentialRecord { presence: NodePresence::Reachable, credential_hash: Some(hash_secret("s3cret")) };
    assert_eq!(auth_code(verify_node_credential(Some("s3cret"), Some(&good))), "ok");
    assert_eq!(auth_code(verify_node_credential(Some("wrong"), Some(&good))), "auth_dev.credential_invalid");
    assert_eq!(auth_code(verify_node_credential(Some(""), Some(&good))), "auth_dev.credential_required");
    assert_eq!(auth_code(verify_node_credential(Some("s3cret"), None)), "auth_dev.node_unknown");
    let revoked = NodeCredentialRecord { presence: NodePresence::Revoked, credential_hash: None };
    assert_eq!(auth_code(verify_node_credential(Some("s3cret"), Some(&revoked))), "auth_dev.node_revoked");
    let missing = NodeCredentialRecord { presence: NodePresence::Offline, credential_hash: None };
    assert_eq!(auth_code(verify_node_credential(Some("s3cret"), Some(&missing))), "auth_dev.credential_missing");
}

#[test]
fn enrollment_claims_are_decided_in_order() {
    let hash = hash_secret("pair");
    let decide = |now: i64, status: EnrollmentState, code: &str, approved: bool, auto: bool| {
        claim_enrollment_decision(now, 100, status, &hash, code, approved, auto)
    };
    assert!(matches!(decide(100, EnrollmentState::PendingUserApproval, "pair", true, false), ClaimDecision::Expired));
    assert!(matches!(decide(1, EnrollmentState::PendingUserApproval, "nope", true, false), ClaimDecision::InvalidPairingCode));
    assert!(matches!(decide(1, EnrollmentState::Registered, "pair", false, false), ClaimDecision::AlreadyClaimed));
    assert!(matches!(decide(1, EnrollmentState::Rejected, "pair", true, true), ClaimDecision::Terminal(EnrollmentState::Rejected)));
    assert!(matches!(decide(1, EnrollmentState::PendingUserApproval, "pair", false, false), ClaimDecision::Pending));
    assert!(matches!(decide(1, EnrollmentState::PendingUserApproval, "pair", false, true), ClaimDecision::Accept));
    assert_eq!(claim_message(&ClaimDecision::Terminal(EnrollmentState::Revoked)), "Enrollment is revoked");
}

#[test]
fn control_channel_url_follows_core_scheme() {
    assert_eq!(control_url("http://127.0.0.1:8080").as_deref(), Ok("ws://127.0.0.1:8080/api/v1/node/control"));
    assert_eq!(control_url("https://core.test/base/").as_deref(), Ok("wss://core.test/api/v1/node/control"));
    assert_eq!(control_url("ftp://core.test").err().as_deref(), Some("unsupported Core URL scheme `ftp`"));
    assert_eq!(control_scheme("https"), Ok("wss"));
}

#[test]
fn log_counters_and_rotation() {
    let mut counters = LogCounters::new();
    counters.record_dropped();
    counters.record_dropped();
    counters.record_export_failure();
    assert_eq!(dropped_log_records(&counters), 2);
    assert_eq!(otlp_export_failures(&counters), 1);
    assert!(needs_rotation(90, 20, 100));
    assert!(!needs_rotation(90, 20, 0));
    assert!(!needs_rotation(80, 20, 100));
    assert_eq!(size_after_write(u64::MAX, 5), u64::MAX);
    assert_eq!(rotated_path("/var/log/node.log", 2), "/var/log/node.log.2");
    assert_eq!(log_path_for_thread_error(), "<log-writer-thread>");
    let plan = rotation_steps("app.log", 3);
    let described: Vec<String> = plan
        .iter()
        .map(|s| match s {
            RotationStep::RemoveIfExists(p) => format!("rm {p}"),
            RotationStep::RenameIfExists { from, to } => format!("mv {from} {to}"),
        })
        .collect();
    assert_eq!(described, vec!["rm app.log.2", "mv app.log.1 app.log.2", "mv app.log app.log.1"]);
    assert!(matches!(rotation_steps("app.log", 1).as_slice(), [RotationStep::RemoveIfExists(p)] if p == "app.log"));
    let settings = log_settings(Some("10"), Some("0"), Some("x"));
    assert_eq!((settings.max_bytes, settings.max_files, settings.capacity), (10, 1, 8192));
    assert!(otlp_enabled(Some("on"), false));
    assert!(otlp_enabled(None, true));
    assert!(!otlp_enabled(Some("off"), false));
    assert_eq!(LoggingError::OpenFile { path: "x".to_owned() }.message(), "failed to open log file `x`");
}

#[test]
fn text_helpers_cut_and_clean() {
    assert_eq!(bounded_text("abcdef", 3), "abc...");
    assert_eq!(bounded_text("abc", 3), "abc");
    assert_eq!(truncate_chars("héllo", 2), "hé...");
    assert_eq!(snippet("  a \n b\tc  ", 10), "a b c");
    assert_eq!(snippet("one two three", 5), "one t...");
    assert_eq!(sanitize_filename_segment("a/b c-d_e"), "a_b_c-d_e");
}

fn managed_env() -> ManagedNodeEnv {
    ManagedNodeEnv {
        core_url: None,
        display_name: None,
        heartbeat_seconds: None,
        state_path: None,
        workspaces: Some("/srv/a, /srv/b".to_owned()),
        codex_binary: None,
        codex_ignore_user_config: None,
        codex_timeout_seconds: None,
        opensandbox_url: None,
        task_runtime_image: None,
        toolhive_url: None,
        toolhive_timeout_seconds: None,
    }
}

#[test]
fn managed_node_config_uses_defaults_and_probe() {
    let env = managed_env();
    assert_eq!(env.codex_binary(), "codex");
    let config = ManagedNodeConfig::from_env(&env, "/state/node.json", true, Ok("codex-cli 0.150.0".to_owned()))
        .expect("defaults parse");
    assert_eq!(config.core_url, "http://127.0.0.1:8080/");
    assert_eq!(config.display_name, "Local Node");
    assert_eq!(config.heartbeat_interval_seconds, 5);
    assert_eq!(config.state_path, "/state/node.json");
    assert_eq!(config.workspace_paths, vec!["/srv/a".to_owned(), "/srv/b".to_owned()]);
    assert_eq!(config.codex_version.as_deref(), Some("codex-cli 0.150.0"));
    assert_eq!(config.codex_managed_unavailable_reason, None);
    assert!(config.codex_ignore_user_config);
    assert_eq!(config.codex_timeout_seconds, 86400);
    assert_eq!(config.opensandbox_url, None);
    assert_eq!(config.task_runtime_image, "uprava/codex-runtime:0.2.24");
    assert_eq!(config.toolhive_url, "http://127.0.0.1:18081/");
    assert_eq!(config.toolhive_timeout_seconds, 300);

    let old = ManagedNodeConfig::from_env(&env, "/s", true, Ok("codex-cli 0.100.0".to_owned())).expect("parses");
    assert_eq!(old.codex_managed_unavailable_reason.as_deref(), Some("version_unsupported"));
    let missing = ManagedNodeConfig::from_env(&env, "/s", false, Err("unused".to_owned())).expect("parses");
    assert_eq!(missing.codex_managed_unavailable_reason.as_deref(), Some("binary_not_found"));
}

#[test]
fn managed_node_config_refuses_settings_in_order() {
    let err = |env: &ManagedNodeEnv| ManagedNodeConfig::from_env(env, "/s", false, Err("x".to_owned())).err().expect("refused");
    let mut env = managed_env();
    env.workspaces = Some(" , ".to_owned());
    env.codex_ignore_user_config = Some("maybe".to_owned());
    assert_eq!(err(&env), "UPRAVA_NODE_WORKSPACES must list one or more allowed workspace roots");

    let mut env = managed_env();
    env.codex_ignore_user_config = Some("maybe".to_owned());
    assert_eq!(err(&env), "UPRAVA_CODEX_IGNORE_USER_CONFIG must be true or false");

    let mut env = managed_env();
    env.opensandbox_url = Some("http://10.0.0.5:8090".to_owned());
    env.task_runtime_image = Some("  ".to_owned());
    assert_eq!(
        err(&env),
        "UPRAVA_OPENSANDBOX_URL must be an unauthenticated loopback HTTP URL until API-key support is enabled"
    );

    let mut env = managed_env();
    env.opensandbox_url = Some("http://user:pw@127.0.0.1:8090".to_owned());
    assert_eq!(
        err(&env),
        "UPRAVA_OPENSANDBOX_URL must be an unauthenticated loopback HTTP URL until API-key support is enabled"
    );

    let mut env = managed_env();
    env.task_runtime_image = Some("  ".to_owned());
    assert_eq!(err(&env), "UPRAVA_TASK_RUNTIME_IMAGE must not be empty");

    let mut env = managed_env();
    env.toolhive_timeout_seconds = Some("-1".to_owned());
    assert_eq!(err(&env), "UPRAVA_TOOLHIVE_TIMEOUT_SECONDS must be an unsigned integer number of seconds");

    let mut env = managed_env();
    env.opensandbox_url = Some("http://localhost:8090".to_owned());
    let config = ManagedNodeConfig::from_env(&env, "/s", false, Err("x".to_owned())).expect("loopback sandbox");
    assert_eq!(config.opensandbox_url.as_deref(), Some("http://localhost:8090/"));
    env.opensandbox_url = Some("   ".to_owned());
    let config = ManagedNodeConfig::from_env(&env, "/s", false, Err("x".to_owned())).expect("blank sandbox");
    assert_eq!(config.opensandbox_url, None);
}

#[test]
fn enrollments_open_approve_and_expire() {
    assert!(open_enrollment("   ", 0, 600, false).is_err());
    let pending = open_enrollment("  Desk  ", 1_000, 600, false).expect("opens");
    assert_eq!(pending.display_name, "Desk");
    assert!(pending.pairing_code.starts_with("pair-"));
    assert_eq!(pending.pairing_code_hash, hash_secret(&pending.pairing_code));
    assert_eq!(pending.status, EnrollmentState::PendingUserApproval);
    assert_eq!(pending.expires_at, 601_000);
    assert_eq!(pending.approved_at, None);
    let auto = open_enrollment("Desk", 1_000, 600, true).expect("opens");
    assert_eq!(auto.status, EnrollmentState::Approved);
    assert_eq!(auto.approved_at, Some(1_000));

    let approved = approve_enrollment(true, EnrollmentState::PendingUserApproval, None, 601_000, 2_000);
    assert!(matches!(approved, Ok((EnrollmentState::Approved, 2_000))));
    assert!(approve_enrollment(true, EnrollmentState::PendingUserApproval, None, 601_000, 601_000).is_err());
    assert!(approve_enrollment(true, EnrollmentState::Approved, Some(1), 601_000, 2_000).is_err());
    assert!(approve_enrollment(false, EnrollmentState::PendingUserApproval, None, 601_000, 2_000).is_err());

    assert_eq!(expire_enrollment_state(EnrollmentState::Approved), EnrollmentState::Expired);
    assert_eq!(expire_enrollment_state(EnrollmentState::Registered), EnrollmentState::Registered);
}

#[test]
fn app_config_from_env_parses_overrides() {
    let mut env = empty_app_env();
    env.bind_address = Some("127.0.0.1:19080".to_owned());
    env.allowed_origins = Some("http://127.0.0.1:5173, http://localhost:4173".to_owned());
    env.database_url = Some("sqlite:///tmp/cortex-test.sqlite".to_owned());
    env.profile = Some("controlled_dev".to_owned());
    env.stale_after_seconds = Some("3".to_owned());
    env.offline_after_seconds = Some("9".to_owned());
    env.enrollment_ttl_seconds = Some("30".to_owned());
    env.runtime_expiry_seconds = Some("120".to_owned());
    env.auto_approve_enrollments = Some("yes".to_owned());
    env.client_log_file = Some("/tmp/cortex-client.jsonl".to_owned());

    let config = AppConfig::from_env(&env).unwrap_or_else(|e| panic!("overridden core config parses: {}", e.message()));

    assert_eq!(config.bind_address, "127.0.0.1:19080");
    assert_eq!(config.database_url, "sqlite:///tmp/cortex-test.sqlite");
    assert_eq!(config.profile, DeploymentProfile::ControlledDev);
    assert_eq!(config.allowed_origins, vec!["http://127.0.0.1:5173".to_owned(), "http://localhost:4173".to_owned()]);
    assert_eq!(config.stale_after_seconds, 3);
    assert_eq!(config.offline_after_seconds, 9);
    assert_eq!(config.enrollment_ttl_seconds, 30);
    assert_eq!(config.runtime_expiry_seconds, 120);
    assert!(config.auto_approve_enrollments);
    assert_eq!(config.client_log_file, "/tmp/cortex-client.jsonl");
}

#[test]
fn app_config_from_env_rejects_invalid_profile() {
    let mut env = empty_app_env();
    env.profile = Some("production".to_owned());

    let error = AppConfig::from_env(&env).err().expect("invalid profile should fail");

    assert!(matches!(error, ConfigError::InvalidProfile(profile) if profile == "production"));
}

#[test]
fn app_config_from_env_rejects_invalid_integer() {
    let mut env = empty_app_env();
    env.stale_after_seconds = Some("fast".to_owned());

    let error = AppConfig::from_env(&env).err().expect("invalid integer should fail");

    assert!(matches!(error, ConfigError::InvalidInteger { name, .. } if name == "CORTEX_HEARTBEAT_STALE_SECONDS"));
}

#[test]
fn app_config_from_env_rejects_wildcard_cors_origin() {
    let mut env = empty_app_env();
    env.allowed_origins = Some("*".to_owned());

    let error = AppConfig::from_env(&env).err().expect("wildcard origin should fail");

    assert!(matches!(error, ConfigError::WildcardOrigin));
}

#[test]
fn loopback_hosts_are_localhost_or_ipv4_in_127() {
    assert!(is_loopback_host("localhost"));
    assert!(is_loopback_host("LocalHost"));
    assert!(is_loopback_host("127.0.0.1"));
    assert!(is_loopback_host("127.255.3.9"));
    assert!(!is_loopback_host("10.0.0.5"));
    assert!(!is_loopback_host("128.0.0.1"));
    assert!(!is_loopback_host("127.0.0"));
    assert!(!is_loopback_host("127.0.0.256"));
    assert!(!is_loopback_host("127.0.0.01"));
    assert!(!is_loopback_host("[::1]"));
    assert!(!is_loopback_host("localhost.example"));
}

#[test]
fn sandbox_urls_must_be_plain_http_to_loopback() {
    assert!(sandbox_url_allowed("http://127.0.0.1:8090/"));
    assert!(sandbox_url_allowed("http://localhost:8090/"));
    assert!(!sandbox_url_allowed("http://[::1]:8090/"));
    assert!(!sandbox_url_allowed("https://127.0.0.1:8090/"));
    assert!(!sandbox_url_allowed("http://10.0.0.5:8090/"));
    assert!(!sandbox_url_allowed("http://user@127.0.0.1:8090/"));
    assert!(!sandbox_url_allowed("http://:pw@127.0.0.1:8090/"));
}
