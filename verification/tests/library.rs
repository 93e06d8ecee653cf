//! Tests of the library's parts: the request mapping, the decision rule, the cache,
//! the option parsing and the engine's laws on concrete values.

use monty_policy::cache::DecisionCache;
use monty_policy::cedar::{AuthzDecision, CedarOutcome};
use monty_policy::engine::is_denied;
use monty_policy::entities::{
    env_var_entity, external_function_entity, path_entity, resource_entity, script_entity,
    script_uid,
};
use monty_policy::options::parse_default_decision;
use monty_policy::request::{
    action_uid, build_entities, build_external_call_request, build_os_call_request,
    open_mode_is_write, os_call_to_authz_request, Action, Resource, ResourceKind, ACTION_COUNT,
};
use monty_policy::schema::SCHEMA_SRC;
use monty_policy::{
    DefaultDecision, ExcType, FileMode, GetenvArgs, MkdirCallArgs, MontyException, MontyPath,
    OpenCallArgs, OsFunctionCall, PathBytesDataArgs, PathStringDataArgs, PolicyConfig,
    PolicyDenied, PolicyEngine, PolicyParseError, RenameCallArgs,
};

fn path(p: &str) -> MontyPath {
    MontyPath::new(p.to_owned())
}

fn engine_with(policy_text: &str, default_decision: DefaultDecision) -> PolicyEngine {
    PolicyEngine::new(
        policy_text,
        PolicyConfig { principal: "anonymous".to_owned(), default_decision },
    )
    .unwrap()
}

fn all_gated_calls() -> Vec<OsFunctionCall> {
    vec![
        OsFunctionCall::ReadText(path("/a")),
        OsFunctionCall::ReadBytes(path("/a")),
        OsFunctionCall::Stat(path("/a")),
        OsFunctionCall::Resolve(path("/a")),
        OsFunctionCall::Absolute(path("/a")),
        OsFunctionCall::Exists(path("/a")),
        OsFunctionCall::IsFile(path("/a")),
        OsFunctionCall::IsDir(path("/a")),
        OsFunctionCall::IsSymlink(path("/a")),
        OsFunctionCall::WriteText(PathStringDataArgs { path: path("/a"), data: "x".to_owned() }),
        OsFunctionCall::AppendText(PathStringDataArgs { path: path("/a"), data: "x".to_owned() }),
        OsFunctionCall::WriteBytes(PathBytesDataArgs { path: path("/a"), data: vec![1, 2] }),
        OsFunctionCall::AppendBytes(PathBytesDataArgs { path: path("/a"), data: vec![3] }),
        OsFunctionCall::Mkdir(MkdirCallArgs { path: path("/d"), parents: true, exist_ok: true }),
        OsFunctionCall::Unlink(path("/a")),
        OsFunctionCall::Rmdir(path("/d")),
        OsFunctionCall::Iterdir(path("/d")),
        OsFunctionCall::Rename(RenameCallArgs { src: path("/a"), dst: path("/b") }),
        OsFunctionCall::Open(OpenCallArgs { path: path("/a"), mode: FileMode::Read(true) }),
        OsFunctionCall::Getenv(GetenvArgs { key: "HOME".to_owned() }),
        OsFunctionCall::GetEnviron,
    ]
}

// ---------------------------------------------------------------------------
// Request mapping
// ---------------------------------------------------------------------------

fn mapped(call: &OsFunctionCall) -> Option<(&'static str, ResourceKind, String)> {
    os_call_to_authz_request(call).map(|r| (r.action.name(), r.resource.kind, r.resource.id))
}

#[test]
fn read_family_maps_to_fs_read_on_path() {
    for call in [
        OsFunctionCall::ReadText(path("/r")),
        OsFunctionCall::ReadBytes(path("/r")),
        OsFunctionCall::Stat(path("/r")),
        OsFunctionCall::Resolve(path("/r")),
        OsFunctionCall::Absolute(path("/r")),
    ] {
        assert_eq!(mapped(&call), Some(("fs:read", ResourceKind::Path, "/r".to_owned())));
    }
}

#[test]
fn exists_family_maps_to_fs_exists() {
    for call in [
        OsFunctionCall::Exists(path("/e")),
        OsFunctionCall::IsFile(path("/e")),
        OsFunctionCall::IsDir(path("/e")),
        OsFunctionCall::IsSymlink(path("/e")),
    ] {
        assert_eq!(mapped(&call), Some(("fs:exists", ResourceKind::Path, "/e".to_owned())));
    }
}

#[test]
fn write_family_maps_to_fs_write() {
    let text = PathStringDataArgs { path: path("/w"), data: "t".to_owned() };
    let bytes = PathBytesDataArgs { path: path("/w"), data: vec![0] };
    for call in [
        OsFunctionCall::WriteText(text.clone()),
        OsFunctionCall::AppendText(text),
        OsFunctionCall::WriteBytes(bytes.clone()),
        OsFunctionCall::AppendBytes(bytes),
    ] {
        assert_eq!(mapped(&call), Some(("fs:write", ResourceKind::Path, "/w".to_owned())));
    }
}

#[test]
fn other_fs_calls_map_to_their_actions() {
    let mkdir = OsFunctionCall::Mkdir(MkdirCallArgs { path: path("/m"), parents: false, exist_ok: false });
    assert_eq!(mapped(&mkdir), Some(("fs:create", ResourceKind::Path, "/m".to_owned())));
    assert_eq!(
        mapped(&OsFunctionCall::Unlink(path("/u"))),
        Some(("fs:delete", ResourceKind::Path, "/u".to_owned()))
    );
    assert_eq!(
        mapped(&OsFunctionCall::Rmdir(path("/u"))),
        Some(("fs:delete", ResourceKind::Path, "/u".to_owned()))
    );
    assert_eq!(
        mapped(&OsFunctionCall::Iterdir(path("/l"))),
        Some(("fs:list", ResourceKind::Path, "/l".to_owned()))
    );
    let rename = OsFunctionCall::Rename(RenameCallArgs { src: path("/old"), dst: path("/new") });
    assert_eq!(mapped(&rename), Some(("fs:rename", ResourceKind::Path, "/old".to_owned())));
}

#[test]
fn open_action_follows_mode() {
    let cases = [
        (FileMode::Read(false), "fs:read"),
        (FileMode::Read(true), "fs:read"),
        (FileMode::ReadUpdate(false), "fs:write"),
        (FileMode::Write(false), "fs:write"),
        (FileMode::WriteUpdate(true), "fs:write"),
        (FileMode::Append(false), "fs:write"),
        (FileMode::AppendUpdate(false), "fs:write"),
    ];
    for (mode, action) in cases {
        let call = OsFunctionCall::Open(OpenCallArgs { path: path("/o"), mode });
        assert_eq!(mapped(&call), Some((action, ResourceKind::Path, "/o".to_owned())));
        assert_eq!(open_mode_is_write(mode), action == "fs:write");
    }
}

#[test]
fn env_calls_map_to_env_read() {
    let getenv = OsFunctionCall::Getenv(GetenvArgs { key: "PATH".to_owned() });
    assert_eq!(mapped(&getenv), Some(("env:read", ResourceKind::EnvVar, "PATH".to_owned())));
    assert_eq!(
        mapped(&OsFunctionCall::GetEnviron),
        Some(("env:read", ResourceKind::EnvVar, "__all__".to_owned()))
    );
}

#[test]
fn informational_calls_are_not_gated() {
    assert!(os_call_to_authz_request(&OsFunctionCall::DateToday).is_none());
    assert!(os_call_to_authz_request(&OsFunctionCall::DateTimeNow).is_none());
    assert!(os_call_to_authz_request(&OsFunctionCall::Used).is_none());
    for call in all_gated_calls() {
        assert!(os_call_to_authz_request(&call).is_some());
    }
}

#[test]
fn action_names_and_indices() {
    let actions = [
        (Action::FsRead, "fs:read"),
        (Action::FsWrite, "fs:write"),
        (Action::FsExists, "fs:exists"),
        (Action::FsList, "fs:list"),
        (Action::FsCreate, "fs:create"),
        (Action::FsDelete, "fs:delete"),
        (Action::FsRename, "fs:rename"),
        (Action::EnvRead, "env:read"),
        (Action::ExtCall, "ext:call"),
    ];
    for (i, (action, name)) in actions.iter().enumerate() {
        assert_eq!(action.name(), *name);
        assert_eq!(action.index(), i);
        assert!(action.index() < ACTION_COUNT);
        // Every action's uid parses.
        let _uid = action_uid(*action);
    }
}

#[test]
fn resource_kinds_name_their_types_and_attributes() {
    assert_eq!(ResourceKind::Path.basename(), "Path");
    assert_eq!(ResourceKind::Path.attr(), "path");
    assert_eq!(ResourceKind::EnvVar.basename(), "EnvVar");
    assert_eq!(ResourceKind::EnvVar.attr(), "name");
    assert_eq!(ResourceKind::ExternalFunction.basename(), "ExternalFunction");
    assert_eq!(ResourceKind::ExternalFunction.attr(), "name");
}

#[test]
fn entities_and_requests_build() {
    let principal = script_uid("my-script");
    let principal_entity = script_entity("my-script");
    for kind in [ResourceKind::Path, ResourceKind::EnvVar, ResourceKind::ExternalFunction] {
        let resource = resource_entity(&Resource { kind, id: "x y \"quoted\" \\".to_owned() });
        let _entities = build_entities(&principal_entity, &resource);
    }
    let _p = path_entity("/data/file.txt");
    let _v = env_var_entity("HOME");
    let _f = external_function_entity("fetch");
    let authz = os_call_to_authz_request(&OsFunctionCall::ReadText(path("/x"))).unwrap();
    let (_request, resource) = build_os_call_request(&principal, &authz);
    let _entities = build_entities(&principal_entity, &resource);
    let (_request, resource) = build_external_call_request(&principal, "fetch");
    let _entities = build_entities(&principal_entity, &resource);
}

#[test]
fn schema_text_declares_the_actions() {
    for action in ["fs:read", "fs:write", "fs:exists", "fs:list", "fs:create", "fs:delete", "fs:rename", "env:read", "ext:call"] {
        assert!(SCHEMA_SRC.contains(&format!("action \"{action}\"")));
    }
}

// ---------------------------------------------------------------------------
// Decision rule
// ---------------------------------------------------------------------------

#[test]
fn decision_rule_table() {
    let allow = CedarOutcome { decision: AuthzDecision::Allow, has_reasons: true };
    let forbid = CedarOutcome { decision: AuthzDecision::Deny, has_reasons: true };
    let nothing = CedarOutcome { decision: AuthzDecision::Deny, has_reasons: false };
    assert!(!is_denied(DefaultDecision::Deny, &allow));
    assert!(is_denied(DefaultDecision::Deny, &forbid));
    assert!(is_denied(DefaultDecision::Deny, &nothing));
    assert!(!is_denied(DefaultDecision::Allow, &allow));
    assert!(is_denied(DefaultDecision::Allow, &forbid));
    assert!(!is_denied(DefaultDecision::Allow, &nothing));
}

// ---------------------------------------------------------------------------
// Cache
// ---------------------------------------------------------------------------

#[test]
fn cache_records_per_action_and_resource() {
    let mut cache = DecisionCache::new();
    assert_eq!(cache.get(Action::FsRead, "/a"), None);
    cache.insert(Action::FsRead, "/a".to_owned(), true);
    cache.insert(Action::FsWrite, "/a".to_owned(), false);
    assert_eq!(cache.get(Action::FsRead, "/a"), Some(true));
    assert_eq!(cache.get(Action::FsWrite, "/a"), Some(false));
    assert_eq!(cache.get(Action::FsRead, "/b"), None);
    cache.insert(Action::FsRead, "/a".to_owned(), false);
    assert_eq!(cache.get(Action::FsRead, "/a"), Some(false));
}

// ---------------------------------------------------------------------------
// Options and configuration
// ---------------------------------------------------------------------------

#[test]
fn default_decision_names() {
    assert_eq!(parse_default_decision(None), Ok(DefaultDecision::Deny));
    assert_eq!(parse_default_decision(Some("deny")), Ok(DefaultDecision::Deny));
    assert_eq!(parse_default_decision(Some("allow")), Ok(DefaultDecision::Allow));
    assert_eq!(
        parse_default_decision(Some("maybe")),
        Err("invalid default decision 'maybe': must be 'deny' or 'allow'".to_owned())
    );
    assert!(parse_default_decision(Some("Deny")).is_err());
}

#[test]
fn config_from_options() {
    let c = PolicyConfig::from_options(None, None).unwrap();
    assert_eq!(c.principal, "anonymous");
    assert_eq!(c.default_decision, DefaultDecision::Deny);
    let c = PolicyConfig::from_options(Some("bot".to_owned()), Some("allow")).unwrap();
    assert_eq!(c.principal, "bot");
    assert_eq!(c.default_decision, DefaultDecision::Allow);
    assert_eq!(
        PolicyConfig::from_options(None, Some("")).unwrap_err(),
        "invalid default decision '': must be 'deny' or 'allow'"
    );
}

#[test]
fn config_default_is_anonymous_deny() {
    let c = PolicyConfig::default();
    assert_eq!(c.principal, "anonymous");
    assert_eq!(c.default_decision, DefaultDecision::Deny);
}

// ---------------------------------------------------------------------------
// Errors
// ---------------------------------------------------------------------------

#[test]
fn error_texts() {
    let denied = PolicyDenied { action: "env:read", resource: "SECRET".to_owned() };
    assert_eq!(denied.to_string(), "policy denied action 'env:read' on 'SECRET'");
    let exc = denied.into_exception();
    assert_eq!(exc.exc_type, ExcType::PermissionError);
    assert_eq!(exc.message.as_deref(), Some("policy denied action 'env:read' on 'SECRET'"));
    assert_eq!(exc.to_string(), "PermissionError: policy denied action 'env:read' on 'SECRET'");
    let bare = MontyException::new(ExcType::PermissionError, None);
    assert_eq!(bare.to_string(), "PermissionError");
    let parse = PolicyParseError { message: "oops".to_owned() };
    assert_eq!(parse.to_string(), "invalid Cedar policy: oops");
}

#[test]
fn syntax_error_is_a_parse_error() {
    let err = PolicyEngine::new("permit(", PolicyConfig::default()).err().unwrap();
    assert!(err.message.starts_with("policy parse error: "));
    assert!(err.message.len() > "policy parse error: ".len());
}

#[test]
fn unknown_action_is_a_validation_error() {
    let err = PolicyEngine::new(
        r#"permit(principal, action == Monty::Action::"fs:teleport", resource);"#,
        PolicyConfig::default(),
    )
    .err().unwrap();
    assert!(err.message.starts_with("policy validation error: "));
}

#[test]
fn unknown_entity_type_is_a_validation_error() {
    let err = PolicyEngine::new(
        r#"permit(principal == Other::User::"alice", action, resource);"#,
        PolicyConfig::default(),
    )
    .err().unwrap();
    assert!(err.message.starts_with("policy validation error: "));
}

// ---------------------------------------------------------------------------
// Engine laws on concrete values
// ---------------------------------------------------------------------------

#[test]
fn empty_policy_deny_default_refuses_every_gated_call() {
    let mut e = engine_with("", DefaultDecision::Deny);
    for call in all_gated_calls() {
        assert!(e.authorize_os_call(&call).is_err());
    }
    assert!(e.authorize_external_call("anything").is_err());
}

#[test]
fn empty_policy_allow_default_allows_every_call() {
    let mut e = engine_with("", DefaultDecision::Allow);
    for call in all_gated_calls() {
        assert!(e.authorize_os_call(&call).is_ok());
    }
    assert!(e.authorize_external_call("anything").is_ok());
}

#[test]
fn informational_calls_pass_any_policy() {
    let mut e = engine_with(r#"forbid(principal, action, resource);"#, DefaultDecision::Allow);
    assert!(e.authorize_os_call(&OsFunctionCall::DateToday).is_ok());
    assert!(e.authorize_os_call(&OsFunctionCall::DateTimeNow).is_ok());
    assert!(e.authorize_os_call(&OsFunctionCall::ReadText(path("/x"))).is_err());
}

#[test]
fn repeated_request_gets_the_same_answer() {
    let mut e = engine_with(
        r#"permit(principal, action == Monty::Action::"fs:read", resource) when { resource.path like "/ok/*" };"#,
        DefaultDecision::Deny,
    );
    let ok = OsFunctionCall::ReadText(path("/ok/1"));
    let bad = OsFunctionCall::ReadText(path("/no/1"));
    for _ in 0..3 {
        assert!(e.authorize_os_call(&ok).is_ok());
        assert!(e.authorize_os_call(&bad).is_err());
    }
    // The same path under another action is decided on its own.
    let stat_bytes = OsFunctionCall::WriteText(PathStringDataArgs { path: path("/ok/1"), data: String::new() });
    assert!(e.authorize_os_call(&stat_bytes).is_err());
}

#[test]
fn forbid_overrides_permit() {
    let mut e = engine_with(
        r#"
        permit(principal, action == Monty::Action::"fs:read", resource);
        forbid(principal, action == Monty::Action::"fs:read", resource) when { resource.path like "/secret/*" };
        "#,
        DefaultDecision::Deny,
    );
    assert!(e.authorize_os_call(&OsFunctionCall::ReadText(path("/public/a"))).is_ok());
    assert!(e.authorize_os_call(&OsFunctionCall::ReadText(path("/secret/a"))).is_err());
    let mut a = engine_with(
        r#"
        permit(principal, action == Monty::Action::"fs:read", resource);
        forbid(principal, action == Monty::Action::"fs:read", resource) when { resource.path like "/secret/*" };
        "#,
        DefaultDecision::Allow,
    );
    assert!(a.authorize_os_call(&OsFunctionCall::ReadText(path("/secret/a"))).is_err());
    assert!(a.authorize_os_call(&OsFunctionCall::Unlink(path("/secret/a"))).is_ok());
}

#[test]
fn principal_name_is_matched() {
    let text = r#"permit(principal == Monty::Script::"trusted", action, resource);"#;
    let mut trusted = PolicyEngine::new(
        text,
        PolicyConfig { principal: "trusted".to_owned(), default_decision: DefaultDecision::Deny },
    )
    .unwrap();
    let mut other = PolicyEngine::new(text, PolicyConfig::default()).unwrap();
    assert!(trusted.authorize_external_call("f").is_ok());
    assert!(other.authorize_external_call("f").is_err());
}

#[test]
fn external_denial_names_function() {
    let mut e = engine_with("", DefaultDecision::Deny);
    let err = e.authorize_external_call("run_shell").err().unwrap();
    assert_eq!(err.action, "ext:call");
    assert_eq!(err.resource, "run_shell");
    let err = e.authorize_os_call(&OsFunctionCall::GetEnviron).err().unwrap();
    assert_eq!(err.action, "env:read");
    assert_eq!(err.resource, "__all__");
}

#[test]
fn env_attribute_name_is_matched() {
    let mut e = engine_with(
        r#"permit(principal, action == Monty::Action::"env:read", resource) when { resource.name == "__all__" };"#,
        DefaultDecision::Deny,
    );
    assert!(e.authorize_os_call(&OsFunctionCall::GetEnviron).is_ok());
    assert!(e.authorize_os_call(&OsFunctionCall::Getenv(GetenvArgs { key: "HOME".to_owned() })).is_err());
}

#[test]
fn debug_text_shows_principal_and_default() {
    let e = engine_with("", DefaultDecision::Allow);
    assert_eq!(
        e.debug_text(),
        "PolicyEngine { principal_name: \"anonymous\", default_decision: Allow, .. }"
    );
}

// ---------------------------------------------------------------------------
// The documented examples
// ---------------------------------------------------------------------------

fn denial_text(r: Result<(), PolicyDenied>) -> String {
    r.err().unwrap().to_string()
}

#[test]
fn example_allow_reads_deny_writes() {
    let mut e = PolicyEngine::new(
        r#"
        permit(principal, action == Monty::Action::"fs:read", resource)
        when { resource.path like "/data/*" };

        permit(principal, action == Monty::Action::"fs:exists", resource);
        "#,
        PolicyConfig::default(),
    )
    .unwrap();
    assert!(e.authorize_os_call(&OsFunctionCall::ReadText(path("/data/config.json"))).is_ok());
    assert!(e.authorize_os_call(&OsFunctionCall::Exists(path("/anything"))).is_ok());
    let write = OsFunctionCall::WriteText(PathStringDataArgs { path: path("/data/hack.txt"), data: "pwned".to_owned() });
    assert_eq!(
        denial_text(e.authorize_os_call(&write)),
        "policy denied action 'fs:write' on '/data/hack.txt'"
    );
}

#[test]
fn example_external_function_allowlist() {
    let mut e = PolicyEngine::new(
        r#"
        permit(principal, action == Monty::Action::"ext:call", resource)
        when { resource.name == "fetch_weather" };

        permit(principal, action == Monty::Action::"ext:call", resource)
        when { resource.name == "get_time" };
        "#,
        PolicyConfig::default(),
    )
    .unwrap();
    assert!(e.authorize_external_call("fetch_weather").is_ok());
    assert!(e.authorize_external_call("get_time").is_ok());
    assert_eq!(
        denial_text(e.authorize_external_call("run_shell")),
        "policy denied action 'ext:call' on 'run_shell'"
    );
}

#[test]
fn example_environment_allowlist() {
    let mut e = PolicyEngine::new(
        r#"
        permit(principal, action == Monty::Action::"env:read", resource)
        when { resource.name == "HOME" || resource.name == "PATH" };

        permit(principal, action == Monty::Action::"fs:read", resource);
        permit(principal, action == Monty::Action::"fs:exists", resource);
        "#,
        PolicyConfig::default(),
    )
    .unwrap();
    assert!(e.authorize_os_call(&OsFunctionCall::Getenv(GetenvArgs { key: "HOME".to_owned() })).is_ok());
    assert!(e.authorize_os_call(&OsFunctionCall::Getenv(GetenvArgs { key: "PATH".to_owned() })).is_ok());
    let secret = OsFunctionCall::Getenv(GetenvArgs { key: "SECRET_API_KEY".to_owned() });
    assert_eq!(
        denial_text(e.authorize_os_call(&secret)),
        "policy denied action 'env:read' on 'SECRET_API_KEY'"
    );
}

#[test]
fn example_blocklist_mode() {
    let config = PolicyConfig::from_options(Some("anonymous".to_owned()), Some("allow")).unwrap();
    let mut e =
        PolicyEngine::new(r#"forbid(principal, action == Monty::Action::"fs:write", resource);"#, config).unwrap();
    assert!(e.authorize_os_call(&OsFunctionCall::ReadText(path("/data/file.txt"))).is_ok());
    let write = OsFunctionCall::WriteText(PathStringDataArgs { path: path("/data/file.txt"), data: "x".to_owned() });
    assert_eq!(
        denial_text(e.authorize_os_call(&write)),
        "policy denied action 'fs:write' on '/data/file.txt'"
    );
}

#[test]
fn example_javascript_policy() {
    let config = PolicyConfig::from_options(None, None).unwrap();
    let mut e = PolicyEngine::new(
        r#"
        permit(principal, action == Monty::Action::"fs:read", resource)
        when { resource.path like "/data/*" };
        permit(principal, action == Monty::Action::"fs:exists", resource);
        "#,
        config,
    )
    .unwrap();
    assert!(e.authorize_os_call(&OsFunctionCall::ReadText(path("/data/hello.txt"))).is_ok());
    assert!(e.authorize_os_call(&OsFunctionCall::ReadText(path("/etc/passwd"))).is_err());
}

#[test]
fn debug_text_escapes_the_principal_name() {
    let config = PolicyConfig { principal: "a\"b\\c\n".to_owned(), default_decision: DefaultDecision::Deny };
    let e = PolicyEngine::new("", config).unwrap();
    assert_eq!(
        e.debug_text(),
        "PolicyEngine { principal_name: \"a\\\"b\\\\c\\n\", default_decision: Deny, .. }"
    );
}

#[test]
fn attribute_findings_of_the_validator_do_not_refuse_policies() {
    let mut e = PolicyEngine::new(
        r#"forbid(principal, action, resource) when { resource.path like "/secret/*" };"#,
        PolicyConfig { principal: "anonymous".to_owned(), default_decision: DefaultDecision::Allow },
    )
    .unwrap();
    assert!(e.authorize_external_call("fetch").is_ok());
}

#[test]
fn parse_error_message_is_cedars_text() {
    let text = "permit(";
    let err = PolicyEngine::new(text, PolicyConfig::default()).err().unwrap();
    let cedar_err = <cedar_policy::PolicySet as std::str::FromStr>::from_str(text).err().unwrap();
    assert_eq!(err.message, format!("policy parse error: {cedar_err}"));
}

#[test]
fn validation_error_message_is_cedars_text_of_the_undefined_name() {
    let err = PolicyEngine::new(
        r#"permit(principal, action == Monty::Action::"fs:teleport", resource);"#,
        PolicyConfig::default(),
    )
    .err()
    .unwrap();
    assert!(err.message.starts_with("policy validation error: "));
    assert!(err.message.contains("fs:teleport"));
}
