use hook_printer::charm::{dispatch_decision, Handler};
use hook_printer::environment::EntireEnvContext;
use hook_printer::jujuenv::{parse_hook_context, HookContext};

fn env_for(hook: &str, extra: &[(&str, &str)]) -> EntireEnvContext {
    let mut pairs = vec![
        ("JUJU_MODEL_NAME", "foo"),
        ("JUJU_MODEL_UUID", "u1"),
        ("JUJU_UNIT_NAME", "app/0"),
        ("JUJU_VERSION", "2.9"),
        ("JUJU_HOOK_NAME", hook),
    ];
    pairs.extend_from_slice(extra);
    let vars: Vec<(String, String)> = pairs
        .iter()
        .map(|(k, v)| (k.to_string(), v.to_string()))
        .collect();
    EntireEnvContext::new(vars)
}

#[test]
fn dispatch_install_selects_install_handler() {
    let ctx = parse_hook_context(env_for("install", &[]));
    assert_eq!(dispatch_decision(&ctx), Some(Handler::OnInstall));
}

#[test]
fn dispatch_replica_relation_selects_replica_handler() {
    let ctx = parse_hook_context(env_for(
        "relicas-relation-created",
        &[
            ("JUJU_RELATION", "relicas"),
            ("JUJU_RELATION_ID", "relicas:2"),
            ("JUJU_REMOTE_APP", "pg"),
        ],
    ));
    assert!(matches!(ctx, HookContext::RelationCreated(_, _)));
    assert_eq!(dispatch_decision(&ctx), Some(Handler::OnReplicaCreated));
}

#[test]
fn dispatch_other_relation_is_noop() {
    let ctx = parse_hook_context(env_for(
        "db-relation-created",
        &[
            ("JUJU_RELATION", "db"),
            ("JUJU_RELATION_ID", "db:7"),
            ("JUJU_REMOTE_APP", "pg"),
        ],
    ));
    assert!(matches!(ctx, HookContext::RelationCreated(_, _)));
    assert_eq!(dispatch_decision(&ctx), None);
}

#[test]
fn dispatch_unhandled_tag_is_noop() {
    let ctx = parse_hook_context(env_for("stop", &[]));
    assert_eq!(dispatch_decision(&ctx), None);
}

#[test]
fn dispatch_unrecognized_is_noop() {
    let ctx = parse_hook_context(EntireEnvContext::new(Vec::new()));
    assert!(matches!(ctx, HookContext::InvalidContext(_, _)));
    assert_eq!(dispatch_decision(&ctx), None);
}

#[test]
fn dispatch_twice_gives_same_decision() {
    let ctx = parse_hook_context(env_for("install", &[]));
    let first = dispatch_decision(&ctx);
    let second = dispatch_decision(&ctx);
    assert_eq!(first, Some(Handler::OnInstall));
    assert_eq!(first, second);
}
