use hook_printer::environment::EntireEnvContext;
use hook_printer::jujuenv::{parse_hook_context, HookContext};

fn env_of(pairs: &[(&str, &str)]) -> EntireEnvContext {
    let vars: Vec<(String, String)> = pairs
        .iter()
        .map(|(k, v)| (k.to_string(), v.to_string()))
        .collect();
    EntireEnvContext::new(vars)
}

fn env_with(extra: &[(&str, &str)]) -> EntireEnvContext {
    let mut pairs = vec![
        ("JUJU_MODEL_NAME", "foo"),
        ("JUJU_MODEL_UUID", "u1"),
        ("JUJU_UNIT_NAME", "app/0"),
        ("JUJU_VERSION", "2.9"),
    ];
    pairs.extend_from_slice(extra);
    env_of(&pairs)
}

#[test]
fn install_event_with_metadata() {
    let ctx = parse_hook_context(env_with(&[("JUJU_HOOK_NAME", "install")]));
    match ctx {
        HookContext::Install(_, g) => {
            assert_eq!(g.model, "foo");
            assert_eq!(g.model_uuid, "u1");
            assert_eq!(g.app_name, "app");
            assert_eq!(g.unit, 0);
            assert_eq!(g.juju_version, "2.9");
        }
        other => panic!("expected Install, got {:?}", other),
    }
}

#[test]
fn start_event() {
    let ctx = parse_hook_context(env_with(&[("JUJU_HOOK_NAME", "start")]));
    assert!(matches!(ctx, HookContext::Start(_, _)));
}

#[test]
fn leader_elected_event() {
    let ctx = parse_hook_context(env_with(&[("JUJU_HOOK_NAME", "leader-elected")]));
    assert!(matches!(ctx, HookContext::LeaderElected(_, _)));
}

#[test]
fn config_changed_event() {
    let ctx = parse_hook_context(env_with(&[("JUJU_HOOK_NAME", "config-changed")]));
    assert!(matches!(ctx, HookContext::ConfigChanged(_, _)));
}

#[test]
fn update_status_event() {
    let ctx = parse_hook_context(env_with(&[("JUJU_HOOK_NAME", "update-status")]));
    assert!(matches!(ctx, HookContext::UpdateStatus(_, _)));
}

#[test]
fn stop_event() {
    let ctx = parse_hook_context(env_with(&[("JUJU_HOOK_NAME", "stop")]));
    assert!(matches!(ctx, HookContext::Stop(_, _)));
}

#[test]
fn remove_event() {
    let ctx = parse_hook_context(env_with(&[("JUJU_HOOK_NAME", "remove")]));
    assert!(matches!(ctx, HookContext::Remove(_, _)));
}

#[test]
fn pebble_ready_event() {
    let ctx = parse_hook_context(env_with(&[
        ("JUJU_HOOK_NAME", "nginx-pebble-ready"),
        ("JUJU_WORKLOAD_NAME", "nginx"),
    ]));
    match ctx {
        HookContext::PebbleReady(c, g) => {
            assert_eq!(c.workload, "nginx");
            assert_eq!(g.app_name, "app");
        }
        other => panic!("expected PebbleReady, got {:?}", other),
    }
}

#[test]
fn pebble_ready_workload_mismatch() {
    let ctx = parse_hook_context(env_with(&[
        ("JUJU_HOOK_NAME", "apache-pebble-ready"),
        ("JUJU_WORKLOAD_NAME", "nginx"),
    ]));
    match ctx {
        HookContext::InvalidContext(msg, _) => {
            assert_eq!(msg, "context present but no known event matched");
        }
        other => panic!("expected InvalidContext, got {:?}", other),
    }
}

#[test]
fn relation_created_event() {
    let ctx = parse_hook_context(env_with(&[
        ("JUJU_HOOK_NAME", "db-relation-created"),
        ("JUJU_RELATION", "db"),
        ("JUJU_RELATION_ID", "db:7"),
        ("JUJU_REMOTE_APP", "pg"),
    ]));
    match ctx {
        HookContext::RelationCreated(c, _) => {
            assert_eq!(c.relation_name, "db");
            assert_eq!(c.relation_id, 7);
            assert_eq!(c.remote_app, "pg");
        }
        other => panic!("expected RelationCreated, got {:?}", other),
    }
}

#[test]
fn relation_broken_event() {
    let ctx = parse_hook_context(env_with(&[
        ("JUJU_HOOK_NAME", "db-relation-broken"),
        ("JUJU_RELATION", "db"),
        ("JUJU_RELATION_ID", "db:7"),
        ("JUJU_REMOTE_APP", "pg"),
    ]));
    match ctx {
        HookContext::RelationBroken(c, _) => {
            assert_eq!(c.relation_name, "db");
            assert_eq!(c.relation_id, 7);
            assert_eq!(c.remote_app, "pg");
        }
        other => panic!("expected RelationBroken, got {:?}", other),
    }
}

#[test]
fn relation_joined_event() {
    let ctx = parse_hook_context(env_with(&[
        ("JUJU_HOOK_NAME", "db-relation-joined"),
        ("JUJU_RELATION", "db"),
        ("JUJU_RELATION_ID", "db:7"),
        ("JUJU_REMOTE_APP", "pg"),
        ("JUJU_REMOTE_UNIT", "pg/0"),
    ]));
    match ctx {
        HookContext::RelationJoined(c, _) => {
            assert_eq!(c.relation_name, "db");
            assert_eq!(c.relation_id, 7);
            assert_eq!(c.remote_app, "pg");
            assert_eq!(c.remote_unit, "pg/0");
        }
        other => panic!("expected RelationJoined, got {:?}", other),
    }
}

#[test]
fn relation_departed_event() {
    let ctx = parse_hook_context(env_with(&[
        ("JUJU_HOOK_NAME", "db-relation-departed"),
        ("JUJU_RELATION", "db"),
        ("JUJU_RELATION_ID", "db:7"),
        ("JUJU_REMOTE_APP", "pg"),
        ("JUJU_REMOTE_UNIT", "pg/0"),
        ("JUJU_DEPARTING_UNIT", "pg/1"),
    ]));
    match ctx {
        HookContext::RelationDeparted(c, _) => {
            assert_eq!(c.relation_name, "db");
            assert_eq!(c.relation_id, 7);
            assert_eq!(c.remote_app, "pg");
            assert_eq!(c.remote_unit, "pg/0");
            assert_eq!(c.departing_unit, "pg/1");
        }
        other => panic!("expected RelationDeparted, got {:?}", other),
    }
}

#[test]
fn relation_changed_event() {
    let ctx = parse_hook_context(env_with(&[
        ("JUJU_HOOK_NAME", "db-relation-changed"),
        ("JUJU_RELATION", "db"),
        ("JUJU_RELATION_ID", "db:7"),
        ("JUJU_REMOTE_APP", "pg"),
        ("JUJU_REMOTE_UNIT", "pg/0"),
    ]));
    match ctx {
        HookContext::RelationChanged(c, _) => {
            assert_eq!(c.relation_name, "db");
            assert_eq!(c.relation_id, 7);
            assert_eq!(c.remote_unit, "pg/0");
        }
        other => panic!("expected RelationChanged, got {:?}", other),
    }
}

#[test]
fn missing_hook_variable() {
    let env = env_with(&[]);
    let ctx = parse_hook_context(env);
    match ctx {
        HookContext::InvalidContext(msg, snapshot) => {
            assert_eq!(msg, "context present but no known event matched");
            assert_eq!(snapshot.vars().len(), 4);
        }
        other => panic!("expected InvalidContext, got {:?}", other),
    }
}

#[test]
fn missing_model_name() {
    let ctx = parse_hook_context(env_of(&[
        ("JUJU_MODEL_UUID", "u1"),
        ("JUJU_UNIT_NAME", "app/0"),
        ("JUJU_VERSION", "2.9"),
        ("JUJU_HOOK_NAME", "install"),
    ]));
    match ctx {
        HookContext::InvalidContext(msg, _) => {
            assert_eq!(msg, "deployment context invalid");
        }
        other => panic!("expected InvalidContext, got {:?}", other),
    }
}

#[test]
fn missing_model_uuid() {
    let ctx = parse_hook_context(env_of(&[
        ("JUJU_MODEL_NAME", "foo"),
        ("JUJU_UNIT_NAME", "app/0"),
        ("JUJU_VERSION", "2.9"),
        ("JUJU_HOOK_NAME", "install"),
    ]));
    assert!(matches!(ctx, HookContext::InvalidContext(_, _)));
}

#[test]
fn missing_unit_name() {
    let ctx = parse_hook_context(env_of(&[
        ("JUJU_MODEL_NAME", "foo"),
        ("JUJU_MODEL_UUID", "u1"),
        ("JUJU_VERSION", "2.9"),
        ("JUJU_HOOK_NAME", "install"),
    ]));
    assert!(matches!(ctx, HookContext::InvalidContext(_, _)));
}

#[test]
fn missing_version() {
    let ctx = parse_hook_context(env_of(&[
        ("JUJU_MODEL_NAME", "foo"),
        ("JUJU_MODEL_UUID", "u1"),
        ("JUJU_UNIT_NAME", "app/0"),
        ("JUJU_HOOK_NAME", "install"),
    ]));
    assert!(matches!(ctx, HookContext::InvalidContext(_, _)));
}

#[test]
fn malformed_unit_name() {
    let ctx = parse_hook_context(env_of(&[
        ("JUJU_MODEL_NAME", "foo"),
        ("JUJU_MODEL_UUID", "u1"),
        ("JUJU_UNIT_NAME", "app-without-index"),
        ("JUJU_VERSION", "2.9"),
        ("JUJU_HOOK_NAME", "install"),
    ]));
    match ctx {
        HookContext::InvalidContext(msg, _) => {
            assert_eq!(msg, "deployment context invalid");
        }
        other => panic!("expected InvalidContext, got {:?}", other),
    }
}

#[test]
fn relation_id_parse_failure_falls_through() {
    let ctx = parse_hook_context(env_with(&[
        ("JUJU_HOOK_NAME", "db-relation-created"),
        ("JUJU_RELATION", "db"),
        ("JUJU_RELATION_ID", "db:abc"),
        ("JUJU_REMOTE_APP", "pg"),
    ]));
    match ctx {
        HookContext::InvalidContext(msg, _) => {
            assert_eq!(msg, "context present but no known event matched");
        }
        other => panic!("expected InvalidContext, got {:?}", other),
    }
}

#[test]
fn relation_joined_missing_remote_unit() {
    let ctx = parse_hook_context(env_with(&[
        ("JUJU_HOOK_NAME", "db-relation-joined"),
        ("JUJU_RELATION", "db"),
        ("JUJU_RELATION_ID", "db:7"),
        ("JUJU_REMOTE_APP", "pg"),
    ]));
    assert!(matches!(ctx, HookContext::InvalidContext(_, _)));
}

#[test]
fn lookup_distinguishes_absent_from_empty() {
    let env = env_of(&[("JUJU_HOOK_NAME", "")]);
    assert_eq!(env.lookup("JUJU_HOOK_NAME"), Some("".to_string()));
    assert_eq!(env.lookup("JUJU_WORKLOAD_NAME"), None);
}

#[test]
fn lookup_first_binding_wins() {
    let env = env_of(&[("JUJU_HOOK_NAME", "install"), ("JUJU_HOOK_NAME", "stop")]);
    assert_eq!(env.lookup("JUJU_HOOK_NAME"), Some("install".to_string()));
}
