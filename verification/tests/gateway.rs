use api_gateway::chain::{ChainRun, HandlerOutcome, run_chain};
use api_gateway::forward::{UpstreamResponse, UpstreamResult, build_url, failure_response};
use api_gateway::policy::{HandlerConfig, Policy};
use api_gateway::registry::{PluginError, PluginRegistry, symbol_name};
use api_gateway::response::Response;
use api_gateway::router::{
    after_inbound, complete, plugin_failure_response, policy_name_from_path, rejection_response,
    resolve,
};
use api_gateway::store::{ConfigError, PolicyStore};

fn policy(name: &str, target: &str, endpoint: &str) -> Policy {
    Policy {
        name: name.to_string(),
        in_handlers: vec![],
        out_handlers: vec![],
        target: target.to_string(),
        endpoint: endpoint.to_string(),
    }
}

fn handler(name: &str, params: Vec<(&str, &str)>) -> HandlerConfig {
    HandlerConfig {
        name: name.to_string(),
        params: params
            .into_iter()
            .map(|(k, v)| (k.to_string(), v.to_string()))
            .collect(),
    }
}

#[test]
fn lookup_finds_exactly_the_named_policy() {
    let store = PolicyStore::load(vec![
        policy("alpha", "http://a", "one"),
        policy("beta", "http://b", "two"),
        policy("gamma", "http://c", "three"),
    ])
    .unwrap();
    let p = store.lookup("beta").unwrap();
    assert_eq!(p.name, "beta");
    assert_eq!(p.target, "http://b");
    assert_eq!(p.endpoint, "two");
}

#[test]
fn lookup_of_absent_name_returns_none() {
    let store = PolicyStore::load(vec![policy("alpha", "http://a", "one")]).unwrap();
    assert!(store.lookup("beta").is_none());
    assert!(store.lookup("").is_none());
    assert!(store.lookup("alph").is_none());
}

#[test]
fn load_with_duplicate_name_fails() {
    let r = PolicyStore::load(vec![
        policy("alpha", "http://a", "one"),
        policy("dup", "http://b", "two"),
        policy("dup", "http://c", "three"),
    ]);
    match r {
        Err(ConfigError::DuplicateName(n)) => assert_eq!(n, "dup"),
        _ => panic!("expected a duplicate-name error"),
    }
}

#[test]
fn reload_failure_keeps_the_old_table() {
    let mut store = PolicyStore::load(vec![policy("alpha", "http://a", "one")]).unwrap();
    let r = store.reload(vec![
        policy("dup", "http://b", "two"),
        policy("dup", "http://c", "three"),
    ]);
    assert!(r.is_err());
    assert!(store.lookup("alpha").is_some());
    assert!(store.lookup("dup").is_none());
}

#[test]
fn reload_success_replaces_the_table() {
    let mut store = PolicyStore::load(vec![policy("alpha", "http://a", "one")]).unwrap();
    store.reload(vec![policy("beta", "http://b", "two")]).unwrap();
    assert!(store.lookup("alpha").is_none());
    assert_eq!(store.lookup("beta").unwrap().target, "http://b");
}

#[test]
fn chain_executes_in_declared_order() {
    let mut run = ChainRun::begin(3);
    assert_eq!(run.pending(), Some(0));
    run.record(&HandlerOutcome::Continue);
    assert_eq!(run.pending(), Some(1));
    run.record(&HandlerOutcome::Continue);
    assert_eq!(run.pending(), Some(2));
    run.record(&HandlerOutcome::Continue);
    assert_eq!(run.pending(), None);
    assert!(run.finished());
    assert!(run.rejection.is_none());
}

#[test]
fn reject_stops_the_chain_before_later_handlers() {
    let mut run = ChainRun::begin(3);
    run.record(&HandlerOutcome::Continue);
    run.record(&HandlerOutcome::Reject("denied".to_string()));
    assert_eq!(run.pending(), None);
    assert!(run.finished());
    assert_eq!(run.rejection.as_deref(), Some("denied"));
    assert_eq!(run.next, 1);
}

#[test]
fn run_chain_short_circuits_on_first_reject() {
    let outcomes = vec![
        HandlerOutcome::Continue,
        HandlerOutcome::Reject("no".to_string()),
        HandlerOutcome::Continue,
    ];
    let run = run_chain(&outcomes);
    assert_eq!(run.next, 1);
    assert_eq!(run.rejection.as_deref(), Some("no"));
    assert!(run.errors.is_empty());
}

#[test]
fn run_chain_records_errors_and_continues() {
    let outcomes = vec![
        HandlerOutcome::Error("first failure".to_string()),
        HandlerOutcome::Continue,
        HandlerOutcome::Error("second failure".to_string()),
    ];
    let run = run_chain(&outcomes);
    assert!(run.finished());
    assert!(run.rejection.is_none());
    assert_eq!(run.next, 3);
    assert_eq!(run.errors, vec!["first failure", "second failure"]);
}

#[test]
fn empty_chain_trivially_succeeds() {
    let run = run_chain(&vec![]);
    assert!(run.finished());
    assert!(run.rejection.is_none());
    assert_eq!(run.next, 0);
    assert!(run.errors.is_empty());
}

#[test]
fn plugin_is_loaded_at_most_once_per_name() {
    let mut registry = PluginRegistry::new();
    let mut load_count: usize = 0;
    // Three requests referencing two distinct handler names.
    for name in ["auth", "audit", "auth"] {
        if !registry.is_cached(name) {
            load_count += 1;
            registry.record_load(name);
        }
    }
    assert_eq!(load_count, 2);
    assert_eq!(registry.loaded.len(), 2);
    assert!(registry.is_cached("auth"));
    assert!(registry.is_cached("audit"));
    assert!(!registry.is_cached("other"));
}

#[test]
fn symbol_name_prefixes_the_handler_name() {
    assert_eq!(symbol_name("auth"), "execute_auth");
    assert_eq!(symbol_name(""), "execute_");
}

#[test]
fn build_url_joins_target_and_endpoint() {
    let p = policy("echo", "http://localhost:9000", "ping");
    assert_eq!(build_url(&p), "http://localhost:9000/ping");
}

#[test]
fn policy_name_is_the_first_path_segment() {
    assert_eq!(policy_name_from_path("/echo"), "echo");
    assert_eq!(policy_name_from_path("echo"), "echo");
    assert_eq!(policy_name_from_path("/a/b"), "a");
    assert_eq!(policy_name_from_path("/"), "");
    assert_eq!(policy_name_from_path(""), "");
}

#[test]
fn forwarding_success_passes_status_and_body_untouched() {
    let upstream = UpstreamResponse {
        status: 201,
        body: "created".to_string(),
    };
    let outbound = run_chain(&vec![HandlerOutcome::Continue]);
    let r = complete(&upstream, &outbound);
    assert_eq!(r.status, 201);
    assert_eq!(r.body, "created");
}

#[test]
fn outbound_rejection_still_yields_a_rejection_response() {
    let upstream = UpstreamResponse {
        status: 200,
        body: "pong".to_string(),
    };
    let outbound = run_chain(&vec![HandlerOutcome::Reject("late".to_string())]);
    let r = complete(&upstream, &outbound);
    assert_eq!(r.status, 403);
    assert_eq!(r.body, "Rejected: late");
}

#[test]
fn upstream_failures_map_to_distinguishing_errors() {
    let timeout = failure_response(&UpstreamResult::Timeout);
    assert_eq!(timeout.status, 504);
    assert_eq!(timeout.body, "Upstream request timed out");
    let unreachable = failure_response(&UpstreamResult::Unreachable);
    assert_eq!(unreachable.status, 502);
    assert_eq!(unreachable.body, "Upstream unreachable");
    let bad = failure_response(&UpstreamResult::BadResponse);
    assert_eq!(bad.status, 502);
    assert_eq!(bad.body, "Upstream returned a malformed response");
}

#[test]
fn plugin_failures_map_to_server_errors_naming_the_handler() {
    let load = plugin_failure_response(&PluginError::LoadFailure("auth".to_string()));
    assert_eq!(load.status, 500);
    assert_eq!(load.body, "Failed to load plugin for handler 'auth'");
    let symbol = plugin_failure_response(&PluginError::SymbolNotFound("audit".to_string()));
    assert_eq!(symbol.status, 500);
    assert_eq!(symbol.body, "Entry point not found for handler 'audit'");
}

#[test]
fn rejection_response_names_the_reason() {
    let r = rejection_response("token missing");
    assert_eq!(r.status, 403);
    assert_eq!(r.body, "Rejected: token missing");
}

#[test]
fn response_new_keeps_status_and_body() {
    let r = Response::new(404, "missing".to_string());
    assert_eq!(r.status, 404);
    assert_eq!(r.body, "missing");
}

#[test]
fn scenario_echo_mirrors_the_upstream() {
    let store =
        PolicyStore::load(vec![policy("echo", "http://localhost:9000", "ping")]).unwrap();
    let p = resolve(&store, "/echo").unwrap();
    let inbound = run_chain(&vec![]);
    let url = after_inbound(p, &inbound).unwrap();
    assert_eq!(url, "http://localhost:9000/ping");
    // The target responds 200 "pong".
    let upstream = UpstreamResponse {
        status: 200,
        body: "pong".to_string(),
    };
    let outbound = run_chain(&vec![]);
    let r = complete(&upstream, &outbound);
    assert_eq!(r.status, 200);
    assert_eq!(r.body, "pong");
}

#[test]
fn scenario_unknown_policy_gets_not_found() {
    let store = PolicyStore::load(vec![policy("echo", "http://localhost:9000", "ping")]).unwrap();
    let r = resolve(&store, "/foo");
    match r {
        Err(resp) => {
            assert_eq!(resp.status, 404);
            assert_eq!(resp.body, "Policy 'foo' not found");
        }
        Ok(_) => panic!("expected a not-found response"),
    }
}

#[test]
fn scenario_unreachable_upstream_gets_a_server_error() {
    let store = PolicyStore::load(vec![policy("down", "http://unreachable.invalid", "x")]).unwrap();
    let p = resolve(&store, "/down").unwrap();
    let inbound = run_chain(&vec![]);
    let url = after_inbound(p, &inbound).unwrap();
    assert_eq!(url, "http://unreachable.invalid/x");
    // The transport reports that the host could not be reached.
    let r = failure_response(&UpstreamResult::Unreachable);
    assert!((500..=599).contains(&r.status));
    assert_eq!(r.body, "Upstream unreachable");
}

#[test]
fn scenario_inbound_rejection_never_calls_upstream() {
    let mut guarded = policy("guarded", "http://localhost:9000", "ping");
    guarded.in_handlers = vec![handler("auth", vec![("token", "x")])];
    let store = PolicyStore::load(vec![guarded]).unwrap();
    let p = resolve(&store, "/guarded").unwrap();

    let mut upstream_calls: usize = 0;
    let mut inbound = ChainRun::begin(p.in_handlers.len());
    while let Some(i) = inbound.pending() {
        // The stub handler for "auth" signals a rejection.
        assert_eq!(p.in_handlers[i].name, "auth");
        inbound.record(&HandlerOutcome::Reject("auth".to_string()));
    }
    let r = match after_inbound(p, &inbound) {
        Ok(_url) => {
            upstream_calls += 1;
            panic!("the upstream must not be called after a rejection");
        }
        Err(resp) => resp,
    };
    assert_eq!(upstream_calls, 0);
    assert_eq!(r.status, 403);
    assert_eq!(r.body, "Rejected: auth");
}
