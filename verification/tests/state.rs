use graph_builder::routes::{
    graph_data_path, graph_paths, prefixed_path, KEEP_ALIVE_SECS, LIVENESS_PATH, METRICS_PATH,
    READINESS_PATH,
};
use graph_builder::snapshot::{cycle_event, writes_for, Event, Snapshot, Writes};
use graph_builder::state::State;
use parking_lot::RwLock;
use prometheus::Registry;
use std::collections::HashSet;
use std::sync::Arc;

#[derive(Debug, PartialEq)]
struct Step(u8);

fn fresh_state() -> State<Step> {
    let registry: &'static Registry = Box::leak(Box::new(Registry::new()));
    let plugins: &'static [Step] = Box::leak(Box::new([Step(1), Step(2)]));
    let mut mandatory = HashSet::new();
    mandatory.insert("channel".to_string());
    State::new(
        Arc::new(RwLock::new(String::new())),
        mandatory,
        Arc::new(RwLock::new(false)),
        Arc::new(RwLock::new(false)),
        plugins,
        registry,
        Arc::new(RwLock::new(String::new())),
    )
}

fn published(graph: &str, secondary: Option<&str>) -> Event {
    Event::Published {
        graph: graph.to_string(),
        secondary_metadata: secondary.map(|s| s.to_string()),
    }
}

#[test]
fn a_state_holds_the_locks_it_was_given() {
    let graph = Arc::new(RwLock::new("g".to_string()));
    let meta = Arc::new(RwLock::new("m".to_string()));
    let live = Arc::new(RwLock::new(true));
    let ready = Arc::new(RwLock::new(false));
    let registry: &'static Registry = Box::leak(Box::new(Registry::new()));
    let plugins: &'static [Step] = Box::leak(Box::new([]));
    let state = State::new(
        graph.clone(),
        HashSet::new(),
        live.clone(),
        ready.clone(),
        plugins,
        registry,
        meta.clone(),
    );
    assert_eq!(state.read_graph(), "g");
    assert_eq!(state.read_secondary_metadata(), "m");
    assert!(state.is_live());
    assert!(!state.is_ready());
    *graph.write() = "g2".to_string();
    *ready.write() = true;
    assert_eq!(state.read_graph(), "g2");
    assert!(state.is_ready());
    state.publish_secondary_metadata("m2".to_string());
    state.set_live(false);
    assert_eq!(*meta.read(), "m2");
    assert!(!*live.read());
    assert!(state.plugins().is_empty());
}

#[test]
fn initial_state_is_empty_and_down() {
    let state = fresh_state();
    assert_eq!(state.read_graph(), "");
    assert_eq!(state.read_secondary_metadata(), "");
    assert!(!state.is_live());
    assert!(!state.is_ready());
    let snapshot = Snapshot::new();
    assert_eq!(snapshot.graph, "");
    assert_eq!(snapshot.secondary_metadata, "");
    assert!(!snapshot.live);
    assert!(!snapshot.ready);
}

#[test]
fn read_returns_the_last_published_graph() {
    let state = fresh_state();
    let mut seen = vec![state.read_graph()];
    state.publish_graph("one".to_string());
    seen.push(state.read_graph());
    seen.push(state.read_graph());
    state.publish_graph("two".to_string());
    seen.push(state.read_graph());
    assert_eq!(seen, vec!["", "one", "one", "two"]);
    // The other document has its own lock and value.
    assert_eq!(state.read_secondary_metadata(), "");
    state.publish_secondary_metadata("meta".to_string());
    assert_eq!(state.read_secondary_metadata(), "meta");
    assert_eq!(state.read_graph(), "two");
}

#[test]
fn snapshot_read_returns_the_last_published_graph() {
    let mut snapshot = Snapshot::new();
    assert_eq!(snapshot.read_graph(), "");
    snapshot.publish_graph("one".to_string());
    assert_eq!(snapshot.read_graph(), "one");
    snapshot.publish_secondary_metadata("meta".to_string());
    assert_eq!(snapshot.read_graph(), "one");
    assert_eq!(snapshot.read_secondary_metadata(), "meta");
    assert!(!snapshot.live && !snapshot.ready);
}

#[test]
fn live_rises_with_the_start_whatever_ready_is() {
    let state = fresh_state();
    assert!(!state.is_live());
    state.record(Event::Started);
    assert!(state.is_live());
    assert!(!state.is_ready());
    state.record(Event::Failed);
    assert!(state.is_live());
    assert!(!state.is_ready());
}

#[test]
fn ready_rises_with_the_first_published_cycle_and_stays() {
    let state = fresh_state();
    state.record(Event::Started);
    state.record(Event::Failed);
    assert!(!state.is_ready());
    state.record(published("g1", Some("m1")));
    assert!(state.is_ready());
    assert_eq!(state.read_graph(), "g1");
    assert_eq!(state.read_secondary_metadata(), "m1");
    state.record(Event::Failed);
    assert!(state.is_ready());
    assert_eq!(state.read_graph(), "g1");
    assert_eq!(state.read_secondary_metadata(), "m1");
    state.record(published("g2", None));
    assert_eq!(state.read_graph(), "g2");
    assert_eq!(state.read_secondary_metadata(), "m1");
}

#[test]
fn snapshot_follows_the_same_events() {
    let mut snapshot = Snapshot::new();
    snapshot.apply(Event::Failed);
    assert!(!snapshot.live && !snapshot.ready);
    snapshot.apply(Event::Started);
    assert!(snapshot.live && !snapshot.ready);
    snapshot.apply(published("g1", Some("m1")));
    snapshot.apply(Event::Failed);
    snapshot.apply(published("g2", None));
    assert_eq!(snapshot.graph, "g2");
    assert_eq!(snapshot.secondary_metadata, "m1");
    assert!(snapshot.live && snapshot.ready);
}

#[test]
fn writes_for_each_event() {
    let w = writes_for(Event::Started);
    assert_eq!((w.graph, w.secondary_metadata, w.live, w.ready), (None, None, Some(true), None));
    let w = writes_for(Event::Failed);
    assert_eq!((w.graph, w.secondary_metadata, w.live, w.ready), (None, None, None, None));
    let w = writes_for(published("g", Some("m")));
    assert_eq!(
        (w.graph, w.secondary_metadata, w.live, w.ready),
        (Some("g".to_string()), Some("m".to_string()), None, Some(true))
    );
}

#[test]
fn write_touches_only_the_fields_it_names() {
    let state = fresh_state();
    state.publish_graph("kept".to_string());
    state.set_live(true);
    state.write(Writes {
        graph: None,
        secondary_metadata: Some("m".to_string()),
        live: None,
        ready: Some(true),
    });
    let seen = state.observe();
    assert_eq!(seen.graph, "kept");
    assert_eq!(seen.secondary_metadata, "m");
    assert!(seen.live);
    assert!(seen.ready);
    state.set_live(false);
    state.set_ready(false);
    assert!(!state.is_live() && !state.is_ready());
}

#[test]
fn a_clone_is_a_handle_on_the_same_fields() {
    let state = fresh_state();
    let other = state.clone();
    state.publish_graph("shared".to_string());
    state.set_ready(true);
    assert_eq!(other.read_graph(), "shared");
    assert!(other.is_ready());
    assert!(other.mandatory_params().contains("channel"));
    assert_eq!(other.mandatory_params().len(), 1);
    assert!(std::ptr::eq(state.registry(), other.registry()));
    assert_eq!(other.plugins(), &[Step(1), Step(2)]);
    assert!(std::ptr::eq(state.plugins(), other.plugins()));
    other.set_live(true);
    assert!(state.is_live());
}

#[test]
fn readers_around_a_publish_see_old_or_new() {
    let state = fresh_state();
    state.publish_graph("old".repeat(1000));
    let readers: Vec<State<Step>> = (0..8).map(|_| state.clone()).collect();
    let mut seen = Vec::new();
    for reader in &readers[..4] {
        seen.push(reader.read_graph());
    }
    state.publish_graph("new".repeat(1000));
    for reader in &readers[4..] {
        seen.push(reader.read_graph());
    }
    for (i, doc) in seen.iter().enumerate() {
        let expected = if i < 4 { "old".repeat(1000) } else { "new".repeat(1000) };
        assert_eq!(*doc, expected);
    }
    for reader in &readers {
        assert_eq!(reader.read_graph(), "new".repeat(1000));
    }
}

#[test]
fn paths_under_a_prefix() {
    assert_eq!(
        graph_paths("/api/upgrades_info"),
        ("/api/upgrades_info/v1/graph".to_string(), "/api/upgrades_info/graph".to_string())
    );
    assert_eq!(graph_paths(""), ("/v1/graph".to_string(), "/graph".to_string()));
    assert_eq!(graph_data_path("/api"), "/api/graph-data");
    assert_eq!(graph_data_path(""), "/graph-data");
    assert_eq!(prefixed_path("a", "b"), "ab");
    assert_eq!(KEEP_ALIVE_SECS, 10);
    assert_eq!((LIVENESS_PATH, READINESS_PATH, METRICS_PATH), ("/liveness", "/readiness", "/metrics"));
}

#[test]
fn a_cycle_ends_in_an_event() {
    let ok: Result<(String, Option<String>), String> = Ok(("g".to_string(), None));
    match cycle_event(ok) {
        Event::Published { graph, secondary_metadata } => {
            assert_eq!(graph, "g");
            assert_eq!(secondary_metadata, None);
        }
        other => panic!("expected a published cycle, got {:?}", other),
    }
    let failed: Result<(String, Option<String>), String> = Err("no upstream".to_string());
    assert!(matches!(cycle_event(failed), Event::Failed));

    // A failed cycle after a published one leaves the documents served.
    let state = fresh_state();
    state.record(cycle_event::<String>(Ok(("g".to_string(), Some("m".to_string())))));
    state.record(cycle_event(Err("no upstream")));
    assert_eq!(state.read_graph(), "g");
    assert_eq!(state.read_secondary_metadata(), "m");
    assert!(state.is_ready());
}
