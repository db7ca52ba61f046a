//! The shared state: a handle that the refresher and every request handler
//! hold at once. Each field has a lock of its own; no two fields change
//! together, so a reader may see `ready` up while the graph is still empty.
//!
//! A flag holds what was last set and nothing else: if the refresh loop
//! stops, nothing here lowers `live` or `ready`.

use crate::lock::{read_lock, share, write_lock};
use crate::snapshot::{writes_for, Event, Snapshot, Writes};
use parking_lot::RwLock;
use prometheus::Registry;
use std::collections::HashSet;
use std::sync::Arc;
use vstd::prelude::*;

verus! {

/// The shared state of the service, for a plugin chain whose plugins are of
/// type `P`. A clone is another handle on the same fields.
pub struct State<P: 'static> {
    json_graph: Arc<RwLock<String>>,
    mandatory_params: Arc<HashSet<String>>,
    live: Arc<RwLock<bool>>,
    ready: Arc<RwLock<bool>>,
    plugins: &'static [P],
    registry: &'static Registry,
    secondary_metadata: Arc<RwLock<String>>,
}

impl<P> Clone for State<P> {
    /// Another handle on the same locks, parameters, plugins and registry.
    fn clone(&self) -> (other: Self)
        ensures
            other == *self,
    {
        State {
            json_graph: share(&self.json_graph),
            mandatory_params: share(&self.mandatory_params),
            live: share(&self.live),
            ready: share(&self.ready),
            plugins: self.plugins,
            registry: self.registry,
            secondary_metadata: share(&self.secondary_metadata),
        }
    }
}

impl<P> State<P> {
    /// The lock that guards the graph.
    pub closed spec fn graph_lock(&self) -> Arc<RwLock<String>> {
        self.json_graph
    }

    /// The lock that guards the secondary metadata.
    pub closed spec fn secondary_metadata_lock(&self) -> Arc<RwLock<String>> {
        self.secondary_metadata
    }

    /// The lock that guards the liveness flag.
    pub closed spec fn live_lock(&self) -> Arc<RwLock<bool>> {
        self.live
    }

    /// The lock that guards the readiness flag.
    pub closed spec fn ready_lock(&self) -> Arc<RwLock<bool>> {
        self.ready
    }

    /// The parameter names that this state was made with.
    pub closed spec fn mandatory(&self) -> HashSet<String> {
        *self.mandatory_params
    }

    /// The plugin chain that this state was made with.
    pub closed spec fn plugin_chain(&self) -> &'static [P] {
        self.plugins
    }

    /// The registry that this state was made with.
    pub closed spec fn metrics(&self) -> &'static Registry {
        self.registry
    }

    /// A state over the given fields: it holds the four locks, the plugin
    /// chain and the registry that it was given, and the given parameters.
    pub fn new(
        json_graph: Arc<RwLock<String>>,
        mandatory_params: HashSet<String>,
        live: Arc<RwLock<bool>>,
        ready: Arc<RwLock<bool>>,
        plugins: &'static [P],
        registry: &'static Registry,
        secondary_metadata: Arc<RwLock<String>>,
    ) -> (state: State<P>)
        ensures
            state.graph_lock() == json_graph,
            state.mandatory() == mandatory_params,
            state.live_lock() == live,
            state.ready_lock() == ready,
            state.plugin_chain() == plugins,
            state.metrics() == registry,
            state.secondary_metadata_lock() == secondary_metadata,
    {
        State {
            json_graph,
            mandatory_params: Arc::new(mandatory_params),
            live,
            ready,
            plugins,
            registry,
            secondary_metadata,
        }
    }

    /// The graph that was published last, whole.
    pub fn read_graph(&self) -> (doc: String) {
        read_lock(&self.json_graph)
    }

    /// Replaces the graph.
    pub fn publish_graph(&self, doc: String) {
        write_lock(&self.json_graph, doc)
    }

    /// The secondary metadata that was published last, whole.
    pub fn read_secondary_metadata(&self) -> (doc: String) {
        read_lock(&self.secondary_metadata)
    }

    /// Replaces the secondary metadata.
    pub fn publish_secondary_metadata(&self, doc: String) {
        write_lock(&self.secondary_metadata, doc)
    }

    /// The liveness flag as it was set last.
    pub fn is_live(&self) -> (live: bool) {
        read_lock(&self.live)
    }

    /// Sets the liveness flag.
    pub fn set_live(&self, live: bool) {
        write_lock(&self.live, live)
    }

    /// The readiness flag as it was set last.
    pub fn is_ready(&self) -> (ready: bool) {
        read_lock(&self.ready)
    }

    /// Sets the readiness flag.
    pub fn set_ready(&self, ready: bool) {
        write_lock(&self.ready, ready)
    }

    /// The parameter names that every client request must carry.
    pub fn mandatory_params(&self) -> (params: &HashSet<String>)
        ensures
            *params == self.mandatory(),
    {
        &*self.mandatory_params
    }

    /// The plugin chain.
    pub fn plugins(&self) -> (plugins: &'static [P])
        ensures
            plugins == self.plugin_chain(),
    {
        self.plugins
    }

    /// The metrics registry.
    pub fn registry(&self) -> (registry: &'static Registry)
        ensures
            registry == self.metrics(),
    {
        self.registry
    }

    /// Makes the given writes, each under its field's own lock: first the
    /// documents, then the flags. A field without a write is not locked.
    pub fn write(&self, writes: Writes) {
        if let Some(g) = writes.graph {
            self.publish_graph(g);
        }
        if let Some(s) = writes.secondary_metadata {
            self.publish_secondary_metadata(s);
        }
        if let Some(b) = writes.live {
            self.set_live(b);
        }
        if let Some(b) = writes.ready {
            self.set_ready(b);
        }
    }

    /// Records one event of the refresher: makes the writes that the event
    /// asks for. A failed cycle writes nothing, so what was published stays
    /// served.
    pub fn record(&self, event: Event) {
        self.write(writes_for(event))
    }

    /// Reads the four fields one after another. Other holders may write in
    /// between, so the fields need not belong to one moment.
    pub fn observe(&self) -> (snapshot: Snapshot) {
        let graph = self.read_graph();
        let secondary_metadata = self.read_secondary_metadata();
        let live = self.is_live();
        let ready = self.is_ready();
        Snapshot { graph, secondary_metadata, live, ready }
    }
}

} // verus!
