//! The responses of the status listener and of the document endpoints, as
//! plain values: a status code and a body.

use crate::metrics_gate::{contains_name, views};
use crate::registry::{render, rendered, RenderError};
use prometheus::proto::MetricFamily;
use crate::state::State;
use vstd::prelude::*;
use vstd::string::*;

verus! {

/// An HTTP response in as far as this library decides it.
#[derive(Debug)]
pub struct Response {
    pub status: u16,
    pub body: String,
}

/// The code of a success without remark.
pub const OK: u16 = 200;

/// The code of a failure inside the service.
pub const INTERNAL_SERVER_ERROR: u16 = 500;

/// The code of a service that cannot serve yet.
pub const SERVICE_UNAVAILABLE: u16 = 503;

impl Response {
    /// Whether the status code is one of success: 200 to 299.
    pub open spec fn success(&self) -> bool {
        200 <= self.status < 300
    }

    /// Whether the status code is one of success.
    pub fn is_success(&self) -> (b: bool)
        ensures
            b == self.success(),
    {
        200 <= self.status && self.status < 300
    }
}

/// The answer to a liveness probe: success exactly when `live`.
pub fn liveness_response(live: bool) -> (r: Response)
    ensures
        r.status == if live { OK } else { INTERNAL_SERVER_ERROR },
        r.success() <==> live,
        r.body@ == Seq::<char>::empty(),
{
    Response { status: if live { OK } else { INTERNAL_SERVER_ERROR }, body: String::new() }
}

/// The answer to a readiness probe: success exactly when `ready`. Liveness
/// plays no part in it.
pub fn readiness_response(ready: bool) -> (r: Response)
    ensures
        r.status == if ready { OK } else { SERVICE_UNAVAILABLE },
        r.success() <==> ready,
        r.body@ == Seq::<char>::empty(),
{
    Response { status: if ready { OK } else { SERVICE_UNAVAILABLE }, body: String::new() }
}

/// The answer that carries a document: success, with the document as body.
pub fn document_response(document: String) -> (r: Response)
    ensures
        r.status == OK,
        r.body == document,
{
    Response { status: OK, body: document }
}

/// The answer to a request for the metrics: the rendered text with success,
/// or an empty failure where rendering failed.
pub fn metrics_response(rendered: Result<String, RenderError>) -> (r: Response)
    ensures
        match rendered {
            Ok(text) => r.status == OK && r.body == text,
            Err(_) => r.status == INTERNAL_SERVER_ERROR && r.body@ == Seq::<char>::empty(),
        },
{
    match rendered {
        Ok(text) => Response { status: OK, body: text },
        Err(_) => Response { status: INTERNAL_SERVER_ERROR, body: String::new() },
    }
}

/// Serves `GET /liveness`: reads the liveness flag and answers by it.
pub fn serve_liveness<P>(state: &State<P>) -> (r: Response)
    ensures
        r.status == OK || r.status == INTERNAL_SERVER_ERROR,
        r.body@ == Seq::<char>::empty(),
{
    liveness_response(state.is_live())
}

/// Serves `GET /readiness`: reads the readiness flag and answers by it.
pub fn serve_readiness<P>(state: &State<P>) -> (r: Response)
    ensures
        r.status == OK || r.status == SERVICE_UNAVAILABLE,
        r.body@ == Seq::<char>::empty(),
{
    readiness_response(state.is_ready())
}

/// The answer to a request for the metrics over the given families: their
/// exposition text with success, or an empty failure where a family is
/// untyped or the encoder refuses them.
pub fn families_response(families: &Vec<MetricFamily>) -> (r: Response)
    ensures
        match rendered(families@) {
            Ok(text) => r.status == OK && r.body@ == text,
            Err(_) => r.status == INTERNAL_SERVER_ERROR && r.body@ == Seq::<char>::empty(),
        },
{
    metrics_response(render(families))
}

/// Serves `GET /metrics`: gathers the registry and renders what it reports
/// now.
pub fn serve_metrics<P>(state: &State<P>) -> (r: Response)
    ensures
        r.status == OK || (r.status == INTERNAL_SERVER_ERROR && r.body@ == Seq::<char>::empty()),
{
    let families = state.registry().gather();
    families_response(&families)
}

/// The code of a request that the client must mend.
pub const BAD_REQUEST: u16 = 400;

/// Whether `at` is the place of the first of `wanted` that is not among
/// `present`.
pub open spec fn first_absent_at(wanted: Seq<Seq<char>>, present: Seq<Seq<char>>, at: int) -> bool {
    &&& 0 <= at < wanted.len()
    &&& !present.contains(wanted[at])
    &&& forall|j: int| 0 <= j < at ==> present.contains(#[trigger] wanted[j])
}

/// Whether every one of `wanted` is among `present`.
pub open spec fn all_present(wanted: Seq<Seq<char>>, present: Seq<Seq<char>>) -> bool {
    forall|j: int| 0 <= j < wanted.len() ==> present.contains(#[trigger] wanted[j])
}

/// The text that opens the body of the answer to a request that lacks a
/// mandatory parameter; the parameter's name follows it.
pub open spec fn missing_parameter_head() -> Seq<char> {
    "mandatory client parameter missing: "@
}

/// The place of the first mandatory parameter that the request did not
/// supply, or `None` where it supplied them all.
pub fn first_missing_parameter(mandatory: &Vec<String>, supplied: &Vec<String>) -> (r: Option<
    usize,
>)
    ensures
        match r {
            Some(at) => first_absent_at(views(mandatory@), views(supplied@), at as int),
            None => all_present(views(mandatory@), views(supplied@)),
        },
{
    let mut i: usize = 0;
    while i < mandatory.len()
        invariant
            i <= mandatory.len(),
            forall|j: int|
                0 <= j < i ==> views(supplied@).contains(#[trigger] views(mandatory@)[j]),
        decreases mandatory.len() - i,
    {
        if !contains_name(supplied, &mandatory[i]) {
            assert(views(mandatory@)[i as int] == mandatory@[i as int]@);
            return Some(i);
        }
        assert(views(mandatory@)[i as int] == mandatory@[i as int]@);
        i += 1;
    }
    None
}

/// The answer to a request for the graph: the graph with success where the
/// request supplied every mandatory parameter; otherwise a client error
/// whose body names the first one that it lacks.
pub fn graph_response(mandatory: &Vec<String>, supplied: &Vec<String>, graph: String) -> (r:
    Response)
    ensures
        all_present(views(mandatory@), views(supplied@)) ==> r.status == OK && r.body == graph,
        forall|at: int| #[trigger]
            first_absent_at(views(mandatory@), views(supplied@), at) ==> r.status == BAD_REQUEST
                && r.body@ == missing_parameter_head() + mandatory@[at]@,
{
    match first_missing_parameter(mandatory, supplied) {
        None => document_response(graph),
        Some(at) => {
            let mut body = String::from_str("mandatory client parameter missing: ");
            body.append(mandatory[at].as_str());
            proof {
                let w = views(mandatory@);
                let p = views(supplied@);
                assert(w[at as int] == mandatory@[at as int]@);
                assert(!all_present(w, p));
                assert forall|other: int| #[trigger] first_absent_at(w, p, other) implies other
                    == at by {
                    if other < at {
                        assert(p.contains(w[other]));
                    }
                    if at < other {
                        assert(p.contains(w[at as int]));
                    }
                }
            }
            Response { status: BAD_REQUEST, body }
        },
    }
}

/// Serves the processed graph: the graph as it stands, with success.
pub fn serve_graph<P>(state: &State<P>) -> (r: Response)
    ensures
        r.status == OK,
{
    document_response(state.read_graph())
}

/// Serves the secondary metadata as it stands, with success.
pub fn serve_graph_data<P>(state: &State<P>) -> (r: Response)
    ensures
        r.status == OK,
{
    document_response(state.read_secondary_metadata())
}

} // verus!
