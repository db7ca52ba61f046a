//! The startup gate: the service does not start unless every required metric
//! is registered under the service's prefix.

use crate::registry::{family_names, names_of};
use prometheus::proto::MetricFamily;
use prometheus::Registry;
use vstd::prelude::*;
use vstd::string::*;

verus! {

/// The views of the strings of `names`, in order.
pub open spec fn views(names: Seq<String>) -> Seq<Seq<char>> {
    Seq::new(names.len(), |i: int| names[i]@)
}

/// The name under which the metric `name` is registered with `prefix`: the
/// prefix, an underscore, the name.
pub open spec fn prefixed(prefix: Seq<char>, name: Seq<char>) -> Seq<char> {
    prefix + seq!['_'] + name
}

/// Whether the metric `name` is among `registered` under `prefix`.
pub open spec fn is_registered(
    registered: Seq<Seq<char>>,
    prefix: Seq<char>,
    name: Seq<char>,
) -> bool {
    registered.contains(prefixed(prefix, name))
}

/// Whether `at` is the place of the first of `required` that is not
/// registered.
pub open spec fn first_missing_at(
    registered: Seq<Seq<char>>,
    prefix: Seq<char>,
    required: Seq<Seq<char>>,
    at: int,
) -> bool {
    &&& 0 <= at < required.len()
    &&& !is_registered(registered, prefix, required[at])
    &&& forall|j: int| 0 <= j < at ==> is_registered(registered, prefix, #[trigger] required[j])
}

/// Whether every one of `required` is registered.
pub open spec fn all_registered(
    registered: Seq<Seq<char>>,
    prefix: Seq<char>,
    required: Seq<Seq<char>>,
) -> bool {
    forall|j: int|
        0 <= j < required.len() ==> is_registered(registered, prefix, #[trigger] required[j])
}

/// A required metric that is not registered.
#[derive(Debug)]
pub struct MissingMetric {
    /// The required name, without the prefix.
    pub required_metric: String,
    /// Every name that the registry reported.
    pub registered: Vec<String>,
}

impl MissingMetric {
    /// The text that opens the message.
    pub open spec fn message_head() -> Seq<char> {
        "Required metric '"@
    }

    /// The text that follows the name in the message.
    pub open spec fn message_tail() -> Seq<char> {
        "' has not been registered"@
    }

    /// The message for the operator: it names the missing metric.
    pub fn message(&self) -> (text: String)
        ensures
            text@ == Self::message_head() + self.required_metric@ + Self::message_tail(),
    {
        let mut text = String::from_str("Required metric '");
        text.append(self.required_metric.as_str());
        text.append("' has not been registered");
        text
    }
}

/// The name of `name` under `prefix`.
pub fn prefixed_name(prefix: &str, name: &str) -> (full: String)
    ensures
        full@ == prefixed(prefix@, name@),
{
    proof {
        reveal_strlit("_");
    }
    let mut full = String::from_str(prefix);
    full.append("_");
    assert("_"@ =~= seq!['_']);
    full.append(name);
    full
}

/// Whether `name` is one of `names`.
pub fn contains_name(names: &Vec<String>, name: &String) -> (found: bool)
    ensures
        found == views(names@).contains(name@),
{
    let mut i: usize = 0;
    while i < names.len()
        invariant
            i <= names.len(),
            forall|j: int| 0 <= j < i ==> names@[j]@ != name@,
        decreases names.len() - i,
    {
        if names[i] == *name {
            assert(views(names@)[i as int] == name@);
            return true;
        }
        i += 1;
    }
    proof {
        if views(names@).contains(name@) {
            let j = choose|j: int| 0 <= j < views(names@).len() && views(names@)[j] == name@;
            assert(names@[j]@ == name@);
        }
    }
    false
}

/// Holds the registered names against the required ones. Succeeds exactly
/// when each required name is registered under the prefix; otherwise the
/// error carries the first required name that is not, and all the registered
/// names.
pub fn check_registered(
    registered: Vec<String>,
    metrics_prefix: &str,
    metrics_required: &Vec<String>,
) -> (r: Result<(), MissingMetric>)
    ensures
        r is Ok <==> all_registered(views(registered@), metrics_prefix@, views(metrics_required@)),
        r is Err ==> exists|at: int|
            first_missing_at(views(registered@), metrics_prefix@, views(metrics_required@), at)
                && r->Err_0.required_metric@ == #[trigger] metrics_required@[at]@,
        r is Err ==> r->Err_0.registered == registered,
{
    let ghost reg = views(registered@);
    let ghost req = views(metrics_required@);
    let mut i: usize = 0;
    while i < metrics_required.len()
        invariant
            i <= metrics_required.len(),
            reg == views(registered@),
            req == views(metrics_required@),
            forall|j: int| 0 <= j < i ==> is_registered(reg, metrics_prefix@, #[trigger] req[j]),
        decreases metrics_required.len() - i,
    {
        let full = prefixed_name(metrics_prefix, metrics_required[i].as_str());
        if !contains_name(&registered, &full) {
            let required_metric = metrics_required[i].clone();
            proof {
                assert(req[i as int] == metrics_required@[i as int]@);
                assert(first_missing_at(reg, metrics_prefix@, req, i as int));
                assert(!all_registered(reg, metrics_prefix@, req));
            }
            return Err(MissingMetric { required_metric, registered });
        }
        assert(req[i as int] == metrics_required@[i as int]@);
        i += 1;
    }
    Ok(())
}

/// Holds the names of the given families against the required ones, as
/// [`check_registered`] does.
pub fn ensure_registered_families(
    families: &Vec<MetricFamily>,
    metrics_prefix: &str,
    metrics_required: &Vec<String>,
) -> (r: Result<(), MissingMetric>)
    ensures
        r is Ok <==> all_registered(
            family_names(families@),
            metrics_prefix@,
            views(metrics_required@),
        ),
        r is Err ==> exists|at: int|
            first_missing_at(family_names(families@), metrics_prefix@, views(metrics_required@), at)
                && r->Err_0.required_metric@ == #[trigger] metrics_required@[at]@,
        r is Err ==> views(r->Err_0.registered@) == family_names(families@),
{
    check_registered(names_of(families), metrics_prefix, metrics_required)
}

/// Gathers the registry and holds what it reports now against the required
/// names. Which names the registry reports is its own matter; whatever they
/// are, an error carries them all, and names the first required metric that
/// is not among them under the prefix. With nothing required there is no
/// error.
pub fn ensure_registered_metrics(
    registry: &Registry,
    metrics_prefix: &str,
    metrics_required: &Vec<String>,
) -> (r: Result<(), MissingMetric>)
    ensures
        metrics_required@.len() == 0 ==> r is Ok,
        r is Err ==> exists|at: int|
            first_missing_at(
                views(r->Err_0.registered@),
                metrics_prefix@,
                views(metrics_required@),
                at,
            ) && r->Err_0.required_metric@ == #[trigger] metrics_required@[at]@,
{
    let families = registry.gather();
    let r = ensure_registered_families(&families, metrics_prefix, metrics_required);
    proof {
        if r is Err {
            let at = choose|at: int|
                first_missing_at(
                    family_names(families@),
                    metrics_prefix@,
                    views(metrics_required@),
                    at,
                ) && r->Err_0.required_metric@ == #[trigger] metrics_required@[at]@;
            assert(first_missing_at(
                views(r->Err_0.registered@),
                metrics_prefix@,
                views(metrics_required@),
                at,
            ) && r->Err_0.required_metric@ == metrics_required@[at]@);
        }
    }
    r
}

/// At most one place is that of the first missing name, so the error of
/// [`check_registered`] is fixed by its arguments.
pub proof fn law_first_missing_is_unique(
    registered: Seq<Seq<char>>,
    prefix: Seq<char>,
    required: Seq<Seq<char>>,
    a: int,
    b: int,
)
    requires
        first_missing_at(registered, prefix, required, a),
        first_missing_at(registered, prefix, required, b),
    ensures
        a == b,
{
    if a < b {
        assert(is_registered(registered, prefix, required[a]));
    }
    if b < a {
        assert(is_registered(registered, prefix, required[b]));
    }
}

/// Where exactly one of the required names is not registered, that name is
/// the one the error carries; where none is missing, there is no error.
pub proof fn law_the_missing_name_is_named(
    registered: Seq<Seq<char>>,
    prefix: Seq<char>,
    required: Seq<Seq<char>>,
    missing: int,
    at: int,
)
    requires
        0 <= missing < required.len(),
        !is_registered(registered, prefix, required[missing]),
        forall|j: int|
            0 <= j < required.len() && j != missing ==> is_registered(
                registered,
                prefix,
                #[trigger] required[j],
            ),
    ensures
        !all_registered(registered, prefix, required),
        first_missing_at(registered, prefix, required, missing),
        first_missing_at(registered, prefix, required, at) ==> at == missing,
{
    if first_missing_at(registered, prefix, required, at) && at != missing {
        assert(is_registered(registered, prefix, required[at]));
    }
}

} // verus!
