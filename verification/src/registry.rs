//! What the library takes from the metrics registry: the gathered metric
//! families, their names, and their text exposition.

use prometheus::proto::MetricFamily;
use prometheus::Registry;
use vstd::prelude::*;
use vstd::string::*;

verus! {

#[verifier::external_type_specification]
#[verifier::external_body]
pub struct ExRegistry(prometheus::Registry);

#[verifier::external_type_specification]
#[verifier::external_body]
pub struct ExMetricFamily(prometheus::proto::MetricFamily);

#[verifier::external_type_specification]
#[verifier::external_body]
pub struct ExPrometheusError(prometheus::Error);

/// The name that a metric family carries.
pub uninterp spec fn family_name(family: MetricFamily) -> Seq<char>;

/// Whether a metric family has the type "untyped", which the text encoder
/// cannot write.
pub uninterp spec fn family_untyped(family: MetricFamily) -> bool;

/// `prometheus::Registry::gather`: the metric families that the registered
/// collectors report now. Claims nothing of them: they change as collectors
/// are registered and metrics are touched.
pub assume_specification[ prometheus::Registry::gather ](registry: &Registry) -> (families: Vec<
    MetricFamily,
>)
;

/// `MetricFamily::get_name`: the name field of the family.
pub assume_specification<'a>[ prometheus::proto::MetricFamily::get_name ](
    family: &'a MetricFamily,
) -> (name: &'a str)
    ensures
        name@ == family_name(*family),
;

/// `MetricFamily::get_field_type`, compared with `MetricType::UNTYPED`.
#[verifier::external_body]
pub(crate) fn is_untyped(family: &MetricFamily) -> (untyped: bool)
    ensures
        untyped == family_untyped(*family),
{
    matches!(family.get_field_type(), prometheus::proto::MetricType::UNTYPED)
}

/// The text exposition of the given families as the text encoder writes it,
/// or `None` where the encoder refuses them.
pub uninterp spec fn exposition(families: Seq<MetricFamily>) -> Option<Seq<char>>;

/// `TextEncoder::encode_to_string`: the text exposition of the families, or
/// the encoder's error. The encoder stops the thread on an untyped family,
/// so none may be handed in. The text and the refusal depend on the families
/// alone; the claim is that they are what [`exposition`] names, and no more.
#[verifier::external_body]
pub(crate) fn encode_text(families: &Vec<MetricFamily>) -> (text: Result<
    String,
    prometheus::Error,
>)
    requires
        forall|i: int| 0 <= i < families.len() ==> !family_untyped(#[trigger] families[i]),
    ensures
        match text {
            Ok(t) => exposition(families@) == Some(t@),
            Err(_) => exposition(families@) is None,
        },
{
    prometheus::TextEncoder::new().encode_to_string(families)
}

/// The names of the given families, in order.
pub open spec fn family_names(families: Seq<MetricFamily>) -> Seq<Seq<char>> {
    Seq::new(families.len(), |i: int| family_name(families[i]))
}

/// Why the metrics could not be rendered.
#[derive(Debug, PartialEq, Eq, Clone, Copy)]
pub enum RenderError {
    /// A family is untyped; the text format has no place for it.
    Untyped,
    /// The encoder refused the families.
    Encoder,
}

/// Collects the names of the given families, in order.
pub fn names_of(families: &Vec<MetricFamily>) -> (names: Vec<String>)
    ensures
        crate::metrics_gate::views(names@) == family_names(families@),
{
    let mut names: Vec<String> = Vec::new();
    let mut i: usize = 0;
    while i < families.len()
        invariant
            i <= families.len(),
            names.len() == i,
            forall|j: int| 0 <= j < i ==> names@[j]@ == family_name(families@[j]),
        decreases families.len() - i,
    {
        let name = String::from_str(families[i].get_name());
        names.push(name);
        i += 1;
    }
    assert(crate::metrics_gate::views(names@) =~= family_names(families@));
    names
}

/// Whether one of the given families is untyped.
pub fn any_untyped(families: &Vec<MetricFamily>) -> (found: bool)
    ensures
        found == some_untyped(families@),
{
    let mut i: usize = 0;
    while i < families.len()
        invariant
            i <= families.len(),
            forall|j: int| 0 <= j < i ==> !family_untyped(#[trigger] families[j]),
        decreases families.len() - i,
    {
        if is_untyped(&families[i]) {
            return true;
        }
        i += 1;
    }
    false
}

/// Whether one of the given families is untyped.
pub open spec fn some_untyped(families: Seq<MetricFamily>) -> bool {
    exists|i: int| 0 <= i < families.len() && family_untyped(#[trigger] families[i])
}

/// What [`render`] returns: `Untyped` where a family is untyped; else the
/// encoder's text as it stands, or `Encoder` where the encoder refuses.
pub open spec fn rendered(families: Seq<MetricFamily>) -> Result<Seq<char>, RenderError> {
    if some_untyped(families) {
        Err(RenderError::Untyped)
    } else {
        match exposition(families) {
            Some(text) => Ok(text),
            None => Err(RenderError::Encoder),
        }
    }
}

/// Renders the families as exposition text. Fails with `Untyped` exactly when
/// a family is untyped; otherwise it hands on the encoder's text unchanged,
/// or fails with `Encoder` where the encoder refuses the families.
pub fn render(families: &Vec<MetricFamily>) -> (r: Result<String, RenderError>)
    ensures
        match rendered(families@) {
            Ok(text) => r is Ok && r->Ok_0@ == text,
            Err(e) => r == Err::<String, RenderError>(e),
        },
{
    if any_untyped(families) {
        return Err(RenderError::Untyped);
    }
    match encode_text(families) {
        Ok(text) => Ok(text),
        Err(_) => Err(RenderError::Encoder),
    }
}

} // verus!
