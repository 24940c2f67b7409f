//! What holds of the decoders on every input.

use crate::cache::{bincode_form, decode_error, FORMAT};
use crate::data::nipa_data_of;
use crate::datasets::datasets_of;
use crate::error::{fails_with, ErrorView, Origin};
use crate::json::Json;
use crate::parameter_values::{parameter_values_of, NipaShowMillionsView};
use crate::parameters::parameters_of;
use crate::plain::Plain;
use crate::request::{request_parameters_of, Method};
use crate::results::{
    api_error_of, api_error_of_entries, bea_response_of, beaapi_of, beaapi_of_entries, candidates,
    cached, classified, decoded_as, first_decoded, fixed_order, not_results, preferred,
    restored_of, shape_of, BeaResponse, BeaResponseView, Shape,
};
use crate::rows::{lemma_rows_failure_stays, rows_of, Row};
use crate::value::{millions_of, MillionsView};
use vstd::prelude::*;

verus! {

/// The place of a shape in the fixed order.
pub open spec fn rank(shape: Shape) -> int {
    match shape {
        Shape::Datasets => 0,
        Shape::Parameters => 1,
        Shape::ParameterValues => 2,
        Shape::Data => 3,
        Shape::ApiError => 4,
    }
}

/// Results that a value decodes as for a shape have that shape.
pub proof fn lemma_decoded_shape(shape: Shape, j: Json)
    requires
        decoded_as(shape, j) is Ok,
    ensures
        shape_of(decoded_as(shape, j)->Ok_0) == shape,
{
}

/// Where a candidate decodes and none before it does, the classifier's
/// choice among `shapes` is what that candidate gives.
pub proof fn lemma_first_decoded_earliest(j: Json, shapes: Seq<Shape>, i: int)
    requires
        0 <= i < shapes.len(),
        decoded_as(shapes[i], j) is Ok,
        forall|k: int| 0 <= k < i ==> decoded_as(#[trigger] shapes[k], j) is Err,
    ensures
        first_decoded(j, shapes) == Some(decoded_as(shapes[i], j)->Ok_0),
    decreases i,
{
    if i > 0 {
        assert(decoded_as(shapes[0], j) is Err);
        let rest = shapes.drop_first();
        assert forall|k: int| 0 <= k < i - 1 implies decoded_as(#[trigger] rest[k], j) is Err by {
            assert(rest[k] == shapes[k + 1]);
        }
        assert(rest[i - 1] == shapes[i]);
        lemma_first_decoded_earliest(j, rest, i - 1);
    }
}

/// Where no candidate decodes, the classifier finds nothing among `shapes`.
pub proof fn lemma_first_decoded_none(j: Json, shapes: Seq<Shape>)
    requires
        forall|k: int| 0 <= k < shapes.len() ==> decoded_as(#[trigger] shapes[k], j) is Err,
    ensures
        first_decoded(j, shapes) is None,
    decreases shapes.len(),
{
    if shapes.len() > 0 {
        assert(decoded_as(shapes[0], j) is Err);
        let rest = shapes.drop_first();
        assert forall|k: int| 0 <= k < rest.len() implies decoded_as(#[trigger] rest[k], j) is Err by {
            assert(rest[k] == shapes[k + 1]);
        }
        lemma_first_decoded_none(j, rest);
    }
}

/// What the classifier finds among `shapes` is what one of them gives, and
/// no shape before that one decodes.
pub proof fn lemma_first_decoded_witness(j: Json, shapes: Seq<Shape>) -> (i: int)
    requires
        first_decoded(j, shapes) is Some,
    ensures
        0 <= i < shapes.len(),
        decoded_as(shapes[i], j) == Ok::<_, ErrorView>(first_decoded(j, shapes)->Some_0),
        forall|k: int| 0 <= k < i ==> decoded_as(#[trigger] shapes[k], j) is Err,
    decreases shapes.len(),
{
    if decoded_as(shapes[0], j) is Ok {
        0
    } else {
        let rest = shapes.drop_first();
        let at = lemma_first_decoded_witness(j, rest);
        assert(rest[at] == shapes[at + 1]);
        assert forall|k: int| 0 <= k < at + 1 implies decoded_as(#[trigger] shapes[k], j) is Err by {
            if k > 0 {
                assert(rest[k - 1] == shapes[k]);
            }
        }
        at + 1
    }
}

/// The classifier is total: for every value and every hint it gives results
/// of exactly one shape, as which the value decodes, or the one error that
/// says that the value holds no results, and then the value decodes as no
/// shape at all.
pub proof fn lemma_classified_total(j: Json, hint: Option<Method>)
    ensures
        match classified(j, hint) {
            Ok(results) => decoded_as(shape_of(results), j) == Ok::<_, ErrorView>(results),
            Err(e) => e == not_results() && forall|shape: Shape| decoded_as(shape, j) is Err,
        },
{
    let shapes = candidates(hint);
    if first_decoded(j, shapes) is Some {
        let i = lemma_first_decoded_witness(j, shapes);
        lemma_decoded_shape(shapes[i], j);
    } else {
        assert forall|shape: Shape| decoded_as(shape, j) is Err by {
            if decoded_as(shape, j) is Ok {
                // Every shape stands among the candidates, so one that
                // decodes would have been found.
                let at = rank(shape) + if hint is Some {
                    1int
                } else {
                    0int
                };
                assert(shapes[at] == shape);
                let first = lemma_least_decoding(j, shapes, at);
                lemma_first_decoded_earliest(j, shapes, first);
            }
        }
    }
}

/// Among the candidates up to one that decodes there is a first that does.
pub proof fn lemma_least_decoding(j: Json, shapes: Seq<Shape>, at: int) -> (k: int)
    requires
        0 <= at < shapes.len(),
        decoded_as(shapes[at], j) is Ok,
    ensures
        0 <= k <= at,
        decoded_as(shapes[k], j) is Ok,
        forall|n: int| 0 <= n < k ==> decoded_as(#[trigger] shapes[n], j) is Err,
    decreases at,
{
    if exists|n: int| 0 <= n < at && decoded_as(#[trigger] shapes[n], j) is Ok {
        let n = choose|n: int| 0 <= n < at && decoded_as(#[trigger] shapes[n], j) is Ok;
        lemma_least_decoding(j, shapes, n)
    } else {
        at
    }
}

/// Priority decides. Where a value decodes as two candidates, the classifier
/// returns what a candidate gives that stands no later than the earlier of
/// the two, and before which no candidate decodes.
pub proof fn lemma_priority(j: Json, hint: Option<Method>, a: int, b: int) -> (k: int)
    requires
        0 <= a < b < candidates(hint).len(),
        decoded_as(candidates(hint)[a], j) is Ok,
        decoded_as(candidates(hint)[b], j) is Ok,
    ensures
        0 <= k <= a,
        classified(j, hint) == decoded_as(candidates(hint)[k], j),
        classified(j, hint) is Ok,
        forall|n: int| 0 <= n < k ==> decoded_as(#[trigger] candidates(hint)[n], j) is Err,
{
    let shapes = candidates(hint);
    let k = lemma_least_decoding(j, shapes, a);
    lemma_first_decoded_earliest(j, shapes, k);
    k
}

/// The preferred shape wins: where the value decodes as the shape that the
/// request's operation prefers, that is what the classifier returns,
/// whatever else the value decodes as.
pub proof fn lemma_preferred_wins(j: Json, method: Method)
    requires
        decoded_as(preferred(method), j) is Ok,
    ensures
        classified(j, Some(method)) == decoded_as(preferred(method), j),
{
    assert(candidates(Some(method))[0] == preferred(method));
}

/// A preferred shape as which the value does not decode changes nothing.
pub proof fn lemma_failed_hint(j: Json, method: Method)
    requires
        decoded_as(preferred(method), j) is Err,
    ensures
        classified(j, Some(method)) == classified(j, None),
{
    assert(candidates(Some(method)).drop_first() =~= fixed_order());
}

/// In the fixed order the earlier shape wins. Where nothing is preferred, or
/// the value does not decode as the preferred shape, and the value decodes
/// as two shapes, the classifier returns results of a shape that stands no
/// later in the fixed order than the earlier of the two: never the later one.
pub proof fn lemma_fixed_order_priority(j: Json, hint: Option<Method>, a: Shape, b: Shape)
    requires
        hint matches Some(method) ==> decoded_as(preferred(method), j) is Err,
        rank(a) < rank(b),
        decoded_as(a, j) is Ok,
        decoded_as(b, j) is Ok,
    ensures
        classified(j, hint) is Ok,
        rank(shape_of(classified(j, hint)->Ok_0)) <= rank(a),
        shape_of(classified(j, hint)->Ok_0) != b,
{
    if let Some(method) = hint {
        lemma_failed_hint(j, method);
    }
    assert(candidates(None)[rank(a)] == a);
    assert(candidates(None)[rank(b)] == b);
    let k = lemma_priority(j, None, rank(a), rank(b));
    lemma_decoded_shape(candidates(None)[k], j);
}

/// A reported failure comes last: where the classifier returns one, the
/// value decodes as none of the other shapes.
pub proof fn lemma_failure_comes_last(j: Json, hint: Option<Method>, shape: Shape)
    requires
        classified(j, hint) is Ok,
        shape_of(classified(j, hint)->Ok_0) == Shape::ApiError,
        shape != Shape::ApiError,
    ensures
        decoded_as(shape, j) is Err,
{
    let shapes = candidates(hint);
    let i = lemma_first_decoded_witness(j, shapes);
    lemma_decoded_shape(shapes[i], j);
    let last = shapes.len() - 1;
    assert(forall|k: int| 0 <= k < last ==> shapes[k] != Shape::ApiError);
    assert(i == last);
    let at = rank(shape) + if hint is Some {
        1int
    } else {
        0int
    };
    assert(shapes[at] == shape);
}

/// An inner object without the key `Request` is refused with `KeyMissing`
/// for that key, whatever else it holds, and so is the envelope around it.
pub proof fn lemma_request_missing(m: Map<Seq<char>, Json>)
    requires
        !m.contains_key("Request"@),
    ensures
        fails_with(
            beaapi_of_entries(m),
            ErrorView::KeyMissing { key: "Request"@, origin: Origin::Beaapi },
        ),
        beaapi_of(Json::Object(m)) == beaapi_of_entries(m),
        forall|outer: Map<Seq<char>, Json>|
            outer.contains_key("BEAAPI"@) && outer["BEAAPI"@] == Json::Object(m) ==> fails_with(
                #[trigger] bea_response_of(Json::Object(outer)),
                ErrorView::KeyMissing { key: "Request"@, origin: Origin::Beaapi },
            ),
{
}

/// An inner object with an echo but without the key `Results` is refused
/// with `KeyMissing` for that key.
pub proof fn lemma_results_missing(m: Map<Seq<char>, Json>)
    requires
        m.contains_key("Request"@),
        request_parameters_of(m["Request"@]) is Ok,
        !m.contains_key("Results"@),
    ensures
        fails_with(
            beaapi_of_entries(m),
            ErrorView::KeyMissing { key: "Results"@, origin: Origin::Beaapi },
        ),
{
}

/// An outer object without the key `BEAAPI` is refused with `KeyMissing`
/// for that key.
pub proof fn lemma_wrapper_missing(outer: Map<Seq<char>, Json>)
    requires
        !outer.contains_key("BEAAPI"@),
    ensures
        fails_with(
            bea_response_of(Json::Object(outer)),
            ErrorView::KeyMissing { key: "BEAAPI"@, origin: Origin::BeaResponse },
        ),
{
}

/// Every decoder that needs an object refuses a value that is none with
/// `NotObject` and its own name.
pub proof fn lemma_not_object(j: Json)
    requires
        !(j is Object),
    ensures
        fails_with(bea_response_of(j), ErrorView::NotObject { origin: Origin::BeaResponse }),
        fails_with(beaapi_of(j), ErrorView::NotObject { origin: Origin::Beaapi }),
        fails_with(
            request_parameters_of(j),
            ErrorView::NotObject { origin: Origin::RequestParameters },
        ),
        fails_with(datasets_of(j), ErrorView::NotObject { origin: Origin::Datasets }),
        fails_with(parameters_of(j), ErrorView::NotObject { origin: Origin::Parameters }),
        fails_with(
            parameter_values_of(j),
            ErrorView::NotObject { origin: Origin::ParameterValues },
        ),
        fails_with(nipa_data_of(j), ErrorView::NotObject { origin: Origin::Data }),
        fails_with(api_error_of(j), ErrorView::NotObject { origin: Origin::ApiError }),
{
}

/// Inside the envelope too: a value that is no object under `BEAAPI`, under
/// `Request`, or under the `Error` of a reported failure is refused with
/// `NotObject`.
pub proof fn lemma_not_object_inside(m: Map<Seq<char>, Json>)
    ensures
        m.contains_key("BEAAPI"@) && !(m["BEAAPI"@] is Object) ==> fails_with(
            bea_response_of(Json::Object(m)),
            ErrorView::NotObject { origin: Origin::Beaapi },
        ),
        m.contains_key("Request"@) && !(m["Request"@] is Object) ==> fails_with(
            beaapi_of_entries(m),
            ErrorView::NotObject { origin: Origin::RequestParameters },
        ),
        m.contains_key("Error"@) && !(m["Error"@] is Object) ==> fails_with(
            api_error_of_entries(m),
            ErrorView::NotObject { origin: Origin::ApiError },
        ),
{
    if m.contains_key("BEAAPI"@) && !(m["BEAAPI"@] is Object) {
        lemma_not_object(m["BEAAPI"@]);
    }
    if m.contains_key("Request"@) && !(m["Request"@] is Object) {
        lemma_not_object(m["Request"@]);
    }
}

/// In a table, the first item that is no object is refused with `NotObject`
/// and the name of the table's decoder, where the items before it decode.
pub proof fn lemma_row_not_object<R: Row>(items: Seq<Json>, i: int)
    requires
        0 <= i < items.len(),
        !(items[i] is Object),
        rows_of::<R>(items.take(i)) is Ok,
    ensures
        fails_with(rows_of::<R>(items), ErrorView::NotObject { origin: R::origin() }),
{
    R::lemma_row_is_object(items[i]);
    assert(items.take(i + 1).drop_last() =~= items.take(i));
    assert(items.take(i + 1).last() == items[i]);
    lemma_rows_failure_stays::<R>(items, i + 1);
}

/// The classifier keeps no error of a shape: a value that is no object, and
/// so decodes as no shape, is refused as holding no results.
pub proof fn lemma_not_object_results(j: Json, hint: Option<Method>)
    requires
        !(j is Object),
    ensures
        fails_with(classified(j, hint), not_results()),
{
    lemma_not_object(j);
    let shapes = candidates(hint);
    assert forall|k: int| 0 <= k < shapes.len() implies decoded_as(#[trigger] shapes[k], j) is Err by {
    }
    lemma_first_decoded_none(j, shapes);
}

/// The flag for figures in millions is strict: the code `Y` is `true`, the
/// code `N` is `false`, the two codes are different, and every other code is
/// refused with `VariantMissing` and the code itself.
pub proof fn lemma_millions_strict(value: NipaShowMillionsView)
    ensures
        "Y"@ != "N"@,
        value.show_millions_id == "Y"@ ==> millions_of(value) == Ok::<_, ErrorView>(
            MillionsView { description: value.description, show: true },
        ),
        value.show_millions_id == "N"@ ==> millions_of(value) == Ok::<_, ErrorView>(
            MillionsView { description: value.description, show: false },
        ),
        value.show_millions_id != "Y"@ && value.show_millions_id != "N"@ ==> (millions_of(
            value,
        ) matches Err(ErrorView::VariantMissing { input, origin, .. }) && input
            == value.show_millions_id && origin == Origin::Millions),
{
    reveal_strlit("Y");
    reveal_strlit("N");
    assert("Y"@[0] != "N"@[0]);
}

/// The cache gives back what was put in. The plain form of a response
/// stands for that response, and bytes from which the plain form of a
/// response is read hold that response.
pub proof fn lemma_round_trip(response: BeaResponseView, bytes: Seq<u8>)
    ensures
        restored_of(BeaResponse::form_of(response)) == Ok::<_, ErrorView>(response),
        bincode_form(bytes) == Some(BeaResponse::form_of(response)) ==> cached(bytes) == Ok::<
            _,
            ErrorView,
        >(response),
{
    BeaResponse::lemma_value_of_form(response);
}

/// Bytes from which no plain form is read, or a form with another number of
/// format, hold no response.
pub proof fn lemma_cache_refuses(bytes: Seq<u8>)
    ensures
        bincode_form(bytes) is None ==> fails_with(cached(bytes), decode_error()),
        bincode_form(bytes) matches Some(form) && form.0 != FORMAT ==> fails_with(
            cached(bytes),
            decode_error(),
        ),
{
}

} // verus!
