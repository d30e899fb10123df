//! Laws of the validation protocol, stated over the mathematical model and
//! proved once and for all: bounds short-circuit with a single structural
//! error, absent element validators pass elements through unchanged, fatal
//! failures abort without aggregation, and reportable failures of elements
//! are aggregated completely, in order, with exact locations.

use vstd::prelude::*;

use crate::errors::{ErrorKind, LineErrorV, LocItemV, ValErrorV};
use crate::validators::{
    ListValidator, SchemaValidator, lemma_spec_validate_wf, located, spec_validate,
    spec_validate_elems, spec_validate_list, too_long_err, too_short_err,
};
use crate::value::ValueV;

verus! {

/// Whether validating `v` against `child` fails at all.
pub open spec fn failing(child: SchemaValidator, v: ValueV) -> bool {
    spec_validate(child, v) is Err
}

/// Whether validating `v` against `child` fails fatally.
pub open spec fn fatal(child: SchemaValidator, v: ValueV) -> bool {
    spec_validate(child, v) matches Err(ValErrorV::Fatal(_))
}

/// The reportable errors validating `v` against `child` yields; empty on
/// success or a fatal failure.
pub open spec fn child_errs(child: SchemaValidator, v: ValueV) -> Seq<LineErrorV> {
    match spec_validate(child, v) {
        Err(ValErrorV::LineErrors(es)) => es,
        _ => Seq::empty(),
    }
}

/// No element from index `i` on fails fatally.
pub open spec fn no_fatal(child: SchemaValidator, items: Seq<ValueV>, i: int) -> bool {
    forall|j: int| i <= j < items.len() ==> !fatal(child, items[j])
}

/// All reportable errors of the elements from index `i` on, each located at
/// its element's index, in ascending index order.
pub open spec fn agg_errs(child: SchemaValidator, items: Seq<ValueV>, i: int) -> Seq<LineErrorV>
    decreases items.len() - i,
{
    if i < 0 || i >= items.len() {
        Seq::empty()
    } else {
        located(child_errs(child, items[i]), i) + agg_errs(child, items, i + 1)
    }
}

/// How many of the elements from index `i` on fail.
pub open spec fn fail_count(child: SchemaValidator, items: Seq<ValueV>, i: int) -> int
    decreases items.len() - i,
{
    if i < 0 || i >= items.len() {
        0
    } else {
        (if failing(child, items[i]) {
            1int
        } else {
            0int
        }) + fail_count(child, items, i + 1)
    }
}

/// The element index an aggregated error is located at.
pub open spec fn err_index(e: LineErrorV) -> int {
    match e.location[0] {
        LocItemV::Index(j) => j,
        _ => -1,
    }
}

/// A sequence shorter than the configured minimum fails with exactly one
/// error of kind "too short", context `min_length = bound`, and an empty
/// location; elements are not looked at.
pub proof fn lemma_bounds_lower(lv: ListValidator, items: Seq<ValueV>)
    requires
        lv.min_items matches Some(m) && items.len() < m,
    ensures
        spec_validate_list(lv, ValueV::List(items)) == Err::<ValueV, ValErrorV>(
            ValErrorV::LineErrors(seq![too_short_err(lv.min_items->Some_0)]),
        ),
{
}

/// A sequence longer than the configured maximum — and not shorter than the
/// minimum, which is checked first — fails with exactly one error of kind
/// "too long", context `max_length = bound`, and an empty location.
pub proof fn lemma_bounds_upper(lv: ListValidator, items: Seq<ValueV>)
    requires
        !(lv.min_items matches Some(m) && items.len() < m),
        lv.max_items matches Some(m) && items.len() > m,
    ensures
        spec_validate_list(lv, ValueV::List(items)) == Err::<ValueV, ValErrorV>(
            ValErrorV::LineErrors(seq![too_long_err(lv.max_items->Some_0)]),
        ),
{
}

/// With no element validator configured and the bounds satisfied, the output
/// sequence is the input sequence, element for element, in order.
pub proof fn lemma_pass_through(lv: ListValidator, items: Seq<ValueV>)
    requires
        lv.item_validator is None,
        !(lv.min_items matches Some(m) && items.len() < m),
        !(lv.max_items matches Some(m) && items.len() > m),
    ensures
        spec_validate_list(lv, ValueV::List(items)) == Ok::<ValueV, ValErrorV>(
            ValueV::List(items),
        ),
{
}

/// An input of the wrong fundamental shape produces exactly one fatal
/// outcome; no reportable errors are ever combined with it.
pub proof fn lemma_fatal_on_wrong_shape(lv: ListValidator, input: ValueV)
    requires
        !(input is List),
    ensures
        spec_validate_list(lv, input) == Err::<ValueV, ValErrorV>(
            ValErrorV::Fatal(ErrorKind::ListType),
        ),
{
}

/// When no element fails fatally, the element loop's outcome is decided by
/// the aggregate alone: the validated outputs if no element contributed an
/// error, else exactly the aggregated errors, in order.
pub proof fn lemma_aggregation(child: SchemaValidator, items: Seq<ValueV>, i: int)
    requires
        0 <= i <= items.len(),
        no_fatal(child, items, i),
    ensures
        agg_errs(child, items, i).len() == 0 ==> spec_validate_elems(child, items, i) is Ok,
        agg_errs(child, items, i).len() > 0 ==> spec_validate_elems(child, items, i) == Err::<
            Seq<ValueV>,
            ValErrorV,
        >(ValErrorV::LineErrors(agg_errs(child, items, i))),
    decreases items.len() - i,
{
    if i < items.len() {
        lemma_aggregation(child, items, i + 1);
        lemma_spec_validate_wf(child, items[i]);
        let head = spec_validate(child, items[i]);
        let head_errs = located(child_errs(child, items[i]), i);
        let tail_errs = agg_errs(child, items, i + 1);
        match head {
            Ok(_) => {
                assert(head_errs =~= Seq::<LineErrorV>::empty());
                assert(head_errs + tail_errs =~= tail_errs);
            },
            Err(ValErrorV::LineErrors(es)) => {
                assert(es.len() > 0);
                assert(head_errs.len() == es.len());
                if tail_errs.len() == 0 {
                    assert(head_errs + tail_errs =~= head_errs);
                }
            },
            Err(ValErrorV::Fatal(_)) => {
                assert(false);
            },
        }
    }
}

/// A fatal failure of an element aborts the whole loop at once: if the
/// elements before `i` do not fail fatally and element `i` does, the loop's
/// outcome is that fatal failure, untouched — never downgraded, never joined
/// with reportable errors of other elements.
pub proof fn lemma_fatal_propagation(child: SchemaValidator, items: Seq<ValueV>, s: int, i: int)
    requires
        0 <= s <= i < items.len(),
        forall|j: int| s <= j < i ==> !fatal(child, items[j]),
        fatal(child, items[i]),
    ensures
        spec_validate_elems(child, items, s) == Err::<Seq<ValueV>, ValErrorV>(
            spec_validate(child, items[i])->Err_0,
        ),
    decreases i - s,
{
    if s < i {
        lemma_fatal_propagation(child, items, s + 1, i);
    }
}

/// Every reportable error of element `i` appears in the aggregate from `s`
/// on, re-located under the element's index.
proof fn lemma_agg_contains(child: SchemaValidator, items: Seq<ValueV>, s: int, i: int, j: int)
    requires
        0 <= s <= i < items.len(),
        0 <= j < child_errs(child, items[i]).len(),
    ensures
        exists|k: int|
            0 <= k < agg_errs(child, items, s).len() && agg_errs(child, items, s)[k] == child_errs(
                child,
                items[i],
            )[j].prepended(LocItemV::Index(i)),
    decreases i - s,
{
    let head_errs = located(child_errs(child, items[s]), s);
    if s == i {
        assert(agg_errs(child, items, s)[j] == head_errs[j]);
        assert(head_errs[j] == child_errs(child, items[i])[j].prepended(LocItemV::Index(i)));
    } else {
        lemma_agg_contains(child, items, s + 1, i, j);
        let k0 = choose|k: int|
            0 <= k < agg_errs(child, items, s + 1).len() && #[trigger] agg_errs(
                child,
                items,
                s + 1,
            )[k] == child_errs(child, items[i])[j].prepended(LocItemV::Index(i));
        assert(agg_errs(child, items, s)[head_errs.len() + k0] == agg_errs(child, items, s + 1)[
            k0]);
    }
}

/// Location composition: when element `i` fails with a located error at
/// sub-path `p`, the whole loop emits that error at path `[i] ++ p`, among
/// the aggregated errors.
pub proof fn lemma_location_composition(
    child: SchemaValidator,
    items: Seq<ValueV>,
    i: int,
    j: int,
)
    requires
        no_fatal(child, items, 0),
        0 <= i < items.len(),
        0 <= j < child_errs(child, items[i]).len(),
    ensures
        spec_validate_elems(child, items, 0) == Err::<Seq<ValueV>, ValErrorV>(
            ValErrorV::LineErrors(agg_errs(child, items, 0)),
        ),
        exists|k: int|
            0 <= k < agg_errs(child, items, 0).len() && #[trigger] agg_errs(child, items, 0)[k]
                == child_errs(child, items[i])[j].prepended(LocItemV::Index(i)),
{
    lemma_agg_contains(child, items, 0, i, j);
    let all0 = agg_errs(child, items, 0);
    let k0 = choose|k: int|
        0 <= k < all0.len() && #[trigger] all0[k] == child_errs(child, items[i])[j].prepended(
            LocItemV::Index(i),
        );
    assert(0 <= k0 < all0.len());
    lemma_aggregation(child, items, 0);
    assert(spec_validate_elems(child, items, 0) == Err::<Seq<ValueV>, ValErrorV>(
        ValErrorV::LineErrors(all0),
    ));
}

/// Full aggregation without short-circuiting, for an element validator that
/// yields one error per failing element: the loop fails with exactly one
/// error per failing element, each being the element's own error located at
/// the element's index, in ascending index order; succeeding elements
/// contribute nothing, and every failing element is represented.
pub proof fn lemma_full_aggregation(child: SchemaValidator, items: Seq<ValueV>, i: int)
    requires
        0 <= i <= items.len(),
        no_fatal(child, items, i),
        forall|j: int|
            i <= j < items.len() && failing(child, items[j]) ==> child_errs(
                child,
                items[j],
            ).len() == 1,
    ensures
        agg_errs(child, items, i).len() == fail_count(child, items, i),
        forall|k: int|
            0 <= k < agg_errs(child, items, i).len() ==> {
                let e = #[trigger] agg_errs(child, items, i)[k];
                &&& i <= err_index(e) < items.len()
                &&& failing(child, items[err_index(e)])
                &&& e == child_errs(child, items[err_index(e)])[0].prepended(
                    LocItemV::Index(err_index(e)),
                )
            },
        forall|k1: int, k2: int|
            0 <= k1 < k2 < agg_errs(child, items, i).len() ==> err_index(
                agg_errs(child, items, i)[k1],
            ) < err_index(agg_errs(child, items, i)[k2]),
        forall|j: int|
            i <= j < items.len() && failing(child, items[j]) ==> exists|k: int|
                0 <= k < agg_errs(child, items, i).len() && err_index(
                    agg_errs(child, items, i)[k],
                ) == j,
    decreases items.len() - i,
{
    if i < items.len() {
        lemma_full_aggregation(child, items, i + 1);
        lemma_spec_validate_wf(child, items[i]);
        let all = agg_errs(child, items, i);
        let head_errs = located(child_errs(child, items[i]), i);
        let tail = agg_errs(child, items, i + 1);
        assert(all == head_errs + tail);
        if failing(child, items[i]) {
            assert(!fatal(child, items[i]));
            assert(head_errs.len() == 1);
            assert(head_errs[0] == child_errs(child, items[i])[0].prepended(LocItemV::Index(i)));
            assert(err_index(head_errs[0]) == i);
            assert(all[0] == head_errs[0]);
            assert(forall|k: int| 1 <= k < all.len() ==> all[k] == tail[k - 1]);
            assert forall|j: int|
                i <= j < items.len() && failing(child, items[j]) implies exists|k: int|
                0 <= k < all.len() && err_index(all[k]) == j by {
                if j == i {
                    assert(err_index(all[0]) == i);
                } else {
                    let k0 = choose|k: int| 0 <= k < tail.len() && err_index(tail[k]) == j;
                    assert(all[k0 + 1] == tail[k0]);
                }
            }
        } else {
            assert(child_errs(child, items[i]) =~= Seq::<LineErrorV>::empty());
            assert(head_errs =~= Seq::<LineErrorV>::empty());
            assert(all =~= tail);
        }
    }
}

} // verus!
