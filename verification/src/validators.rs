//! The validator tree: the dispatcher, the list validator and a minimal
//! integer leaf validator.
//!
//! Every validator kind satisfies the same capability: a pure `is_match`
//! predicate the dispatcher selects kinds by, a `build` that reads the fields
//! relevant to the kind from a schema node (recursively building any nested
//! validator, leaves before parents), a `validate` that is pure with respect
//! to the tree, and a deep clone. Kinds are a closed set, so the dispatcher
//! stores children as one tagged type, [`SchemaValidator`]; registration
//! order — list first, then int — decides ties, most specific first.

use vstd::prelude::*;

use crate::errors::{
    ContextEntry, ContextEntryV, ErrorKind, LineErrorV, LocItem, LocItemV, ValError, ValErrorV,
    ValLineError, wf_err,
};
use crate::schema::Schema;
use crate::value::{Value, ValueV, lemma_deep_view_seq_is_deep_view, validate_list};

verus! {

/// Validates a list: optionally validates each element through a child
/// validator, and optionally bounds the number of elements.
#[derive(Debug, PartialEq, Eq)]
pub struct ListValidator {
    /// Validator for the elements; absent means elements pass through
    /// unvalidated.
    pub item_validator: Option<Box<SchemaValidator>>,
    /// Least number of elements accepted.
    pub min_items: Option<usize>,
    /// Greatest number of elements accepted.
    pub max_items: Option<usize>,
}

/// Validates an atomic integer value: the exemplar leaf kind.
#[derive(Debug, PartialEq, Eq)]
pub struct IntValidator {}

/// A validator of any kind, as built by the dispatcher; composite validators
/// hold their heterogeneous children as this one type.
#[derive(Debug, PartialEq, Eq)]
pub enum SchemaValidator {
    List(ListValidator),
    Int(IntValidator),
}

/// A construction-time failure: the schema itself is malformed. Distinct from
/// every runtime validation failure.
#[derive(Clone, Copy, Debug, PartialEq, Eq)]
pub enum BuildError {
    /// No registered validator kind matches the schema's discriminator.
    UnrecognizedType,
    /// Both bounds are present and the minimum exceeds the maximum.
    InconsistentBounds,
}

/// The outcome of a validation call, seen mathematically.
pub open spec fn outcome_view(r: Result<Value, ValError>) -> Result<ValueV, ValErrorV> {
    match r {
        Ok(v) => Ok(v.deep_view()),
        Err(e) => Err(e.deep_view()),
    }
}

/// The error reported for a list with fewer elements than `min`.
pub open spec fn too_short_err(min: usize) -> LineErrorV {
    LineErrorV {
        kind: ErrorKind::ListTooShort,
        context: Some(seq![ContextEntryV { key: "min_length"@, value: min }]),
        location: Seq::empty(),
    }
}

/// The error reported for a list with more elements than `max`.
pub open spec fn too_long_err(max: usize) -> LineErrorV {
    LineErrorV {
        kind: ErrorKind::ListTooLong,
        context: Some(seq![ContextEntryV { key: "max_length"@, value: max }]),
        location: Seq::empty(),
    }
}

/// The error reported for a value that is not an integer.
pub open spec fn int_type_err() -> LineErrorV {
    LineErrorV { kind: ErrorKind::IntType, context: None, location: Seq::empty() }
}

/// `errs` as re-emitted by a list validator for the element at index `i`:
/// each error's location is extended with the element's index in front.
pub open spec fn located(errs: Seq<LineErrorV>, i: int) -> Seq<LineErrorV> {
    errs.map_values(|e: LineErrorV| e.prepended(LocItemV::Index(i)))
}

/// What validating a value against a validator of any kind returns.
pub open spec fn spec_validate(v: SchemaValidator, input: ValueV) -> Result<ValueV, ValErrorV>
    decreases v, 0int,
{
    match v {
        SchemaValidator::List(lv) => spec_validate_list(lv, input),
        SchemaValidator::Int(_) => spec_validate_int(input),
    }
}

/// What the integer leaf validator returns: the integer itself, or one
/// reportable error at the value's own (empty) location.
pub open spec fn spec_validate_int(input: ValueV) -> Result<ValueV, ValErrorV> {
    match input {
        ValueV::Int(i) => Ok(ValueV::Int(i)),
        _ => Err(ValErrorV::LineErrors(seq![int_type_err()])),
    }
}

/// What the list validator returns: fatal on a non-list input, a single
/// structural error when a cardinality bound is violated (no per-element
/// validation is attempted then), otherwise the elements, validated in order
/// with all reportable failures aggregated.
pub open spec fn spec_validate_list(lv: ListValidator, input: ValueV) -> Result<ValueV, ValErrorV>
    decreases lv, 1int,
{
    match input {
        ValueV::List(items) => {
            if lv.min_items matches Some(m) && items.len() < m {
                Err(ValErrorV::LineErrors(seq![too_short_err(lv.min_items->Some_0)]))
            } else if lv.max_items matches Some(m) && items.len() > m {
                Err(ValErrorV::LineErrors(seq![too_long_err(lv.max_items->Some_0)]))
            } else {
                match lv.item_validator {
                    None => Ok(ValueV::List(items)),
                    Some(child) => match spec_validate_elems(*child, items, 0) {
                        Ok(outs) => Ok(ValueV::List(outs)),
                        Err(e) => Err(e),
                    },
                }
            }
        },
        _ => Err(ValErrorV::Fatal(ErrorKind::ListType)),
    }
}

/// What validating the elements of `items` from index `i` on against `child`
/// returns: the validated outputs in order if every element passes; the
/// first fatal failure, untouched, if any element fails fatally; otherwise
/// all reportable failures, located at their element's index, in index order.
pub open spec fn spec_validate_elems(
    child: SchemaValidator,
    items: Seq<ValueV>,
    i: int,
) -> Result<Seq<ValueV>, ValErrorV>
    recommends
        0 <= i <= items.len(),
    decreases child, items.len() - i + 1,
{
    if i < 0 || i >= items.len() {
        Ok(Seq::empty())
    } else {
        let head = spec_validate(child, items[i]);
        if head matches Err(ValErrorV::Fatal(k)) {
            Err(ValErrorV::Fatal(head->Err_0->Fatal_0))
        } else {
            let rest = spec_validate_elems(child, items, i + 1);
            if rest matches Err(ValErrorV::Fatal(k)) {
                Err(ValErrorV::Fatal(rest->Err_0->Fatal_0))
            } else {
                let head_errs = match head {
                    Err(ValErrorV::LineErrors(es)) => located(es, i),
                    _ => Seq::empty(),
                };
                let tail_errs = match rest {
                    Err(ValErrorV::LineErrors(es)) => es,
                    _ => Seq::empty(),
                };
                let all = head_errs + tail_errs;
                if all.len() == 0 {
                    match (head, rest) {
                        (Ok(o), Ok(outs)) => Ok(seq![o] + outs),
                        // nothing contributed an error yet one side failed:
                        // impossible for well-formed outcomes, whose failures
                        // always carry an error (lemma_spec_validate_wf)
                        _ => Ok(Seq::empty()),
                    }
                } else {
                    Err(ValErrorV::LineErrors(all))
                }
            }
        }
    }
}

/// Whether the schema's cardinality bounds are consistent with each other.
pub open spec fn bounds_ok(s: Schema) -> bool {
    !(s.min_items matches Some(mn) && s.max_items matches Some(mx) && mn > mx)
}

/// The construction-time failure that building a validator from `s` reports,
/// if any: an unrecognized discriminator, a failure inside a nested schema
/// (surfaced first, since the nested validator is built before the bounds are
/// read), or inconsistent bounds.
pub open spec fn spec_build_check(s: Schema) -> Option<BuildError>
    decreases s, 1int,
{
    if s.tag@ == "list"@ {
        spec_build_check_list(s)
    } else if s.tag@ == "int"@ {
        None
    } else {
        Some(BuildError::UnrecognizedType)
    }
}

/// The construction-time failure of the list kind alone.
pub open spec fn spec_build_check_list(s: Schema) -> Option<BuildError>
    decreases s, 0int,
{
    let own = if bounds_ok(s) {
        None
    } else {
        Some(BuildError::InconsistentBounds)
    };
    match s.items {
        Some(sub) => match spec_build_check(*sub) {
            Some(e) => Some(e),
            None => own,
        },
        None => own,
    }
}

/// Whether `v` is the validator tree that schema `s` describes.
pub open spec fn builds_to(s: Schema, v: SchemaValidator) -> bool
    decreases s, 1int,
{
    if s.tag@ == "list"@ {
        v matches SchemaValidator::List(lv) && list_builds_to(s, lv)
    } else if s.tag@ == "int"@ {
        v == SchemaValidator::Int(IntValidator {})
    } else {
        false
    }
}

/// Whether `lv` is the list validator that schema `s` describes: the bounds
/// are the schema's, and the child validator is present exactly when an
/// `items` sub-schema is, built from it.
pub open spec fn list_builds_to(s: Schema, lv: ListValidator) -> bool
    decreases s, 0int,
{
    &&& lv.min_items == s.min_items
    &&& lv.max_items == s.max_items
    &&& match s.items {
        None => lv.item_validator is None,
        Some(sub) => lv.item_validator matches Some(c) && builds_to(*sub, *c),
    }
}

/// Whether the two strings hold the same characters.
fn streq(a: &str, b: &str) -> (r: bool)
    ensures
        r == (a@ == b@),
{
    let a_owned: String = a.to_owned();
    let b_owned: String = b.to_owned();
    a_owned == b_owned
}

impl IntValidator {
    /// Whether this kind is the one the discriminator names.
    pub fn is_match(tag: &str, _schema: &Schema) -> (r: bool)
        ensures
            r == (tag@ == "int"@),
    {
        streq(tag, "int")
    }

    /// Builds the leaf validator; it reads no field of the schema and cannot
    /// fail.
    pub fn build(_schema: &Schema) -> (r: Result<IntValidator, BuildError>)
        ensures
            r == Ok::<IntValidator, BuildError>(IntValidator {}),
    {
        Ok(IntValidator {})
    }

    /// Validates one value: the integer itself comes back, anything else is
    /// one reportable error.
    pub fn validate(&self, v: Value) -> (r: Result<Value, ValError>)
        ensures
            outcome_view(r) == spec_validate_int(v.deep_view()),
    {
        match v {
            Value::Int(i) => Ok(Value::Int(i)),
            _ => {
                let errs: Vec<ValLineError> = vec![ValLineError::new(ErrorKind::IntType, None)];
                proof {
                    assert(errs.deep_view() =~= seq![int_type_err()]);
                }
                Err(ValError::LineErrors(errs))
            },
        }
    }

    /// An independent copy, as the uniform validator capability asks.
    pub fn clone_dyn(&self) -> (r: Box<SchemaValidator>)
        ensures
            *r == SchemaValidator::Int(*self),
    {
        Box::new(SchemaValidator::Int(IntValidator {}))
    }
}

impl SchemaValidator {
    /// Builds the validator tree a schema node describes: the first
    /// registered kind whose `is_match` accepts the discriminator builds
    /// itself; an unrecognized discriminator is a construction-time failure.
    pub fn build(schema: &Schema) -> (r: Result<SchemaValidator, BuildError>)
        ensures
            (r is Ok) == (spec_build_check(*schema) is None),
            r matches Ok(v) ==> builds_to(*schema, v),
            r matches Err(e) ==> spec_build_check(*schema) == Some(e),
        decreases *schema, 1int,
    {
        if ListValidator::is_match(schema.tag.as_str(), schema) {
            match ListValidator::build(schema) {
                Ok(lv) => Ok(SchemaValidator::List(lv)),
                Err(e) => Err(e),
            }
        } else if IntValidator::is_match(schema.tag.as_str(), schema) {
            match IntValidator::build(schema) {
                Ok(iv) => Ok(SchemaValidator::Int(iv)),
                Err(e) => Err(e),
            }
        } else {
            Err(BuildError::UnrecognizedType)
        }
    }
}

impl ListValidator {
    /// Whether this kind is the one the discriminator names.
    pub fn is_match(tag: &str, _schema: &Schema) -> (r: bool)
        ensures
            r == (tag@ == "list"@),
    {
        streq(tag, "list")
    }

    /// Builds the list validator from the fields relevant to it: the nested
    /// `items` schema (building its validator first, leaves before parents)
    /// and the cardinality bounds, which must be consistent.
    pub fn build(schema: &Schema) -> (r: Result<ListValidator, BuildError>)
        ensures
            (r is Ok) == (spec_build_check_list(*schema) is None),
            r matches Ok(lv) ==> list_builds_to(*schema, lv),
            r matches Err(e) ==> spec_build_check_list(*schema) == Some(e),
        decreases *schema, 0int,
    {
        let item_validator: Option<Box<SchemaValidator>> = match &schema.items {
            Some(sub) => match SchemaValidator::build(&**sub) {
                Ok(v) => Some(Box::new(v)),
                Err(e) => {
                    return Err(e);
                },
            },
            None => None,
        };
        let bounds_bad: bool = match (schema.min_items, schema.max_items) {
            (Some(mn), Some(mx)) => mn > mx,
            _ => false,
        };
        if bounds_bad {
            return Err(BuildError::InconsistentBounds);
        }
        Ok(ListValidator { item_validator, min_items: schema.min_items, max_items: schema.max_items })
    }
}

impl Clone for SchemaValidator {
    /// An independent deep copy of the whole tree.
    fn clone(&self) -> (r: Self)
        ensures
            r == *self,
        decreases self, 1int,
    {
        match self {
            SchemaValidator::List(lv) => SchemaValidator::List(lv.clone()),
            SchemaValidator::Int(_) => SchemaValidator::Int(IntValidator {}),
        }
    }
}

impl Clone for ListValidator {
    /// An independent deep copy: the child validator tree is cloned, not
    /// shared.
    fn clone(&self) -> (r: Self)
        ensures
            r == *self,
        decreases self, 0int,
    {
        ListValidator {
            item_validator: match &self.item_validator {
                Some(child) => Some(Box::new((**child).clone())),
                None => None,
            },
            min_items: self.min_items,
            max_items: self.max_items,
        }
    }
}

impl SchemaValidator {
    /// An independent copy, held as the uniform validator capability hands
    /// trees around.
    pub fn clone_dyn(&self) -> (r: Box<SchemaValidator>)
        ensures
            *r == *self,
    {
        Box::new(self.clone())
    }
}

impl ListValidator {
    /// An independent copy, as the uniform validator capability asks: a
    /// deep clone sufficient to be owned elsewhere without shared state.
    pub fn clone_dyn(&self) -> (r: Box<SchemaValidator>)
        ensures
            *r == SchemaValidator::List(*self),
    {
        Box::new(SchemaValidator::List(self.clone()))
    }
}

/// The outcome of the whole element loop, given the outputs and located
/// errors accumulated so far and the outcome of the elements still to come:
/// a later fatal failure discards everything accumulated; otherwise errors
/// accumulate in order, and the outputs stand only if no error at all arose.
spec fn combine(
    outs: Seq<ValueV>,
    errs: Seq<LineErrorV>,
    rest: Result<Seq<ValueV>, ValErrorV>,
) -> Result<Seq<ValueV>, ValErrorV> {
    match rest {
        Err(ValErrorV::Fatal(k)) => Err(ValErrorV::Fatal(k)),
        Err(ValErrorV::LineErrors(tes)) => Err(ValErrorV::LineErrors(errs + tes)),
        Ok(router) => if errs.len() == 0 {
            Ok(outs + router)
        } else {
            Err(ValErrorV::LineErrors(errs))
        },
    }
}

impl SchemaValidator {
    /// Validates one value against the tree; pure with respect to the tree.
    pub fn validate(&self, v: Value) -> (r: Result<Value, ValError>)
        ensures
            outcome_view(r) == spec_validate(*self, v.deep_view()),
        decreases self, 0int,
    {
        match self {
            SchemaValidator::List(lv) => lv.validate(v),
            SchemaValidator::Int(iv) => iv.validate(v),
        }
    }
}

impl ListValidator {
    /// Validates one value: coerces it to a sequence (fatally failing on a
    /// wrong shape), checks the cardinality bounds (each a single structural
    /// error that short-circuits), then validates every element in order,
    /// aggregating all reportable failures — located at their element's index
    /// — without stopping at the first one. A fatal failure of a child aborts
    /// immediately and propagates untouched. An invalid input never yields a
    /// partial output.
    pub fn validate(&self, v: Value) -> (r: Result<Value, ValError>)
        ensures
            outcome_view(r) == spec_validate_list(*self, v.deep_view()),
        decreases self, 1int,
    {
        let ghost input_v = v.deep_view();
        let list: Vec<Value> = match validate_list(v) {
            Ok(l) => l,
            Err(e) => {
                return Err(e);
            },
        };
        let ghost items = list.deep_view();
        match self.min_items {
            Some(min) => {
                if list.len() < min {
                    let mut ctx: Vec<ContextEntry> = Vec::new();
                    ctx.push(ContextEntry { key: "min_length".to_owned(), value: min });
                    let err = ValLineError::new(ErrorKind::ListTooShort, Some(ctx));
                    let mut errs: Vec<ValLineError> = Vec::new();
                    errs.push(err);
                    proof {
                        assert(ctx.deep_view() =~= seq![
                            ContextEntryV { key: "min_length"@, value: min },
                        ]);
                        assert(errs.deep_view() =~= seq![too_short_err(min)]);
                    }
                    return Err(ValError::LineErrors(errs));
                }
            },
            None => {},
        }
        match self.max_items {
            Some(max) => {
                if list.len() > max {
                    let mut ctx: Vec<ContextEntry> = Vec::new();
                    ctx.push(ContextEntry { key: "max_length".to_owned(), value: max });
                    let err = ValLineError::new(ErrorKind::ListTooLong, Some(ctx));
                    let mut errs: Vec<ValLineError> = Vec::new();
                    errs.push(err);
                    proof {
                        assert(ctx.deep_view() =~= seq![
                            ContextEntryV { key: "max_length"@, value: max },
                        ]);
                        assert(errs.deep_view() =~= seq![too_long_err(max)]);
                    }
                    return Err(ValError::LineErrors(errs));
                }
            },
            None => {},
        }
        let child: &Box<SchemaValidator> = match &self.item_validator {
            None => {
                proof {
                    lemma_deep_view_seq_is_deep_view(list);
                }
                return Ok(Value::List(list));
            },
            Some(c) => c,
        };
        let mut output: Vec<Value> = Vec::new();
        let mut errors: Vec<ValLineError> = Vec::new();
        let mut rest = list;
        let total: usize = rest.len();
        let mut index: usize = 0;
        proof {
            assert(rest.deep_view() =~= items.skip(0));
            assert(output.deep_view() =~= Seq::<ValueV>::empty());
            assert(errors.deep_view() =~= Seq::<LineErrorV>::empty());
            match spec_validate_elems(**child, items, 0) {
                Ok(router) => {
                    assert(output.deep_view() + router =~= router);
                },
                Err(ValErrorV::LineErrors(tes)) => {
                    assert(errors.deep_view() + tes =~= tes);
                },
                Err(ValErrorV::Fatal(_)) => {},
            }
            assert(spec_validate_list(*self, input_v) == (match spec_validate_elems(
                **child,
                items,
                0,
            ) {
                Ok(outs) => Ok::<ValueV, ValErrorV>(ValueV::List(outs)),
                Err(e) => Err::<ValueV, ValErrorV>(e),
            }));
        }
        while rest.len() > 0
            invariant
                input_v == v.deep_view(),
                spec_validate_list(*self, input_v) == (match spec_validate_elems(
                    **child,
                    items,
                    0,
                ) {
                    Ok(outs) => Ok::<ValueV, ValErrorV>(ValueV::List(outs)),
                    Err(e) => Err::<ValueV, ValErrorV>(e),
                }),
                self.item_validator == Some(*child),
                items.len() == total as int,
                index as int + rest@.len() == items.len(),
                rest.deep_view() == items.skip(index as int),
                combine(
                    output.deep_view(),
                    errors.deep_view(),
                    spec_validate_elems(**child, items, index as int),
                ) == spec_validate_elems(**child, items, 0),
            decreases rest@.len(),
        {
            let ghost outs0 = output.deep_view();
            let ghost errs0 = errors.deep_view();
            let ghost rest0 = rest.deep_view();
            let ghost head = spec_validate(**child, items[index as int]);
            let ghost tail = spec_validate_elems(**child, items, index as int + 1);
            let ghost rest_pre = rest@;
            let item = rest.remove(0);
            proof {
                assert(rest0[0] == items[index as int]);
                assert(item.deep_view() == items[index as int]);
                assert(rest@ =~= rest_pre.skip(1));
                assert forall|j: int| 0 <= j < rest@.len() implies rest.deep_view()[j] == items
                    .skip(index as int + 1)[j] by {
                    assert(rest@[j] == rest_pre[j + 1]);
                    assert(rest.deep_view()[j] == rest@[j].deep_view());
                    assert(rest0[j + 1] == rest_pre[j + 1].deep_view());
                }
                assert(rest.deep_view() =~= items.skip(index as int + 1));
                lemma_spec_validate_wf(**child, items[index as int]);
                lemma_spec_validate_elems_wf(**child, items, index as int + 1);
                assert(decreases_to!(*self => self.item_validator));
                assert(decreases_to!(self.item_validator => **child));
                assert(decreases_to!(*self, 1int => **child, 0int));
            }
            match child.validate(item) {
                Ok(out) => {
                    output.push(out);
                    proof {
                        assert(output.deep_view() =~= outs0.push(out.deep_view()));
                        assert(head matches Ok(o) && o == out.deep_view());
                        match tail {
                            Ok(router) => {
                                assert(outs0.push(out.deep_view()) + router =~= outs0 + (seq![
                                    out.deep_view(),
                                ] + router));
                            },
                            Err(_) => {},
                        }
                    }
                },
                Err(e) => {
                    match e {
                        ValError::LineErrors(line_errors) => {
                            let ghost es_all = line_errors.deep_view();
                            proof {
                                assert(head == Err::<ValueV, ValErrorV>(ValErrorV::LineErrors(
                                    es_all,
                                )));
                                assert(es_all.len() > 0);
                            }
                            let mut loc: Vec<LocItem> = Vec::new();
                            loc.push(LocItem::Index(index));
                            proof {
                                assert(loc.deep_view() =~= seq![
                                    LocItemV::Index(index as int),
                                ]);
                            }
                            let mut es = line_errors;
                            let es_total: usize = es.len();
                            let mut k: usize = 0;
                            while es.len() > 0
                                invariant
                                    es_all.len() == es_total as int,
                                    k as int + es@.len() == es_all.len(),
                                    es.deep_view() == es_all.skip(k as int),
                                    errors.deep_view() == errs0 + located(es_all, index as int)
                                        .take(k as int),
                                    loc.deep_view() == seq![LocItemV::Index(index as int)],
                                decreases es@.len(),
                            {
                                let ghost es_pre = es.deep_view();
                                let ghost es_vec_pre = es@;
                                let e0 = es.remove(0);
                                let e1 = e0.with_location(&loc);
                                proof {
                                    assert(es@ =~= es_vec_pre.skip(1));
                                    assert forall|j: int| 0 <= j < es@.len() implies es
                                        .deep_view()[j] == es_all.skip(k as int + 1)[j] by {
                                        assert(es@[j] == es_vec_pre[j + 1]);
                                        assert(es.deep_view()[j] == es@[j].deep_view());
                                        assert(es_pre[j + 1] == es_vec_pre[j + 1].deep_view());
                                    }
                                    assert(es.deep_view() =~= es_all.skip(k as int + 1));
                                    assert(e0.deep_view() == es_pre[0]);
                                    assert(e0.deep_view() == es_all[k as int]);
                                    assert(e1.deep_view() == es_all[k as int].prepended(
                                        LocItemV::Index(index as int),
                                    ));
                                    assert(e1.deep_view() == located(es_all, index as int)[
                                        k as int]);
                                }
                                let ghost errs_pre = errors.deep_view();
                                let ghost errs_vec_pre = errors@;
                                errors.push(e1);
                                proof {
                                    let located_all = located(es_all, index as int);
                                    assert(located_all.len() == es_all.len());
                                    assert(k as int + 1 <= es_all.len());
                                    assert(located_all.take(k as int).len() == k as int);
                                    assert(located_all.take(k as int + 1).len() == k as int
                                        + 1);
                                    assert(errs_pre.len() == errs0.len() + k as int);
                                    assert(errors@.len() == errs_vec_pre.len() + 1);
                                    assert forall|j: int|
                                        0 <= j < errors@.len() implies errors.deep_view()[j] == (
                                    errs0 + located_all.take(k as int + 1))[j] by {
                                        assert(errors.deep_view()[j] == errors@[j].deep_view());
                                        if j < errs_pre.len() {
                                            assert(errors@[j] == errs_vec_pre[j]);
                                            assert(errs_vec_pre[j].deep_view() == errs_pre[j]);
                                            assert(errs_pre[j] == (errs0 + located_all.take(
                                                k as int,
                                            ))[j]);
                                        } else {
                                            assert(errors@[j] == e1);
                                            assert(j == errs0.len() + k as int);
                                            assert(located_all.take(k as int + 1)[k as int]
                                                == located_all[k as int]);
                                        }
                                    }
                                    assert(errors.deep_view() =~= errs0 + located(
                                        es_all,
                                        index as int,
                                    ).take(k as int + 1));
                                }
                                k = k + 1;
                            }
                            proof {
                                assert(located(es_all, index as int).take(k as int) =~= located(
                                    es_all,
                                    index as int,
                                ));
                                assert(errors.deep_view() == errs0 + located(
                                    es_all,
                                    index as int,
                                ));
                                match tail {
                                    Err(ValErrorV::LineErrors(tes)) => {
                                        assert((errs0 + located(es_all, index as int)) + tes
                                            =~= errs0 + (located(es_all, index as int) + tes));
                                    },
                                    _ => {
                                        assert(located(es_all, index as int).len() > 0);
                                        assert(located(es_all, index as int) + Seq::<
                                            LineErrorV,
                                        >::empty() =~= located(es_all, index as int));
                                    },
                                }
                            }
                        },
                        ValError::Fatal(kind) => {
                            proof {
                                assert(spec_validate_elems(**child, items, index as int)
                                    == Err::<Seq<ValueV>, ValErrorV>(ValErrorV::Fatal(kind)));
                            }
                            return Err(ValError::Fatal(kind));
                        },
                    }
                },
            }
            index = index + 1;
        }
        proof {
            assert(items.skip(index as int) =~= Seq::<ValueV>::empty());
            assert(spec_validate_elems(**child, items, index as int) == Ok::<
                Seq<ValueV>,
                ValErrorV,
            >(Seq::empty()));
        }
        if errors.len() == 0 {
            proof {
                assert(errors.deep_view() =~= Seq::<LineErrorV>::empty());
                assert(output.deep_view() + Seq::<ValueV>::empty() =~= output.deep_view());
                lemma_deep_view_seq_is_deep_view(output);
            }
            Ok(Value::List(output))
        } else {
            proof {
                assert(errors.deep_view().len() > 0);
            }
            Err(ValError::LineErrors(errors))
        }
    }
}

/// Every outcome of a validation is well formed: a reportable failure always
/// carries at least one line error.
pub proof fn lemma_spec_validate_wf(v: SchemaValidator, input: ValueV)
    ensures
        spec_validate(v, input) matches Err(e) ==> wf_err(e),
    decreases v, 0int,
{
    match v {
        SchemaValidator::List(lv) => {
            lemma_spec_validate_list_wf(lv, input);
        },
        SchemaValidator::Int(_) => {},
    }
}

/// Well-formedness of the list validator's outcome.
pub proof fn lemma_spec_validate_list_wf(lv: ListValidator, input: ValueV)
    ensures
        spec_validate_list(lv, input) matches Err(e) ==> wf_err(e),
    decreases lv, 1int,
{
    match input {
        ValueV::List(items) => {
            match lv.item_validator {
                Some(child) => {
                    lemma_spec_validate_elems_wf(*child, items, 0);
                },
                None => {},
            }
        },
        _ => {},
    }
}

/// Well-formedness of the element loop's outcome.
pub proof fn lemma_spec_validate_elems_wf(child: SchemaValidator, items: Seq<ValueV>, i: int)
    ensures
        spec_validate_elems(child, items, i) matches Err(e) ==> wf_err(e),
    decreases child, items.len() - i + 1,
{
    if 0 <= i < items.len() {
        lemma_spec_validate_wf(child, items[i]);
        lemma_spec_validate_elems_wf(child, items, i + 1);
    }
}

} // verus!
