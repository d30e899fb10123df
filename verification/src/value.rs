//! The untyped input/output value and the coercion helper.
//!
//! A [`Value`] is what a validator receives and returns: an atomic scalar or
//! a list of further values, nested arbitrarily deep. The coercion helper
//! [`validate_list`] attempts to view a value as an ordered sequence without
//! yet validating its elements; a fundamentally wrong shape is a fatal
//! failure, not a reportable one.

use vstd::prelude::*;

use crate::errors::{ErrorKind, ValError, ValErrorV};

verus! {

/// An untyped value: what arrives at a validator and what it hands back.
#[derive(Debug, PartialEq, Eq)]
pub enum Value {
    Int(i64),
    Bool(bool),
    Str(String),
    List(Vec<Value>),
}

/// Mathematical model of a [`Value`].
pub enum ValueV {
    Int(i64),
    Bool(bool),
    Str(Seq<char>),
    List(Seq<ValueV>),
}

/// The models of the values of `s`, in order.
pub open spec fn deep_view_seq(s: Seq<Value>) -> Seq<ValueV>
    decreases s,
{
    if s.len() == 0 {
        Seq::empty()
    } else {
        seq![s[0].deep_view()] + deep_view_seq(s.skip(1))
    }
}

impl DeepView for Value {
    type V = ValueV;

    open spec fn deep_view(&self) -> ValueV
        decreases self,
    {
        match self {
            Value::Int(i) => ValueV::Int(*i),
            Value::Bool(b) => ValueV::Bool(*b),
            Value::Str(s) => ValueV::Str(s@),
            Value::List(items) => ValueV::List(deep_view_seq(items@)),
        }
    }
}

impl Clone for Value {
    /// An independent deep copy with the same model.
    #[verifier::loop_isolation(false)]
    fn clone(&self) -> (r: Self)
        ensures
            r.deep_view() == self.deep_view(),
        decreases self,
    {
        match self {
            Value::Int(i) => Value::Int(*i),
            Value::Bool(b) => Value::Bool(*b),
            Value::Str(s) => Value::Str(s.clone()),
            Value::List(items) => {
                let mut out: Vec<Value> = Vec::new();
                let mut idx: usize = 0;
                while idx < items.len()
                    invariant
                        idx <= items@.len(),
                        out@.len() == idx as int,
                        forall|j: int|
                            0 <= j < idx as int ==> out@[j].deep_view() == items@[j].deep_view(),
                    decreases items@.len() - idx,
                {
                    out.push(items[idx].clone());
                    idx = idx + 1;
                }
                proof {
                    lemma_deep_view_seq(out@);
                    lemma_deep_view_seq(items@);
                    assert(deep_view_seq(out@) =~= deep_view_seq(items@));
                }
                Value::List(out)
            },
        }
    }
}

/// `deep_view_seq` is the pointwise model of its argument.
pub proof fn lemma_deep_view_seq(s: Seq<Value>)
    ensures
        deep_view_seq(s).len() == s.len(),
        forall|i: int| 0 <= i < s.len() ==> deep_view_seq(s)[i] == s[i].deep_view(),
    decreases s.len(),
{
    if s.len() == 0 {
    } else {
        lemma_deep_view_seq(s.skip(1));
        assert(deep_view_seq(s) == seq![s[0].deep_view()] + deep_view_seq(s.skip(1)));
        assert forall|i: int| 0 <= i < s.len() implies deep_view_seq(s)[i] == s[i].deep_view() by {
            if i == 0 {
            } else {
                assert(deep_view_seq(s)[i] == deep_view_seq(s.skip(1))[i - 1]);
                assert(s.skip(1)[i - 1] == s[i]);
            }
        }
    }
}

/// `deep_view_seq` of a vector's contents is the vector's own deep view.
pub proof fn lemma_deep_view_seq_is_deep_view(v: Vec<Value>)
    ensures
        deep_view_seq(v@) == v.deep_view(),
{
    lemma_deep_view_seq(v@);
    assert(deep_view_seq(v@) =~= v.deep_view());
}

/// Views a value as an ordered sequence of element values, without validating
/// the elements. A value of any other shape is fatally rejected: no
/// sub-location can be established on a value of the wrong shape at all.
pub fn validate_list(v: Value) -> (r: Result<Vec<Value>, ValError>)
    ensures
        r matches Ok(items) ==> v.deep_view() == ValueV::List(items.deep_view()),
        (r is Ok) == (v.deep_view() is List),
        r matches Err(e) ==> e.deep_view() == ValErrorV::Fatal(ErrorKind::ListType),
{
    match v {
        Value::List(items) => {
            proof {
                lemma_deep_view_seq_is_deep_view(items);
            }
            Ok(items)
        },
        _ => Err(ValError::Fatal(ErrorKind::ListType)),
    }
}

} // verus!
