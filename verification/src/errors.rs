//! The error model: what went wrong and where.
//!
//! A single failure is a [`ValLineError`]: a kind, an optional structured
//! context, and a location path that pins the offending sub-value down within
//! the nested input. A whole validation outcome that failed is a [`ValError`]:
//! either a collection of reportable line errors, which composite validators
//! merge across sibling sub-validations, or a fatal failure that aborts the
//! whole validation immediately and is never aggregated.

use vstd::prelude::*;

verus! {

/// Classification of a validation failure; one member per distinct rule.
#[derive(Clone, Copy, Debug, PartialEq, Eq)]
pub enum ErrorKind {
    /// The value cannot be viewed as a list at all.
    ListType,
    /// The list has fewer elements than the configured minimum.
    ListTooShort,
    /// The list has more elements than the configured maximum.
    ListTooLong,
    /// The value is not an integer.
    IntType,
}

/// One segment of a location path: a sequence index or a mapping key.
#[derive(Debug, PartialEq, Eq)]
pub enum LocItem {
    /// Position within a sequence.
    Index(usize),
    /// Key within a mapping.
    Key(String),
}

/// Mathematical model of a [`LocItem`].
pub enum LocItemV {
    Index(int),
    Key(Seq<char>),
}

impl DeepView for LocItem {
    type V = LocItemV;

    open spec fn deep_view(&self) -> LocItemV {
        match self {
            LocItem::Index(i) => LocItemV::Index(*i as int),
            LocItem::Key(s) => LocItemV::Key(s@),
        }
    }
}

impl Clone for LocItem {
    fn clone(&self) -> (r: Self)
        ensures
            r.deep_view() == self.deep_view(),
    {
        match self {
            LocItem::Index(i) => LocItem::Index(*i),
            LocItem::Key(s) => LocItem::Key(s.clone()),
        }
    }
}

/// One key/value entry of an error's structured context.
#[derive(Debug, PartialEq, Eq)]
pub struct ContextEntry {
    pub key: String,
    pub value: usize,
}

/// Mathematical model of a [`ContextEntry`].
pub struct ContextEntryV {
    pub key: Seq<char>,
    pub value: usize,
}

impl DeepView for ContextEntry {
    type V = ContextEntryV;

    open spec fn deep_view(&self) -> ContextEntryV {
        ContextEntryV { key: self.key@, value: self.value }
    }
}

/// A single reportable validation failure: its kind, optional structured
/// context, and the location path of the offending sub-value relative to the
/// root input.
#[derive(Debug, PartialEq, Eq)]
pub struct ValLineError {
    pub kind: ErrorKind,
    pub context: Option<Vec<ContextEntry>>,
    pub location: Vec<LocItem>,
}

/// Mathematical model of a [`ValLineError`].
pub struct LineErrorV {
    pub kind: ErrorKind,
    pub context: Option<Seq<ContextEntryV>>,
    pub location: Seq<LocItemV>,
}

impl LineErrorV {
    /// The same error, seen one nesting level further out: `seg` is prepended
    /// to the location path.
    pub open spec fn prepended(self, seg: LocItemV) -> LineErrorV {
        LineErrorV { kind: self.kind, context: self.context, location: seq![seg] + self.location }
    }
}

impl DeepView for ValLineError {
    type V = LineErrorV;

    open spec fn deep_view(&self) -> LineErrorV {
        LineErrorV {
            kind: self.kind,
            context: self.context.deep_view(),
            location: self.location.deep_view(),
        }
    }
}

impl ValLineError {
    /// A fresh error with an empty location path.
    pub fn new(kind: ErrorKind, context: Option<Vec<ContextEntry>>) -> (r: ValLineError)
        ensures
            r.deep_view() == (LineErrorV {
                kind: kind,
                context: context.deep_view(),
                location: Seq::<LocItemV>::empty(),
            }),
    {
        let r = ValLineError { kind, context, location: Vec::new() };
        proof {
            assert(r.location.deep_view() =~= Seq::<LocItemV>::empty());
        }
        r
    }

    /// The same error re-emitted one nesting level further out: the segments
    /// of `loc` are prepended, in order, to the error's location path. Kind
    /// and context are unchanged.
    pub fn with_location(self, loc: &Vec<LocItem>) -> (r: ValLineError)
        ensures
            r.deep_view().kind == self.deep_view().kind,
            r.deep_view().context == self.deep_view().context,
            r.deep_view().location == loc.deep_view() + self.deep_view().location,
    {
        let ghost self_loc = self.location.deep_view();
        let mut new_loc: Vec<LocItem> = Vec::new();
        let mut i: usize = 0;
        while i < loc.len()
            invariant
                i <= loc.len(),
                new_loc@.len() == i,
                forall|j: int| 0 <= j < i ==> new_loc@[j].deep_view() == loc@[j].deep_view(),
            decreases loc.len() - i,
        {
            new_loc.push(loc[i].clone());
            i = i + 1;
        }
        let mut rest = self.location;
        new_loc.append(&mut rest);
        proof {
            assert(new_loc.deep_view() =~= loc.deep_view() + self_loc);
        }
        ValLineError { kind: self.kind, context: self.context, location: new_loc }
    }
}

/// The outcome of a failed validation: either a collection of reportable
/// line errors, or a fatal failure that cannot be aggregated and aborts the
/// whole validation at once.
#[derive(Debug, PartialEq, Eq)]
pub enum ValError {
    /// Reportable, collectible failures, in the order the sub-validations
    /// that produced them were performed.
    LineErrors(Vec<ValLineError>),
    /// Validation itself could not proceed; propagates untouched.
    Fatal(ErrorKind),
}

/// Mathematical model of a [`ValError`].
pub enum ValErrorV {
    LineErrors(Seq<LineErrorV>),
    Fatal(ErrorKind),
}

impl DeepView for ValError {
    type V = ValErrorV;

    open spec fn deep_view(&self) -> ValErrorV {
        match self {
            ValError::LineErrors(errs) => ValErrorV::LineErrors(errs.deep_view()),
            ValError::Fatal(kind) => ValErrorV::Fatal(*kind),
        }
    }
}

/// A well-formed failed outcome never carries an empty collection of line
/// errors: a validator that found nothing wrong succeeds instead.
pub open spec fn wf_err(e: ValErrorV) -> bool {
    e matches ValErrorV::LineErrors(errs) ==> errs.len() > 0
}

} // verus!
