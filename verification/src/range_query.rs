//! Filters on a timestamp.
use crate::params::{opt_int, ParamValue, ParamView, Params, ParamsView};
use vstd::prelude::*;

verus! {

/// Seconds since the Unix epoch.
pub type Timestamp = i64;

/// The bounds of a range of timestamps. A bound that is unset does not bind.
#[derive(Copy, Clone, Debug, PartialEq, Eq, Structural)]
pub struct RangeBoundsTs {
    /// Minimum value to filter by (exclusive).
    pub gt: Option<Timestamp>,
    /// Minimum value to filter by (inclusive).
    pub gte: Option<Timestamp>,
    /// Maximum value to filter by (exclusive).
    pub lt: Option<Timestamp>,
    /// Maximum value to filter by (inclusive).
    pub lte: Option<Timestamp>,
}

impl RangeBoundsTs {
    /// The range without bounds.
    pub fn new() -> (r: RangeBoundsTs)
        ensures
            r == (RangeBoundsTs { gt: None, gte: None, lt: None, lte: None }),
            r.wire_params() == Seq::<(Seq<char>, ParamView)>::empty(),
    {
        let r = RangeBoundsTs { gt: None, gte: None, lt: None, lte: None };
        assert(r.wire_params() =~= Seq::empty());
        r
    }

    /// The bounds that are set, in the order `gt`, `gte`, `lt`, `lte`.
    pub open spec fn wire_params(self) -> ParamsView {
        Seq::empty() + opt_int("gt"@, self.gt) + opt_int("gte"@, self.gte) + opt_int(
            "lt"@,
            self.lt,
        ) + opt_int("lte"@, self.lte)
    }

    pub fn to_params(&self) -> (r: Params)
        ensures
            r@ == self.wire_params(),
    {
        let mut p = Params::new();
        p.push_opt_int("gt", self.gt);
        p.push_opt_int("gte", self.gte);
        p.push_opt_int("lt", self.lt);
        p.push_opt_int("lte", self.lte);
        p
    }
}

/// A filter on a timestamp: one exact value, or a range.
#[derive(Copy, Clone, Debug, PartialEq, Eq, Structural)]
pub enum RangeQueryTs {
    Exact(Timestamp),
    Bounds(RangeBoundsTs),
}

impl DeepView for RangeQueryTs {
    type V = ParamView;

    open spec fn deep_view(&self) -> ParamView {
        self.wire_value()
    }
}

impl RangeQueryTs {
    /// The value that the filter puts on the wire: the timestamp itself, or the bounds
    /// that are set.
    pub open spec fn wire_value(self) -> ParamView {
        match self {
            RangeQueryTs::Exact(t) => ParamView::Int(t as int),
            RangeQueryTs::Bounds(b) => ParamView::Object(b.wire_params()),
        }
    }

    pub fn to_value(&self) -> (r: ParamValue)
        ensures
            r@ == self.wire_value(),
    {
        match self {
            RangeQueryTs::Exact(t) => ParamValue::Int(*t),
            RangeQueryTs::Bounds(b) => ParamValue::object(b.to_params()),
        }
    }
}

} // verus!
