//! How a measured value stands to a bound.

use std::cmp::Ordering;
use vstd::prelude::*;

verus! {

/// The outcome of comparing a measured value with a bound. The rules
/// read measurements only through such outcomes, so that each rule says
/// itself whether its bound is strict.
#[derive(Clone, Copy, Debug, PartialEq, Eq, Structural)]
pub enum Relation {
    /// The value is smaller than the bound.
    Less,
    /// The value is the bound.
    Equal,
    /// The value is larger than the bound.
    Greater,
    /// The two cannot be ordered: one of them is not a number.
    Unordered,
}

impl Relation {
    /// The value is strictly below the bound.
    pub open spec fn lt(self) -> bool {
        self is Less
    }

    /// The value is strictly above the bound.
    pub open spec fn gt(self) -> bool {
        self is Greater
    }

    /// The value is at or above the bound.
    pub open spec fn ge(self) -> bool {
        self is Equal || self is Greater
    }

    /// The relation that a partial comparison found.
    pub open spec fn of_partial(found: Option<Ordering>) -> Relation {
        match found {
            Some(Ordering::Less) => Relation::Less,
            Some(Ordering::Equal) => Relation::Equal,
            Some(Ordering::Greater) => Relation::Greater,
            None => Relation::Unordered,
        }
    }

    /// Turns the result of a partial comparison of a value with a bound
    /// into a relation.
    pub fn from_partial(found: Option<Ordering>) -> (relation: Relation)
        ensures
            relation == Relation::of_partial(found),
    {
        match found {
            Some(Ordering::Less) => Relation::Less,
            Some(Ordering::Equal) => Relation::Equal,
            Some(Ordering::Greater) => Relation::Greater,
            None => Relation::Unordered,
        }
    }

    /// Whether the value is strictly below the bound.
    pub fn is_lt(self) -> (yes: bool)
        ensures
            yes == self.lt(),
    {
        matches!(self, Relation::Less)
    }

    /// Whether the value is strictly above the bound.
    pub fn is_gt(self) -> (yes: bool)
        ensures
            yes == self.gt(),
    {
        matches!(self, Relation::Greater)
    }

    /// Whether the value is at or above the bound.
    pub fn is_ge(self) -> (yes: bool)
        ensures
            yes == self.ge(),
    {
        matches!(self, Relation::Equal | Relation::Greater)
    }
}

} // verus!
