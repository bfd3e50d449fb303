//! Review item statuses used by the collection layer.

use vstd::prelude::*;

verus! {

/// Error returned when a string names no [`ReviewItemStatus`].
#[derive(Debug)]
pub struct ConversionError;

/// The coarse workflow state of a review item in the collection.
#[derive(Clone, Copy, PartialEq, Eq, Structural, Debug)]
pub enum ReviewItemStatus {
    /// Captured but not yet curated.
    Inbox,
    /// Part of the active review rotation.
    Review,
    /// Set aside; excluded from review.
    Burried,
}

impl ReviewItemStatus {
    /// The lower-case name of each status.
    pub open spec fn spec_name(self) -> Seq<char> {
        match self {
            ReviewItemStatus::Inbox => "inbox"@,
            ReviewItemStatus::Review => "review"@,
            ReviewItemStatus::Burried => "burried"@,
        }
    }

    /// The lower-case name of the status.
    pub fn name(self) -> (r: &'static str)
        ensures
            r@ == self.spec_name(),
    {
        match self {
            ReviewItemStatus::Inbox => "inbox",
            ReviewItemStatus::Review => "review",
            ReviewItemStatus::Burried => "burried",
        }
    }

    /// The status named by `value`, if any: the inverse of
    /// [`ReviewItemStatus::name`].
    pub fn try_from(value: &str) -> (r: Result<ReviewItemStatus, ConversionError>)
        ensures
            match r {
                Ok(s) => s.spec_name() == value@,
                Err(_) => forall|s: ReviewItemStatus| s.spec_name() != value@,
            },
    {
        if crate::chars::str_eq(value, "inbox") {
            Ok(ReviewItemStatus::Inbox)
        } else if crate::chars::str_eq(value, "review") {
            Ok(ReviewItemStatus::Review)
        } else if crate::chars::str_eq(value, "burried") {
            Ok(ReviewItemStatus::Burried)
        } else {
            Err(ConversionError)
        }
    }
}

} // verus!
