//! Item maturity: the coarse learning stage of a reviewable item.

use vstd::prelude::*;

verus! {

/// A measure of how well an item has been learnt. Maturity only ever
/// advances `New -> Young -> Tenured`; the scheduler never demotes an item.
#[derive(Clone, Copy, PartialEq, Eq, Structural, Debug)]
pub enum Maturity {
    /// The item has not yet been graded.
    New,
    /// The item has been graded, with a stability of at most a hundred days.
    Young,
    /// The item's stability has exceeded a hundred days; it can be
    /// considered fully learnt.
    Tenured,
}

impl Maturity {
    /// The position of the stage on the `New -> Young -> Tenured` ladder.
    pub open spec fn spec_rank(self) -> int {
        match self {
            Maturity::New => 0,
            Maturity::Young => 1,
            Maturity::Tenured => 2,
        }
    }

    /// The storage encoding of each stage.
    pub open spec fn spec_sql_str(self) -> Seq<char> {
        match self {
            Maturity::New => "new"@,
            Maturity::Young => "young"@,
            Maturity::Tenured => "tenured"@,
        }
    }

    /// The lower-case name under which the stage is stored.
    pub fn sql_str(self) -> (r: &'static str)
        ensures
            r@ == self.spec_sql_str(),
    {
        match self {
            Maturity::New => "new",
            Maturity::Young => "young",
            Maturity::Tenured => "tenured",
        }
    }

    /// The stage stored under `value`, if any: the inverse of
    /// [`Maturity::sql_str`].
    pub fn from_sql_str(value: &str) -> (r: Option<Maturity>)
        ensures
            match r {
                Some(m) => m.spec_sql_str() == value@,
                None => forall|m: Maturity| m.spec_sql_str() != value@,
            },
    {
        if crate::chars::str_eq(value, "new") {
            Some(Maturity::New)
        } else if crate::chars::str_eq(value, "young") {
            Some(Maturity::Young)
        } else if crate::chars::str_eq(value, "tenured") {
            Some(Maturity::Tenured)
        } else {
            assert(forall|m: Maturity| m.spec_sql_str() != value@) by {
                assert(Maturity::New.spec_sql_str() == "new"@);
                assert(Maturity::Young.spec_sql_str() == "young"@);
                assert(Maturity::Tenured.spec_sql_str() == "tenured"@);
            }
            None
        }
    }

    /// The capitalized display name of the stage.
    pub fn name(self) -> (r: &'static str)
        ensures
            self == Maturity::New ==> r@ == "New"@,
            self == Maturity::Young ==> r@ == "Young"@,
            self == Maturity::Tenured ==> r@ == "Tenured"@,
    {
        match self {
            Maturity::New => "New",
            Maturity::Young => "Young",
            Maturity::Tenured => "Tenured",
        }
    }
}

} // verus!
