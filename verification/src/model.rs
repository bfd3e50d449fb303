//! The rows the query layer reads and writes. Timestamps travel as their
//! stored text; stability and difficulty travel as the stored numeral text,
//! since the scheduler consumes them only after conversion to thousandths
//! (see [`crate::scheduler::ItemState`]).

use vstd::prelude::*;

verus! {

/// One reviewable item, as stored.
pub struct Item {
    /// The unique identifier.
    pub id: i32,
    /// The learning stage, in its stored encoding (see
    /// [`crate::maturity::Maturity::sql_str`]).
    pub maturity: String,
    /// The stored stability numeral, in days.
    pub stability: String,
    /// The stored difficulty numeral.
    pub difficulty: String,
    /// The timestamp of the most recent grading.
    pub last_review_date: String,
    /// How many times the item has been graded.
    pub n_reviews: i32,
    /// How many times a seen item has been graded `Again`.
    pub n_lapses: i32,
    /// The free-form tag identifying the item's content format.
    pub model: String,
    /// The opaque payload.
    pub data: String,
    /// The timestamp of the last change to the row.
    pub updated_at: String,
    /// The timestamp of the row's creation.
    pub created_at: String,
}

/// One tag, as stored.
pub struct Tag {
    /// The unique identifier.
    pub id: i32,
    /// The tag's name, unique among tags.
    pub name: String,
    /// The timestamp of the last change to the row.
    pub updated_at: String,
    /// The timestamp of the row's creation.
    pub created_at: String,
}

} // verus!
