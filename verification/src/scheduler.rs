//! The review scheduler: a state machine over item maturity.
//!
//! Grading an item proceeds in two verified steps. [`transition`] decides,
//! from the item's maturity, the grade and whether the item was already
//! reviewed the same day, which update law applies. The numeric update laws
//! themselves run outside this crate; [`conclude`] then takes their results
//! (as thousandths, see [`crate::memory`]) and produces the complete new
//! item state: counters, maturity promotion and the review-date stamp.
//!
//! "Same day" means that less than one day has elapsed since the previous
//! grading ([`same_day`]); maturity only ever moves forward on the
//! `New -> Young -> Tenured` ladder ([`lemma_maturity_ratchet`]).

use vstd::prelude::*;
use crate::grade::Grade;
use crate::maturity::Maturity;

verus! {

/// The number of seconds in a day.
pub open spec fn spec_seconds_per_day() -> int {
    86400
}

/// The stability, in thousandths of a day, above which an item is promoted
/// to `Tenured`: a hundred days.
pub open spec fn spec_tenure_threshold_milli() -> int {
    100_000
}

/// Which update law a grading event falls under.
#[derive(Clone, Copy, PartialEq, Eq, Structural, Debug)]
pub enum ReviewAction {
    /// A new item was graded `Again` or `Hard`: re-present it now; only the
    /// review counter moves.
    RepeatNow,
    /// A new item was graded `Good` or `Easy`: initialize its memory state
    /// and promote it to `Young`.
    Initialize,
    /// A seen item was graded `Again` on the day it was already reviewed:
    /// a cramming repeat, left unchanged.
    Cram,
    /// A seen item was graded `Again` on a later day: the failure update law
    /// applies and the lapse counter moves.
    Lapse,
    /// A seen item was graded `Hard`, `Good` or `Easy` on the day it was
    /// already reviewed: the short-term update law applies.
    ShortTerm,
    /// A seen item was graded `Hard`, `Good` or `Easy` on a later day: the
    /// success update law applies.
    LongTerm,
}

/// The transition table: which action a `(maturity, grade, same-day)`
/// triple falls under.
pub open spec fn spec_transition(m: Maturity, g: Grade, same_day: bool) -> ReviewAction {
    match m {
        Maturity::New => match g {
            Grade::Again | Grade::Hard => ReviewAction::RepeatNow,
            Grade::Good | Grade::Easy => ReviewAction::Initialize,
        },
        Maturity::Young | Maturity::Tenured => match g {
            Grade::Again => if same_day {
                ReviewAction::Cram
            } else {
                ReviewAction::Lapse
            },
            Grade::Hard | Grade::Good | Grade::Easy => if same_day {
                ReviewAction::ShortTerm
            } else {
                ReviewAction::LongTerm
            },
        },
    }
}

/// Decides which update law applies to a grading event.
pub fn transition(m: Maturity, g: Grade, same_day: bool) -> (a: ReviewAction)
    ensures
        a == spec_transition(m, g, same_day),
{
    match m {
        Maturity::New => match g {
            Grade::Again | Grade::Hard => ReviewAction::RepeatNow,
            Grade::Good | Grade::Easy => ReviewAction::Initialize,
        },
        Maturity::Young | Maturity::Tenured => match g {
            Grade::Again => if same_day {
                ReviewAction::Cram
            } else {
                ReviewAction::Lapse
            },
            Grade::Hard | Grade::Good | Grade::Easy => if same_day {
                ReviewAction::ShortTerm
            } else {
                ReviewAction::LongTerm
            },
        },
    }
}

/// True when a review `elapsed_seconds` after the previous one counts as a
/// same-day repeat: less than one day has passed.
pub fn same_day(elapsed_seconds: i64) -> (r: bool)
    ensures
        r == (elapsed_seconds < spec_seconds_per_day()),
{
    elapsed_seconds < 86400
}

/// The memory and bookkeeping state of one item, as the scheduler sees it.
/// Stability and difficulty are carried in thousandths (see
/// [`crate::memory`]); the review date is an epoch second.
#[derive(Clone, Copy, PartialEq, Eq, Structural, Debug)]
pub struct ItemState {
    /// The item's learning stage.
    pub maturity: Maturity,
    /// Stability in thousandths of a day; meaningful only once the item has
    /// left `New`.
    pub stability_milli: i64,
    /// Difficulty in thousandths; meaningful only once the item has left
    /// `New`.
    pub difficulty_milli: i64,
    /// The epoch second of the most recent grading.
    pub last_review_epoch: i64,
    /// How many times the item has been graded.
    pub n_reviews: i64,
    /// How many times a seen item has been graded `Again`.
    pub n_lapses: i64,
}

/// The new item state after an action whose numeric results are
/// `new_s_milli` and `new_d_milli`, concluded at epoch second `now_epoch`.
///
/// - `RepeatNow` moves the review counter and nothing else.
/// - `Cram` changes nothing.
/// - `Initialize` stores the initial memory state, promotes to `Young` and
///   stamps the review date.
/// - `Lapse` stores the updated memory state, moves both counters and
///   stamps; maturity is unchanged.
/// - `ShortTerm` and `LongTerm` store the updated memory state, move the
///   review counter, stamp, and promote to `Tenured` exactly when the new
///   stability exceeds the tenure threshold.
pub open spec fn spec_conclude(
    item: ItemState,
    a: ReviewAction,
    new_s_milli: i64,
    new_d_milli: i64,
    now_epoch: i64,
) -> ItemState {
    match a {
        ReviewAction::RepeatNow => ItemState {
            n_reviews: (item.n_reviews + 1) as i64,
            ..item
        },
        ReviewAction::Cram => item,
        ReviewAction::Initialize => ItemState {
            maturity: Maturity::Young,
            stability_milli: new_s_milli,
            difficulty_milli: new_d_milli,
            last_review_epoch: now_epoch,
            n_reviews: (item.n_reviews + 1) as i64,
            n_lapses: item.n_lapses,
        },
        ReviewAction::Lapse => ItemState {
            maturity: item.maturity,
            stability_milli: new_s_milli,
            difficulty_milli: new_d_milli,
            last_review_epoch: now_epoch,
            n_reviews: (item.n_reviews + 1) as i64,
            n_lapses: (item.n_lapses + 1) as i64,
        },
        ReviewAction::ShortTerm | ReviewAction::LongTerm => ItemState {
            maturity: if new_s_milli > spec_tenure_threshold_milli() {
                Maturity::Tenured
            } else {
                item.maturity
            },
            stability_milli: new_s_milli,
            difficulty_milli: new_d_milli,
            last_review_epoch: now_epoch,
            n_reviews: (item.n_reviews + 1) as i64,
            n_lapses: item.n_lapses,
        },
    }
}

/// Concludes a grading event: applies the bookkeeping of action `a` to
/// `item`, storing the numeric results computed for that action.
pub fn conclude(
    item: &ItemState,
    a: ReviewAction,
    new_s_milli: i64,
    new_d_milli: i64,
    now_epoch: i64,
) -> (r: ItemState)
    requires
        item.n_reviews < i64::MAX,
        item.n_lapses < i64::MAX,
    ensures
        r == spec_conclude(*item, a, new_s_milli, new_d_milli, now_epoch),
{
    match a {
        ReviewAction::RepeatNow => ItemState { n_reviews: item.n_reviews + 1, ..*item },
        ReviewAction::Cram => *item,
        ReviewAction::Initialize => ItemState {
            maturity: Maturity::Young,
            stability_milli: new_s_milli,
            difficulty_milli: new_d_milli,
            last_review_epoch: now_epoch,
            n_reviews: item.n_reviews + 1,
            n_lapses: item.n_lapses,
        },
        ReviewAction::Lapse => ItemState {
            maturity: item.maturity,
            stability_milli: new_s_milli,
            difficulty_milli: new_d_milli,
            last_review_epoch: now_epoch,
            n_reviews: item.n_reviews + 1,
            n_lapses: item.n_lapses + 1,
        },
        ReviewAction::ShortTerm | ReviewAction::LongTerm => ItemState {
            maturity: if new_s_milli > 100_000 {
                Maturity::Tenured
            } else {
                item.maturity
            },
            stability_milli: new_s_milli,
            difficulty_milli: new_d_milli,
            last_review_epoch: now_epoch,
            n_reviews: item.n_reviews + 1,
            n_lapses: item.n_lapses,
        },
    }
}

/// State-machine coverage: every `(maturity, grade, same-day)` combination
/// falls under exactly the action of the transition table, row by row.
pub proof fn lemma_transition_table(g: Grade, same_day: bool)
    ensures
        (g == Grade::Again || g == Grade::Hard) ==> spec_transition(Maturity::New, g, same_day)
            == ReviewAction::RepeatNow,
        (g == Grade::Good || g == Grade::Easy) ==> spec_transition(Maturity::New, g, same_day)
            == ReviewAction::Initialize,
        forall|m: Maturity|
            m != Maturity::New ==> #[trigger] spec_transition(m, g, same_day) == (if g
                == Grade::Again {
                if same_day {
                    ReviewAction::Cram
                } else {
                    ReviewAction::Lapse
                }
            } else {
                if same_day {
                    ReviewAction::ShortTerm
                } else {
                    ReviewAction::LongTerm
                }
            }),
{
}

/// The maturity ratchet: concluding any action never moves the item's
/// maturity backwards, and a `New` item never skips straight past `Young`.
pub proof fn lemma_maturity_ratchet(
    item: ItemState,
    a: ReviewAction,
    new_s_milli: i64,
    new_d_milli: i64,
    now_epoch: i64,
)
    requires
        a == ReviewAction::Initialize ==> item.maturity == Maturity::New,
    ensures
        spec_conclude(item, a, new_s_milli, new_d_milli, now_epoch).maturity.spec_rank()
            >= item.maturity.spec_rank(),
{
}

/// Grading is a pure function of the memory state: two items that agree on
/// maturity, stability and difficulty conclude any action with the same
/// maturity, stability and difficulty, whatever their counters or review
/// dates. In particular, repeatedly grading `Good` on a `Tenured` item with
/// the same elapsed time always yields the same memory state.
pub proof fn lemma_grading_ignores_counters(
    item1: ItemState,
    item2: ItemState,
    a: ReviewAction,
    new_s_milli: i64,
    new_d_milli: i64,
    now_epoch: i64,
)
    requires
        item1.maturity == item2.maturity,
        item1.stability_milli == item2.stability_milli,
        item1.difficulty_milli == item2.difficulty_milli,
        a != ReviewAction::RepeatNow,
        a != ReviewAction::Cram,
    ensures
        ({
            let r1 = spec_conclude(item1, a, new_s_milli, new_d_milli, now_epoch);
            let r2 = spec_conclude(item2, a, new_s_milli, new_d_milli, now_epoch);
            r1.maturity == r2.maturity && r1.stability_milli == r2.stability_milli
                && r1.difficulty_milli == r2.difficulty_milli
        }),
{
}

} // verus!
