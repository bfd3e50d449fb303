//! Tests of grades, maturity, the memory model and the review scheduler.

use spbased::grade::{grade, Grade};
use spbased::maturity::Maturity;
use spbased::memory::{interval, retrievability};
use spbased::scheduler::{conclude, same_day, transition, ItemState, ReviewAction};
use spbased::status::ReviewItemStatus;

#[test]
fn grade_ranks() {
    assert_eq!(Grade::Again.rank(), 1);
    assert_eq!(Grade::Hard.rank(), 2);
    assert_eq!(Grade::Good.rank(), 3);
    assert_eq!(Grade::Easy.rank(), 4);
}

#[test]
fn grade_try_from() {
    assert_eq!(Grade::try_from(1).unwrap(), Grade::Again);
    assert_eq!(Grade::try_from(4).unwrap(), Grade::Easy);
    assert!(Grade::try_from(0).is_err());
    assert!(Grade::try_from(5).is_err());
}

#[test]
fn grade_parsing() {
    assert_eq!(grade("again").unwrap(), Grade::Again);
    assert_eq!(grade("HARD").unwrap(), Grade::Hard);
    assert_eq!(grade("Good").unwrap(), Grade::Good);
    assert_eq!(grade("easy").unwrap(), Grade::Easy);
    assert!(grade("perfect").is_err());
    assert!(grade("").is_err());
}

#[test]
fn parse_from_i32() {
    let works_nums = ["inbox", "review", "burried"];
    for i in works_nums {
        assert!(ReviewItemStatus::try_from(i).is_ok());
    }
    let not_works_nums = ["42", "52", "not_status", "boofed"];
    for i in not_works_nums {
        assert!(ReviewItemStatus::try_from(i).is_err());
    }
}

#[test]
fn maturity_encoding_round_trip() {
    for m in [Maturity::New, Maturity::Young, Maturity::Tenured] {
        assert_eq!(Maturity::from_sql_str(m.sql_str()).unwrap(), m);
    }
    assert!(Maturity::from_sql_str("ancient").is_none());
    assert_eq!(Maturity::Tenured.name(), "Tenured");
}

#[test]
fn interval_monotone_in_retrievability() {
    // A lower retrievability target means a longer wait, at fixed stability.
    let s = 10_000; // ten days, in thousandths
    let lax = interval(800, s);
    let strict = interval(950, s);
    assert!(lax > strict);
}

#[test]
fn interval_at_ninety_percent_is_stability() {
    // The forgetting-curve factor is tuned so that retrievability reaches
    // 0.9 after exactly `stability` days.
    assert_eq!(interval(900, 5_000), 5_000);
    assert_eq!(interval(900, 1_000), 1_000);
}

#[test]
fn retrievability_round_trip() {
    // Asking for the retrievability after exactly the computed interval
    // gives the target back.
    for r in [100u64, 500, 800, 900, 950, 999] {
        for s in [1_000u64, 5_000, 36_500_000] {
            assert_eq!(retrievability(interval(r, s), s), r);
        }
    }
}

#[test]
fn retrievability_starts_at_one() {
    // Immediately after a review, recall probability is 1.
    assert_eq!(retrievability(0, 12_345), 1000);
}

#[test]
fn transition_table_coverage() {
    for sd in [true, false] {
        assert_eq!(transition(Maturity::New, Grade::Again, sd), ReviewAction::RepeatNow);
        assert_eq!(transition(Maturity::New, Grade::Hard, sd), ReviewAction::RepeatNow);
        assert_eq!(transition(Maturity::New, Grade::Good, sd), ReviewAction::Initialize);
        assert_eq!(transition(Maturity::New, Grade::Easy, sd), ReviewAction::Initialize);
        for m in [Maturity::Young, Maturity::Tenured] {
            assert_eq!(transition(m, Grade::Again, true), ReviewAction::Cram);
            assert_eq!(transition(m, Grade::Again, false), ReviewAction::Lapse);
            for g in [Grade::Hard, Grade::Good, Grade::Easy] {
                assert_eq!(transition(m, g, true), ReviewAction::ShortTerm);
                assert_eq!(transition(m, g, false), ReviewAction::LongTerm);
            }
        }
    }
}

fn young_item() -> ItemState {
    ItemState {
        maturity: Maturity::Young,
        stability_milli: 50_000,
        difficulty_milli: 5_000,
        last_review_epoch: 1_700_000_000,
        n_reviews: 3,
        n_lapses: 1,
    }
}

#[test]
fn conclude_repeat_now_only_counts() {
    let item = ItemState {
        maturity: Maturity::New,
        stability_milli: 0,
        difficulty_milli: 0,
        last_review_epoch: 0,
        n_reviews: 0,
        n_lapses: 0,
    };
    let r = conclude(&item, ReviewAction::RepeatNow, 0, 0, 1_700_000_500);
    assert_eq!(r.n_reviews, 1);
    assert_eq!(r.n_lapses, 0);
    assert_eq!(r.maturity, Maturity::New);
    assert_eq!(r.stability_milli, 0);
    assert_eq!(r.last_review_epoch, 0);
}

#[test]
fn conclude_initialize_promotes_to_young() {
    let item = ItemState {
        maturity: Maturity::New,
        stability_milli: 0,
        difficulty_milli: 0,
        last_review_epoch: 0,
        n_reviews: 0,
        n_lapses: 0,
    };
    let r = conclude(&item, ReviewAction::Initialize, 3_173, 5_000, 1_700_000_500);
    assert_eq!(r.maturity, Maturity::Young);
    assert_eq!(r.stability_milli, 3_173);
    assert_eq!(r.difficulty_milli, 5_000);
    assert_eq!(r.last_review_epoch, 1_700_000_500);
    assert_eq!(r.n_reviews, 1);
    assert_eq!(r.n_lapses, 0);
}

#[test]
fn conclude_cram_changes_nothing() {
    let item = young_item();
    let r = conclude(&item, ReviewAction::Cram, 999, 999, 999);
    assert_eq!(r, item);
}

#[test]
fn conclude_lapse_counts_and_stamps() {
    let item = young_item();
    let r = conclude(&item, ReviewAction::Lapse, 10_000, 6_000, 1_700_100_000);
    assert_eq!(r.maturity, Maturity::Young);
    assert_eq!(r.stability_milli, 10_000);
    assert_eq!(r.difficulty_milli, 6_000);
    assert_eq!(r.last_review_epoch, 1_700_100_000);
    assert_eq!(r.n_reviews, 4);
    assert_eq!(r.n_lapses, 2);
}

#[test]
fn promotion_boundary() {
    // 99.9 days stays Young; 100.1 days becomes Tenured.
    let item = young_item();
    let stays = conclude(&item, ReviewAction::LongTerm, 99_900, 5_000, 1_700_100_000);
    assert_eq!(stays.maturity, Maturity::Young);
    let promoted = conclude(&item, ReviewAction::LongTerm, 100_100, 5_000, 1_700_100_000);
    assert_eq!(promoted.maturity, Maturity::Tenured);
    let exact = conclude(&item, ReviewAction::ShortTerm, 100_000, 5_000, 1_700_100_000);
    assert_eq!(exact.maturity, Maturity::Young);
}

#[test]
fn tenured_is_never_demoted() {
    let mut item = young_item();
    item.maturity = Maturity::Tenured;
    let r = conclude(&item, ReviewAction::LongTerm, 50_000, 5_000, 1_700_100_000);
    assert_eq!(r.maturity, Maturity::Tenured);
}

#[test]
fn grading_ignores_counters() {
    // Repeatedly grading Good on an already-Tenured item with the same
    // elapsed time yields the same memory state, whatever the counters.
    let mut a = young_item();
    a.maturity = Maturity::Tenured;
    let mut b = a;
    b.n_reviews = 99;
    b.n_lapses = 42;
    b.last_review_epoch = 5;
    let ra = conclude(&a, ReviewAction::LongTerm, 120_000, 5_200, 1_700_100_000);
    let rb = conclude(&b, ReviewAction::LongTerm, 120_000, 5_200, 1_700_100_000);
    assert_eq!(ra.maturity, rb.maturity);
    assert_eq!(ra.stability_milli, rb.stability_milli);
    assert_eq!(ra.difficulty_milli, rb.difficulty_milli);
}

#[test]
fn same_day_boundary() {
    assert!(same_day(0));
    assert!(same_day(86_399));
    assert!(!same_day(86_400));
    assert!(!same_day(1_000_000));
}
