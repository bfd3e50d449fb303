//! Review grades: the four possible outcomes of grading a review.

use vstd::prelude::*;

verus! {

/// Error returned when a value cannot be converted into a [`Grade`].
#[derive(Debug)]
pub struct ConversionError;

/// The character with an upper-case letter folded to lower case.
pub open spec fn spec_lower(c: char) -> char {
    if 'A' <= c <= 'Z' {
        ((c as u8) + 32) as char
    } else {
        c
    }
}

/// The sequence with every upper-case letter folded to lower case.
pub open spec fn spec_lower_seq(s: Seq<char>) -> Seq<char> {
    s.map_values(|c: char| spec_lower(c))
}

/// The grade named by `s`, compared case-insensitively: the lower-cased
/// input must spell `again`, `hard`, `good` or `easy`.
pub fn grade(s: &str) -> (r: Result<Grade, String>)
    ensures
        match r {
            Ok(g) => {
                ||| g == Grade::Again && spec_lower_seq(s@) == "again"@
                ||| g == Grade::Hard && spec_lower_seq(s@) == "hard"@
                ||| g == Grade::Good && spec_lower_seq(s@) == "good"@
                ||| g == Grade::Easy && spec_lower_seq(s@) == "easy"@
            },
            Err(_) => spec_lower_seq(s@) != "again"@ && spec_lower_seq(s@) != "hard"@
                && spec_lower_seq(s@) != "good"@ && spec_lower_seq(s@) != "easy"@,
        },
{
    let v = crate::chars::str_to_chars(s);
    let mut lower: Vec<char> = Vec::new();
    let n = v.len();
    let mut i: usize = 0;
    while i < n
        invariant
            i <= n,
            n == v@.len(),
            v@ == s@,
            lower@ == v@.subrange(0, i as int).map_values(|c: char| spec_lower(c)),
        decreases n - i,
    {
        let c = v[i];
        let folded: char = if 'A' <= c && c <= 'Z' {
            ((c as u8) + 32) as char
        } else {
            c
        };
        lower.push(folded);
        assert(lower@ =~= v@.subrange(0, (i + 1) as int).map_values(|c: char| spec_lower(c)));
        i += 1;
    }
    assert(v@.subrange(0, n as int) =~= v@);
    let again = crate::chars::str_to_chars("again");
    let hard = crate::chars::str_to_chars("hard");
    let good = crate::chars::str_to_chars("good");
    let easy = crate::chars::str_to_chars("easy");
    if crate::chars::chars_eq(&lower, &again) {
        Ok(Grade::Again)
    } else if crate::chars::chars_eq(&lower, &hard) {
        Ok(Grade::Hard)
    } else if crate::chars::chars_eq(&lower, &good) {
        Ok(Grade::Good)
    } else if crate::chars::chars_eq(&lower, &easy) {
        Ok(Grade::Easy)
    } else {
        Err("unknown grade".to_owned())
    }
}

/// How well a review of an item went. The four grades form an ordinal
/// scale; [`Grade::rank`] gives the documented numeric projection 1..=4.
#[derive(Clone, Copy, PartialEq, Eq, Structural, Debug)]
pub enum Grade {
    /// The item could not be recalled.
    Again,
    /// The item was recalled, but with great effort.
    Hard,
    /// The item was recalled.
    Good,
    /// The item was recalled with ease.
    Easy,
}

impl Grade {
    /// The numeric rank of a grade: `Again` is 1, `Hard` 2, `Good` 3, `Easy` 4.
    pub open spec fn spec_rank(self) -> i32 {
        match self {
            Grade::Again => 1,
            Grade::Hard => 2,
            Grade::Good => 3,
            Grade::Easy => 4,
        }
    }

    /// Numeric projection of the grade onto `1..=4`; several scheduling
    /// formulas are parameterized directly on this value.
    #[verifier::when_used_as_spec(spec_rank)]
    pub fn rank(self) -> (r: i32)
        ensures
            r == self.spec_rank(),
            1 <= r <= 4,
    {
        match self {
            Grade::Again => 1,
            Grade::Hard => 2,
            Grade::Good => 3,
            Grade::Easy => 4,
        }
    }

    /// The grade whose rank is `value`, if `value` lies in `1..=4`.
    pub fn try_from(value: i32) -> (r: Result<Grade, ConversionError>)
        ensures
            match r {
                Ok(g) => g.spec_rank() == value,
                Err(_) => value < 1 || value > 4,
            },
    {
        match value {
            1 => Ok(Grade::Again),
            2 => Ok(Grade::Hard),
            3 => Ok(Grade::Good),
            4 => Ok(Grade::Easy),
            _ => Err(ConversionError),
        }
    }
}

} // verus!
