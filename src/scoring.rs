use vstd::prelude::*;
use crate::ratio::Ratio;

verus! {

/// The label given to a guess from its error percentage.
#[derive(Clone, Copy, Debug, PartialEq, Eq, Structural)]
pub enum Category {
    Perfect,
    Good,
    Almost,
    Error,
    Failure,
}

pub open spec fn label_spec(c: Category) -> Seq<char> {
    match c {
        Category::Perfect => "perfect"@,
        Category::Good => "good"@,
        Category::Almost => "almost"@,
        Category::Error => "error"@,
        Category::Failure => "failure"@,
    }
}

impl Category {
    /// The category's name in lower case.
    pub fn label(&self) -> (r: &'static str)
        ensures
            r@ == label_spec(*self),
    {
        match self {
            Category::Perfect => "perfect",
            Category::Good => "good",
            Category::Almost => "almost",
            Category::Error => "error",
            Category::Failure => "failure",
        }
    }
}

/// The category of an error percentage: an ordered list of bands in which the
/// first match wins.  Between 90 and 95 (both excluded) nothing matches before
/// the last arm, so that gap counts as a failure.
pub open spec fn category_spec(pct: Ratio) -> Category {
    if pct.equals(100, 1) {
        Category::Perfect
    } else if pct.at_most(3333, 100) {
        Category::Failure
    } else if !pct.at_most(3333, 100) && pct.at_most(6666, 100) {
        Category::Error
    } else if !pct.at_most(6666, 100) && pct.at_most(90, 1) {
        Category::Almost
    } else if pct.at_least(95, 1) {
        Category::Good
    } else {
        Category::Failure
    }
}

/// Category of the error percentage `pct`.
pub fn category_of(pct: &Ratio) -> (r: Category)
    ensures
        r == category_spec(*pct),
{
    if pct.compare(100, 1) == 0 {
        Category::Perfect
    } else if pct.compare(3333, 100) <= 0 {
        Category::Failure
    } else if pct.compare(6666, 100) <= 0 {
        Category::Error
    } else if pct.compare(90, 1) <= 0 {
        Category::Almost
    } else if pct.compare(95, 1) >= 0 {
        Category::Good
    } else {
        Category::Failure
    }
}

/// The score of one guess against the true angle.
#[derive(Clone, Copy, Debug, PartialEq, Eq, Structural)]
pub struct ScoreEntry {
    pub guess: u32,
    pub truth: u32,
    /// `|guess - truth|` in degrees, not taken around the circle.
    pub error: u32,
    /// `(360 - error) / 360 * 100`.
    pub percentage: Ratio,
    pub category: Category,
    /// `percentage / 3`.
    pub points: Ratio,
}

pub open spec fn abs_diff(a: int, b: int) -> int {
    if a >= b {
        a - b
    } else {
        b - a
    }
}

/// The score of `guess` against `truth`.
pub open spec fn score_spec(guess: u32, truth: u32) -> ScoreEntry {
    let error = abs_diff(guess as int, truth as int);
    let pct = Ratio { num: ((360 - error) * 100) as u64, den: 360 };
    ScoreEntry {
        guess,
        truth,
        error: error as u32,
        percentage: pct,
        category: category_spec(pct),
        points: Ratio { num: ((360 - error) * 100) as u64, den: 1080 },
    }
}

impl ScoreEntry {
    /// The entry is the score of its guess against its truth, both in range.
    pub open spec fn wf(&self) -> bool {
        self.guess <= 360 && self.truth < 360 && *self == score_spec(self.guess, self.truth)
    }
}

/// Scores `guess` (degrees, as entered) against the true angle `truth`.
pub fn score(guess: u32, truth: u32) -> (r: ScoreEntry)
    requires
        guess <= 360,
        truth < 360,
    ensures
        r == score_spec(guess, truth),
        r.wf(),
{
    let error: u32 = if guess >= truth {
        guess - truth
    } else {
        truth - guess
    };
    let scaled: u64 = (360 - error as u64) * 100;
    let percentage = Ratio { num: scaled, den: 360 };
    let category = category_of(&percentage);
    ScoreEntry {
        guess,
        truth,
        error,
        percentage,
        category,
        points: Ratio { num: scaled, den: 1080 },
    }
}

/// The error percentage does not depend on which of the two angles is the
/// guess: the error is an absolute difference.
pub proof fn lemma_score_symmetric(guess: u32, truth: u32)
    requires
        guess < 360,
        truth < 360,
    ensures
        score_spec(guess, truth).percentage == score_spec(truth, guess).percentage,
        score_spec(guess, truth).category == score_spec(truth, guess).category,
{
}

/// A guess equal to the truth scores exactly 100 percent and is perfect.
pub proof fn lemma_exact_guess_is_perfect(truth: u32)
    requires
        truth < 360,
    ensures
        score_spec(truth, truth).percentage.equals(100, 1),
        score_spec(truth, truth).category == Category::Perfect,
{
}

/// A guess 180 degrees away from the truth scores exactly 50 percent, which
/// falls in the error band.
pub proof fn lemma_half_turn_is_error(guess: u32, truth: u32)
    requires
        guess <= 360,
        truth < 360,
        abs_diff(guess as int, truth as int) == 180,
    ensures
        score_spec(guess, truth).percentage.equals(50, 1),
        score_spec(guess, truth).category == Category::Error,
{
}

/// The categories split every percentage from 0 to 100 into disjoint bands:
/// exactly 100 is perfect, `[95, 100)` good, `(66.66, 90]` almost,
/// `(33.33, 66.66]` error, and `[0, 33.33]` together with `(90, 95)` failure.
pub proof fn lemma_category_bands(pct: Ratio)
    requires
        pct.wf(),
        pct.at_most(100, 1),
    ensures
        (category_spec(pct) == Category::Perfect) <==> pct.equals(100, 1),
        (category_spec(pct) == Category::Good) <==> (pct.at_least(95, 1) && !pct.equals(100, 1)),
        (category_spec(pct) == Category::Almost) <==> (!pct.at_most(6666, 100) && pct.at_most(90, 1)),
        (category_spec(pct) == Category::Error) <==> (!pct.at_most(3333, 100) && pct.at_most(6666, 100)),
        (category_spec(pct) == Category::Failure) <==> (pct.at_most(3333, 100) || (!pct.at_most(90, 1) && !pct.at_least(95, 1))),
{
}

} // verus!
