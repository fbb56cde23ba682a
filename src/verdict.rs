use vstd::prelude::*;
use crate::ratio::Ratio;
use crate::scoring::ScoreEntry;
use vstd::arithmetic::div_mod::{lemma_fundamental_div_mod, lemma_mod_pos_bound};

verus! {

/// The flavour text chosen for a final score.
#[derive(Clone, Copy, Debug, PartialEq, Eq, Structural)]
pub enum Verdict {
    /// Exactly 100: the maximal, suspicious score.
    Cheating,
    /// The first closed band `[10 * decile, 10 * decile + 10]` holding the score.
    Band { decile: u32 },
    /// A score outside every band.
    Lost,
}

/// Number of bands of width ten between 0 and 100.
pub const BAND_COUNT: u32 = 10;

/// `total` lies in the closed band `[10 * k, 10 * k + 10]`.
pub open spec fn in_band(total: Ratio, k: int) -> bool {
    total.at_least(10 * k, 1) && total.at_most(10 * k + 10, 1)
}

/// The bands are tried in ascending order from `k`, the first that holds `total` wins.
pub open spec fn band_from(total: Ratio, k: int) -> Verdict
    decreases BAND_COUNT - k,
{
    if k >= BAND_COUNT || k < 0 {
        Verdict::Lost
    } else if in_band(total, k) {
        Verdict::Band { decile: k as u32 }
    } else {
        band_from(total, k + 1)
    }
}

/// The verdict of a final score: exactly 100 first, then the bands in order.
pub open spec fn verdict_spec(total: Ratio) -> Verdict {
    if total.equals(100, 1) {
        Verdict::Cheating
    } else {
        band_from(total, 0)
    }
}

/// Verdict of the final score `total`.
pub fn verdict_of(total: &Ratio) -> (r: Verdict)
    ensures
        r == verdict_spec(*total),
{
    if total.compare(100, 1) == 0 {
        return Verdict::Cheating;
    }
    let mut k: u32 = 0;
    while k < BAND_COUNT
        invariant
            k <= BAND_COUNT,
            !total.equals(100, 1),
            band_from(*total, 0) == band_from(*total, k as int),
        decreases BAND_COUNT - k,
    {
        if total.compare(10 * k as u64, 1) >= 0 && total.compare(10 * k as u64 + 10, 1) <= 0 {
            assert(in_band(*total, k as int));
            return Verdict::Band { decile: k };
        }
        k = k + 1;
    }
    Verdict::Lost
}

pub open spec fn title_spec(v: Verdict) -> Seq<char> {
    match v {
        Verdict::Cheating => "Wow, cheating in a game like that? Really?"@,
        Verdict::Band { decile } => {
            if decile == 0 {
                "Do you have a humiliation kink?"@
            } else if decile == 1 {
                "You don't have anything better to do?"@
            } else if decile == 2 {
                "Nice, your score matches your IQ"@
            } else if decile == 3 {
                "If you are looking for information on the Germanic invaders, you're not on the right website"@
            } else if decile == 4 {
                "Just forget this website I don't want to see your face tomorrow"@
            } else if decile == 5 {
                "My dog plays better than you"@
            } else if decile == 6 {
                "Did you understand the purpose of this game?"@
            } else if decile == 7 {
                "At this point, picking random numbers may yield better results"@
            } else if decile == 8 {
                "You're supposed to think before typing"@
            } else if decile == 9 {
                "Not bad for a blind person"@
            } else {
                "I lost your score but it was probably bad anyway"@
            }
        },
        Verdict::Lost => "I lost your score but it was probably bad anyway"@,
    }
}

impl Verdict {
    /// The title shown for this verdict.
    pub fn title(&self) -> (r: &'static str)
        ensures
            r@ == title_spec(*self),
    {
        match self {
            Verdict::Cheating => "Wow, cheating in a game like that? Really?",
            Verdict::Band { decile } => {
                if *decile == 0 {
                    "Do you have a humiliation kink?"
                } else if *decile == 1 {
                    "You don't have anything better to do?"
                } else if *decile == 2 {
                    "Nice, your score matches your IQ"
                } else if *decile == 3 {
                    "If you are looking for information on the Germanic invaders, you're not on the right website"
                } else if *decile == 4 {
                    "Just forget this website I don't want to see your face tomorrow"
                } else if *decile == 5 {
                    "My dog plays better than you"
                } else if *decile == 6 {
                    "Did you understand the purpose of this game?"
                } else if *decile == 7 {
                    "At this point, picking random numbers may yield better results"
                } else if *decile == 8 {
                    "You're supposed to think before typing"
                } else if *decile == 9 {
                    "Not bad for a blind person"
                } else {
                    "I lost your score but it was probably bad anyway"
                }
            },
            Verdict::Lost => "I lost your score but it was probably bad anyway",
        }
    }
}

/// The outcome of a finished game.
#[derive(Clone, Copy, Debug, PartialEq, Eq, Structural)]
pub struct GameResult {
    /// The sum of the points of the three rounds.
    pub total: Ratio,
    pub verdict: Verdict,
}

/// The sum of the points of three scored rounds, all counted in 1080ths.
pub open spec fn total_spec(entries: Seq<ScoreEntry>) -> Ratio {
    Ratio {
        num: (entries[0].points.num + entries[1].points.num + entries[2].points.num) as u64,
        den: 1080,
    }
}

pub open spec fn compose_spec(entries: Seq<ScoreEntry>) -> GameResult {
    GameResult { total: total_spec(entries), verdict: verdict_spec(total_spec(entries)) }
}

/// Sums the points of three scored rounds and picks the verdict of that total.
pub fn compose(entries: &Vec<ScoreEntry>) -> (r: GameResult)
    requires
        entries@.len() == 3,
        forall|i: int| 0 <= i < 3 ==> #[trigger] entries@[i].wf(),
    ensures
        r == compose_spec(entries@),
        r.total.num == entries@[0].points.num + entries@[1].points.num + entries@[2].points.num,
{
    assert(entries@[0].wf() && entries@[1].wf() && entries@[2].wf());
    let total = Ratio {
        num: entries[0].points.num + entries[1].points.num + entries[2].points.num,
        den: 1080,
    };
    let verdict = verdict_of(&total);
    GameResult { total, verdict }
}

/// Every score from 0 up gets the verdict of a band that holds it: exactly
/// 100 is the cheating verdict, any other score up to 100 the first band of
/// width ten that holds it, and only a score above 100 none.
pub proof fn lemma_verdict_band_holds_total(total: Ratio)
    requires
        total.wf(),
    ensures
        verdict_spec(total) == Verdict::Cheating <==> total.equals(100, 1),
        verdict_spec(total) is Band ==> {
            let k = verdict_spec(total)->decile as int;
            &&& 0 <= k < 10
            &&& in_band(total, k)
            &&& forall|j: int| 0 <= j < k ==> !#[trigger] in_band(total, j)
        },
        verdict_spec(total) == Verdict::Lost <==> !total.at_most(100, 1),
{
    lemma_band_from(total, 0);
}

proof fn lemma_band_from(total: Ratio, k: int)
    requires
        total.wf(),
        0 <= k <= BAND_COUNT,
        forall|j: int| 0 <= j < k ==> !#[trigger] in_band(total, j),
    ensures
        band_from(total, k) is Band ==> {
            let d = band_from(total, k)->decile as int;
            &&& k <= d < 10
            &&& in_band(total, d)
            &&& forall|j: int| 0 <= j < d ==> !#[trigger] in_band(total, j)
        },
        band_from(total, k) == Verdict::Lost <==> !total.at_most(100, 1),
        band_from(total, k) != Verdict::Cheating,
    decreases BAND_COUNT - k,
{
    if k < BAND_COUNT {
        if !in_band(total, k) {
            lemma_band_from(total, k + 1);
        } else {
            let n = total.num as int;
            let d = total.den as int;
            assert(n * 1 <= 100 * d) by (nonlinear_arith)
                requires
                    n * 1 <= (10 * k + 10) * d,
                    k < 10,
                    d > 0,
            ;
        }
    } else {
        lemma_above_all_bands(total);
    }
}

/// No band below 100 holds a score: the score is above 100.
proof fn lemma_above_all_bands(total: Ratio)
    requires
        total.wf(),
        forall|j: int| 0 <= j < 10 ==> !#[trigger] in_band(total, j),
    ensures
        !total.at_most(100, 1),
{
    if total.at_most(100, 1) {
        let n = total.num as int;
        let d = total.den as int;
        let j = n / (10 * d);
        let m = n % (10 * d);
        assert(n == 10 * d * j + m && 0 <= m < 10 * d) by {
            lemma_fundamental_div_mod(n, 10 * d);
            lemma_mod_pos_bound(n, 10 * d);
        }
        assert(0 <= j <= 10) by (nonlinear_arith)
            requires
                d > 0,
                n >= 0,
                n <= 100 * d,
                n == 10 * d * j + m,
                0 <= m < 10 * d,
        ;
        let k = if j == 10 { 9 } else { j };
        assert(n * 1 >= 10 * k * d && n * 1 <= (10 * k + 10) * d) by (nonlinear_arith)
            requires
                d > 0,
                n <= 100 * d,
                n == 10 * d * j + m,
                0 <= m < 10 * d,
                0 <= j <= 10,
                k == if j == 10 { 9 } else { j },
        ;
        assert(in_band(total, k));
    }
}

/// Three rounds whose points add up to exactly 100 get the cheating verdict,
/// not the one of the band `[90, 100]`.
pub proof fn lemma_full_marks_is_cheating(entries: Seq<ScoreEntry>)
    requires
        entries.len() == 3,
        forall|i: int| 0 <= i < 3 ==> #[trigger] entries[i].wf(),
        total_spec(entries).equals(100, 1),
    ensures
        compose_spec(entries).verdict == Verdict::Cheating,
{
}

} // verus!
