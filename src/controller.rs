use vstd::prelude::*;
use crate::calendar::{seed, CalendarDate};
use crate::guess::{guess_spec, parse_guess};
use crate::round::{generate, Round};
use crate::scoring::{score, score_spec, ScoreEntry};
use crate::verdict::{
    compose, compose_spec, in_band, lemma_verdict_band_holds_total, verdict_spec, GameResult, Verdict,
};

verus! {

/// Number of rounds in a game.
pub const ROUND_COUNT: usize = 3;

/// Why a commit was refused; either way nothing changed.
#[derive(Clone, Copy, Debug, PartialEq, Eq, Structural)]
pub enum CommitError {
    /// The entered text is not a whole number of degrees from 0 to 360; the round stays open.
    InvalidGuessFormat,
    /// The round is already confirmed, or an earlier one is still open.
    OutOfSequenceCommit,
}

/// What a game looks like from outside: its rounds, the scores of the rounds
/// confirmed so far (round `i`'s score at position `i`), and the result once
/// all rounds are confirmed.
pub struct ControllerView {
    pub rounds: Seq<Round>,
    pub scores: Seq<ScoreEntry>,
    pub result: Option<GameResult>,
}

/// Drives one game: rounds are confirmed strictly in order, one guess each.
pub struct RoundController {
    rounds: Vec<Round>,
    scores: Vec<ScoreEntry>,
    result: Option<GameResult>,
}

impl View for RoundController {
    type V = ControllerView;

    closed spec fn view(&self) -> ControllerView {
        ControllerView { rounds: self.rounds@, scores: self.scores@, result: self.result }
    }
}

/// The round the game waits for, or `ROUND_COUNT` once it is over.
pub open spec fn active_round(v: ControllerView) -> int {
    v.scores.len() as int
}

/// Round `i` is the one open for a guess.
pub open spec fn is_open_round(v: ControllerView, i: int) -> bool {
    i == active_round(v) && i < ROUND_COUNT
}

pub open spec fn controller_wf(v: ControllerView) -> bool {
    &&& v.rounds.len() == ROUND_COUNT
    &&& forall|i: int| 0 <= i < ROUND_COUNT ==> (#[trigger] v.rounds[i]).wf() && v.rounds[i].index == i
    &&& v.scores.len() <= ROUND_COUNT
    &&& forall|i: int|
        0 <= i < v.scores.len() ==> (#[trigger] v.scores[i]).wf() && v.scores[i].truth
            == v.rounds[i].true_angle
    &&& v.result is Some <==> v.scores.len() == ROUND_COUNT
    &&& v.result is Some ==> v.result == Some(compose_spec(v.scores))
}

impl RoundController {
    pub open spec fn wf(&self) -> bool {
        controller_wf(self@)
    }

    /// Starts a game on three given rounds, the first one open.
    pub fn start(rounds: Vec<Round>) -> (r: Option<RoundController>)
        ensures
            r is Some <==> (rounds@.len() == ROUND_COUNT && forall|i: int|
                0 <= i < ROUND_COUNT ==> (#[trigger] rounds@[i]).wf() && rounds@[i].index == i),
            r is Some ==> {
                let c = r->0;
                &&& c.wf()
                &&& c@.rounds == rounds@
                &&& c@.scores.len() == 0
            },
    {
        if rounds.len() != ROUND_COUNT {
            return None;
        }
        let mut i: usize = 0;
        while i < ROUND_COUNT
            invariant
                rounds@.len() == ROUND_COUNT,
                forall|j: int| 0 <= j < i ==> (#[trigger] rounds@[j]).wf() && rounds@[j].index == j,
            decreases ROUND_COUNT - i,
        {
            let r = &rounds[i];
            if !(r.index as usize == i && r.index < 3 && r.true_angle < 360 && r.offset < 360) {
                return None;
            }
            i = i + 1;
        }
        Some(RoundController { rounds, scores: Vec::new(), result: None })
    }

    /// Starts the game of `date`: round `i` is generated from the seed of `date` and `i`.
    pub fn new(date: &CalendarDate) -> (r: RoundController)
        requires
            date.wf(),
        ensures
            r.wf(),
            r@.scores.len() == 0,
    {
        let mut rounds: Vec<Round> = Vec::new();
        let mut i: u32 = 0;
        while i < 3
            invariant
                i <= 3,
                date.wf(),
                rounds@.len() == i,
                forall|j: int| 0 <= j < i ==> (#[trigger] rounds@[j]).wf() && rounds@[j].index == j,
            decreases 3 - i,
        {
            let s = seed(date, i);
            rounds.push(generate(s, i));
            i = i + 1;
        }
        RoundController { rounds, scores: Vec::new(), result: None }
    }

    /// The round that waits for a guess, or `ROUND_COUNT` once the game is over.
    pub fn active(&self) -> (r: usize)
        requires
            self.wf(),
        ensures
            r as int == active_round(self@),
    {
        self.scores.len()
    }

    pub fn is_finished(&self) -> (r: bool)
        requires
            self.wf(),
        ensures
            r <==> active_round(self@) == ROUND_COUNT,
    {
        self.scores.len() == ROUND_COUNT
    }

    /// The round at position `i`.
    pub fn round(&self, i: usize) -> (r: Round)
        requires
            self.wf(),
            i < ROUND_COUNT,
        ensures
            r == self@.rounds[i as int],
    {
        self.rounds[i]
    }

    /// The score of round `i`, once it is confirmed.
    pub fn score_of(&self, i: usize) -> (r: Option<ScoreEntry>)
        requires
            self.wf(),
        ensures
            r is Some <==> i < self@.scores.len(),
            r is Some ==> r->0 == self@.scores[i as int],
    {
        if i < self.scores.len() {
            Some(self.scores[i])
        } else {
            None
        }
    }

    /// The result of the game, once the last round is confirmed.
    pub fn result(&self) -> (r: Option<GameResult>)
        requires
            self.wf(),
        ensures
            r == self@.result,
    {
        self.result
    }

    /// Confirms the guess typed as `input` for round `round_index`.
    ///
    /// Only the open round accepts a guess.  A commit for any other round, or
    /// after the game is over, is refused as out of sequence; text that is no
    /// guess is refused as malformed.  Neither changes anything.  An accepted
    /// guess is scored against the round's true angle, the score recorded, and
    /// the next round opened; after the last round the result is composed.
    pub fn commit(&mut self, round_index: usize, input: &str) -> (r: Result<ScoreEntry, CommitError>)
        requires
            old(self).wf(),
        ensures
            final(self).wf(),
            final(self)@.rounds == old(self)@.rounds,
            !is_open_round(old(self)@, round_index as int) ==> r == Err::<ScoreEntry, CommitError>(
                CommitError::OutOfSequenceCommit,
            ),
            is_open_round(old(self)@, round_index as int) && guess_spec(input@) is None ==> r == Err::<
                ScoreEntry,
                CommitError,
            >(CommitError::InvalidGuessFormat),
            r is Err ==> final(self)@ == old(self)@,
            is_open_round(old(self)@, round_index as int) && guess_spec(input@) is Some ==> {
                let entry = score_spec(
                    guess_spec(input@)->0,
                    old(self)@.rounds[round_index as int].true_angle,
                );
                &&& r == Ok::<ScoreEntry, CommitError>(entry)
                &&& final(self)@.scores == old(self)@.scores.push(entry)
            },
    {
        if round_index != self.scores.len() || round_index >= ROUND_COUNT {
            return Err(CommitError::OutOfSequenceCommit);
        }
        let guess = match parse_guess(input) {
            Some(g) => g,
            None => {
                return Err(CommitError::InvalidGuessFormat);
            },
        };
        let truth = self.rounds[round_index].true_angle;
        assert(self.rounds@[round_index as int].wf());
        let entry = score(guess, truth);
        self.scores.push(entry);
        if self.scores.len() == ROUND_COUNT {
            assert(forall|i: int| 0 <= i < 3 ==> #[trigger] self.scores@[i].wf());
            self.result = Some(compose(&self.scores));
        }
        Ok(entry)
    }
}

/// Once a game is over its result holds the exact sum of the three rounds'
/// points, and its verdict is that of the total: the cheating one for exactly
/// 100, else the first band of width ten that holds the total.
pub proof fn lemma_finished_game_result(v: ControllerView)
    requires
        controller_wf(v),
        active_round(v) == ROUND_COUNT,
    ensures
        v.result is Some,
        v.result->0.total.num == v.scores[0].points.num + v.scores[1].points.num
            + v.scores[2].points.num,
        v.result->0.total.den == 1080,
        v.result->0.verdict == verdict_spec(v.result->0.total),
        v.result->0.verdict == Verdict::Cheating <==> v.result->0.total.equals(100, 1),
        v.result->0.verdict is Band ==> in_band(v.result->0.total, v.result->0.verdict->decile as int),
{
    assert(v.scores[0].wf() && v.scores[1].wf() && v.scores[2].wf());
    lemma_verdict_band_holds_total(v.result->0.total);
}

} // verus!
