//! Confusion-matrix bookkeeping for one channel.

use vstd::prelude::*;

verus! {

/// The mathematical content of a [`Score`]: four natural-number tallies.
pub struct Tally {
    pub true_pos: nat,
    pub false_pos: nat,
    pub false_neg: nat,
    pub true_neg: nat,
}

impl Tally {
    /// The tally of a session in which nothing has been recorded yet.
    pub open spec fn zero() -> Tally {
        Tally { true_pos: 0, false_pos: 0, false_neg: 0, true_neg: 0 }
    }

    /// How many rounds have been recorded.
    pub open spec fn rounds(self) -> nat {
        self.true_pos + self.false_pos + self.false_neg + self.true_neg
    }

    /// Rounds in which the player's claim agreed with the chain.
    pub open spec fn correct(self) -> nat {
        self.true_pos + self.true_neg
    }

    /// Rounds in which the player's claim disagreed with the chain.
    pub open spec fn wrong(self) -> nat {
        self.false_pos + self.false_neg
    }

    /// The tally after one more round in which the player `claimed` a match
    /// and the chain `matched` or not.
    pub open spec fn record(self, claimed: bool, matched: bool) -> Tally {
        if claimed && matched {
            Tally { true_pos: self.true_pos + 1, ..self }
        } else if claimed {
            Tally { false_pos: self.false_pos + 1, ..self }
        } else if matched {
            Tally { false_neg: self.false_neg + 1, ..self }
        } else {
            Tally { true_neg: self.true_neg + 1, ..self }
        }
    }

    /// The tally after a whole sequence of rounds, each given as
    /// `(claimed, matched)`, oldest first.
    pub open spec fn record_all(self, rounds: Seq<(bool, bool)>) -> Tally
        decreases rounds.len(),
    {
        if rounds.len() == 0 {
            self
        } else {
            self.record_all(rounds.drop_last()).record(rounds.last().0, rounds.last().1)
        }
    }

    /// Numerator of the F1 score, written as a fraction of integers.
    ///
    /// F1 is `tp / (tp + (fp + fn) / 2)`; both sides are doubled here so that
    /// no half appears. With no positive to find (`tp + fn == 0`) the score is
    /// defined to be one.
    pub open spec fn f1_numerator(self) -> nat {
        if self.true_pos + self.false_neg == 0 {
            1
        } else {
            2 * self.true_pos
        }
    }

    /// Denominator of the F1 score; see [`Tally::f1_numerator`].
    pub open spec fn f1_denominator(self) -> nat {
        if self.true_pos + self.false_neg == 0 {
            1
        } else {
            2 * self.true_pos + self.false_pos + self.false_neg
        }
    }
}

/// A non-negative fraction `numerator / denominator`, not reduced.
#[derive(Clone, Copy, Debug, PartialEq, Eq, Structural)]
pub struct Ratio {
    pub numerator: u128,
    pub denominator: u128,
}

/// Running confusion matrix of one channel.
///
/// The four counters only ever grow, one step at a time; together they count
/// the rounds recorded, and that count always fits a `usize`.
#[derive(Debug)]
pub struct Score {
    false_pos: usize,
    true_pos: usize,
    false_neg: usize,
    true_neg: usize,
}

impl View for Score {
    type V = Tally;

    closed spec fn view(&self) -> Tally {
        Tally {
            true_pos: self.true_pos as nat,
            false_pos: self.false_pos as nat,
            false_neg: self.false_neg as nat,
            true_neg: self.true_neg as nat,
        }
    }
}

impl Score {
    #[verifier::type_invariant]
    spec fn rounds_fit(self) -> bool {
        self.true_pos + self.false_pos + self.false_neg + self.true_neg <= usize::MAX
    }

    /// Counts a claim that the chain did not confirm.
    pub fn record_fp(&mut self)
        requires
            old(self)@.rounds() < usize::MAX,
        ensures
            final(self)@ == (Tally { false_pos: old(self)@.false_pos + 1, ..old(self)@ }),
    {
        self.false_pos = self.false_pos + 1;
    }

    /// Counts a claim that the chain confirmed.
    pub fn record_tp(&mut self)
        requires
            old(self)@.rounds() < usize::MAX,
        ensures
            final(self)@ == (Tally { true_pos: old(self)@.true_pos + 1, ..old(self)@ }),
    {
        self.true_pos = self.true_pos + 1;
    }

    /// Counts a match that the player let pass.
    pub fn record_fn(&mut self)
        requires
            old(self)@.rounds() < usize::MAX,
        ensures
            final(self)@ == (Tally { false_neg: old(self)@.false_neg + 1, ..old(self)@ }),
    {
        self.false_neg = self.false_neg + 1;
    }

    /// Counts a round without a match and without a claim.
    pub fn record_tn(&mut self)
        requires
            old(self)@.rounds() < usize::MAX,
        ensures
            final(self)@ == (Tally { true_neg: old(self)@.true_neg + 1, ..old(self)@ }),
    {
        self.true_neg = self.true_neg + 1;
    }

    /// Files one round under the outcome that `claimed` and `matched` select.
    pub fn record(&mut self, claimed: bool, matched: bool)
        requires
            old(self)@.rounds() < usize::MAX,
        ensures
            final(self)@ == old(self)@.record(claimed, matched),
    {
        if claimed {
            if matched {
                self.record_tp();
            } else {
                self.record_fp();
            }
        } else if matched {
            self.record_fn();
        } else {
            self.record_tn();
        }
    }

    /// Number of rounds recorded so far.
    pub fn rounds(&self) -> (n: usize)
        ensures
            n == self@.rounds(),
    {
        proof {
            use_type_invariant(self);
        }
        self.true_pos + self.false_pos + self.false_neg + self.true_neg
    }

    /// Number of rounds in which the player was right.
    pub fn correct(&self) -> (n: usize)
        ensures
            n == self@.correct(),
    {
        proof {
            use_type_invariant(self);
        }
        self.true_pos + self.true_neg
    }

    /// Number of rounds in which the player was wrong.
    pub fn wrong(&self) -> (n: usize)
        ensures
            n == self@.wrong(),
    {
        proof {
            use_type_invariant(self);
        }
        self.false_pos + self.false_neg
    }

    /// The F1 score as an exact fraction.
    pub fn f1_score(&self) -> (f1: Ratio)
        ensures
            f1.numerator == self@.f1_numerator(),
            f1.denominator == self@.f1_denominator(),
            f1.denominator > 0,
    {
        proof {
            use_type_invariant(self);
        }
        if self.true_pos + self.false_neg == 0 {
            Ratio { numerator: 1, denominator: 1 }
        } else {
            let hits: u128 = self.true_pos as u128;
            let slips: u128 = self.false_pos as u128 + self.false_neg as u128;
            Ratio { numerator: 2 * hits, denominator: 2 * hits + slips }
        }
    }
}

impl Default for Score {
    /// A score with all four counters at zero.
    fn default() -> (score: Self)
        ensures
            score@ == Tally::zero(),
    {
        Score { false_pos: 0, true_pos: 0, false_neg: 0, true_neg: 0 }
    }
}

/// With no match found and none missed, the F1 score is one, whatever the
/// other two counters hold.
pub proof fn lemma_f1_is_one_without_positives(tally: Tally)
    requires
        tally.true_pos == 0,
        tally.false_neg == 0,
    ensures
        tally.f1_numerator() == 1,
        tally.f1_denominator() == 1,
{
}

/// The F1 score never exceeds one, and its denominator is never zero.
pub proof fn lemma_f1_is_a_proper_ratio(tally: Tally)
    ensures
        tally.f1_denominator() > 0,
        tally.f1_numerator() <= tally.f1_denominator(),
{
}

/// A round raises exactly one counter, by one, and lowers none.
pub proof fn lemma_record_raises_one_counter(tally: Tally, claimed: bool, matched: bool)
    ensures
        tally.record(claimed, matched).rounds() == tally.rounds() + 1,
        tally.record(claimed, matched).true_pos >= tally.true_pos,
        tally.record(claimed, matched).false_pos >= tally.false_pos,
        tally.record(claimed, matched).false_neg >= tally.false_neg,
        tally.record(claimed, matched).true_neg >= tally.true_neg,
{
}

/// The right and the wrong rounds of a tally are all its rounds, and a
/// sequence of rounds adds its length to them.
pub proof fn lemma_rounds_add_up(tally: Tally, rounds: Seq<(bool, bool)>)
    ensures
        tally.correct() + tally.wrong() == tally.rounds(),
        tally.record_all(rounds).rounds() == tally.rounds() + rounds.len(),
    decreases rounds.len(),
{
    if rounds.len() > 0 {
        lemma_rounds_add_up(tally, rounds.drop_last());
    }
}

/// In a session that started from zero, the right and the wrong rounds
/// together are as many as the rounds recorded.
pub proof fn lemma_correct_plus_wrong_counts_rounds(rounds: Seq<(bool, bool)>)
    ensures
        Tally::zero().record_all(rounds).correct() + Tally::zero().record_all(rounds).wrong()
            == rounds.len(),
{
    lemma_rounds_add_up(Tally::zero(), rounds);
    lemma_rounds_add_up(Tally::zero().record_all(rounds), Seq::empty());
}

} // verus!
