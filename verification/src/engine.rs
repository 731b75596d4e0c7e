//! The session: one cue chain and one score per channel, the player's claims
//! of the running round, and what happens at a round boundary.

use crate::chain::{
    advance, advance_all, blank_window, is_match, lemma_no_match_while_warming_up, next_cue, shift,
    CueChain, Draw,
};
use crate::cue::{Cell, Pigment};
use crate::score::{lemma_rounds_add_up, Score, Tally};
use vstd::prelude::*;

verus! {

/// The mathematical content of an [`Answer`]: which of the four keys have
/// been pressed in the running round.
pub struct Claims {
    pub w: bool,
    pub a: bool,
    pub s: bool,
    pub d: bool,
}

impl Claims {
    /// No key pressed.
    pub open spec fn none() -> Claims {
        Claims { w: false, a: false, s: false, d: false }
    }

    /// The claims after the keys given as `true` have been pressed once more.
    pub open spec fn press(self, w: bool, a: bool, s: bool, d: bool) -> Claims {
        Claims { w: self.w || w, a: self.a || a, s: self.s || s, d: self.d || d }
    }
}

/// The player's claims of the running round, one flag per key.
///
/// Key `A` claims that the position matches, key `D` that the pigment does.
/// Keys `W` and `S` are kept for further channels.
#[derive(Clone, Copy, Debug, PartialEq, Eq, Structural)]
pub struct Answer {
    w: bool,
    a: bool,
    s: bool,
    d: bool,
}

impl View for Answer {
    type V = Claims;

    closed spec fn view(&self) -> Claims {
        Claims { w: self.w, a: self.a, s: self.s, d: self.d }
    }
}

impl Answer {
    /// Key `W` was pressed.
    pub fn w(&mut self)
        ensures
            final(self)@ == old(self)@.press(true, false, false, false),
    {
        self.w = true;
    }

    /// Key `A` was pressed.
    pub fn a(&mut self)
        ensures
            final(self)@ == old(self)@.press(false, true, false, false),
    {
        self.a = true;
    }

    /// Key `S` was pressed.
    pub fn s(&mut self)
        ensures
            final(self)@ == old(self)@.press(false, false, true, false),
    {
        self.s = true;
    }

    /// Key `D` was pressed.
    pub fn d(&mut self)
        ensures
            final(self)@ == old(self)@.press(false, false, false, true),
    {
        self.d = true;
    }

    /// Takes in the state of the four keys: a key that is down sets its flag,
    /// a key that is up leaves its flag as it is.
    pub fn press(&mut self, w: bool, a: bool, s: bool, d: bool)
        ensures
            final(self)@ == old(self)@.press(w, a, s, d),
    {
        if w {
            self.w();
        }
        if a {
            self.a();
        }
        if s {
            self.s();
        }
        if d {
            self.d();
        }
    }

    /// Whether the player claims that the position matches.
    pub fn claims_cell(&self) -> (claimed: bool)
        ensures
            claimed == self@.a,
    {
        self.a
    }

    /// Whether the player claims that the pigment matches.
    pub fn claims_pigment(&self) -> (claimed: bool)
        ensures
            claimed == self@.d,
    {
        self.d
    }

    /// Clears all four flags.
    pub fn reset(&mut self)
        ensures
            final(self)@ == Claims::none(),
    {
        self.w = false;
        self.a = false;
        self.s = false;
        self.d = false;
    }
}

impl Default for Answer {
    /// No claim made.
    fn default() -> (answer: Self)
        ensures
            answer@ == Claims::none(),
    {
        Answer { w: false, a: false, s: false, d: false }
    }
}

/// The mathematical content of an [`NBack`]: per channel a tally and a
/// window, and the claims of the running round.
pub struct Session {
    pub cell_tally: Tally,
    pub pigment_tally: Tally,
    pub claims: Claims,
    pub cells: Seq<Cell>,
    pub pigments: Seq<Pigment>,
}

/// What one round takes from outside: the keys that went down while it ran,
/// and the draws made at its end.
pub struct Round {
    pub w: bool,
    pub a: bool,
    pub s: bool,
    pub d: bool,
    pub cell: Draw<Cell>,
    pub pigment: Draw<Pigment>,
}

impl Session {
    /// A session in which nothing has happened yet, with chains that look
    /// `cell_depth` and `pigment_depth` steps back.
    pub open spec fn fresh(cell_depth: nat, pigment_depth: nat) -> Session {
        Session {
            cell_tally: Tally::zero(),
            pigment_tally: Tally::zero(),
            claims: Claims::none(),
            cells: blank_window::<Cell>(cell_depth),
            pigments: blank_window::<Pigment>(pigment_depth),
        }
    }

    /// Both tallies can take one more round in counters of type `usize`.
    pub open spec fn has_room(self) -> bool {
        self.cell_tally.rounds() < usize::MAX && self.pigment_tally.rounds() < usize::MAX
    }

    /// The session after the keys given as `true` have gone down.
    pub open spec fn press(self, w: bool, a: bool, s: bool, d: bool) -> Session {
        Session { claims: self.claims.press(w, a, s, d), ..self }
    }

    /// The session after the claims have been held against the windows as
    /// they stand: key `A` against the cells, key `D` against the pigments.
    pub open spec fn check_answer(self) -> Session {
        Session {
            cell_tally: self.cell_tally.record(self.claims.a, is_match(self.cells)),
            pigment_tally: self.pigment_tally.record(self.claims.d, is_match(self.pigments)),
            ..self
        }
    }

    /// The session after both chains have moved one step on.
    pub open spec fn next(self, cell: Draw<Cell>, pigment: Draw<Pigment>) -> Session {
        Session {
            cells: advance(self.cells, cell),
            pigments: advance(self.pigments, pigment),
            ..self
        }
    }

    /// The session after a round boundary: outcomes filed, chains moved on,
    /// claims cleared.
    pub open spec fn end_round(self, cell: Draw<Cell>, pigment: Draw<Pigment>) -> Session {
        Session { claims: Claims::none(), ..self.check_answer().next(cell, pigment) }
    }

    /// The session after one whole round: keys, then the round boundary.
    pub open spec fn play(self, round: Round) -> Session {
        self.press(round.w, round.a, round.s, round.d).end_round(round.cell, round.pigment)
    }

    /// The session after a sequence of whole rounds, oldest first.
    pub open spec fn play_all(self, rounds: Seq<Round>) -> Session
        decreases rounds.len(),
    {
        if rounds.len() == 0 {
            self
        } else {
            self.play_all(rounds.drop_last()).play(rounds.last())
        }
    }

    /// The session started over: tallies at zero, windows of sentinels as
    /// long as before, claims as they were.
    pub open spec fn restart(self) -> Session {
        Session {
            cell_tally: Tally::zero(),
            pigment_tally: Tally::zero(),
            cells: blank_window::<Cell>((self.cells.len() - 1) as nat),
            pigments: blank_window::<Pigment>((self.pigments.len() - 1) as nat),
            ..self
        }
    }
}

/// A dual n-back session: a position channel and a pigment channel, each with
/// its own chain and its own score, and the claims of the running round.
pub struct NBack {
    pub cell_score: Score,
    pub pigment_score: Score,
    pub answer: Answer,
    pub cells: CueChain<Cell>,
    pub pigments: CueChain<Pigment>,
}

impl View for NBack {
    type V = Session;

    open spec fn view(&self) -> Session {
        Session {
            cell_tally: self.cell_score@,
            pigment_tally: self.pigment_score@,
            claims: self.answer@,
            cells: self.cells@,
            pigments: self.pigments@,
        }
    }
}

impl NBack {
    /// A fresh session with chains that look two steps back.
    pub fn new() -> (game: Self)
        ensures
            game@ == Session::fresh(2, 2),
    {
        NBack {
            cell_score: Score::default(),
            pigment_score: Score::default(),
            answer: Answer::default(),
            cells: CueChain::default(),
            pigments: CueChain::default(),
        }
    }

    /// Starts the session over: both scores go back to zero and both chains
    /// to a window of sentinels, each chain looking as far back as before.
    /// The claims of the running round stay.
    pub fn restart(&mut self)
        ensures
            final(self)@ == old(self)@.restart(),
            final(self).cells.depth() == old(self).cells.depth(),
            final(self).pigments.depth() == old(self).pigments.depth(),
    {
        self.cell_score = Score::default();
        self.pigment_score = Score::default();
        self.cells = CueChain::with_n_back(self.cells.n_back());
        self.pigments = CueChain::with_n_back(self.pigments.n_back());
    }

    /// Holds the claims of the round against the two chains as they stand and
    /// files the outcome of each channel in that channel's score.
    pub fn check_answer(&mut self)
        requires
            old(self)@.has_room(),
        ensures
            final(self)@ == old(self)@.check_answer(),
    {
        let cell_matched = self.cells.is_match();
        self.cell_score.record(self.answer.claims_cell(), cell_matched);
        let pigment_matched = self.pigments.is_match();
        self.pigment_score.record(self.answer.claims_pigment(), pigment_matched);
    }

    /// Moves both chains one step on under the given draws and returns the
    /// pair of cues to show.
    pub fn next_with(&mut self, cell: Draw<Cell>, pigment: Draw<Pigment>) -> (shown: Option<
        (Cell, Pigment),
    >)
        ensures
            final(self)@ == old(self)@.next(cell, pigment),
            shown == Some((next_cue(old(self)@.cells, cell), next_cue(old(self)@.pigments, pigment))),
    {
        let new_cell = self.cells.gen_with(cell);
        let new_pigment = self.pigments.gen_with(pigment);
        Some((new_cell, new_pigment))
    }

    /// Moves both chains one step on under fresh random draws and returns the
    /// pair of cues to show. There always is such a pair, and nothing but the
    /// two windows changes.
    pub fn next(&mut self) -> (shown: Option<(Cell, Pigment)>)
        ensures
            shown matches Some((new_cell, new_pigment)) && final(self)@ == (Session {
                cells: shift(old(self)@.cells, new_cell),
                pigments: shift(old(self)@.pigments, new_pigment),
                ..old(self)@
            }),
    {
        let new_cell = self.cells.gen();
        let new_pigment = self.pigments.gen();
        Some((new_cell, new_pigment))
    }

    /// A round boundary under the given draws: the claims are held against
    /// the chains as they stand, each channel's outcome is filed in its
    /// score, both chains move one step on, and the claims are cleared.
    /// Returns the pair of cues to show.
    pub fn end_round_with(&mut self, cell: Draw<Cell>, pigment: Draw<Pigment>) -> (shown: (
        Cell,
        Pigment,
    ))
        requires
            old(self)@.has_room(),
        ensures
            final(self)@ == old(self)@.end_round(cell, pigment),
            shown == (next_cue(old(self)@.cells, cell), next_cue(old(self)@.pigments, pigment)),
    {
        self.check_answer();
        let new_cell = self.cells.gen_with(cell);
        let new_pigment = self.pigments.gen_with(pigment);
        self.answer.reset();
        (new_cell, new_pigment)
    }

    /// A round boundary under fresh random draws. Whatever chance decides,
    /// the outcomes are filed as the claims and the windows before the step
    /// demand, the cues returned have entered the windows, and the claims are
    /// cleared.
    pub fn end_round(&mut self) -> (shown: (Cell, Pigment))
        requires
            old(self)@.has_room(),
        ensures
            final(self)@ == (Session {
                claims: Claims::none(),
                cells: shift(old(self)@.cells, shown.0),
                pigments: shift(old(self)@.pigments, shown.1),
                ..old(self)@.check_answer()
            }),
    {
        self.check_answer();
        let new_cell = self.cells.gen();
        let new_pigment = self.pigments.gen();
        self.answer.reset();
        (new_cell, new_pigment)
    }
}

impl Default for NBack {
    /// A fresh session with chains that look two steps back.
    fn default() -> (game: Self)
        ensures
            game@ == Session::fresh(2, 2),
    {
        NBack::new()
    }
}

/// A session with the position channel alone.
pub struct GameState {
    pub score: Score,
    pub cues: CueChain<Cell>,
}

impl GameState {
    /// Starts the session over: the score goes back to zero and the chain to
    /// a window of sentinels, looking as far back as before.
    pub fn restart(&mut self)
        ensures
            final(self).score@ == Tally::zero(),
            final(self).cues.depth() == old(self).cues.depth(),
            final(self).cues@ == blank_window::<Cell>(old(self).cues.depth()),
    {
        self.score = Score::default();
        self.cues = CueChain::with_n_back(self.cues.n_back());
    }
}

impl Default for GameState {
    /// A fresh session.
    fn default() -> (game: Self)
        ensures
            game.score@ == Tally::zero(),
            game.cues@ == blank_window::<Cell>(2),
    {
        GameState { score: Score::default(), cues: CueChain::default() }
    }
}

/// The draws that a sequence of rounds holds for the position channel.
pub open spec fn cell_draws(rounds: Seq<Round>) -> Seq<Draw<Cell>> {
    Seq::new(rounds.len(), |i: int| rounds[i].cell)
}

/// The draws that a sequence of rounds holds for the pigment channel.
pub open spec fn pigment_draws(rounds: Seq<Round>) -> Seq<Draw<Pigment>> {
    Seq::new(rounds.len(), |i: int| rounds[i].pigment)
}

/// Pressing keys that are already down changes no claim, and so changes
/// nothing in what the round boundary files, nor in anything that follows.
pub proof fn lemma_repeated_claim_counts_once(
    session: Session,
    w: bool,
    a: bool,
    s: bool,
    d: bool,
    cell: Draw<Cell>,
    pigment: Draw<Pigment>,
)
    ensures
        session.press(w, a, s, d).press(w, a, s, d) == session.press(w, a, s, d),
        session.press(w, a, s, d).press(w, a, s, d).end_round(cell, pigment) == session.press(
            w,
            a,
            s,
            d,
        ).end_round(cell, pigment),
{
}

/// Over any sequence of rounds each chain takes one step per round, under
/// the draws of its own channel, and every round ends with the claims
/// cleared.
pub proof fn lemma_play_moves_the_chains(session: Session, rounds: Seq<Round>)
    ensures
        session.play_all(rounds).cells == advance_all(session.cells, cell_draws(rounds)),
        session.play_all(rounds).pigments == advance_all(session.pigments, pigment_draws(rounds)),
        rounds.len() > 0 ==> session.play_all(rounds).claims == Claims::none(),
    decreases rounds.len(),
{
    if rounds.len() > 0 {
        lemma_play_moves_the_chains(session, rounds.drop_last());
        assert(cell_draws(rounds).drop_last() =~= cell_draws(rounds.drop_last()));
        assert(pigment_draws(rounds).drop_last() =~= pigment_draws(rounds.drop_last()));
    }
}

/// Every round adds one to the rounds of each channel's tally; in a session
/// that started fresh, the right and the wrong rounds of a channel are
/// together as many as the rounds played.
pub proof fn lemma_every_round_is_counted(session: Session, rounds: Seq<Round>)
    ensures
        session.play_all(rounds).cell_tally.rounds() == session.cell_tally.rounds() + rounds.len(),
        session.play_all(rounds).pigment_tally.rounds() == session.pigment_tally.rounds()
            + rounds.len(),
        session.cell_tally == Tally::zero() ==> session.play_all(rounds).cell_tally.correct()
            + session.play_all(rounds).cell_tally.wrong() == rounds.len(),
        session.pigment_tally == Tally::zero() ==> session.play_all(rounds).pigment_tally.correct()
            + session.play_all(rounds).pigment_tally.wrong() == rounds.len(),
    decreases rounds.len(),
{
    if rounds.len() > 0 {
        lemma_every_round_is_counted(session, rounds.drop_last());
    }
    lemma_rounds_add_up(session.play_all(rounds).cell_tally, Seq::empty());
    lemma_rounds_add_up(session.play_all(rounds).pigment_tally, Seq::empty());
}

/// While a fresh session fills its windows no match is found and none is
/// missed: in the first `depth + 1` rounds of a channel every claim is a
/// false positive and every silence a true negative.
pub proof fn lemma_no_positive_while_warming_up(
    cell_depth: nat,
    pigment_depth: nat,
    rounds: Seq<Round>,
)
    ensures
        rounds.len() <= cell_depth + 1 ==> {
            &&& Session::fresh(cell_depth, pigment_depth).play_all(rounds).cell_tally.true_pos == 0
            &&& Session::fresh(cell_depth, pigment_depth).play_all(rounds).cell_tally.false_neg
                == 0
        },
        rounds.len() <= pigment_depth + 1 ==> {
            &&& Session::fresh(cell_depth, pigment_depth).play_all(rounds).pigment_tally.true_pos
                == 0
            &&& Session::fresh(cell_depth, pigment_depth).play_all(
                rounds,
            ).pigment_tally.false_neg == 0
        },
    decreases rounds.len(),
{
    if rounds.len() > 0 {
        let fresh = Session::fresh(cell_depth, pigment_depth);
        let earlier = rounds.drop_last();
        lemma_no_positive_while_warming_up(cell_depth, pigment_depth, earlier);
        lemma_play_moves_the_chains(fresh, earlier);
        if rounds.len() <= cell_depth + 1 {
            lemma_no_match_while_warming_up::<Cell>(cell_depth, cell_draws(earlier));
        }
        if rounds.len() <= pigment_depth + 1 {
            lemma_no_match_while_warming_up::<Pigment>(pigment_depth, pigment_draws(earlier));
        }
    }
}

/// The position channel goes its own way: two sessions that agree on it, and
/// are played with the same `A` keys and the same cell draws, agree on it
/// afterwards, whatever happens in the pigment channel.
pub proof fn lemma_cell_channel_is_independent(
    one: Session,
    other: Session,
    rounds: Seq<Round>,
    others: Seq<Round>,
)
    requires
        one.cell_tally == other.cell_tally,
        one.cells == other.cells,
        one.claims.a == other.claims.a,
        rounds.len() == others.len(),
        forall|i: int|
            0 <= i < rounds.len() ==> rounds[i].a == others[i].a && rounds[i].cell == others[i].cell,
    ensures
        one.play_all(rounds).cell_tally == other.play_all(others).cell_tally,
        one.play_all(rounds).cells == other.play_all(others).cells,
        one.play_all(rounds).claims.a == other.play_all(others).claims.a,
    decreases rounds.len(),
{
    if rounds.len() > 0 {
        lemma_cell_channel_is_independent(one, other, rounds.drop_last(), others.drop_last());
    }
}

/// The pigment channel goes its own way: two sessions that agree on it, and
/// are played with the same `D` keys and the same pigment draws, agree on it
/// afterwards, whatever happens in the position channel.
pub proof fn lemma_pigment_channel_is_independent(
    one: Session,
    other: Session,
    rounds: Seq<Round>,
    others: Seq<Round>,
)
    requires
        one.pigment_tally == other.pigment_tally,
        one.pigments == other.pigments,
        one.claims.d == other.claims.d,
        rounds.len() == others.len(),
        forall|i: int|
            0 <= i < rounds.len() ==> rounds[i].d == others[i].d && rounds[i].pigment
                == others[i].pigment,
    ensures
        one.play_all(rounds).pigment_tally == other.play_all(others).pigment_tally,
        one.play_all(rounds).pigments == other.play_all(others).pigments,
        one.play_all(rounds).claims.d == other.play_all(others).claims.d,
    decreases rounds.len(),
{
    if rounds.len() > 0 {
        lemma_pigment_channel_is_independent(one, other, rounds.drop_last(), others.drop_last());
    }
}

/// Starting over gives a fresh session with chains that look as far back as
/// before; only the claims of the running round are carried over.
pub proof fn lemma_restart_is_fresh(session: Session)
    requires
        session.cells.len() >= 1,
        session.pigments.len() >= 1,
    ensures
        session.restart() == (Session {
            claims: session.claims,
            ..Session::fresh(
                (session.cells.len() - 1) as nat,
                (session.pigments.len() - 1) as nat,
            )
        }),
        session.restart().cells.len() == session.cells.len(),
        session.restart().pigments.len() == session.pigments.len(),
{
}

} // verus!
