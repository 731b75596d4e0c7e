//! Cue chains: a sliding window over the last stimuli of one channel, the
//! rule by which the next stimulus is chosen, and the test for a match.

use crate::cue::Cue;
use crate::random::{random_index, random_word};
use std::collections::VecDeque;
use vstd::prelude::*;

verus! {

/// What one step of a chain takes from chance.
pub struct Draw<T> {
    /// A fraction in `[0, 1)`, given as its numerator over `2^64`.
    pub fraction: u64,
    /// A value drawn uniformly from the whole domain.
    pub sample: T,
}

/// Whether the fraction `fraction / 2^64` lies below one quarter.
pub open spec fn below_quarter(fraction: u64) -> bool {
    4 * fraction < 0x1_0000_0000_0000_0000
}

/// The window of a fresh chain that looks `depth` steps back: `depth + 1`
/// sentinels.
pub open spec fn blank_window<T: Cue>(depth: nat) -> Seq<T> {
    Seq::new(depth + 1, |i: int| T::sentinel())
}

/// Whether the next cue is a forced repeat of the oldest one: the fraction
/// drawn lies below a quarter and the oldest slot holds a real stimulus.
pub open spec fn repeats<T: Cue>(window: Seq<T>, fraction: u64) -> bool
    recommends
        window.len() >= 1,
{
    below_quarter(fraction) && window[0] != T::sentinel()
}

/// The cue that follows `window` under `draw`.
pub open spec fn next_cue<T: Cue>(window: Seq<T>, draw: Draw<T>) -> T
    recommends
        window.len() >= 1,
{
    if repeats(window, draw.fraction) {
        window[0]
    } else {
        draw.sample
    }
}

/// The window after `cue` has entered at the back and the oldest cue has left
/// at the front.
pub open spec fn shift<T>(window: Seq<T>, cue: T) -> Seq<T>
    recommends
        window.len() >= 1,
{
    window.drop_first().push(cue)
}

/// The window after one step under `draw`.
pub open spec fn advance<T: Cue>(window: Seq<T>, draw: Draw<T>) -> Seq<T>
    recommends
        window.len() >= 1,
{
    shift(window, next_cue(window, draw))
}

/// The window after one step for each of `draws`, oldest first.
pub open spec fn advance_all<T: Cue>(window: Seq<T>, draws: Seq<Draw<T>>) -> Seq<T>
    recommends
        window.len() >= 1,
    decreases draws.len(),
{
    if draws.len() == 0 {
        window
    } else {
        advance(advance_all(window, draws.drop_last()), draws.last())
    }
}

/// Whether the newest cue of `window` matches the oldest one. A sentinel in
/// the oldest slot never counts as matched.
pub open spec fn is_match<T: Cue>(window: Seq<T>) -> bool
    recommends
        window.len() >= 1,
{
    window[0] != T::sentinel() && window.last() == window[0]
}

/// Memorization and generation of new cues.
///
/// A chain that looks `n` steps back holds the last `n + 1` cues. Its view is
/// that window, oldest cue first. The oldest cue is kept apart from the `n`
/// cues that follow it, so that a window is never empty.
pub struct CueChain<T> {
    oldest: T,
    short_memory: VecDeque<T>,
}

impl<T: Cue> View for CueChain<T> {
    type V = Seq<T>;

    closed spec fn view(&self) -> Seq<T> {
        seq![self.oldest] + self.short_memory@
    }
}

impl<T: Cue> CueChain<T> {
    /// How many steps the chain looks back.
    pub open spec fn depth(&self) -> nat {
        (self@.len() - 1) as nat
    }

    /// The window of a chain holds at least one cue, and no more cues than a
    /// `usize` counts.
    pub proof fn lemma_window_is_never_empty(&self)
        ensures
            1 <= self@.len() <= usize::MAX + 1,
    {
        assert(self.short_memory.len() == self.short_memory@.len());
    }

    /// A fresh chain that looks `n` steps back.
    pub fn with_n_back(n: usize) -> (chain: Self)
        ensures
            chain.depth() == n,
            chain@ == blank_window::<T>(n as nat),
    {
        let mut short_memory: VecDeque<T> = VecDeque::new();
        let mut filled: usize = 0;
        while filled < n
            invariant
                filled <= n,
                short_memory@.len() == filled,
                forall|i: int| 0 <= i < filled ==> short_memory@[i] == T::sentinel(),
            decreases n - filled,
        {
            short_memory.push_front(T::empty());
            filled = filled + 1;
        }
        let chain = CueChain { oldest: T::empty(), short_memory };
        assert(chain@ =~= blank_window::<T>(n as nat));
        chain
    }

    /// How many steps the chain looks back.
    pub fn n_back(&self) -> (n: usize)
        ensures
            n == self.depth(),
            n + 1 == self@.len(),
    {
        self.short_memory.len()
    }

    /// The cues of the window, oldest first.
    pub fn window(&self) -> (cues: Vec<T>)
        ensures
            cues@ == self@,
    {
        let mut cues: Vec<T> = Vec::new();
        cues.push(self.oldest);
        let mut copied: usize = 0;
        while copied < self.short_memory.len()
            invariant
                copied <= self.short_memory@.len(),
                cues@ == seq![self.oldest] + self.short_memory@.take(copied as int),
            decreases self.short_memory@.len() - copied,
        {
            cues.push(self.short_memory[copied]);
            assert(self.short_memory@.take(copied + 1) =~= self.short_memory@.take(
                copied as int,
            ).push(self.short_memory@[copied as int]));
            copied = copied + 1;
        }
        assert(self.short_memory@.take(copied as int) =~= self.short_memory@);
        cues
    }

    /// The oldest cue, if `fraction` forces its repeat.
    pub fn repeat(&self, fraction: u64) -> (cue: Option<T>)
        ensures
            cue == if repeats(self@, fraction) {
                Some(self@[0])
            } else {
                None::<T>
            },
    {
        if fraction < 0x4000_0000_0000_0000 && !self.oldest.same(&T::empty()) {
            Some(self.oldest)
        } else {
            None
        }
    }

    /// Lets `cue` enter the window and the oldest cue leave it; returns the
    /// newest cue of the window.
    pub fn push(&mut self, cue: T) -> (shown: T)
        ensures
            final(self)@ == shift(old(self)@, cue),
            final(self)@.len() == old(self)@.len(),
            shown == cue,
    {
        self.short_memory.push_back(cue);
        if let Some(next) = self.short_memory.pop_front() {
            self.oldest = next;
        }
        assert(self@ =~= shift(old(self)@, cue));
        cue
    }

    /// One step of the chain under a given `draw`.
    pub fn gen_with(&mut self, draw: Draw<T>) -> (cue: T)
        ensures
            cue == next_cue(old(self)@, draw),
            final(self)@ == advance(old(self)@, draw),
            final(self)@.len() == old(self)@.len(),
    {
        let cue = match self.repeat(draw.fraction) {
            Some(oldest) => oldest,
            None => draw.sample,
        };
        self.push(cue)
    }

    /// One step of the chain under a fresh random draw.
    ///
    /// Whatever chance decides, the cue returned has entered the window at the
    /// back, the oldest cue has left it, and the window is as long as before.
    pub fn gen(&mut self) -> (cue: T)
        ensures
            final(self)@ == shift(old(self)@, cue),
            final(self)@.len() == old(self)@.len(),
    {
        let cue = match self.repeat(random_word()) {
            Some(oldest) => oldest,
            None => T::from_index(random_index(T::last_index())),
        };
        self.push(cue)
    }

    /// Whether the newest cue matches the one shown `n` steps before it.
    pub fn is_match(&self) -> (matched: bool)
        ensures
            matched == is_match(self@),
    {
        let newest: T = if self.short_memory.len() == 0 {
            self.oldest
        } else {
            self.short_memory[self.short_memory.len() - 1]
        };
        if !self.oldest.same(&T::empty()) {
            newest.same(&self.oldest)
        } else {
            false
        }
    }
}

impl<T: Cue> Default for CueChain<T> {
    /// A fresh chain that looks two steps back.
    fn default() -> (chain: Self)
        ensures
            chain@ == blank_window::<T>(2),
    {
        CueChain::with_n_back(2)
    }
}

/// However many steps a chain takes, and whatever is drawn for them, its
/// window keeps its length.
pub proof fn lemma_window_length_is_invariant<T: Cue>(window: Seq<T>, draws: Seq<Draw<T>>)
    requires
        window.len() >= 1,
    ensures
        advance_all(window, draws).len() == window.len(),
    decreases draws.len(),
{
    if draws.len() > 0 {
        lemma_window_length_is_invariant(window, draws.drop_last());
    }
}

/// After `k` steps the slots that have not been overwritten yet hold what the
/// window held `k` places further back.
pub proof fn lemma_old_cues_move_forward<T: Cue>(window: Seq<T>, draws: Seq<Draw<T>>, i: int)
    requires
        window.len() >= 1,
        0 <= i,
        i + draws.len() < window.len(),
    ensures
        advance_all(window, draws)[i] == window[i + draws.len()],
    decreases draws.len(),
{
    if draws.len() > 0 {
        lemma_window_length_is_invariant(window, draws.drop_last());
        lemma_old_cues_move_forward(window, draws.drop_last(), i + 1);
    }
}

/// A fresh chain that looks `depth` steps back shows no match before it has
/// taken more than `depth` steps: until then its oldest slot still holds the
/// sentinel.
pub proof fn lemma_no_match_while_warming_up<T: Cue>(depth: nat, draws: Seq<Draw<T>>)
    requires
        draws.len() <= depth,
    ensures
        !is_match(advance_all(blank_window::<T>(depth), draws)),
{
    lemma_old_cues_move_forward(blank_window::<T>(depth), draws, 0);
}

/// With the fraction drawn below a quarter and a real stimulus in the oldest
/// slot, the next cue is that oldest stimulus, whatever was sampled.
pub proof fn lemma_forced_repeat_shows_oldest<T: Cue>(window: Seq<T>, draw: Draw<T>)
    requires
        window.len() >= 1,
        below_quarter(draw.fraction),
        window[0] != T::sentinel(),
    ensures
        next_cue(window, draw) == window[0],
        advance(window, draw).last() == window[0],
{
}

/// A forced repeat is followed by a match where the window holds a single
/// cue, or where its two oldest cues are the same.
pub proof fn lemma_forced_repeat_matches<T: Cue>(window: Seq<T>, draw: Draw<T>)
    requires
        window.len() >= 1,
        below_quarter(draw.fraction),
        window[0] != T::sentinel(),
        window.len() == 1 || window[1] == window[0],
    ensures
        is_match(advance(window, draw)),
{
}

/// A forced repeat is followed by no match where the two oldest cues of the
/// window differ: the cue repeated is one step older than the cue that the
/// match is tested against.
pub proof fn lemma_forced_repeat_of_distinct_cues_is_no_match<T: Cue>(
    window: Seq<T>,
    draw: Draw<T>,
)
    requires
        window.len() >= 2,
        below_quarter(draw.fraction),
        window[0] != T::sentinel(),
        window[1] != window[0],
    ensures
        !is_match(advance(window, draw)),
{
}

/// With the fraction drawn at or above a quarter, or with the sentinel in the
/// oldest slot, the next cue is the value sampled from the domain.
pub proof fn lemma_uniform_draw_shows_sample<T: Cue>(window: Seq<T>, draw: Draw<T>)
    requires
        window.len() >= 1,
        !below_quarter(draw.fraction) || window[0] == T::sentinel(),
    ensures
        next_cue(window, draw) == draw.sample,
        advance(window, draw).last() == draw.sample,
{
}

} // verus!
