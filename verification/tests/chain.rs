use n_back::chain::{CueChain, Draw};
use n_back::cue::{Cell, Cue, Letter, Pigment};

/// Numerator over 2^64 of a fraction given as a float in `[0, 1)`.
fn fraction(y: f64) -> u64 {
    (y * 18446744073709551616.0) as u64
}

fn forced<T>(sample: T) -> Draw<T> {
    Draw { fraction: fraction(0.1), sample }
}

fn free<T>(sample: T) -> Draw<T> {
    Draw { fraction: fraction(0.9), sample }
}

fn pigments(window: &[Pigment]) -> CueChain<Pigment> {
    let mut chain = CueChain::with_n_back(window.len() - 1);
    for pigment in window {
        chain.push(*pigment);
    }
    chain
}

#[test]
fn fractions_are_numerators_over_two_to_the_sixty_four() {
    assert_eq!(fraction(0.0), 0);
    assert_eq!(fraction(0.25), 1 << 62);
    assert_eq!(fraction(0.5), 1 << 63);
}

#[test]
fn fresh_chain_holds_sentinels_only() {
    let chain: CueChain<Cell> = CueChain::with_n_back(3);
    assert_eq!(chain.window(), vec![Cell::Empty; 4]);
    assert_eq!(chain.n_back(), 3);
    assert!(!chain.is_match());
}

#[test]
fn chain_of_depth_zero_holds_one_cue() {
    let chain: CueChain<Pigment> = CueChain::with_n_back(0);
    assert_eq!(chain.window(), vec![Pigment::Empty]);
    assert_eq!(chain.n_back(), 0);
    assert!(!chain.is_match());
}

#[test]
fn default_chain_looks_two_steps_back() {
    let chain: CueChain<Letter> = CueChain::default();
    assert_eq!(chain.n_back(), 2);
    assert_eq!(chain.window(), vec![Letter::Empty; 3]);
}

#[test]
fn push_drops_the_oldest_cue_and_returns_the_newest() {
    let mut chain: CueChain<Pigment> = CueChain::with_n_back(2);
    assert_eq!(chain.push(Pigment::A), Pigment::A);
    assert_eq!(chain.window(), vec![Pigment::Empty, Pigment::Empty, Pigment::A]);
    assert_eq!(chain.push(Pigment::B), Pigment::B);
    assert_eq!(chain.push(Pigment::C), Pigment::C);
    assert_eq!(chain.window(), vec![Pigment::A, Pigment::B, Pigment::C]);
    assert_eq!(chain.push(Pigment::D), Pigment::D);
    assert_eq!(chain.window(), vec![Pigment::B, Pigment::C, Pigment::D]);
}

#[test]
fn repeat_hands_out_the_oldest_cue_below_a_quarter() {
    let chain = pigments(&[Pigment::C, Pigment::A, Pigment::B]);
    assert_eq!(chain.repeat(0), Some(Pigment::C));
    assert_eq!(chain.repeat(fraction(0.1)), Some(Pigment::C));
    assert_eq!(chain.repeat((1 << 62) - 1), Some(Pigment::C));
    assert_eq!(chain.repeat(1 << 62), None);
    assert_eq!(chain.repeat(fraction(0.25)), None);
    assert_eq!(chain.repeat(fraction(0.7)), None);
    assert_eq!(chain.repeat(u64::MAX), None);
}

#[test]
fn repeat_never_hands_out_the_sentinel() {
    let chain = pigments(&[Pigment::Empty, Pigment::A, Pigment::B]);
    assert_eq!(chain.repeat(0), None);
    assert_eq!(chain.repeat(fraction(0.1)), None);
    assert_eq!(chain.repeat(u64::MAX), None);
}

#[test]
fn window_keeps_its_length_under_given_draws() {
    for depth in 0..6usize {
        let mut chain: CueChain<Cell> = CueChain::with_n_back(depth);
        for step in 0..50u64 {
            let sample = <Cell as Cue>::from_index((step % 10) as u8);
            chain.gen_with(Draw { fraction: step.wrapping_mul(0x2545_f491_4f6c_dd1d), sample });
            assert_eq!(chain.window().len(), depth + 1);
            assert_eq!(chain.n_back(), depth);
        }
    }
}

#[test]
fn window_keeps_its_length_under_random_draws() {
    for depth in 0..6usize {
        let mut chain: CueChain<Letter> = CueChain::with_n_back(depth);
        for _ in 0..200 {
            chain.gen();
            assert_eq!(chain.window().len(), depth + 1);
            assert_eq!(chain.n_back(), depth);
        }
    }
}

#[test]
fn gen_returns_the_newest_cue_and_drops_the_oldest() {
    let mut chain: CueChain<Cell> = CueChain::with_n_back(4);
    for _ in 0..300 {
        let before = chain.window();
        let cue = chain.gen();
        let after = chain.window();
        assert_eq!(after[4], cue);
        assert_eq!(after[..4], before[1..]);
    }
}

#[test]
fn no_match_while_the_window_fills() {
    for depth in 0..6usize {
        let mut chain: CueChain<Pigment> = CueChain::with_n_back(depth);
        assert!(!chain.is_match());
        for _ in 0..depth {
            chain.gen_with(forced(Pigment::A));
            assert!(!chain.is_match());
        }
        chain.gen_with(forced(Pigment::A));
        assert!(chain.is_match());
    }
}

#[test]
fn no_match_while_the_window_fills_under_random_draws() {
    for depth in 0..8usize {
        for _ in 0..50 {
            let mut chain: CueChain<Pigment> = CueChain::with_n_back(depth);
            for _ in 0..depth {
                chain.gen();
                assert!(!chain.is_match());
            }
        }
    }
}

#[test]
fn forced_repeat_returns_the_oldest_cue() {
    let mut chain = pigments(&[Pigment::C, Pigment::A, Pigment::B]);
    assert_eq!(chain.gen_with(forced(Pigment::E)), Pigment::C);
    assert_eq!(chain.window(), vec![Pigment::A, Pigment::B, Pigment::C]);
    assert_eq!(chain.gen_with(Draw { fraction: 0, sample: Pigment::E }), Pigment::A);
    assert_eq!(
        chain.gen_with(Draw { fraction: (1 << 62) - 1, sample: Pigment::E }),
        Pigment::B
    );
    assert_eq!(chain.window(), vec![Pigment::C, Pigment::A, Pigment::B]);
}

#[test]
fn forced_repeat_matches_in_a_chain_of_depth_zero() {
    let mut chain = pigments(&[Pigment::D]);
    assert_eq!(chain.gen_with(forced(Pigment::A)), Pigment::D);
    assert_eq!(chain.window(), vec![Pigment::D]);
    assert!(chain.is_match());
}

#[test]
fn forced_repeat_matches_when_the_two_oldest_cues_agree() {
    let mut chain = pigments(&[Pigment::B, Pigment::B, Pigment::A]);
    assert_eq!(chain.gen_with(forced(Pigment::E)), Pigment::B);
    assert_eq!(chain.window(), vec![Pigment::B, Pigment::A, Pigment::B]);
    assert!(chain.is_match());
}

#[test]
fn forced_repeat_of_distinct_cues_is_no_match() {
    let mut chain = pigments(&[Pigment::B, Pigment::A, Pigment::B]);
    assert_eq!(chain.gen_with(forced(Pigment::E)), Pigment::B);
    assert_eq!(chain.window(), vec![Pigment::A, Pigment::B, Pigment::B]);
    assert!(!chain.is_match());
}

#[test]
fn draw_at_or_above_a_quarter_returns_the_sample() {
    let mut chain = pigments(&[Pigment::C, Pigment::A, Pigment::B]);
    assert_eq!(chain.gen_with(Draw { fraction: 1 << 62, sample: Pigment::E }), Pigment::E);
    assert_eq!(chain.gen_with(free(Pigment::D)), Pigment::D);
    assert_eq!(chain.gen_with(Draw { fraction: u64::MAX, sample: Pigment::A }), Pigment::A);
    assert_eq!(chain.window(), vec![Pigment::E, Pigment::D, Pigment::A]);
}

#[test]
fn sentinel_in_the_oldest_slot_returns_the_sample() {
    let mut chain: CueChain<Cell> = CueChain::with_n_back(1);
    assert_eq!(chain.gen_with(forced(Cell::Center)), Cell::Center);
    assert_eq!(chain.gen_with(Draw { fraction: 0, sample: Cell::TopLeft }), Cell::TopLeft);
    assert_eq!(chain.window(), vec![Cell::Center, Cell::TopLeft]);
}

#[test]
fn sentinel_can_be_sampled_after_the_window_has_filled() {
    let mut chain = pigments(&[Pigment::A, Pigment::B]);
    assert_eq!(chain.gen_with(free(Pigment::Empty)), Pigment::Empty);
    assert_eq!(chain.window(), vec![Pigment::B, Pigment::Empty]);
    assert!(!chain.is_match());
    assert_eq!(chain.gen_with(free(Pigment::Empty)), Pigment::Empty);
    assert_eq!(chain.window(), vec![Pigment::Empty, Pigment::Empty]);
    assert!(!chain.is_match());
    assert_eq!(chain.gen_with(forced(Pigment::C)), Pigment::C);
}

#[test]
fn match_compares_the_newest_cue_with_the_oldest() {
    assert!(pigments(&[Pigment::A, Pigment::B, Pigment::A]).is_match());
    assert!(!pigments(&[Pigment::A, Pigment::A, Pigment::B]).is_match());
    assert!(!pigments(&[Pigment::B, Pigment::A, Pigment::A]).is_match());
    assert!(!pigments(&[Pigment::Empty, Pigment::A, Pigment::Empty]).is_match());
    assert!(!pigments(&[Pigment::Empty, Pigment::A, Pigment::A]).is_match());
    assert!(pigments(&[Pigment::A]).is_match());
    assert!(!pigments(&[Pigment::Empty]).is_match());
}

#[test]
fn two_back_session_matches_on_the_third_round() {
    let x = Pigment::A;
    let y = Pigment::B;
    let mut chain: CueChain<Pigment> = CueChain::with_n_back(2);
    assert_eq!(chain.window(), vec![Pigment::Empty, Pigment::Empty, Pigment::Empty]);

    assert_eq!(chain.gen_with(free(y)), y);
    assert!(!chain.is_match());

    assert_eq!(chain.gen_with(free(x)), x);
    assert!(!chain.is_match());

    assert_eq!(chain.gen_with(forced(y)), y);
    assert_eq!(chain.window(), vec![y, x, y]);
    assert!(chain.is_match());

    assert_eq!(chain.gen_with(forced(x)), y);
    assert_eq!(chain.window(), vec![x, y, y]);
    assert!(!chain.is_match());
}

#[test]
fn gen_reaches_every_cell() {
    let mut chain: CueChain<Cell> = CueChain::with_n_back(0);
    let mut seen = [false; 10];
    for _ in 0..20000 {
        let cue = chain.gen();
        for index in 0..=9u8 {
            if <Cell as Cue>::from_index(index) == cue {
                seen[index as usize] = true;
            }
        }
    }
    assert_eq!(seen, [true; 10]);
}

#[test]
fn gen_reaches_every_pigment() {
    let mut chain: CueChain<Pigment> = CueChain::with_n_back(3);
    let mut seen = [false; 6];
    for _ in 0..20000 {
        let cue = chain.gen();
        for index in 0..=5u8 {
            if <Pigment as Cue>::from_index(index) == cue {
                seen[index as usize] = true;
            }
        }
    }
    assert_eq!(seen, [true; 6]);
}

#[test]
fn gen_reaches_every_letter() {
    let mut chain: CueChain<Letter> = CueChain::with_n_back(1);
    let mut seen = [false; 9];
    for _ in 0..20000 {
        let cue = chain.gen();
        for index in 0..=8u8 {
            if <Letter as Cue>::from_index(index) == cue {
                seen[index as usize] = true;
            }
        }
    }
    assert_eq!(seen, [true; 9]);
}

#[test]
fn gen_repeats_the_oldest_cue_more_often_than_chance() {
    // In a chain of depth zero the oldest cue is the one just shown. A real
    // cue comes again with probability 1/4 + 3/4 * 1/10 = 0.325; after the
    // sentinel every cell comes with probability 1/10.
    let mut chain: CueChain<Cell> = CueChain::with_n_back(0);
    let mut after_real = 0u32;
    let mut repeats_after_real = 0u32;
    let mut after_sentinel = 0u32;
    let mut repeats_after_sentinel = 0u32;
    let mut previous = chain.gen();
    for _ in 0..200000 {
        let cue = chain.gen();
        if previous == Cell::Empty {
            after_sentinel += 1;
            if cue == previous {
                repeats_after_sentinel += 1;
            }
        } else {
            after_real += 1;
            if cue == previous {
                repeats_after_real += 1;
            }
        }
        previous = cue;
    }
    let real_rate = repeats_after_real as f64 / after_real as f64;
    let sentinel_rate = repeats_after_sentinel as f64 / after_sentinel as f64;
    assert!(real_rate > 0.30 && real_rate < 0.35, "{}", real_rate);
    assert!(sentinel_rate > 0.07 && sentinel_rate < 0.13, "{}", sentinel_rate);
}
