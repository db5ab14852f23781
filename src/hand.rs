use vstd::prelude::*;

use crate::error::SErrors;

verus! {

/// One of the five hands a player can show.
#[derive(Debug, Clone, Copy, PartialEq, Eq, Structural)]
pub enum Hand {
    Rock,
    Paper,
    Scissors,
    Lizard,
    Spock,
}

/// The outcome of a game for the first of two hands.
#[derive(Debug, Clone, Copy, PartialEq, Eq, Structural)]
pub enum HandResult {
    Win,
    Lose,
    Draw,
}

/// The two hands that `h` defeats.
pub open spec fn beaten_by(h: Hand) -> (Hand, Hand) {
    match h {
        Hand::Rock => (Hand::Scissors, Hand::Lizard),
        Hand::Paper => (Hand::Rock, Hand::Spock),
        Hand::Scissors => (Hand::Paper, Hand::Lizard),
        Hand::Lizard => (Hand::Paper, Hand::Spock),
        Hand::Spock => (Hand::Rock, Hand::Scissors),
    }
}

/// `h` defeats `other`.
pub open spec fn defeats(h: Hand, other: Hand) -> bool {
    beaten_by(h).0 == other || beaten_by(h).1 == other
}

/// The result for the holder of `h0` against `h1`; a win of `h0` is looked
/// for first.
pub open spec fn outcome(h0: Hand, h1: Hand) -> HandResult {
    if defeats(h0, h1) {
        HandResult::Win
    } else if defeats(h1, h0) {
        HandResult::Lose
    } else {
        HandResult::Draw
    }
}

/// The hand that the symbol `c` stands for: `0` to `4` are rock, paper,
/// scissors, lizard and spock.
pub open spec fn hand_of_symbol(c: char) -> Option<Hand> {
    if c == '0' {
        Some(Hand::Rock)
    } else if c == '1' {
        Some(Hand::Paper)
    } else if c == '2' {
        Some(Hand::Scissors)
    } else if c == '3' {
        Some(Hand::Lizard)
    } else if c == '4' {
        Some(Hand::Spock)
    } else {
        None
    }
}

impl Hand {
    /// Reads a hand from its symbol.
    pub fn new(hand: char) -> (r: Result<Hand, SErrors>)
        ensures
            match hand_of_symbol(hand) {
                Some(h) => r == Ok::<Hand, SErrors>(h),
                None => r == Err::<Hand, SErrors>(SErrors::InvalidHandSymbol),
            },
    {
        match hand {
            '0' => Ok(Hand::Rock),
            '1' => Ok(Hand::Paper),
            '2' => Ok(Hand::Scissors),
            '3' => Ok(Hand::Lizard),
            '4' => Ok(Hand::Spock),
            _ => Err(SErrors::InvalidHandSymbol),
        }
    }
}

impl Default for Hand {
    /// The placeholder hand of a seat that has not revealed.
    fn default() -> (r: Hand)
        ensures
            r == Hand::Scissors,
    {
        Hand::Scissors
    }
}

/// The hands that a hand defeats.
pub trait Beats {
    spec fn beats_spec(&self) -> Seq<Hand>;

    fn beats(&self) -> (r: [Hand; 2])
        ensures
            r@ == self.beats_spec(),
    ;
}

impl Beats for Hand {
    open spec fn beats_spec(&self) -> Seq<Hand> {
        seq![beaten_by(*self).0, beaten_by(*self).1]
    }

    fn beats(&self) -> (r: [Hand; 2]) {
        let r = match *self {
            Hand::Rock => [Hand::Scissors, Hand::Lizard],
            Hand::Paper => [Hand::Rock, Hand::Spock],
            Hand::Scissors => [Hand::Paper, Hand::Lizard],
            Hand::Lizard => [Hand::Paper, Hand::Spock],
            Hand::Spock => [Hand::Rock, Hand::Scissors],
        };
        assert(r@ =~= self.beats_spec());
        r
    }
}

/// Decides a game between two hands from the beats relation: a win of `h0`
/// is looked for first, then a win of `h1`, else it is a draw.
pub fn decide(h0: Hand, h1: Hand) -> (r: HandResult)
    ensures
        r == outcome(h0, h1),
{
    let b0 = h0.beats();
    let b1 = h1.beats();
    if b0[0] == h1 || b0[1] == h1 {
        HandResult::Win
    } else if b1[0] == h0 || b1[1] == h0 {
        HandResult::Lose
    } else {
        HandResult::Draw
    }
}

/// Every hand defeats exactly two hands, neither of them itself, and is
/// defeated by exactly two others.
pub proof fn lemma_two_each_way(h: Hand)
    ensures
        beaten_by(h).0 != beaten_by(h).1,
        beaten_by(h).0 != h,
        beaten_by(h).1 != h,
        exists|a: Hand, b: Hand|
            {
                &&& a != b
                &&& a != h
                &&& b != h
                &&& defeats(a, h)
                &&& defeats(b, h)
                &&& forall|g: Hand| #[trigger] defeats(g, h) ==> g == a || g == b
            },
{
    let (a, b) = match h {
        Hand::Rock => (Hand::Paper, Hand::Spock),
        Hand::Paper => (Hand::Scissors, Hand::Lizard),
        Hand::Scissors => (Hand::Rock, Hand::Spock),
        Hand::Lizard => (Hand::Rock, Hand::Scissors),
        Hand::Spock => (Hand::Paper, Hand::Lizard),
    };
    assert forall|g: Hand| #[trigger] defeats(g, h) implies g == a || g == b by {
        match g {
            Hand::Rock => {},
            Hand::Paper => {},
            Hand::Scissors => {},
            Hand::Lizard => {},
            Hand::Spock => {},
        }
    }
    assert(a != b && a != h && b != h && defeats(a, h) && defeats(b, h));
}

/// Of two different hands exactly one defeats the other, so their game is
/// never a draw; a hand against itself is always a draw.
pub proof fn lemma_one_winner(h0: Hand, h1: Hand)
    ensures
        h0 != h1 ==> (defeats(h0, h1) != defeats(h1, h0)),
        h0 != h1 ==> outcome(h0, h1) != HandResult::Draw,
        h0 == h1 ==> outcome(h0, h1) == HandResult::Draw,
{
    match h0 {
        Hand::Rock => {},
        Hand::Paper => {},
        Hand::Scissors => {},
        Hand::Lizard => {},
        Hand::Spock => {},
    }
}

} // verus!
