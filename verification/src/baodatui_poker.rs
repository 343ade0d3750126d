//! Game-specific card rules: scoring, raw power, and the prime/sub suit
//! distinction.

use vstd::prelude::*;
use crate::poker::Suit;

verus! {

pub open spec fn spec_score_of_numeric_number(num: u32) -> u32 {
    if num % 5 == 0 {
        num
    } else if num == 13 {
        10
    } else {
        0
    }
}

/// The points a card of this numeric value carries: fives, tens and kings
/// score; everything else is worth nothing.
pub fn score_of_numeric_number(num: u32) -> (r: u32)
    ensures
        r == spec_score_of_numeric_number(num),
{
    if num % 5 == 0 {
        return num;
    }
    if num == 13 {
        return 10;
    }
    0
}

/// The base strength of a card of this numeric value: aces rank above
/// kings, every other card ranks by its number.
pub fn raw_power_of_numeric_number(num: u32) -> (r: i32)
    ensures
        r == (if num == 1 {
            14i32
        } else {
            num as i32
        }),
{
    if num == 1 {
        14
    } else {
        num as i32
    }
}

/// Either the prime suit of a round (possibly none, for a no-trump round)
/// or a sub suit.
pub struct PrimeOrSub {
    pub prime_suit: Option<Suit>,
    sub_suit: Option<Suit>,
}

impl PrimeOrSub {
    pub closed spec fn spec_prime_suit(self) -> Option<Suit> {
        self.prime_suit
    }

    pub closed spec fn spec_sub_suit(self) -> Option<Suit> {
        self.sub_suit
    }

    pub fn of_prime_suit(prime_suit: Option<Suit>) -> (r: Self)
        ensures
            r.spec_prime_suit() == prime_suit,
            r.spec_sub_suit() is None,
    {
        Self { prime_suit, sub_suit: None }
    }

    pub fn of_sub_suit(sub_suit: Suit) -> (r: Self)
        ensures
            r.spec_prime_suit() is None,
            r.spec_sub_suit() == Some(sub_suit),
    {
        Self { prime_suit: None, sub_suit: Some(sub_suit) }
    }

    pub fn is_prime(&self) -> (r: bool)
        ensures
            r == (self.spec_sub_suit() is None),
    {
        match self.sub_suit {
            Some(_) => false,
            None => true,
        }
    }

    pub fn is_sub(&self) -> (r: bool)
        ensures
            r == (self.spec_sub_suit() is Some),
    {
        !self.is_prime()
    }
}

} // verus!
