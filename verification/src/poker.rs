//! The 54-card deck: four suits of thirteen plus two jokers.

use vstd::prelude::*;

verus! {

#[derive(Debug, Copy, Clone, PartialEq, Eq, Structural)]
pub enum Color {
    RED,
    BLACK,
}

#[derive(Debug, Copy, Clone, PartialEq, Eq, Structural)]
pub enum Suit {
    DIAMONDS,
    CLUBS,
    HEARTS,
    SPADES,
}

impl Suit {
    pub open spec fn spec_color(self) -> Color {
        match self {
            Suit::DIAMONDS => Color::RED,
            Suit::CLUBS => Color::BLACK,
            Suit::HEARTS => Color::RED,
            Suit::SPADES => Color::BLACK,
        }
    }

    pub fn color(&self) -> (r: Color)
        ensures
            r == self.spec_color(),
    {
        match self {
            Suit::DIAMONDS => Color::RED,
            Suit::CLUBS => Color::BLACK,
            Suit::HEARTS => Color::RED,
            Suit::SPADES => Color::BLACK,
        }
    }
}

#[derive(Debug, Copy, Clone)]
pub struct Card {
    /// Position of the card in the canonical deck; doubles as its identity.
    pub intrinsic_id: u32,
    /// None for the two jokers.
    pub suit: Option<Suit>,
    pub color: Color,
    /// 1 (ace) through 13 (king); None for the two jokers.
    pub numeric_card_num: Option<u32>,
}

/// The suit of each thirteen-card block of the deck, in deck order.
pub open spec fn suit_of_block(s: int) -> Suit {
    if s == 0 {
        Suit::DIAMONDS
    } else if s == 1 {
        Suit::CLUBS
    } else if s == 2 {
        Suit::HEARTS
    } else {
        Suit::SPADES
    }
}

/// The card at each position of the canonical deck: thirteen of each suit
/// in suit order, then the black joker, then the red joker.
pub open spec fn spec_card(i: int) -> Card {
    if i == 52 {
        Card { intrinsic_id: 52, suit: None, color: Color::BLACK, numeric_card_num: None }
    } else if i == 53 {
        Card { intrinsic_id: 53, suit: None, color: Color::RED, numeric_card_num: None }
    } else {
        let suit = suit_of_block(i / 13);
        Card {
            intrinsic_id: i as u32,
            suit: Some(suit),
            color: suit.spec_color(),
            numeric_card_num: Some((i % 13 + 1) as u32),
        }
    }
}

pub open spec fn spec_deck() -> Seq<Card> {
    Seq::new(54, |i: int| spec_card(i))
}

impl Card {
    fn of_numeric_num_and_suit(suit: Suit, numeric_card_num: u32, intrinsic_id: u32) -> (r: Card)
        ensures
            r == (Card {
                intrinsic_id,
                suit: Some(suit),
                color: suit.spec_color(),
                numeric_card_num: Some(numeric_card_num),
            }),
    {
        Card {
            intrinsic_id,
            suit: Some(suit),
            color: suit.color(),
            numeric_card_num: Some(numeric_card_num),
        }
    }

    fn of_red_joker() -> (r: Card)
        ensures
            r == spec_card(53),
    {
        Card { intrinsic_id: 53, suit: None, color: Color::RED, numeric_card_num: None }
    }

    fn of_black_joker() -> (r: Card)
        ensures
            r == spec_card(52),
    {
        Card { intrinsic_id: 52, suit: None, color: Color::BLACK, numeric_card_num: None }
    }

    pub fn is_joker(&self) -> (r: bool)
        ensures
            r == (self.intrinsic_id == 52 || self.intrinsic_id == 53),
    {
        self.intrinsic_id == 52 || self.intrinsic_id == 53
    }
}

/// The canonical deck, in its canonical order.
pub struct Cards {
    pub cards: Vec<Card>,
}

impl Cards {
    pub open spec fn wf(self) -> bool {
        self.cards@ == spec_deck()
    }

    pub fn by_id(&self, id: u32) -> (r: &Card)
        requires
            self.wf(),
        ensures
            *r == spec_deck()[(id as int) % 54],
    {
        &self.cards[(id as usize) % 54]
    }
}

impl Default for Cards {
    fn default() -> (r: Self)
        ensures
            r.wf(),
    {
        let mut cards_vec: Vec<Card> = Vec::new();
        let mut intrinsic_id: u32 = 0;
        while intrinsic_id < 52
            invariant
                0 <= intrinsic_id <= 52,
                cards_vec@.len() == intrinsic_id,
                forall|p: int| 0 <= p < intrinsic_id ==> (#[trigger] cards_vec@[p]) == spec_card(p),
            decreases 52 - intrinsic_id,
        {
            let block = intrinsic_id / 13;
            let suit = if block == 0 {
                Suit::DIAMONDS
            } else if block == 1 {
                Suit::CLUBS
            } else if block == 2 {
                Suit::HEARTS
            } else {
                Suit::SPADES
            };
            let numeric_num = intrinsic_id % 13 + 1;
            cards_vec.push(Card::of_numeric_num_and_suit(suit, numeric_num, intrinsic_id));
            intrinsic_id = intrinsic_id + 1;
        }
        cards_vec.push(Card::of_black_joker());
        cards_vec.push(Card::of_red_joker());
        proof {
            assert(cards_vec@ =~= spec_deck());
        }
        Self { cards: cards_vec }
    }
}

/// The canonical deck, built fresh. The running process shares one copy.
pub fn cards() -> (r: Cards)
    ensures
        r.wf(),
{
    Cards::default()
}

} // verus!
