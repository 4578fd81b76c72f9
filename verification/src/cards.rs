//! Card primitives: ranks, suits, cards and hole cards, with their two
//! textual forms (the short card token, e.g. `Ks`, and the long rank words
//! used by hand-category sentences, e.g. `Kings`).

use vstd::prelude::*;

use crate::prim::{tag, spec_tag, ParseError};
use crate::text::chars_to_string;

verus! {

/// A rank of a playing card, from deuce to ace.
#[derive(Debug, PartialEq, Eq, Structural, Clone, Copy)]
pub enum Rank {
    Two,
    Three,
    Four,
    Five,
    Six,
    Seven,
    Eight,
    Nine,
    Ten,
    Jack,
    Queen,
    King,
    Ace,
}

/// A suit of a playing card.
#[derive(Debug, PartialEq, Eq, Structural, Clone, Copy)]
pub enum Suit {
    Spades,
    Hearts,
    Diamonds,
    Clubs,
}

/// One playing card.
#[derive(Debug, PartialEq, Eq, Structural, Clone, Copy)]
pub struct Card {
    pub rank: Rank,
    pub suit: Suit,
}

/// The hero's two face-down cards.
#[derive(Debug, PartialEq, Eq, Structural, Clone, Copy)]
pub struct HoleCards {
    pub card1: Card,
    pub card2: Card,
}

/// The short one-character form of a rank, as it appears in a card token.
pub open spec fn rank_char(r: Rank) -> char {
    match r {
        Rank::Two => '2',
        Rank::Three => '3',
        Rank::Four => '4',
        Rank::Five => '5',
        Rank::Six => '6',
        Rank::Seven => '7',
        Rank::Eight => '8',
        Rank::Nine => '9',
        Rank::Ten => 'T',
        Rank::Jack => 'J',
        Rank::Queen => 'Q',
        Rank::King => 'K',
        Rank::Ace => 'A',
    }
}

/// The one-character form of a suit.
pub open spec fn suit_char(s: Suit) -> char {
    match s {
        Suit::Spades => 's',
        Suit::Hearts => 'h',
        Suit::Diamonds => 'd',
        Suit::Clubs => 'c',
    }
}

/// The two-character token of a card, rank then suit.
pub open spec fn card_chars(c: Card) -> Seq<char> {
    seq![rank_char(c.rank), suit_char(c.suit)]
}

/// A rank in short form at `i`.
pub open spec fn spec_parse_rank(s: Seq<char>, i: int) -> Option<(int, Rank)> {
    if 0 <= i < s.len() {
        match s[i] {
            '2' => Some((i + 1, Rank::Two)),
            '3' => Some((i + 1, Rank::Three)),
            '4' => Some((i + 1, Rank::Four)),
            '5' => Some((i + 1, Rank::Five)),
            '6' => Some((i + 1, Rank::Six)),
            '7' => Some((i + 1, Rank::Seven)),
            '8' => Some((i + 1, Rank::Eight)),
            '9' => Some((i + 1, Rank::Nine)),
            'T' => Some((i + 1, Rank::Ten)),
            'J' => Some((i + 1, Rank::Jack)),
            'Q' => Some((i + 1, Rank::Queen)),
            'K' => Some((i + 1, Rank::King)),
            'A' => Some((i + 1, Rank::Ace)),
            _ => None,
        }
    } else {
        None
    }
}

/// A suit at `i`.
pub open spec fn spec_parse_suit(s: Seq<char>, i: int) -> Option<(int, Suit)> {
    if 0 <= i < s.len() {
        match s[i] {
            's' => Some((i + 1, Suit::Spades)),
            'h' => Some((i + 1, Suit::Hearts)),
            'd' => Some((i + 1, Suit::Diamonds)),
            'c' => Some((i + 1, Suit::Clubs)),
            _ => None,
        }
    } else {
        None
    }
}

/// A card token at `i`: a rank character followed by a suit character.
pub open spec fn spec_parse_card(s: Seq<char>, i: int) -> Option<(int, Card)> {
    match spec_parse_rank(s, i) {
        None => None,
        Some((j, rank)) => match spec_parse_suit(s, j) {
            None => None,
            Some((k, suit)) => Some((k, Card { rank, suit })),
        },
    }
}

/// Two card tokens separated by a space, e.g. `Ks 9s`.
pub open spec fn spec_parse_hole_cards(s: Seq<char>, i: int) -> Option<(int, HoleCards)> {
    match spec_parse_card(s, i) {
        None => None,
        Some((j, card1)) => if j < s.len() && s[j] == ' ' {
            match spec_parse_card(s, j + 1) {
                None => None,
                Some((k, card2)) => Some((k, HoleCards { card1, card2 })),
            }
        } else {
            None
        },
    }
}

/// A rank in long word form at `i`, singular or plural (`Queen`/`Queens`);
/// the digit ranks keep their short form. The plural form is tried first.
pub open spec fn spec_parse_rank_words(s: Seq<char>, i: int) -> Option<(int, Rank)> {
    if spec_parse_rank_digit(s, i) is Some {
        spec_parse_rank_digit(s, i)
    } else if spec_tag(s, i, "Tens"@) is Some {
        Some((spec_tag(s, i, "Tens"@)->0, Rank::Ten))
    } else if spec_tag(s, i, "Ten"@) is Some {
        Some((spec_tag(s, i, "Ten"@)->0, Rank::Ten))
    } else if spec_tag(s, i, "Jacks"@) is Some {
        Some((spec_tag(s, i, "Jacks"@)->0, Rank::Jack))
    } else if spec_tag(s, i, "Jack"@) is Some {
        Some((spec_tag(s, i, "Jack"@)->0, Rank::Jack))
    } else if spec_tag(s, i, "Queens"@) is Some {
        Some((spec_tag(s, i, "Queens"@)->0, Rank::Queen))
    } else if spec_tag(s, i, "Queen"@) is Some {
        Some((spec_tag(s, i, "Queen"@)->0, Rank::Queen))
    } else if spec_tag(s, i, "Kings"@) is Some {
        Some((spec_tag(s, i, "Kings"@)->0, Rank::King))
    } else if spec_tag(s, i, "King"@) is Some {
        Some((spec_tag(s, i, "King"@)->0, Rank::King))
    } else if spec_tag(s, i, "Aces"@) is Some {
        Some((spec_tag(s, i, "Aces"@)->0, Rank::Ace))
    } else if spec_tag(s, i, "Ace"@) is Some {
        Some((spec_tag(s, i, "Ace"@)->0, Rank::Ace))
    } else {
        None
    }
}

/// A digit rank (`2`..`9`) at `i`.
pub open spec fn spec_parse_rank_digit(s: Seq<char>, i: int) -> Option<(int, Rank)> {
    if 0 <= i < s.len() {
        match s[i] {
            '2' => Some((i + 1, Rank::Two)),
            '3' => Some((i + 1, Rank::Three)),
            '4' => Some((i + 1, Rank::Four)),
            '5' => Some((i + 1, Rank::Five)),
            '6' => Some((i + 1, Rank::Six)),
            '7' => Some((i + 1, Rank::Seven)),
            '8' => Some((i + 1, Rank::Eight)),
            '9' => Some((i + 1, Rank::Nine)),
            _ => None,
        }
    } else {
        None
    }
}

impl Rank {
    /// Parses a rank in its short card form.
    pub fn parse_at(s: &[char], i: usize) -> (r: Result<(usize, Rank), ParseError>)
        requires
            i <= s.len(),
        ensures
            match r {
                Ok((j, v)) => spec_parse_rank(s@, i as int) == Some((j as int, v)) && i < j
                    <= s@.len(),
                Err(e) => spec_parse_rank(s@, i as int) is None && e.position == i,
            },
    {
        if i < s.len() {
            let rank = match s[i] {
                '2' => Some(Rank::Two),
                '3' => Some(Rank::Three),
                '4' => Some(Rank::Four),
                '5' => Some(Rank::Five),
                '6' => Some(Rank::Six),
                '7' => Some(Rank::Seven),
                '8' => Some(Rank::Eight),
                '9' => Some(Rank::Nine),
                'T' => Some(Rank::Ten),
                'J' => Some(Rank::Jack),
                'Q' => Some(Rank::Queen),
                'K' => Some(Rank::King),
                'A' => Some(Rank::Ace),
                _ => None,
            };
            match rank {
                Some(v) => Ok((i + 1, v)),
                None => Err(ParseError { position: i, expected: "rank" }),
            }
        } else {
            Err(ParseError { position: i, expected: "rank" })
        }
    }

    /// Parses a rank in its long word form, plural or singular.
    pub fn parse_words_at(s: &[char], i: usize) -> (r: Result<(usize, Rank), ParseError>)
        requires
            i <= s.len(),
        ensures
            match r {
                Ok((j, v)) => spec_parse_rank_words(s@, i as int) == Some((j as int, v)) && i < j
                    <= s@.len(),
                Err(e) => spec_parse_rank_words(s@, i as int) is None && e.position == i,
            },
    {
        proof {
            reveal_strlit("Tens");
            reveal_strlit("Ten");
            reveal_strlit("Jacks");
            reveal_strlit("Jack");
            reveal_strlit("Queens");
            reveal_strlit("Queen");
            reveal_strlit("Kings");
            reveal_strlit("King");
            reveal_strlit("Aces");
            reveal_strlit("Ace");
        }
        if i < s.len() {
            let digit = match s[i] {
                '2' => Some(Rank::Two),
                '3' => Some(Rank::Three),
                '4' => Some(Rank::Four),
                '5' => Some(Rank::Five),
                '6' => Some(Rank::Six),
                '7' => Some(Rank::Seven),
                '8' => Some(Rank::Eight),
                '9' => Some(Rank::Nine),
                _ => None,
            };
            if let Some(v) = digit {
                return Ok((i + 1, v));
            }
        }
        if let Ok(j) = tag(s, i, "Tens") {
            return Ok((j, Rank::Ten));
        }
        if let Ok(j) = tag(s, i, "Ten") {
            return Ok((j, Rank::Ten));
        }
        if let Ok(j) = tag(s, i, "Jacks") {
            return Ok((j, Rank::Jack));
        }
        if let Ok(j) = tag(s, i, "Jack") {
            return Ok((j, Rank::Jack));
        }
        if let Ok(j) = tag(s, i, "Queens") {
            return Ok((j, Rank::Queen));
        }
        if let Ok(j) = tag(s, i, "Queen") {
            return Ok((j, Rank::Queen));
        }
        if let Ok(j) = tag(s, i, "Kings") {
            return Ok((j, Rank::King));
        }
        if let Ok(j) = tag(s, i, "King") {
            return Ok((j, Rank::King));
        }
        if let Ok(j) = tag(s, i, "Aces") {
            return Ok((j, Rank::Ace));
        }
        if let Ok(j) = tag(s, i, "Ace") {
            return Ok((j, Rank::Ace));
        }
        Err(ParseError { position: i, expected: "rank word" })
    }

    /// The rank's one-character card form, e.g. `A` for an ace.
    pub fn to_char(self) -> (c: char)
        ensures
            c == rank_char(self),
    {
        match self {
            Rank::Two => '2',
            Rank::Three => '3',
            Rank::Four => '4',
            Rank::Five => '5',
            Rank::Six => '6',
            Rank::Seven => '7',
            Rank::Eight => '8',
            Rank::Nine => '9',
            Rank::Ten => 'T',
            Rank::Jack => 'J',
            Rank::Queen => 'Q',
            Rank::King => 'K',
            Rank::Ace => 'A',
        }
    }
}

impl Suit {
    /// Parses a suit character.
    pub fn parse_at(s: &[char], i: usize) -> (r: Result<(usize, Suit), ParseError>)
        requires
            i <= s.len(),
        ensures
            match r {
                Ok((j, v)) => spec_parse_suit(s@, i as int) == Some((j as int, v)) && i < j
                    <= s@.len(),
                Err(e) => spec_parse_suit(s@, i as int) is None && e.position == i,
            },
    {
        if i < s.len() {
            let suit = match s[i] {
                's' => Some(Suit::Spades),
                'h' => Some(Suit::Hearts),
                'd' => Some(Suit::Diamonds),
                'c' => Some(Suit::Clubs),
                _ => None,
            };
            match suit {
                Some(v) => Ok((i + 1, v)),
                None => Err(ParseError { position: i, expected: "suit" }),
            }
        } else {
            Err(ParseError { position: i, expected: "suit" })
        }
    }

    /// The suit's one-character form.
    pub fn to_char(self) -> (c: char)
        ensures
            c == suit_char(self),
    {
        match self {
            Suit::Spades => 's',
            Suit::Hearts => 'h',
            Suit::Diamonds => 'd',
            Suit::Clubs => 'c',
        }
    }
}

impl Card {
    /// Parses a card token.
    pub fn parse_at(s: &[char], i: usize) -> (r: Result<(usize, Card), ParseError>)
        requires
            i <= s.len(),
        ensures
            match r {
                Ok((j, v)) => spec_parse_card(s@, i as int) == Some((j as int, v)) && i < j
                    <= s@.len(),
                Err(e) => spec_parse_card(s@, i as int) is None,
            },
    {
        let (j, rank) = match Rank::parse_at(s, i) {
            Ok(v) => v,
            Err(e) => {
                return Err(e);
            },
        };
        let (k, suit) = match Suit::parse_at(s, j) {
            Ok(v) => v,
            Err(e) => {
                return Err(e);
            },
        };
        Ok((k, Card { rank, suit }))
    }

    /// The card's two-character token, e.g. `Ks`.
    pub fn to_string(&self) -> (r: String)
        ensures
            r@ == card_chars(*self),
    {
        let mut v: Vec<char> = Vec::new();
        v.push(self.rank.to_char());
        v.push(self.suit.to_char());
        proof {
            assert(v@ =~= card_chars(*self));
        }
        chars_to_string(v.as_slice())
    }
}

impl HoleCards {
    /// Parses two cards separated by a space.
    pub fn parse_at(s: &[char], i: usize) -> (r: Result<(usize, HoleCards), ParseError>)
        requires
            i <= s.len(),
        ensures
            match r {
                Ok((j, v)) => spec_parse_hole_cards(s@, i as int) == Some((j as int, v)) && i < j
                    <= s@.len(),
                Err(e) => spec_parse_hole_cards(s@, i as int) is None,
            },
    {
        let (j, card1) = match Card::parse_at(s, i) {
            Ok(v) => v,
            Err(e) => {
                return Err(e);
            },
        };
        if !(j < s.len() && s[j] == ' ') {
            return Err(ParseError { position: j, expected: "space" });
        }
        let (k, card2) = match Card::parse_at(s, j + 1) {
            Ok(v) => v,
            Err(e) => {
                return Err(e);
            },
        };
        Ok((k, HoleCards { card1, card2 }))
    }
}

} // verus!
