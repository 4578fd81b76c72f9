//! The tournament-summary grammar: a fixed sequence of labelled lines with
//! the tournament's identity, buy-in, blind levels, prize pool and the
//! hero's finish.

use vstd::prelude::*;
use vstd::slice::slice_subrange;

use crate::amount::{parse_euros_at, spec_parse_euros};
use crate::prim::{
    find_sub, line_ending, parse_u32, spec_line_ending, spec_tag, spec_u32, tag, find_pattern,
    ParseError,
};
use crate::text::{chars_to_string, str_to_chars};

verus! {

/// The poker variant of a blind level. The grammar recognises both variant
/// tokens but the data model keeps only no-limit hold'em, so both map to it.
#[derive(Debug, PartialEq, Eq, Structural, Clone, Copy)]
pub enum PokerType {
    HoldemNoLimit,
    OmahaPotLimit,
}

/// The poker-variant token at `i`: `holdem-no-limit` or `omaha-pot-limit`,
/// both denoting `HoldemNoLimit`.
pub open spec fn spec_parse_poker_type(s: Seq<char>, i: int) -> Option<(int, PokerType)> {
    match spec_tag(s, i, "holdem-no-limit"@) {
        Some(j) => Some((j, PokerType::HoldemNoLimit)),
        None => match spec_tag(s, i, "omaha-pot-limit"@) {
            Some(j) => Some((j, PokerType::HoldemNoLimit)),
            None => None,
        },
    }
}

impl PokerType {
    /// Parses a poker-variant token at `i`.
    pub fn parse_at(s: &[char], i: usize) -> (r: Result<(usize, PokerType), ParseError>)
        requires
            i <= s.len(),
        ensures
            match r {
                Ok((j, v)) => spec_parse_poker_type(s@, i as int) == Some((j as int, v)) && i <= j
                    <= s@.len(),
                Err(e) => spec_parse_poker_type(s@, i as int) is None,
            },
    {
        if let Ok(j) = tag(s, i, "holdem-no-limit") {
            return Ok((j, PokerType::HoldemNoLimit));
        }
        match tag(s, i, "omaha-pot-limit") {
            Ok(j) => Ok((j, PokerType::HoldemNoLimit)),
            Err(e) => Err(e),
        }
    }

    /// Parses a poker-variant token from the start of a string.
    pub fn parse(input: &str) -> (r: Result<(usize, PokerType), ParseError>)
        ensures
            match r {
                Ok((j, v)) => spec_parse_poker_type(input@, 0) == Some((j as int, v)),
                Err(e) => spec_parse_poker_type(input@, 0) is None,
            },
    {
        let v = str_to_chars(input);
        PokerType::parse_at(v.as_slice(), 0)
    }
}

/// One blind level: `sb-bb:ante:seconds:variant`.
#[derive(Debug, PartialEq, Eq, Structural, Clone, Copy)]
pub struct Level {
    pub ante: u32,
    pub small_blind: u32,
    pub big_blind: u32,
    pub seconds: u32,
    pub poker_type: PokerType,
}

/// A blind level at `i`.
pub open spec fn spec_parse_level(s: Seq<char>, i: int) -> Option<(int, Level)> {
    match spec_u32(s, i) {
        None => None,
        Some((j1, small_blind)) => match spec_tag(s, j1, "-"@) {
            None => None,
            Some(b0) => match spec_u32(s, b0) {
                None => None,
                Some((j2, big_blind)) => match spec_tag(s, j2, ":"@) {
                    None => None,
                    Some(a0) => match spec_u32(s, a0) {
                        None => None,
                        Some((j3, ante)) => match spec_tag(s, j3, ":"@) {
                            None => None,
                            Some(t0) => match spec_u32(s, t0) {
                                None => None,
                                Some((j4, seconds)) => match spec_tag(s, j4, ":"@) {
                                    None => None,
                                    Some(p0) => match spec_parse_poker_type(s, p0) {
                                        None => None,
                                        Some((j5, poker_type)) => Some(
                                            (j5, Level {
                                                ante,
                                                small_blind,
                                                big_blind,
                                                seconds,
                                                poker_type,
                                            }),
                                        ),
                                    },
                                },
                            },
                        },
                    },
                },
            },
        },
    }
}

impl Level {
    /// Parses a blind level at `i`.
    pub fn parse_at(s: &[char], i: usize) -> (r: Result<(usize, Level), ParseError>)
        requires
            i <= s.len(),
        ensures
            match r {
                Ok((j, v)) => spec_parse_level(s@, i as int) == Some((j as int, v)) && i < j
                    <= s@.len(),
                Err(e) => spec_parse_level(s@, i as int) is None,
            },
    {
        let (j1, small_blind) = match parse_u32(s, i) {
            Ok(v) => v,
            Err(e) => {
                return Err(e);
            },
        };
        let b0 = match tag(s, j1, "-") {
            Ok(v) => v,
            Err(e) => {
                return Err(e);
            },
        };
        let (j2, big_blind) = match parse_u32(s, b0) {
            Ok(v) => v,
            Err(e) => {
                return Err(e);
            },
        };
        let a0 = match tag(s, j2, ":") {
            Ok(v) => v,
            Err(e) => {
                return Err(e);
            },
        };
        let (j3, ante) = match parse_u32(s, a0) {
            Ok(v) => v,
            Err(e) => {
                return Err(e);
            },
        };
        let t0 = match tag(s, j3, ":") {
            Ok(v) => v,
            Err(e) => {
                return Err(e);
            },
        };
        let (j4, seconds) = match parse_u32(s, t0) {
            Ok(v) => v,
            Err(e) => {
                return Err(e);
            },
        };
        let p0 = match tag(s, j4, ":") {
            Ok(v) => v,
            Err(e) => {
                return Err(e);
            },
        };
        let (j5, poker_type) = match PokerType::parse_at(s, p0) {
            Ok(v) => v,
            Err(e) => {
                return Err(e);
            },
        };
        Ok((j5, Level { ante, small_blind, big_blind, seconds, poker_type }))
    }

    /// Parses a blind level from the start of a string.
    pub fn parse(input: &str) -> (r: Result<(usize, Level), ParseError>)
        ensures
            match r {
                Ok((j, v)) => spec_parse_level(input@, 0) == Some((j as int, v)),
                Err(e) => spec_parse_level(input@, 0) is None,
            },
    {
        let v = str_to_chars(input);
        Level::parse_at(v.as_slice(), 0)
    }
}

/// The kind of a tournament.
#[derive(Debug, PartialEq, Eq, Clone)]
pub enum TournamentType {
    Sitngo,
    Mtt,
    Knockout,
    Unknown(String),
}

/// Spec-level mirror of `TournamentType`.
pub ghost enum TournamentTypeV {
    Sitngo,
    Mtt,
    Knockout,
    Unknown(Seq<char>),
}

impl View for TournamentType {
    type V = TournamentTypeV;

    open spec fn view(&self) -> TournamentTypeV {
        match self {
            TournamentType::Sitngo => TournamentTypeV::Sitngo,
            TournamentType::Mtt => TournamentTypeV::Mtt,
            TournamentType::Knockout => TournamentTypeV::Knockout,
            TournamentType::Unknown(t) => TournamentTypeV::Unknown(t@),
        }
    }
}

impl DeepView for TournamentType {
    type V = TournamentTypeV;

    open spec fn deep_view(&self) -> TournamentTypeV {
        self.view()
    }
}

/// The textual form of a tournament kind, as the store's `tournament_type`
/// column holds it: the grammar's own token, or the unknown text itself.
pub open spec fn tournament_type_chars(t: TournamentTypeV) -> Seq<char> {
    match t {
        TournamentTypeV::Sitngo => "sitngo"@,
        TournamentTypeV::Mtt => "tt"@,
        TournamentTypeV::Knockout => "knockout"@,
        TournamentTypeV::Unknown(text) => text,
    }
}

/// A tournament-kind token at `i`: one of the known tokens, else the rest of
/// the line.
pub open spec fn spec_parse_tournament_type(s: Seq<char>, i: int) -> Option<(int,
    TournamentTypeV)> {
    match spec_tag(s, i, "sitngo"@) {
        Some(j) => Some((j, TournamentTypeV::Sitngo)),
        None => match spec_tag(s, i, "tt"@) {
            Some(j) => Some((j, TournamentTypeV::Mtt)),
            None => match spec_tag(s, i, "knockout"@) {
                Some(j) => Some((j, TournamentTypeV::Knockout)),
                None => match find_sub(s, i, "\n"@) {
                    Some(e) => Some((e, TournamentTypeV::Unknown(s.subrange(i, e)))),
                    None => None,
                },
            },
        },
    }
}

impl TournamentType {
    /// Parses a tournament-kind token at `i`.
    pub fn parse_at(s: &[char], i: usize) -> (r: Result<(usize, TournamentType), ParseError>)
        requires
            i <= s.len(),
        ensures
            match r {
                Ok((j, v)) => spec_parse_tournament_type(s@, i as int) == Some((j as int, v@)) && i
                    <= j <= s@.len(),
                Err(e) => spec_parse_tournament_type(s@, i as int) is None,
            },
    {
        if let Ok(j) = tag(s, i, "sitngo") {
            return Ok((j, TournamentType::Sitngo));
        }
        if let Ok(j) = tag(s, i, "tt") {
            return Ok((j, TournamentType::Mtt));
        }
        if let Ok(j) = tag(s, i, "knockout") {
            return Ok((j, TournamentType::Knockout));
        }
        match find_pattern(s, i, "\n") {
            Some(e) => {
                let text = chars_to_string(slice_subrange(s, i, e));
                Ok((e, TournamentType::Unknown(text)))
            },
            None => Err(ParseError { position: i, expected: "tournament type" }),
        }
    }

    /// Parses a tournament-kind token from the start of a string.
    pub fn parse(input: &str) -> (r: Result<(usize, TournamentType), ParseError>)
        ensures
            match r {
                Ok((j, v)) => spec_parse_tournament_type(input@, 0) == Some((j as int, v@)),
                Err(e) => spec_parse_tournament_type(input@, 0) is None,
            },
    {
        let v = str_to_chars(input);
        TournamentType::parse_at(v.as_slice(), 0)
    }

    /// The token the store keeps for this kind.
    pub fn to_string(&self) -> (r: String)
        ensures
            r@ == tournament_type_chars(self@),
    {
        match self {
            TournamentType::Sitngo => String::from_str("sitngo"),
            TournamentType::Mtt => String::from_str("tt"),
            TournamentType::Knockout => String::from_str("knockout"),
            TournamentType::Unknown(text) => text.clone(),
        }
    }
}

/// What entering the tournament cost: buy-in, rake, and the knockout bounty
/// share if the format has one (all cents).
#[derive(Debug, PartialEq, Eq, Clone, Copy)]
pub struct BuyIn {
    pub buy_in: u64,
    pub rake: u64,
    pub bounty: Option<u64>,
}

/// A buy-in group at `i`: `<amount> + <amount>[ + <amount>]`.
pub open spec fn spec_parse_buy_in(s: Seq<char>, i: int) -> Option<(int, BuyIn)> {
    match spec_parse_euros(s, i) {
        None => None,
        Some((j1, buy_in)) => match spec_tag(s, j1, " + "@) {
            None => None,
            Some(r0) => match spec_parse_euros(s, r0) {
                None => None,
                Some((j2, rake)) => match spec_parse_buy_in_bounty(s, j2) {
                    Some((j3, b)) => Some((j3, BuyIn { buy_in, rake, bounty: Some(b) })),
                    None => Some((j2, BuyIn { buy_in, rake, bounty: None })),
                },
            },
        },
    }
}

/// The optional bounty component of a buy-in group: ` + <amount>`.
pub open spec fn spec_parse_buy_in_bounty(s: Seq<char>, i: int) -> Option<(int, u64)> {
    match spec_tag(s, i, " + "@) {
        None => None,
        Some(b0) => spec_parse_euros(s, b0),
    }
}

impl BuyIn {
    /// Parses a buy-in group at `i`.
    pub fn parse_at(s: &[char], i: usize) -> (r: Result<(usize, BuyIn), ParseError>)
        requires
            i <= s.len(),
        ensures
            match r {
                Ok((j, v)) => spec_parse_buy_in(s@, i as int) == Some((j as int, v)) && i < j
                    <= s@.len(),
                Err(e) => spec_parse_buy_in(s@, i as int) is None,
            },
    {
        let (j1, buy_in) = match parse_euros_at(s, i) {
            Ok(v) => v,
            Err(e) => {
                return Err(e);
            },
        };
        let r0 = match tag(s, j1, " + ") {
            Ok(v) => v,
            Err(e) => {
                return Err(e);
            },
        };
        let (j2, rake) = match parse_euros_at(s, r0) {
            Ok(v) => v,
            Err(e) => {
                return Err(e);
            },
        };
        if let Ok(b0) = tag(s, j2, " + ") {
            if let Ok((j3, b)) = parse_euros_at(s, b0) {
                return Ok((j3, BuyIn { buy_in, rake, bounty: Some(b) }));
            }
        }
        Ok((j2, BuyIn { buy_in, rake, bounty: None }))
    }

    /// Parses a buy-in group from the start of a string.
    pub fn parse(input: &str) -> (r: Result<(usize, BuyIn), ParseError>)
        ensures
            match r {
                Ok((j, v)) => spec_parse_buy_in(input@, 0) == Some((j as int, v)),
                Err(e) => spec_parse_buy_in(input@, 0) is None,
            },
    {
        let v = str_to_chars(input);
        BuyIn::parse_at(v.as_slice(), 0)
    }
}

} // verus!

verus! {

/// A labelled text line at `i`: the label, free text up to the newline, and
/// the newline itself.
pub open spec fn spec_labeled_text(s: Seq<char>, i: int, label: Seq<char>) -> Option<(int,
    Seq<char>)> {
    match spec_tag(s, i, label) {
        None => None,
        Some(t0) => match find_sub(s, t0, "\n"@) {
            None => None,
            Some(e) => match spec_line_ending(s, e) {
                None => None,
                Some(j) => Some((j, s.subrange(t0, e))),
            },
        },
    }
}

/// Parses a labelled text line.
fn parse_labeled_text(s: &[char], i: usize, label: &str) -> (r: Result<(usize, String),
    ParseError>)
    requires
        i <= s.len(),
    ensures
        match r {
            Ok((j, v)) => spec_labeled_text(s@, i as int, label@) == Some((j as int, v@)) && i < j
                <= s@.len(),
            Err(e) => spec_labeled_text(s@, i as int, label@) is None,
        },
{
    let t0 = match tag(s, i, label) {
        Ok(v) => v,
        Err(e) => {
            return Err(e);
        },
    };
    let e = match find_pattern(s, t0, "\n") {
        Some(v) => v,
        None => {
            return Err(ParseError { position: t0, expected: "line ending" });
        },
    };
    let j = match line_ending(s, e) {
        Ok(v) => v,
        Err(e2) => {
            return Err(e2);
        },
    };
    Ok((j, chars_to_string(slice_subrange(s, t0, e))))
}

/// A labelled number line at `i`: the label, a `u32`, and a newline.
pub open spec fn spec_labeled_u32(s: Seq<char>, i: int, label: Seq<char>) -> Option<(int, u32)> {
    match spec_tag(s, i, label) {
        None => None,
        Some(t0) => match spec_u32(s, t0) {
            None => None,
            Some((e, v)) => match spec_line_ending(s, e) {
                None => None,
                Some(j) => Some((j, v)),
            },
        },
    }
}

/// Parses a labelled number line.
fn parse_labeled_u32(s: &[char], i: usize, label: &str) -> (r: Result<(usize, u32), ParseError>)
    requires
        i <= s.len(),
    ensures
        match r {
            Ok((j, v)) => spec_labeled_u32(s@, i as int, label@) == Some((j as int, v)) && i < j
                <= s@.len(),
            Err(e) => spec_labeled_u32(s@, i as int, label@) is None,
        },
{
    let t0 = match tag(s, i, label) {
        Ok(v) => v,
        Err(e) => {
            return Err(e);
        },
    };
    let (e, v) = match parse_u32(s, t0) {
        Ok(v) => v,
        Err(e2) => {
            return Err(e2);
        },
    };
    match line_ending(s, e) {
        Ok(j) => Ok((j, v)),
        Err(e2) => Err(e2),
    }
}

/// The identity half of a tournament summary: everything through the
/// `Flight ID` line.
pub ghost struct TsHeadV {
    pub name: Seq<char>,
    pub id: u32,
    pub hero: Seq<char>,
    pub buy_in: BuyIn,
    pub entries: u32,
    pub mode: Seq<char>,
    pub tournament_type: TournamentTypeV,
    pub speed: Seq<char>,
    pub flight_id: u32,
}

pub struct TsHead {
    pub name: String,
    pub id: u32,
    pub hero: String,
    pub buy_in: BuyIn,
    pub entries: u32,
    pub mode: String,
    pub tournament_type: TournamentType,
    pub speed: String,
    pub flight_id: u32,
}

impl View for TsHead {
    type V = TsHeadV;

    open spec fn view(&self) -> TsHeadV {
        TsHeadV {
            name: self.name@,
            id: self.id,
            hero: self.hero@,
            buy_in: self.buy_in,
            entries: self.entries,
            mode: self.mode@,
            tournament_type: self.tournament_type@,
            speed: self.speed@,
            flight_id: self.flight_id,
        }
    }
}

/// The identity half of a tournament summary at `i`: the title line with the
/// name and numeric id, then the hero, buy-in, entries, mode, type, speed and
/// flight-id lines.
pub open spec fn spec_parse_ts_head(s: Seq<char>, i: int) -> Option<(int, TsHeadV)> {
    match spec_tag(s, i, "Winamax Poker - Tournament summary : "@) {
        None => None,
        Some(n0) => match find_sub(s, n0, "("@) {
            None => None,
            Some(ne) => match spec_u32(s, ne + 1) {
                None => None,
                Some((i1, id)) => if i1 < s.len() && s[i1] == ')' {
                    match spec_skip_rest_of_line(s, i1 + 1) {
                        None => None,
                        Some(h0) => match spec_labeled_text(s, h0, "Player : "@) {
                            None => None,
                            Some((b0, hero)) => match spec_parse_buy_in_line(s, b0) {
                                None => None,
                                Some((e0, buy_in)) => match spec_labeled_u32(
                                    s,
                                    e0,
                                    "Registered players : "@,
                                ) {
                                    None => None,
                                    Some((m0, entries)) => match spec_labeled_text(
                                        s,
                                        m0,
                                        "Mode : "@,
                                    ) {
                                        None => None,
                                        Some((t0, mode)) => match spec_parse_type_line(s, t0) {
                                            None => None,
                                            Some((sp0, tournament_type)) => match spec_labeled_text(
                                                s,
                                                sp0,
                                                "Speed : "@,
                                            ) {
                                                None => None,
                                                Some((f0, speed)) => match spec_labeled_u32(
                                                    s,
                                                    f0,
                                                    "Flight ID : "@,
                                                ) {
                                                    None => None,
                                                    Some((j, flight_id)) => Some(
                                                        (j, TsHeadV {
                                                            name: s.subrange(n0, ne),
                                                            id,
                                                            hero,
                                                            buy_in,
                                                            entries,
                                                            mode,
                                                            tournament_type,
                                                            speed,
                                                            flight_id,
                                                        }),
                                                    ),
                                                },
                                            },
                                        },
                                    },
                                },
                            },
                        },
                    }
                } else {
                    None
                },
            },
        },
    }
}

/// The rest of the current line, newline included.
pub open spec fn spec_skip_rest_of_line(s: Seq<char>, i: int) -> Option<int> {
    match find_sub(s, i, "\n"@) {
        None => None,
        Some(e) => spec_line_ending(s, e),
    }
}

/// The buy-in line: `Buy-In : <buy-in group>`, newline-terminated.
pub open spec fn spec_parse_buy_in_line(s: Seq<char>, i: int) -> Option<(int, BuyIn)> {
    match spec_tag(s, i, "Buy-In : "@) {
        None => None,
        Some(b0) => match spec_parse_buy_in(s, b0) {
            None => None,
            Some((e, b)) => match spec_line_ending(s, e) {
                None => None,
                Some(j) => Some((j, b)),
            },
        },
    }
}

/// The type line: `Type : <kind>`, newline-terminated.
pub open spec fn spec_parse_type_line(s: Seq<char>, i: int) -> Option<(int, TournamentTypeV)> {
    match spec_tag(s, i, "Type : "@) {
        None => None,
        Some(t0) => match spec_parse_tournament_type(s, t0) {
            None => None,
            Some((e, t)) => match spec_line_ending(s, e) {
                None => None,
                Some(j) => Some((j, t)),
            },
        },
    }
}

/// Parses the identity half of a tournament summary.
pub fn parse_ts_head(s: &[char], i: usize) -> (r: Result<(usize, TsHead), ParseError>)
    requires
        i <= s.len(),
    ensures
        match r {
            Ok((j, v)) => spec_parse_ts_head(s@, i as int) == Some((j as int, v@)) && i < j
                <= s@.len(),
            Err(e) => spec_parse_ts_head(s@, i as int) is None,
        },
{
    let n0 = match tag(s, i, "Winamax Poker - Tournament summary : ") {
        Ok(v) => v,
        Err(e) => {
            return Err(e);
        },
    };
    let ne = match find_pattern(s, n0, "(") {
        Some(v) => v,
        None => {
            return Err(ParseError { position: n0, expected: "tournament id" });
        },
    };
    proof {
        reveal_strlit("(");
    }
    let (i1, id) = match parse_u32(s, ne + 1) {
        Ok(v) => v,
        Err(e) => {
            return Err(e);
        },
    };
    if !(i1 < s.len() && s[i1] == ')') {
        return Err(ParseError { position: i1, expected: "closing parenthesis" });
    }
    let h0 = match find_pattern(s, i1 + 1, "\n") {
        Some(e) => match line_ending(s, e) {
            Ok(v) => v,
            Err(e2) => {
                return Err(e2);
            },
        },
        None => {
            return Err(ParseError { position: i1, expected: "line ending" });
        },
    };
    let (b0, hero) = match parse_labeled_text(s, h0, "Player : ") {
        Ok(v) => v,
        Err(e) => {
            return Err(e);
        },
    };
    let e0 = match tag(s, b0, "Buy-In : ") {
        Ok(v) => v,
        Err(e) => {
            return Err(e);
        },
    };
    let (e1, buy_in) = match BuyIn::parse_at(s, e0) {
        Ok(v) => v,
        Err(e) => {
            return Err(e);
        },
    };
    let e2 = match line_ending(s, e1) {
        Ok(v) => v,
        Err(e) => {
            return Err(e);
        },
    };
    let (m0, entries) = match parse_labeled_u32(s, e2, "Registered players : ") {
        Ok(v) => v,
        Err(e) => {
            return Err(e);
        },
    };
    let (t0, mode) = match parse_labeled_text(s, m0, "Mode : ") {
        Ok(v) => v,
        Err(e) => {
            return Err(e);
        },
    };
    let t1 = match tag(s, t0, "Type : ") {
        Ok(v) => v,
        Err(e) => {
            return Err(e);
        },
    };
    let (t2, tournament_type) = match TournamentType::parse_at(s, t1) {
        Ok(v) => v,
        Err(e) => {
            return Err(e);
        },
    };
    let sp0 = match line_ending(s, t2) {
        Ok(v) => v,
        Err(e) => {
            return Err(e);
        },
    };
    let (f0, speed) = match parse_labeled_text(s, sp0, "Speed : ") {
        Ok(v) => v,
        Err(e) => {
            return Err(e);
        },
    };
    let (j, flight_id) = match parse_labeled_u32(s, f0, "Flight ID : ") {
        Ok(v) => v,
        Err(e) => {
            return Err(e);
        },
    };
    let name = chars_to_string(slice_subrange(s, n0, ne));
    Ok(
        (j, TsHead {
            name,
            id,
            hero,
            buy_in,
            entries,
            mode,
            tournament_type,
            speed,
            flight_id,
        }),
    )
}

} // verus!

verus! {

/// The continuation of a comma-separated level list after a level ending at
/// `j`.
pub open spec fn spec_parse_levels_more(s: Seq<char>, j: int) -> (int, Seq<Level>)
    decreases s.len() - j,
{
    match spec_tag(s, j, ","@) {
        None => (j, Seq::empty()),
        Some(c0) => match spec_parse_level(s, c0) {
            None => (j, Seq::empty()),
            Some((j2, l)) => if j < j2 <= s.len() {
                let (k, rest) = spec_parse_levels_more(s, j2);
                (k, seq![l] + rest)
            } else {
                (j2, seq![l])
            },
        },
    }
}

/// One or more comma-separated levels at `i`.
pub open spec fn spec_parse_levels1(s: Seq<char>, i: int) -> Option<(int, Seq<Level>)> {
    match spec_parse_level(s, i) {
        None => None,
        Some((j, l)) => {
            let (k, rest) = spec_parse_levels_more(s, j);
            Some((k, seq![l] + rest))
        },
    }
}

/// Parses one or more comma-separated levels at `i`.
pub fn parse_levels1(s: &[char], i: usize) -> (r: Result<(usize, Vec<Level>), ParseError>)
    requires
        i <= s.len(),
    ensures
        match r {
            Ok((j, v)) => spec_parse_levels1(s@, i as int) == Some((j as int, v@)) && i < j
                <= s@.len(),
            Err(e) => spec_parse_levels1(s@, i as int) is None,
        },
{
    let mut levels: Vec<Level> = Vec::new();
    let (first_end, first) = match Level::parse_at(s, i) {
        Ok(v) => v,
        Err(e) => {
            return Err(e);
        },
    };
    levels.push(first);
    let mut cur = first_end;
    proof {
        assert(levels@ =~= seq![first]);
        assert(spec_parse_levels1(s@, i as int)->Some_0.1 =~= levels@ + spec_parse_levels_more(
            s@,
            cur as int,
        ).1);
    }
    loop
        invariant
            i < cur <= s.len(),
            levels.len() >= 1,
            spec_parse_levels1(s@, i as int) is Some,
            spec_parse_levels1(s@, i as int)->Some_0.0 == spec_parse_levels_more(
                s@,
                cur as int,
            ).0,
            spec_parse_levels1(s@, i as int)->Some_0.1 == levels@ + spec_parse_levels_more(
                s@,
                cur as int,
            ).1,
        ensures
            spec_parse_levels1(s@, i as int) == Some((cur as int, levels@)),
            i < cur <= s.len(),
        decreases s.len() - cur,
    {
        let c0 = match tag(s, cur, ",") {
            Ok(v) => v,
            Err(_) => {
                proof {
                    assert(spec_parse_levels_more(s@, cur as int).1 =~= Seq::<Level>::empty());
                    assert(spec_parse_levels1(s@, i as int)->Some_0.1 =~= levels@);
                }
                break;
            },
        };
        match Level::parse_at(s, c0) {
            Err(_) => {
                proof {
                    assert(spec_parse_levels_more(s@, cur as int).1 =~= Seq::<Level>::empty());
                    assert(spec_parse_levels1(s@, i as int)->Some_0.1 =~= levels@);
                }
                break;
            },
            Ok((j, l)) => {
                let ghost old_levels = levels@;
                levels.push(l);
                proof {
                    assert(levels@ =~= old_levels + seq![l]);
                    assert(spec_parse_levels_more(s@, cur as int).1 =~= seq![l]
                        + spec_parse_levels_more(s@, j as int).1);
                    assert(spec_parse_levels1(s@, i as int)->Some_0.1 =~= levels@
                        + spec_parse_levels_more(s@, j as int).1);
                }
                cur = j;
            },
        }
    }
    Ok((cur, levels))
}

/// A parsed tournament-summary file.
#[derive(Debug, PartialEq, Eq, Clone)]
pub struct TournamentSummary {
    pub name: String,
    pub hero: String,
    pub id: u32,
    pub buy_in: BuyIn,
    pub entries: u32,
    pub mode: String,
    pub tournament_type: TournamentType,
    pub speed: String,
    pub flight_id: u32,
    pub levels: Vec<Level>,
    pub prizepool: u64,
    pub date: String,
    pub play_time: String,
    pub finish_place: u32,
    pub won: Option<u64>,
}

/// Spec-level mirror of `TournamentSummary`.
pub ghost struct TournamentSummaryV {
    pub name: Seq<char>,
    pub hero: Seq<char>,
    pub id: u32,
    pub buy_in: BuyIn,
    pub entries: u32,
    pub mode: Seq<char>,
    pub tournament_type: TournamentTypeV,
    pub speed: Seq<char>,
    pub flight_id: u32,
    pub levels: Seq<Level>,
    pub prizepool: u64,
    pub date: Seq<char>,
    pub play_time: Seq<char>,
    pub finish_place: u32,
    pub won: Option<u64>,
}

impl View for TournamentSummary {
    type V = TournamentSummaryV;

    open spec fn view(&self) -> TournamentSummaryV {
        TournamentSummaryV {
            name: self.name@,
            hero: self.hero@,
            id: self.id,
            buy_in: self.buy_in,
            entries: self.entries,
            mode: self.mode@,
            tournament_type: self.tournament_type@,
            speed: self.speed@,
            flight_id: self.flight_id,
            levels: self.levels@,
            prizepool: self.prizepool,
            date: self.date@,
            play_time: self.play_time@,
            finish_place: self.finish_place,
            won: self.won,
        }
    }
}

impl DeepView for TournamentSummary {
    type V = TournamentSummaryV;

    open spec fn deep_view(&self) -> TournamentSummaryV {
        self.view()
    }
}

/// The levels line: `Levels : Levels : [<levels>]`, closed by a bare newline.
pub open spec fn spec_parse_levels_line(s: Seq<char>, i: int) -> Option<(int, Seq<Level>)> {
    match spec_tag(s, i, "Levels : Levels : ["@) {
        None => None,
        Some(l0) => match spec_parse_levels1(s, l0) {
            None => None,
            Some((l1, levels)) => match spec_tag(s, l1, "]\n"@) {
                None => None,
                Some(j) => Some((j, levels)),
            },
        },
    }
}

/// The prize-pool line: `Prizepool : <amount>`, newline-terminated.
pub open spec fn spec_parse_prizepool_line(s: Seq<char>, i: int) -> Option<(int, u64)> {
    match spec_tag(s, i, "Prizepool : "@) {
        None => None,
        Some(p0) => match spec_parse_euros(s, p0) {
            None => None,
            Some((p1, v)) => match spec_line_ending(s, p1) {
                None => None,
                Some(j) => Some((j, v)),
            },
        },
    }
}

/// The finish line: `You finished in <n><ordinal suffix> place`, newline
/// included; the ordinal suffix does not affect the value.
pub open spec fn spec_parse_finish_line(s: Seq<char>, i: int) -> Option<(int, u32)> {
    match spec_tag(s, i, "You finished in "@) {
        None => None,
        Some(f0) => match spec_u32(s, f0) {
            None => None,
            Some((f1, place)) => match spec_parse_place_suffix(s, f1) {
                None => None,
                Some(j) => Some((j, place)),
            },
        },
    }
}

/// An ordinal suffix with the word `place` and a newline.
pub open spec fn spec_parse_place_suffix(s: Seq<char>, i: int) -> Option<int> {
    match spec_tag(s, i, "th place\n"@) {
        Some(j) => Some(j),
        None => match spec_tag(s, i, "st place\n"@) {
            Some(j) => Some(j),
            None => match spec_tag(s, i, "nd place\n"@) {
                Some(j) => Some(j),
                None => match spec_tag(s, i, "rd place\n"@) {
                    Some(j) => Some(j),
                    None => None,
                },
            },
        },
    }
}

/// The optional winnings note: `You won <amount>`.
pub open spec fn spec_parse_won(s: Seq<char>, i: int) -> Option<(int, u64)> {
    match spec_tag(s, i, "You won "@) {
        None => None,
        Some(w0) => spec_parse_euros(s, w0),
    }
}

/// A whole tournament summary at `i`: the identity half, then the levels,
/// prize pool, start date, play time, finish place, and optional winnings.
pub open spec fn spec_parse_tournament_summary(s: Seq<char>, i: int) -> Option<(int,
    TournamentSummaryV)> {
    match spec_parse_ts_head(s, i) {
        None => None,
        Some((l0, head)) => match spec_parse_levels_line(s, l0) {
            None => None,
            Some((p0, levels)) => match spec_parse_prizepool_line(s, p0) {
                None => None,
                Some((d0, prizepool)) => match spec_labeled_text(s, d0, "Tournament started "@) {
                    None => None,
                    Some((t0, date)) => match spec_labeled_text(s, t0, "You played "@) {
                        None => None,
                        Some((f0, play_time)) => match spec_parse_finish_line(s, f0) {
                            None => None,
                            Some((w0, finish_place)) => {
                                let (j, won) = match spec_parse_won(s, w0) {
                                    Some((q, w)) => (q, Some(w)),
                                    None => (w0, None),
                                };
                                Some(
                                    (j, TournamentSummaryV {
                                        name: head.name,
                                        hero: head.hero,
                                        id: head.id,
                                        buy_in: head.buy_in,
                                        entries: head.entries,
                                        mode: head.mode,
                                        tournament_type: head.tournament_type,
                                        speed: head.speed,
                                        flight_id: head.flight_id,
                                        levels,
                                        prizepool,
                                        date,
                                        play_time,
                                        finish_place,
                                        won,
                                    }),
                                )
                            },
                        },
                    },
                },
            },
        },
    }
}

impl TournamentSummary {
    /// Parses a whole tournament summary at `i`.
    pub fn parse_at(s: &[char], i: usize) -> (r: Result<(usize, TournamentSummary), ParseError>)
        requires
            i <= s.len(),
        ensures
            match r {
                Ok((j, v)) => spec_parse_tournament_summary(s@, i as int) == Some((j as int, v@))
                    && i < j <= s@.len(),
                Err(e) => spec_parse_tournament_summary(s@, i as int) is None,
            },
    {
        let (l0, head) = match parse_ts_head(s, i) {
            Ok(v) => v,
            Err(e) => {
                return Err(e);
            },
        };
        let l1 = match tag(s, l0, "Levels : Levels : [") {
            Ok(v) => v,
            Err(e) => {
                return Err(e);
            },
        };
        let (l2, levels) = match parse_levels1(s, l1) {
            Ok(v) => v,
            Err(e) => {
                return Err(e);
            },
        };
        let p0 = match tag(s, l2, "]\n") {
            Ok(v) => v,
            Err(e) => {
                return Err(e);
            },
        };
        let p1 = match tag(s, p0, "Prizepool : ") {
            Ok(v) => v,
            Err(e) => {
                return Err(e);
            },
        };
        let (p2, prizepool) = match parse_euros_at(s, p1) {
            Ok(v) => v,
            Err(e) => {
                return Err(e);
            },
        };
        let d0 = match line_ending(s, p2) {
            Ok(v) => v,
            Err(e) => {
                return Err(e);
            },
        };
        let (t0, date) = match parse_labeled_text(s, d0, "Tournament started ") {
            Ok(v) => v,
            Err(e) => {
                return Err(e);
            },
        };
        let (f0, play_time) = match parse_labeled_text(s, t0, "You played ") {
            Ok(v) => v,
            Err(e) => {
                return Err(e);
            },
        };
        let f1 = match tag(s, f0, "You finished in ") {
            Ok(v) => v,
            Err(e) => {
                return Err(e);
            },
        };
        let (f2, finish_place) = match parse_u32(s, f1) {
            Ok(v) => v,
            Err(e) => {
                return Err(e);
            },
        };
        let w0 = match parse_place_suffix(s, f2) {
            Ok(v) => v,
            Err(e) => {
                return Err(e);
            },
        };
        let mut j = w0;
        let mut won: Option<u64> = None;
        if let Ok(a0) = tag(s, w0, "You won ") {
            if let Ok((q, w)) = parse_euros_at(s, a0) {
                j = q;
                won = Some(w);
            }
        }
        Ok(
            (j, TournamentSummary {
                name: head.name,
                hero: head.hero,
                id: head.id,
                buy_in: head.buy_in,
                entries: head.entries,
                mode: head.mode,
                tournament_type: head.tournament_type,
                speed: head.speed,
                flight_id: head.flight_id,
                levels,
                prizepool,
                date,
                play_time,
                finish_place,
                won,
            }),
        )
    }

    /// Parses a whole tournament summary from the start of a string.
    pub fn parse(input: &str) -> (r: Result<(usize, TournamentSummary), ParseError>)
        ensures
            match r {
                Ok((j, v)) => spec_parse_tournament_summary(input@, 0) == Some((j as int, v@)),
                Err(e) => spec_parse_tournament_summary(input@, 0) is None,
            },
    {
        let v = str_to_chars(input);
        TournamentSummary::parse_at(v.as_slice(), 0)
    }
}

/// Parses an ordinal suffix with the word `place` and a newline.
fn parse_place_suffix(s: &[char], i: usize) -> (r: Result<usize, ParseError>)
    requires
        i <= s.len(),
    ensures
        match r {
            Ok(j) => spec_parse_place_suffix(s@, i as int) == Some(j as int) && i <= j <= s@.len(),
            Err(e) => spec_parse_place_suffix(s@, i as int) is None,
        },
{
    if let Ok(j) = tag(s, i, "th place\n") {
        return Ok(j);
    }
    if let Ok(j) = tag(s, i, "st place\n") {
        return Ok(j);
    }
    if let Ok(j) = tag(s, i, "nd place\n") {
        return Ok(j);
    }
    match tag(s, i, "rd place\n") {
        Ok(j) => Ok(j),
        Err(e) => Err(e),
    }
}

} // verus!
