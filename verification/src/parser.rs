//! The hand-history grammar. A hand record is a header line, a table line,
//! seat lines, a skipped ante/blinds section, the hero's dealt cards, street
//! sections and a summary section. Every production is specified by a spec
//! function of the input, and each executable parser returns exactly what its
//! spec function denotes.

use vstd::prelude::*;
use vstd::slice::slice_subrange;

use crate::amount::{spec_parse_amount, spec_parse_money, parse_blind_at, parse_money_at,
    AmountType, Stack};
use crate::cards::{spec_parse_hole_cards, spec_parse_card, Card, HoleCards, Rank};
use crate::prim::{
    spec_tag, spec_u32, spec_line_ending, till_char, till_eol, till_alpha, alpha_end, find_sub,
    tag, parse_u32, line_ending, take_till, take_till_eol, take_till_alpha, take_alpha1,
    find_pattern, ParseError,
};
use crate::text::{chars_to_string, str_to_chars};

verus! {

// ------------------------------------------------------------------
// The abstract syntax tree and its spec-level mirror.
// ------------------------------------------------------------------

/// Tournament header data: name, buy-in and rake (cents), and level.
#[derive(Debug, PartialEq, Eq, Clone)]
pub struct TournamentInfo {
    pub name: String,
    pub buy_in: u64,
    pub rake: u64,
    pub level: u32,
}

/// Spec-level mirror of `TournamentInfo`.
pub ghost struct TournamentInfoV {
    pub name: Seq<char>,
    pub buy_in: u64,
    pub rake: u64,
    pub level: u32,
}

impl View for TournamentInfo {
    type V = TournamentInfoV;

    open spec fn view(&self) -> TournamentInfoV {
        TournamentInfoV {
            name: self.name@,
            buy_in: self.buy_in,
            rake: self.rake,
            level: self.level,
        }
    }
}

impl DeepView for TournamentInfo {
    type V = TournamentInfoV;

    open spec fn deep_view(&self) -> TournamentInfoV {
        self.view()
    }
}

/// What kind of game a hand belongs to.
#[derive(Debug, PartialEq, Eq, Clone)]
pub enum GameInfo {
    Tournament(TournamentInfo),
    CashGame,
    HoldUp,
}

/// Spec-level mirror of `GameInfo`.
pub ghost enum GameInfoV {
    Tournament(TournamentInfoV),
    CashGame,
    HoldUp,
}

impl View for GameInfo {
    type V = GameInfoV;

    open spec fn view(&self) -> GameInfoV {
        match self {
            GameInfo::Tournament(t) => GameInfoV::Tournament(t@),
            GameInfo::CashGame => GameInfoV::CashGame,
            GameInfo::HoldUp => GameInfoV::HoldUp,
        }
    }
}

impl DeepView for GameInfo {
    type V = GameInfoV;

    open spec fn deep_view(&self) -> GameInfoV {
        self.view()
    }
}

/// The blinds of a hand: an optional ante, then small and big blind.
#[derive(Debug, PartialEq, Eq, Clone, Copy)]
pub struct Blinds {
    pub ante: Option<AmountType>,
    pub small_blind: AmountType,
    pub big_blind: AmountType,
}

/// The poker variant; only no-limit hold'em appears in hand histories.
#[derive(Debug, PartialEq, Eq, Structural, Clone, Copy)]
pub enum PokerType {
    HoldemNoLimit,
}

/// The header line of a hand record.
#[derive(Debug, PartialEq, Eq, Clone)]
pub struct HandInfo {
    pub game_info: GameInfo,
    pub hand_id: String,
    pub poker_type: PokerType,
    pub blinds: Blinds,
    pub datetime: String,
}

/// Spec-level mirror of `HandInfo`.
pub ghost struct HandInfoV {
    pub game_info: GameInfoV,
    pub hand_id: Seq<char>,
    pub poker_type: PokerType,
    pub blinds: Blinds,
    pub datetime: Seq<char>,
}

impl View for HandInfo {
    type V = HandInfoV;

    open spec fn view(&self) -> HandInfoV {
        HandInfoV {
            game_info: self.game_info@,
            hand_id: self.hand_id@,
            poker_type: self.poker_type,
            blinds: self.blinds,
            datetime: self.datetime@,
        }
    }
}

impl DeepView for HandInfo {
    type V = HandInfoV;

    open spec fn deep_view(&self) -> HandInfoV {
        self.view()
    }
}

/// The quoted table name: a tournament table (name, tournament id, table id)
/// or a free-form cash-game name.
#[derive(Debug, PartialEq, Eq, Clone)]
pub enum TableName {
    Tournament(String, u32, u32),
    CashGame(String),
}

/// Spec-level mirror of `TableName`.
pub ghost enum TableNameV {
    Tournament(Seq<char>, u32, u32),
    CashGame(Seq<char>),
}

impl View for TableName {
    type V = TableNameV;

    open spec fn view(&self) -> TableNameV {
        match self {
            TableName::Tournament(name, tid, table) => TableNameV::Tournament(name@, *tid, *table),
            TableName::CashGame(name) => TableNameV::CashGame(name@),
        }
    }
}

impl DeepView for TableName {
    type V = TableNameV;

    open spec fn deep_view(&self) -> TableNameV {
        self.view()
    }
}

/// Whether the table plays for real or play money.
#[derive(Debug, PartialEq, Eq, Structural, Clone, Copy)]
pub enum MoneyType {
    RealMoney,
    PlayMoney,
}

/// The table line of a hand record.
#[derive(Debug, PartialEq, Eq, Clone)]
pub struct TableInfo {
    pub table_name: TableName,
    pub max_players: u32,
    pub currency: MoneyType,
    pub button: u32,
}

/// Spec-level mirror of `TableInfo`.
pub ghost struct TableInfoV {
    pub table_name: TableNameV,
    pub max_players: u32,
    pub currency: MoneyType,
    pub button: u32,
}

impl View for TableInfo {
    type V = TableInfoV;

    open spec fn view(&self) -> TableInfoV {
        TableInfoV {
            table_name: self.table_name@,
            max_players: self.max_players,
            currency: self.currency,
            button: self.button,
        }
    }
}

impl DeepView for TableInfo {
    type V = TableInfoV;

    open spec fn deep_view(&self) -> TableInfoV {
        self.view()
    }
}

// ------------------------------------------------------------------
// Header-line productions.
// ------------------------------------------------------------------

/// Tournament header data at `i`:
/// `"<name>" buyIn: <money> + <money> level: <n>`.
pub open spec fn spec_parse_tournament_info(s: Seq<char>, i: int) -> Option<(int,
    TournamentInfoV)> {
    if !(0 <= i < s.len() && s[i] == '"') {
        None
    } else {
        let ne = till_char(s, i + 1, '"');
        if !(ne < s.len()) {
            None
        } else {
            match spec_tag(s, ne + 1, " buyIn: "@) {
                None => None,
                Some(i2) => match spec_parse_money(s, i2) {
                    None => None,
                    Some((j1, buy_in)) => match spec_tag(s, j1, " + "@) {
                        None => None,
                        Some(i3) => match spec_parse_money(s, i3) {
                            None => None,
                            Some((j2, rake)) => match spec_tag(s, j2, " level: "@) {
                                None => None,
                                Some(i4) => match spec_u32(s, i4) {
                                    None => None,
                                    Some((j3, level)) => Some(
                                        (j3, TournamentInfoV {
                                            name: s.subrange(i + 1, ne),
                                            buy_in,
                                            rake,
                                            level,
                                        }),
                                    ),
                                },
                            },
                        },
                    },
                },
            }
        }
    }
}

impl TournamentInfo {
    /// Parses tournament header data at `i`.
    pub fn parse_at(s: &[char], i: usize) -> (r: Result<(usize, TournamentInfo), ParseError>)
        requires
            i <= s.len(),
        ensures
            match r {
                Ok((j, v)) => spec_parse_tournament_info(s@, i as int) == Some((j as int, v@))
                    && i < j <= s@.len(),
                Err(e) => spec_parse_tournament_info(s@, i as int) is None,
            },
    {
        if !(i < s.len() && s[i] == '"') {
            return Err(ParseError { position: i, expected: "quote" });
        }
        let ne = take_till(s, i + 1, '"');
        if !(ne < s.len()) {
            return Err(ParseError { position: ne, expected: "quote" });
        }
        let i2 = match tag(s, ne + 1, " buyIn: ") {
            Ok(v) => v,
            Err(e) => {
                return Err(e);
            },
        };
        let (j1, buy_in) = match parse_money_at(s, i2) {
            Ok(v) => v,
            Err(e) => {
                return Err(e);
            },
        };
        let i3 = match tag(s, j1, " + ") {
            Ok(v) => v,
            Err(e) => {
                return Err(e);
            },
        };
        let (j2, rake) = match parse_money_at(s, i3) {
            Ok(v) => v,
            Err(e) => {
                return Err(e);
            },
        };
        let i4 = match tag(s, j2, " level: ") {
            Ok(v) => v,
            Err(e) => {
                return Err(e);
            },
        };
        let (j3, level) = match parse_u32(s, i4) {
            Ok(v) => v,
            Err(e) => {
                return Err(e);
            },
        };
        let name = chars_to_string(slice_subrange(s, i + 1, ne));
        Ok((j3, TournamentInfo { name, buy_in, rake, level }))
    }

    /// Parses tournament header data from the start of a string.
    pub fn parse(input: &str) -> (r: Result<(usize, TournamentInfo), ParseError>)
        ensures
            match r {
                Ok((j, v)) => spec_parse_tournament_info(input@, 0) == Some((j as int, v@)),
                Err(e) => spec_parse_tournament_info(input@, 0) is None,
            },
    {
        let v = str_to_chars(input);
        TournamentInfo::parse_at(v.as_slice(), 0)
    }
}

/// The game kind at `i`, after the fixed room prefix:
/// a tournament, `CashGame`, or a named `HOLD-UP` game.
pub open spec fn spec_parse_game_info(s: Seq<char>, i: int) -> Option<(int, GameInfoV)> {
    match spec_tag(s, i, "Winamax Poker - "@) {
        None => None,
        Some(i1) => {
            let tb = spec_parse_game_tournament(s, i1);
            if tb is Some {
                tb
            } else {
                match spec_tag(s, i1, "CashGame"@) {
                    Some(j) => Some((j, GameInfoV::CashGame)),
                    None => spec_parse_game_holdup(s, i1),
                }
            }
        },
    }
}

/// The tournament alternative of the game kind.
pub open spec fn spec_parse_game_tournament(s: Seq<char>, i: int) -> Option<(int, GameInfoV)> {
    match spec_tag(s, i, "Tournament "@) {
        None => None,
        Some(i2) => match spec_parse_tournament_info(s, i2) {
            None => None,
            Some((j, ti)) => Some((j, GameInfoV::Tournament(ti))),
        },
    }
}

/// The hold-up alternative of the game kind: `HOLD-UP "<letters>"`.
pub open spec fn spec_parse_game_holdup(s: Seq<char>, i: int) -> Option<(int, GameInfoV)> {
    match spec_tag(s, i, "HOLD-UP \""@) {
        None => None,
        Some(i2) => {
            let ae = alpha_end(s, i2);
            if ae > i2 && ae < s.len() && s[ae] == '"' {
                Some((ae + 1, GameInfoV::HoldUp))
            } else {
                None
            }
        },
    }
}

impl GameInfo {
    /// Parses the game kind, including the fixed room prefix.
    pub fn parse_at(s: &[char], i: usize) -> (r: Result<(usize, GameInfo), ParseError>)
        requires
            i <= s.len(),
        ensures
            match r {
                Ok((j, v)) => spec_parse_game_info(s@, i as int) == Some((j as int, v@)) && i <= j
                    <= s@.len(),
                Err(e) => spec_parse_game_info(s@, i as int) is None,
            },
    {
        let i1 = match tag(s, i, "Winamax Poker - ") {
            Ok(v) => v,
            Err(e) => {
                return Err(e);
            },
        };
        if let Ok(i2) = tag(s, i1, "Tournament ") {
            if let Ok((j, ti)) = TournamentInfo::parse_at(s, i2) {
                return Ok((j, GameInfo::Tournament(ti)));
            }
        }
        if let Ok(j) = tag(s, i1, "CashGame") {
            return Ok((j, GameInfo::CashGame));
        }
        let i2 = match tag(s, i1, "HOLD-UP \"") {
            Ok(v) => v,
            Err(e) => {
                return Err(e);
            },
        };
        let ae = match take_alpha1(s, i2) {
            Ok(v) => v,
            Err(e) => {
                return Err(e);
            },
        };
        if ae < s.len() && s[ae] == '"' {
            Ok((ae + 1, GameInfo::HoldUp))
        } else {
            Err(ParseError { position: ae, expected: "quote" })
        }
    }

    /// Parses the game kind from the start of a string.
    pub fn parse(input: &str) -> (r: Result<(usize, GameInfo), ParseError>)
        ensures
            match r {
                Ok((j, v)) => spec_parse_game_info(input@, 0) == Some((j as int, v@)),
                Err(e) => spec_parse_game_info(input@, 0) is None,
            },
    {
        let v = str_to_chars(input);
        GameInfo::parse_at(v.as_slice(), 0)
    }
}

/// The blinds at `i`: `ante/sb/bb` or `sb/bb`, each component an amount.
pub open spec fn spec_parse_blinds(s: Seq<char>, i: int) -> Option<(int, Blinds)> {
    match spec_parse_amount(s, i) {
        None => None,
        Some((j1, a1)) => if j1 < s.len() && s[j1] == '/' {
            match spec_parse_amount(s, j1 + 1) {
                None => None,
                Some((j2, a2)) => if j2 < s.len() && s[j2] == '/' {
                    match spec_parse_amount(s, j2 + 1) {
                        Some((j3, a3)) => Some(
                            (j3, Blinds { ante: Some(a1), small_blind: a2, big_blind: a3 }),
                        ),
                        None => Some((j2, Blinds { ante: None, small_blind: a1, big_blind: a2 })),
                    }
                } else {
                    Some((j2, Blinds { ante: None, small_blind: a1, big_blind: a2 }))
                },
            }
        } else {
            None
        },
    }
}

impl Blinds {
    /// Parses the blinds group of a header line.
    pub fn parse_at(s: &[char], i: usize) -> (r: Result<(usize, Blinds), ParseError>)
        requires
            i <= s.len(),
        ensures
            match r {
                Ok((j, v)) => spec_parse_blinds(s@, i as int) == Some((j as int, v)) && i < j
                    <= s@.len(),
                Err(e) => spec_parse_blinds(s@, i as int) is None,
            },
    {
        let (j1, a1) = match parse_blind_at(s, i) {
            Ok(v) => v,
            Err(e) => {
                return Err(e);
            },
        };
        if !(j1 < s.len() && s[j1] == '/') {
            return Err(ParseError { position: j1, expected: "slash" });
        }
        let (j2, a2) = match parse_blind_at(s, j1 + 1) {
            Ok(v) => v,
            Err(e) => {
                return Err(e);
            },
        };
        if j2 < s.len() && s[j2] == '/' {
            match parse_blind_at(s, j2 + 1) {
                Ok((j3, a3)) => Ok((j3, Blinds { ante: Some(a1), small_blind: a2, big_blind: a3 })),
                Err(_) => Ok((j2, Blinds { ante: None, small_blind: a1, big_blind: a2 })),
            }
        } else {
            Ok((j2, Blinds { ante: None, small_blind: a1, big_blind: a2 }))
        }
    }

    /// Parses the blinds group from the start of a string.
    pub fn parse(input: &str) -> (r: Result<(usize, Blinds), ParseError>)
        ensures
            match r {
                Ok((j, v)) => spec_parse_blinds(input@, 0) == Some((j as int, v)),
                Err(e) => spec_parse_blinds(input@, 0) is None,
            },
    {
        let v = str_to_chars(input);
        Blinds::parse_at(v.as_slice(), 0)
    }
}

/// The poker variant at `i`.
pub open spec fn spec_parse_poker_type(s: Seq<char>, i: int) -> Option<(int, PokerType)> {
    match spec_tag(s, i, "Holdem no limit"@) {
        Some(j) => Some((j, PokerType::HoldemNoLimit)),
        None => None,
    }
}

impl PokerType {
    /// Parses the poker variant.
    pub fn parse_at(s: &[char], i: usize) -> (r: Result<(usize, PokerType), ParseError>)
        requires
            i <= s.len(),
        ensures
            match r {
                Ok((j, v)) => spec_parse_poker_type(s@, i as int) == Some((j as int, v)) && i <= j
                    <= s@.len(),
                Err(e) => spec_parse_poker_type(s@, i as int) is None,
            },
    {
        match tag(s, i, "Holdem no limit") {
            Ok(j) => Ok((j, PokerType::HoldemNoLimit)),
            Err(e) => Err(e),
        }
    }
}

/// A header line at `i`: the game kind, hand id, variant, blinds, and the
/// date-time text that fills the rest of the line.
pub open spec fn spec_parse_hand_info(s: Seq<char>, i: int) -> Option<(int, HandInfoV)> {
    match spec_parse_game_info(s, i) {
        None => None,
        Some((g1, game_info)) => match spec_tag(s, g1, " - HandId: #"@) {
            None => None,
            Some(h0) => {
                let he = till_char(s, h0, ' ');
                match spec_tag(s, he, " - "@) {
                    None => None,
                    Some(p0) => match spec_parse_poker_type(s, p0) {
                        None => None,
                        Some((p1, poker_type)) => if p1 + 1 < s.len() && s[p1] == ' ' && s[p1 + 1]
                            == '(' {
                            match spec_parse_blinds(s, p1 + 2) {
                                None => None,
                                Some((b1, blinds)) => if b1 < s.len() && s[b1] == ')' {
                                    match spec_tag(s, b1 + 1, " - "@) {
                                        None => None,
                                        Some(d0) => {
                                            let de = till_eol(s, d0);
                                            match spec_line_ending(s, de) {
                                                None => None,
                                                Some(j) => Some(
                                                    (j, HandInfoV {
                                                        game_info,
                                                        hand_id: s.subrange(h0, he),
                                                        poker_type,
                                                        blinds,
                                                        datetime: s.subrange(d0, de),
                                                    }),
                                                ),
                                            }
                                        },
                                    }
                                } else {
                                    None
                                },
                            }
                        } else {
                            None
                        },
                    },
                }
            },
        },
    }
}

impl HandInfo {
    /// Parses a header line at `i`.
    pub fn parse_at(s: &[char], i: usize) -> (r: Result<(usize, HandInfo), ParseError>)
        requires
            i <= s.len(),
        ensures
            match r {
                Ok((j, v)) => spec_parse_hand_info(s@, i as int) == Some((j as int, v@)) && i < j
                    <= s@.len(),
                Err(e) => spec_parse_hand_info(s@, i as int) is None,
            },
    {
        let (g1, game_info) = match GameInfo::parse_at(s, i) {
            Ok(v) => v,
            Err(e) => {
                return Err(e);
            },
        };
        let h0 = match tag(s, g1, " - HandId: #") {
            Ok(v) => v,
            Err(e) => {
                return Err(e);
            },
        };
        let he = take_till(s, h0, ' ');
        let p0 = match tag(s, he, " - ") {
            Ok(v) => v,
            Err(e) => {
                return Err(e);
            },
        };
        let (p1, poker_type) = match PokerType::parse_at(s, p0) {
            Ok(v) => v,
            Err(e) => {
                return Err(e);
            },
        };
        if !(p1 < s.len() && s[p1] == ' ' && p1 + 1 < s.len() && s[p1 + 1] == '(') {
            return Err(ParseError { position: p1, expected: "blinds group" });
        }
        let (b1, blinds) = match Blinds::parse_at(s, p1 + 2) {
            Ok(v) => v,
            Err(e) => {
                return Err(e);
            },
        };
        if !(b1 < s.len() && s[b1] == ')') {
            return Err(ParseError { position: b1, expected: "closing parenthesis" });
        }
        let d0 = match tag(s, b1 + 1, " - ") {
            Ok(v) => v,
            Err(e) => {
                return Err(e);
            },
        };
        let de = take_till_eol(s, d0);
        let j = match line_ending(s, de) {
            Ok(v) => v,
            Err(e) => {
                return Err(e);
            },
        };
        let hand_id = chars_to_string(slice_subrange(s, h0, he));
        let datetime = chars_to_string(slice_subrange(s, d0, de));
        Ok((j, HandInfo { game_info, hand_id, poker_type, blinds, datetime }))
    }

    /// Parses a header line from the start of a string.
    pub fn parse(input: &str) -> (r: Result<(usize, HandInfo), ParseError>)
        ensures
            match r {
                Ok((j, v)) => spec_parse_hand_info(input@, 0) == Some((j as int, v@)),
                Err(e) => spec_parse_hand_info(input@, 0) is None,
            },
    {
        let v = str_to_chars(input);
        HandInfo::parse_at(v.as_slice(), 0)
    }
}

// ------------------------------------------------------------------
// Table-line productions.
// ------------------------------------------------------------------

/// The tournament alternative of a quoted table name, after the opening
/// quote: `<name>(<tournament id>)#<table id>`.
pub open spec fn spec_parse_table_name_tournament(s: Seq<char>, i: int) -> Option<(int,
    TableNameV)> {
    let ne = till_char(s, i, '(');
    if !(ne < s.len()) {
        None
    } else {
        match spec_u32(s, ne + 1) {
            None => None,
            Some((j1, tid)) => match spec_tag(s, j1, ")#"@) {
                None => None,
                Some(i2) => match spec_u32(s, i2) {
                    None => None,
                    Some((j2, table)) => Some(
                        (j2, TableNameV::Tournament(s.subrange(i, ne), tid, table)),
                    ),
                },
            },
        }
    }
}

/// A quoted table name at `i`: a tournament table, else a cash-game name.
/// When the tournament alternative matches, the closing quote must follow it;
/// the cash-game alternative is not retried in that case.
pub open spec fn spec_parse_table_name(s: Seq<char>, i: int) -> Option<(int, TableNameV)> {
    if !(0 <= i < s.len() && s[i] == '\'') {
        None
    } else {
        match spec_parse_table_name_tournament(s, i + 1) {
            Some((j, tn)) => if j < s.len() && s[j] == '\'' {
                Some((j + 1, tn))
            } else {
                None
            },
            None => {
                let ce = till_char(s, i + 1, '\'');
                if ce < s.len() {
                    Some((ce + 1, TableNameV::CashGame(s.subrange(i + 1, ce))))
                } else {
                    None
                }
            },
        }
    }
}

impl TableName {
    /// Parses a quoted table name at `i`.
    pub fn parse_at(s: &[char], i: usize) -> (r: Result<(usize, TableName), ParseError>)
        requires
            i <= s.len(),
        ensures
            match r {
                Ok((j, v)) => spec_parse_table_name(s@, i as int) == Some((j as int, v@)) && i < j
                    <= s@.len(),
                Err(e) => spec_parse_table_name(s@, i as int) is None,
            },
    {
        if !(i < s.len() && s[i] == '\'') {
            return Err(ParseError { position: i, expected: "opening quote" });
        }
        let ne = take_till(s, i + 1, '(');
        let tournament: Option<(usize, TableName)> = if ne < s.len() {
            match parse_u32(s, ne + 1) {
                Ok((j1, tid)) => match tag(s, j1, ")#") {
                    Ok(i2) => match parse_u32(s, i2) {
                        Ok((j2, table)) => {
                            let name = chars_to_string(slice_subrange(s, i + 1, ne));
                            Some((j2, TableName::Tournament(name, tid, table)))
                        },
                        Err(_) => None,
                    },
                    Err(_) => None,
                },
                Err(_) => None,
            }
        } else {
            None
        };
        match tournament {
            Some((j, tn)) => {
                if j < s.len() && s[j] == '\'' {
                    Ok((j + 1, tn))
                } else {
                    Err(ParseError { position: j, expected: "closing quote" })
                }
            },
            None => {
                let ce = take_till(s, i + 1, '\'');
                if ce < s.len() {
                    let name = chars_to_string(slice_subrange(s, i + 1, ce));
                    Ok((ce + 1, TableName::CashGame(name)))
                } else {
                    Err(ParseError { position: ce, expected: "closing quote" })
                }
            },
        }
    }

    /// Parses a quoted table name from the start of a string.
    pub fn parse(input: &str) -> (r: Result<(usize, TableName), ParseError>)
        ensures
            match r {
                Ok((j, v)) => spec_parse_table_name(input@, 0) == Some((j as int, v@)),
                Err(e) => spec_parse_table_name(input@, 0) is None,
            },
    {
        let v = str_to_chars(input);
        TableName::parse_at(v.as_slice(), 0)
    }
}

/// The money kind of a table at `i`: `real money` or `play money`.
pub open spec fn spec_parse_money_type(s: Seq<char>, i: int) -> Option<(int, MoneyType)> {
    match spec_tag(s, i, "real money"@) {
        Some(j) => Some((j, MoneyType::RealMoney)),
        None => match spec_tag(s, i, "play money"@) {
            Some(j) => Some((j, MoneyType::PlayMoney)),
            None => None,
        },
    }
}

impl MoneyType {
    /// Parses the money kind of a table.
    pub fn parse_at(s: &[char], i: usize) -> (r: Result<(usize, MoneyType), ParseError>)
        requires
            i <= s.len(),
        ensures
            match r {
                Ok((j, v)) => spec_parse_money_type(s@, i as int) == Some((j as int, v)) && i <= j
                    <= s@.len(),
                Err(e) => spec_parse_money_type(s@, i as int) is None,
            },
    {
        if let Ok(j) = tag(s, i, "real money") {
            return Ok((j, MoneyType::RealMoney));
        }
        match tag(s, i, "play money") {
            Ok(j) => Ok((j, MoneyType::PlayMoney)),
            Err(e) => Err(e),
        }
    }

    /// Parses the money kind from the start of a string.
    pub fn parse(input: &str) -> (r: Result<(usize, MoneyType), ParseError>)
        ensures
            match r {
                Ok((j, v)) => spec_parse_money_type(input@, 0) == Some((j as int, v)),
                Err(e) => spec_parse_money_type(input@, 0) is None,
            },
    {
        let v = str_to_chars(input);
        MoneyType::parse_at(v.as_slice(), 0)
    }
}

/// A table line at `i`:
/// `Table: '<name>' <n>-max (<money kind>) Seat #<button> is the button`,
/// newline-terminated.
pub open spec fn spec_parse_table_info(s: Seq<char>, i: int) -> Option<(int, TableInfoV)> {
    match spec_tag(s, i, "Table: "@) {
        None => None,
        Some(i1) => match spec_parse_table_name(s, i1) {
            None => None,
            Some((t1, table_name)) => if t1 < s.len() && s[t1] == ' ' {
                match spec_u32(s, t1 + 1) {
                    None => None,
                    Some((m1, max_players)) => match spec_tag(s, m1, "-max ("@) {
                        None => None,
                        Some(c0) => match spec_parse_money_type(s, c0) {
                            None => None,
                            Some((c1, currency)) => match spec_tag(s, c1, ") Seat #"@) {
                                None => None,
                                Some(b0) => match spec_u32(s, b0) {
                                    None => None,
                                    Some((b1, button)) => match spec_tag(
                                        s,
                                        b1,
                                        " is the button"@,
                                    ) {
                                        None => None,
                                        Some(e1) => match spec_line_ending(s, e1) {
                                            None => None,
                                            Some(j) => Some(
                                                (j, TableInfoV {
                                                    table_name,
                                                    max_players,
                                                    currency,
                                                    button,
                                                }),
                                            ),
                                        },
                                    },
                                },
                            },
                        },
                    },
                }
            } else {
                None
            },
        },
    }
}

impl TableInfo {
    /// Parses a table line at `i`.
    pub fn parse_at(s: &[char], i: usize) -> (r: Result<(usize, TableInfo), ParseError>)
        requires
            i <= s.len(),
        ensures
            match r {
                Ok((j, v)) => spec_parse_table_info(s@, i as int) == Some((j as int, v@)) && i < j
                    <= s@.len(),
                Err(e) => spec_parse_table_info(s@, i as int) is None,
            },
    {
        let i1 = match tag(s, i, "Table: ") {
            Ok(v) => v,
            Err(e) => {
                return Err(e);
            },
        };
        let (t1, table_name) = match TableName::parse_at(s, i1) {
            Ok(v) => v,
            Err(e) => {
                return Err(e);
            },
        };
        if !(t1 < s.len() && s[t1] == ' ') {
            return Err(ParseError { position: t1, expected: "space" });
        }
        let (m1, max_players) = match parse_u32(s, t1 + 1) {
            Ok(v) => v,
            Err(e) => {
                return Err(e);
            },
        };
        let c0 = match tag(s, m1, "-max (") {
            Ok(v) => v,
            Err(e) => {
                return Err(e);
            },
        };
        let (c1, currency) = match MoneyType::parse_at(s, c0) {
            Ok(v) => v,
            Err(e) => {
                return Err(e);
            },
        };
        let b0 = match tag(s, c1, ") Seat #") {
            Ok(v) => v,
            Err(e) => {
                return Err(e);
            },
        };
        let (b1, button) = match parse_u32(s, b0) {
            Ok(v) => v,
            Err(e) => {
                return Err(e);
            },
        };
        let e1 = match tag(s, b1, " is the button") {
            Ok(v) => v,
            Err(e) => {
                return Err(e);
            },
        };
        let j = match line_ending(s, e1) {
            Ok(v) => v,
            Err(e) => {
                return Err(e);
            },
        };
        Ok((j, TableInfo { table_name, max_players, currency, button }))
    }

    /// Parses a table line from the start of a string.
    pub fn parse(input: &str) -> (r: Result<(usize, TableInfo), ParseError>)
        ensures
            match r {
                Ok((j, v)) => spec_parse_table_info(input@, 0) == Some((j as int, v@)),
                Err(e) => spec_parse_table_info(input@, 0) is None,
            },
    {
        let v = str_to_chars(input);
        TableInfo::parse_at(v.as_slice(), 0)
    }
}

} // verus!

verus! {

// ------------------------------------------------------------------
// Seat lines.
// ------------------------------------------------------------------

/// One seat at the table: number, player, starting stack, optional bounty
/// (cents).
#[derive(Debug, PartialEq, Eq, Clone)]
pub struct Seat {
    pub seat_number: u32,
    pub player_name: String,
    pub stack: Stack,
    pub bounty: Option<u64>,
}

/// Spec-level mirror of `Seat`.
pub ghost struct SeatV {
    pub seat_number: u32,
    pub player_name: Seq<char>,
    pub stack: Stack,
    pub bounty: Option<u64>,
}

impl View for Seat {
    type V = SeatV;

    open spec fn view(&self) -> SeatV {
        SeatV {
            seat_number: self.seat_number,
            player_name: self.player_name@,
            stack: self.stack,
            bounty: self.bounty,
        }
    }
}

impl DeepView for Seat {
    type V = SeatV;

    open spec fn deep_view(&self) -> SeatV {
        self.view()
    }
}

/// A seat line at `i` (without its newline):
/// `Seat <n>: <name> (<stack>[, <money>€ bounty])`. The name runs to the
/// ` (` before the stack.
pub open spec fn spec_parse_seat(s: Seq<char>, i: int) -> Option<(int, SeatV)> {
    match spec_tag(s, i, "Seat "@) {
        None => None,
        Some(n0) => match spec_u32(s, n0) {
            None => None,
            Some((n1, seat_number)) => match spec_tag(s, n1, ": "@) {
                None => None,
                Some(p0) => match find_sub(s, p0, " ("@) {
                    None => None,
                    Some(pe) => match spec_parse_amount(s, pe + 2) {
                        None => None,
                        Some((a1, stack)) => {
                            let (j, bounty) = match spec_parse_seat_bounty(s, a1) {
                                Some((bj, cents)) => (bj, Some(cents)),
                                None => (a1, None),
                            };
                            if j < s.len() && s[j] == ')' {
                                Some(
                                    (j + 1, SeatV {
                                        seat_number,
                                        player_name: s.subrange(p0, pe),
                                        stack,
                                        bounty,
                                    }),
                                )
                            } else {
                                None
                            }
                        },
                    },
                },
            },
        },
    }
}

/// The optional bounty suffix of a seat line: `, <money> bounty` where the
/// money token carries the euro sign.
pub open spec fn spec_parse_seat_bounty(s: Seq<char>, i: int) -> Option<(int, u64)> {
    match spec_tag(s, i, ", "@) {
        None => None,
        Some(b0) => match spec_parse_money(s, b0) {
            None => None,
            Some((b1, cents)) => match spec_tag(s, b1, " bounty"@) {
                None => None,
                Some(j) => Some((j, cents)),
            },
        },
    }
}

impl Seat {
    /// Parses a seat line at `i` (without its newline).
    pub fn parse_at(s: &[char], i: usize) -> (r: Result<(usize, Seat), ParseError>)
        requires
            i <= s.len(),
        ensures
            match r {
                Ok((j, v)) => spec_parse_seat(s@, i as int) == Some((j as int, v@)) && i < j
                    <= s@.len(),
                Err(e) => spec_parse_seat(s@, i as int) is None,
            },
    {
        let n0 = match tag(s, i, "Seat ") {
            Ok(v) => v,
            Err(e) => {
                return Err(e);
            },
        };
        let (n1, seat_number) = match parse_u32(s, n0) {
            Ok(v) => v,
            Err(e) => {
                return Err(e);
            },
        };
        let p0 = match tag(s, n1, ": ") {
            Ok(v) => v,
            Err(e) => {
                return Err(e);
            },
        };
        let pe = match find_pattern(s, p0, " (") {
            Some(v) => v,
            None => {
                return Err(ParseError { position: p0, expected: "stack group" });
            },
        };
        proof {
            reveal_strlit(" (");
        }
        let (a1, stack) = match AmountType::parse_at(s, pe + 2) {
            Ok(v) => v,
            Err(e) => {
                return Err(e);
            },
        };
        let mut j = a1;
        let mut bounty: Option<u64> = None;
        if let Ok(b0) = tag(s, a1, ", ") {
            if let Ok((b1, cents)) = parse_money_at(s, b0) {
                if let Ok(b2) = tag(s, b1, " bounty") {
                    j = b2;
                    bounty = Some(cents);
                }
            }
        }
        if j < s.len() && s[j] == ')' {
            let player_name = chars_to_string(slice_subrange(s, p0, pe));
            Ok((j + 1, Seat { seat_number, player_name, stack, bounty }))
        } else {
            Err(ParseError { position: j, expected: "closing parenthesis" })
        }
    }

    /// Parses a seat line from the start of a string.
    pub fn parse(input: &str) -> (r: Result<(usize, Seat), ParseError>)
        ensures
            match r {
                Ok((j, v)) => spec_parse_seat(input@, 0) == Some((j as int, v@)),
                Err(e) => spec_parse_seat(input@, 0) is None,
            },
    {
        let v = str_to_chars(input);
        Seat::parse_at(v.as_slice(), 0)
    }
}

/// A seat line with its newline.
pub open spec fn spec_parse_seat_line(s: Seq<char>, i: int) -> Option<(int, SeatV)> {
    match spec_parse_seat(s, i) {
        None => None,
        Some((j, seat)) => match spec_line_ending(s, j) {
            None => None,
            Some(k) => Some((k, seat)),
        },
    }
}

/// Zero or more newline-terminated seat lines starting at `i`: where they
/// end, and the seats in order.
pub open spec fn spec_parse_seats0(s: Seq<char>, i: int) -> (int, Seq<SeatV>)
    decreases s.len() - i,
{
    match spec_parse_seat_line(s, i) {
        None => (i, Seq::empty()),
        Some((j, seat)) => if i < j <= s.len() {
            let (k, rest) = spec_parse_seats0(s, j);
            (k, seq![seat] + rest)
        } else {
            (j, seq![seat])
        },
    }
}

/// One or more newline-terminated seat lines starting at `i`.
pub open spec fn spec_parse_seats(s: Seq<char>, i: int) -> Option<(int, Seq<SeatV>)> {
    if spec_parse_seat_line(s, i) is Some {
        Some(spec_parse_seats0(s, i))
    } else {
        None
    }
}

/// Parses one or more newline-terminated seat lines at `i`.
pub fn parse_seats_at(s: &[char], i: usize) -> (r: Result<(usize, Vec<Seat>), ParseError>)
    requires
        i <= s.len(),
    ensures
        match r {
            Ok((j, v)) => spec_parse_seats(s@, i as int) == Some((j as int, v.deep_view())) && i < j
                <= s@.len() && v.len() >= 1,
            Err(e) => spec_parse_seats(s@, i as int) is None,
        },
{
    let mut seats: Vec<Seat> = Vec::new();
    let (j0, first) = match parse_seat_line(s, i) {
        Ok(v) => v,
        Err(e) => {
            return Err(e);
        },
    };
    seats.push(first);
    let mut cur = j0;
    proof {
        assert(seats.deep_view() =~= seq![first@]);
        assert(spec_parse_seats0(s@, i as int).0 == spec_parse_seats0(s@, cur as int).0);
        assert(spec_parse_seats0(s@, i as int).1 =~= seats.deep_view() + spec_parse_seats0(
            s@,
            cur as int,
        ).1);
    }
    loop
        invariant
            i < cur <= s.len(),
            seats.len() >= 1,
            spec_parse_seats0(s@, i as int).0 == spec_parse_seats0(s@, cur as int).0,
            spec_parse_seats0(s@, i as int).1 == seats.deep_view() + spec_parse_seats0(
                s@,
                cur as int,
            ).1,
        ensures
            spec_parse_seats0(s@, i as int).0 == cur as int,
            spec_parse_seats0(s@, i as int).1 == seats.deep_view(),
            i < cur <= s.len(),
            seats.len() >= 1,
        decreases s.len() - cur,
    {
        match parse_seat_line(s, cur) {
            Err(_) => {
                proof {
                    assert(spec_parse_seats0(s@, cur as int).1 =~= Seq::<SeatV>::empty());
                    assert(spec_parse_seats0(s@, i as int).1 =~= seats.deep_view());
                }
                break;
            },
            Ok((j, seat)) => {
                let ghost old_views = seats.deep_view();
                seats.push(seat);
                proof {
                    assert(seats.deep_view() =~= old_views + seq![seat@]);
                    assert(spec_parse_seats0(s@, cur as int).1 =~= seq![seat@] + spec_parse_seats0(
                        s@,
                        j as int,
                    ).1);
                    assert(spec_parse_seats0(s@, i as int).1 =~= seats.deep_view()
                        + spec_parse_seats0(s@, j as int).1);
                }
                cur = j;
            },
        }
    }
    Ok((cur, seats))
}

/// Parses a seat-line with its newline.
fn parse_seat_line(s: &[char], i: usize) -> (r: Result<(usize, Seat), ParseError>)
    requires
        i <= s.len(),
    ensures
        match r {
            Ok((j, v)) => spec_parse_seat_line(s@, i as int) == Some((j as int, v@)) && i < j
                <= s@.len(),
            Err(e) => spec_parse_seat_line(s@, i as int) is None,
        },
{
    let (j, seat) = match Seat::parse_at(s, i) {
        Ok(v) => v,
        Err(e) => {
            return Err(e);
        },
    };
    match line_ending(s, j) {
        Ok(k) => Ok((k, seat)),
        Err(e) => Err(e),
    }
}

/// Parses one or more seat lines from the start of a string.
pub fn parse_seats(input: &str) -> (r: Result<(usize, Vec<Seat>), ParseError>)
    ensures
        match r {
            Ok((j, v)) => spec_parse_seats(input@, 0) == Some((j as int, v.deep_view())),
            Err(e) => spec_parse_seats(input@, 0) is None,
        },
{
    let v = str_to_chars(input);
    parse_seats_at(v.as_slice(), 0)
}

} // verus!

verus! {

// ------------------------------------------------------------------
// Actions.
// ------------------------------------------------------------------

/// A blind or ante post.
#[derive(Debug, PartialEq, Eq, Structural, Clone, Copy)]
pub enum PostType {
    BigBlind(AmountType),
    SmallBlind(AmountType),
    Ante(AmountType),
}

/// What a player did. `Collect` and `Shows` are recognised and consumed but
/// carry no arguments; the rest of their line is ignored.
#[derive(Debug, PartialEq, Eq, Structural, Clone, Copy)]
pub enum ActionType {
    Bet { amount: AmountType },
    Call { amount: AmountType },
    Check,
    Fold,
    Post(PostType),
    Raise { to_call: AmountType, amount: AmountType },
    Collect,
    Shows,
}

/// One action line: who acted, what they did, and the all-in annotation
/// (never present in this grammar, so always false).
#[derive(Debug, PartialEq, Eq, Clone)]
pub struct Action {
    pub player_name: String,
    pub action: ActionType,
    pub is_all_in: bool,
}

/// Spec-level mirror of `Action`.
pub ghost struct ActionV {
    pub player_name: Seq<char>,
    pub action: ActionType,
    pub is_all_in: bool,
}

impl View for Action {
    type V = ActionV;

    open spec fn view(&self) -> ActionV {
        ActionV { player_name: self.player_name@, action: self.action, is_all_in: self.is_all_in }
    }
}

impl DeepView for Action {
    type V = ActionV;

    open spec fn deep_view(&self) -> ActionV {
        self.view()
    }
}

/// A post verb's argument at `i`: `small blind`, `big blind` or `ante`, each
/// followed by an amount.
pub open spec fn spec_parse_post_type(s: Seq<char>, i: int) -> Option<(int, PostType)> {
    match spec_tag(s, i, "small blind "@) {
        Some(a0) => match spec_parse_amount(s, a0) {
            Some((j, a)) => Some((j, PostType::SmallBlind(a))),
            None => None,
        },
        None => match spec_tag(s, i, "big blind "@) {
            Some(a0) => match spec_parse_amount(s, a0) {
                Some((j, a)) => Some((j, PostType::BigBlind(a))),
                None => None,
            },
            None => match spec_tag(s, i, "ante "@) {
                Some(a0) => match spec_parse_amount(s, a0) {
                    Some((j, a)) => Some((j, PostType::Ante(a))),
                    None => None,
                },
                None => None,
            },
        },
    }
}

impl PostType {
    /// Parses a post verb's argument.
    pub fn parse_at(s: &[char], i: usize) -> (r: Result<(usize, PostType), ParseError>)
        requires
            i <= s.len(),
        ensures
            match r {
                Ok((j, v)) => spec_parse_post_type(s@, i as int) == Some((j as int, v)) && i < j
                    <= s@.len(),
                Err(e) => spec_parse_post_type(s@, i as int) is None,
            },
    {
        if let Ok(a0) = tag(s, i, "small blind ") {
            return match AmountType::parse_at(s, a0) {
                Ok((j, a)) => Ok((j, PostType::SmallBlind(a))),
                Err(e) => Err(e),
            };
        }
        if let Ok(a0) = tag(s, i, "big blind ") {
            return match AmountType::parse_at(s, a0) {
                Ok((j, a)) => Ok((j, PostType::BigBlind(a))),
                Err(e) => Err(e),
            };
        }
        match tag(s, i, "ante ") {
            Ok(a0) => match AmountType::parse_at(s, a0) {
                Ok((j, a)) => Ok((j, PostType::Ante(a))),
                Err(e) => Err(e),
            },
            Err(e) => Err(e),
        }
    }

    /// Parses a post verb's argument from the start of a string.
    pub fn parse(input: &str) -> (r: Result<(usize, PostType), ParseError>)
        ensures
            match r {
                Ok((j, v)) => spec_parse_post_type(input@, 0) == Some((j as int, v)),
                Err(e) => spec_parse_post_type(input@, 0) is None,
            },
    {
        let v = str_to_chars(input);
        PostType::parse_at(v.as_slice(), 0)
    }
}

/// An action verb with its arguments at `i`. The alternatives are tried in a
/// fixed order; `collected` and `shows` swallow the rest of their line, which
/// must still end in a newline.
pub open spec fn spec_parse_action_type(s: Seq<char>, i: int) -> Option<(int, ActionType)> {
    match spec_tag(s, i, "posts "@) {
        Some(p0) => match spec_parse_post_type(s, p0) {
            Some((j, p)) => Some((j, ActionType::Post(p))),
            None => None,
        },
        None => match spec_tag(s, i, "checks"@) {
            Some(j) => Some((j, ActionType::Check)),
            None => match spec_tag(s, i, "folds"@) {
                Some(j) => Some((j, ActionType::Fold)),
                None => match spec_tag(s, i, "calls "@) {
                    Some(a0) => match spec_parse_amount(s, a0) {
                        Some((j, a)) => Some((j, ActionType::Call { amount: a })),
                        None => None,
                    },
                    None => match spec_tag(s, i, "bets "@) {
                        Some(a0) => match spec_parse_amount(s, a0) {
                            Some((j, a)) => Some((j, ActionType::Bet { amount: a })),
                            None => None,
                        },
                        None => spec_parse_action_type_tail(s, i),
                    },
                },
            },
        },
    }
}

/// The later alternatives of the action verb: raises, collected, shows.
pub open spec fn spec_parse_action_type_tail(s: Seq<char>, i: int) -> Option<(int, ActionType)> {
    match spec_tag(s, i, "raises "@) {
        Some(a0) => match spec_parse_amount(s, a0) {
            Some((j1, to_call)) => match spec_tag(s, j1, " to "@) {
                Some(a1) => match spec_parse_amount(s, a1) {
                    Some((j2, amount)) => Some((j2, ActionType::Raise { to_call, amount })),
                    None => None,
                },
                None => None,
            },
            None => None,
        },
        None => match spec_tag(s, i, "collected"@) {
            Some(c0) => match find_sub(s, c0, "\n"@) {
                Some(k) => Some((k, ActionType::Collect)),
                None => None,
            },
            None => match spec_tag(s, i, "shows"@) {
                Some(c0) => match find_sub(s, c0, "\n"@) {
                    Some(k) => Some((k, ActionType::Shows)),
                    None => None,
                },
                None => None,
            },
        },
    }
}

impl ActionType {
    /// Parses an action verb with its arguments.
    pub fn parse_at(s: &[char], i: usize) -> (r: Result<(usize, ActionType), ParseError>)
        requires
            i <= s.len(),
        ensures
            match r {
                Ok((j, v)) => spec_parse_action_type(s@, i as int) == Some((j as int, v)) && i <= j
                    <= s@.len(),
                Err(e) => spec_parse_action_type(s@, i as int) is None,
            },
    {
        if let Ok(p0) = tag(s, i, "posts ") {
            return match PostType::parse_at(s, p0) {
                Ok((j, p)) => Ok((j, ActionType::Post(p))),
                Err(e) => Err(e),
            };
        }
        if let Ok(j) = tag(s, i, "checks") {
            return Ok((j, ActionType::Check));
        }
        if let Ok(j) = tag(s, i, "folds") {
            return Ok((j, ActionType::Fold));
        }
        if let Ok(a0) = tag(s, i, "calls ") {
            return match AmountType::parse_at(s, a0) {
                Ok((j, a)) => Ok((j, ActionType::Call { amount: a })),
                Err(e) => Err(e),
            };
        }
        if let Ok(a0) = tag(s, i, "bets ") {
            return match AmountType::parse_at(s, a0) {
                Ok((j, a)) => Ok((j, ActionType::Bet { amount: a })),
                Err(e) => Err(e),
            };
        }
        if let Ok(a0) = tag(s, i, "raises ") {
            let (j1, to_call) = match AmountType::parse_at(s, a0) {
                Ok(v) => v,
                Err(e) => {
                    return Err(e);
                },
            };
            let a1 = match tag(s, j1, " to ") {
                Ok(v) => v,
                Err(e) => {
                    return Err(e);
                },
            };
            return match AmountType::parse_at(s, a1) {
                Ok((j2, amount)) => Ok((j2, ActionType::Raise { to_call, amount })),
                Err(e) => Err(e),
            };
        }
        if let Ok(c0) = tag(s, i, "collected") {
            return match find_pattern(s, c0, "\n") {
                Some(k) => Ok((k, ActionType::Collect)),
                None => Err(ParseError { position: c0, expected: "line ending" }),
            };
        }
        match tag(s, i, "shows") {
            Ok(c0) => match find_pattern(s, c0, "\n") {
                Some(k) => Ok((k, ActionType::Shows)),
                None => Err(ParseError { position: c0, expected: "line ending" }),
            },
            Err(e) => Err(e),
        }
    }

    /// Parses an action verb from the start of a string.
    pub fn parse(input: &str) -> (r: Result<(usize, ActionType), ParseError>)
        ensures
            match r {
                Ok((j, v)) => spec_parse_action_type(input@, 0) == Some((j as int, v)),
                Err(e) => spec_parse_action_type(input@, 0) is None,
            },
    {
        let v = str_to_chars(input);
        ActionType::parse_at(v.as_slice(), 0)
    }
}

/// Scans from `k` for the first position where a space followed by an action
/// verb stands; the player name ends there. A newline ends the scan without
/// a match. Returns the name end and the end of the verb with the action.
pub open spec fn spec_action_scan(s: Seq<char>, k: int) -> Option<(int, int, ActionType)>
    decreases s.len() - k,
{
    if !(0 <= k < s.len()) {
        None
    } else if s[k] == ' ' && spec_parse_action_type(s, k + 1) is Some {
        let (j, at) = spec_parse_action_type(s, k + 1)->Some_0;
        Some((k, j, at))
    } else if s[k] != '\n' {
        spec_action_scan(s, k + 1)
    } else {
        None
    }
}

/// An action line at `i` (without its newline): a player name with embedded
/// spaces, then a space and an action verb.
pub open spec fn spec_parse_action(s: Seq<char>, i: int) -> Option<(int, ActionV)> {
    match spec_action_scan(s, i) {
        None => None,
        Some((ne, j, at)) => Some(
            (j, ActionV { player_name: s.subrange(i, ne), action: at, is_all_in: false }),
        ),
    }
}

impl Action {
    /// Parses an action line at `i` (without its newline).
    pub fn parse_at(s: &[char], i: usize) -> (r: Result<(usize, Action), ParseError>)
        requires
            i <= s.len(),
        ensures
            match r {
                Ok((j, v)) => spec_parse_action(s@, i as int) == Some((j as int, v@)) && i < j
                    <= s@.len(),
                Err(e) => spec_parse_action(s@, i as int) is None,
            },
    {
        let mut k = i;
        loop
            invariant
                i <= k <= s.len(),
                spec_action_scan(s@, i as int) == spec_action_scan(s@, k as int),
            decreases s.len() - k,
        {
            if k == s.len() {
                return Err(ParseError { position: k, expected: "action" });
            }
            if s[k] == ' ' {
                if let Ok((j, at)) = ActionType::parse_at(s, k + 1) {
                    let player_name = chars_to_string(slice_subrange(s, i, k));
                    return Ok((j, Action { player_name, action: at, is_all_in: false }));
                }
            }
            if s[k] == '\n' {
                return Err(ParseError { position: k, expected: "action" });
            }
            k = k + 1;
        }
    }

    /// Parses an action line from the start of a string.
    pub fn parse(input: &str) -> (r: Result<(usize, Action), ParseError>)
        ensures
            match r {
                Ok((j, v)) => spec_parse_action(input@, 0) == Some((j as int, v@)),
                Err(e) => spec_parse_action(input@, 0) is None,
            },
    {
        let v = str_to_chars(input);
        Action::parse_at(v.as_slice(), 0)
    }
}

} // verus!

verus! {

// ------------------------------------------------------------------
// Street sections.
// ------------------------------------------------------------------

/// A phase of a hand.
#[derive(Debug, PartialEq, Eq, Structural, Clone, Copy)]
pub enum StreetType {
    Preflop,
    Flop,
    Turn,
    River,
    Showdown,
}

/// One street section: its phase and its action lines in order.
#[derive(Debug, PartialEq, Eq, Clone)]
pub struct Street {
    pub street_type: StreetType,
    pub actions: Vec<Action>,
}

/// Spec-level mirror of `Street`.
pub ghost struct StreetV {
    pub street_type: StreetType,
    pub actions: Seq<ActionV>,
}

impl View for Street {
    type V = StreetV;

    open spec fn view(&self) -> StreetV {
        StreetV { street_type: self.street_type, actions: self.actions.deep_view() }
    }
}

impl DeepView for Street {
    type V = StreetV;

    open spec fn deep_view(&self) -> StreetV {
        self.view()
    }
}

/// A street opener at `i`: one of the five section markers.
pub open spec fn spec_parse_street_type(s: Seq<char>, i: int) -> Option<(int, StreetType)> {
    match spec_tag(s, i, "*** PRE-FLOP ***"@) {
        Some(j) => Some((j, StreetType::Preflop)),
        None => match spec_tag(s, i, "*** FLOP ***"@) {
            Some(j) => Some((j, StreetType::Flop)),
            None => match spec_tag(s, i, "*** TURN ***"@) {
                Some(j) => Some((j, StreetType::Turn)),
                None => match spec_tag(s, i, "*** RIVER ***"@) {
                    Some(j) => Some((j, StreetType::River)),
                    None => match spec_tag(s, i, "*** SHOW DOWN ***"@) {
                        Some(j) => Some((j, StreetType::Showdown)),
                        None => None,
                    },
                },
            },
        },
    }
}

/// Parses a street opener.
pub fn parse_street_type_at(s: &[char], i: usize) -> (r: Result<(usize, StreetType), ParseError>)
    requires
        i <= s.len(),
    ensures
        match r {
            Ok((j, v)) => spec_parse_street_type(s@, i as int) == Some((j as int, v)) && i <= j
                <= s@.len(),
            Err(e) => spec_parse_street_type(s@, i as int) is None,
        },
{
    if let Ok(j) = tag(s, i, "*** PRE-FLOP ***") {
        return Ok((j, StreetType::Preflop));
    }
    if let Ok(j) = tag(s, i, "*** FLOP ***") {
        return Ok((j, StreetType::Flop));
    }
    if let Ok(j) = tag(s, i, "*** TURN ***") {
        return Ok((j, StreetType::Turn));
    }
    if let Ok(j) = tag(s, i, "*** RIVER ***") {
        return Ok((j, StreetType::River));
    }
    match tag(s, i, "*** SHOW DOWN ***") {
        Ok(j) => Ok((j, StreetType::Showdown)),
        Err(e) => Err(e),
    }
}

/// Skips the remainder of the current line, up to and over the next line
/// ending; fails only when no line ending follows.
pub open spec fn spec_skip_line(s: Seq<char>, i: int) -> Option<int>
    decreases s.len() - i,
{
    match spec_line_ending(s, i) {
        Some(j) => Some(j),
        None => if 0 <= i < s.len() {
            spec_skip_line(s, i + 1)
        } else {
            None
        },
    }
}

/// Skips to just past the next line ending.
pub fn skip_line(s: &[char], i: usize) -> (r: Result<usize, ParseError>)
    requires
        i <= s.len(),
    ensures
        match r {
            Ok(j) => spec_skip_line(s@, i as int) == Some(j as int) && i < j <= s@.len(),
            Err(e) => spec_skip_line(s@, i as int) is None,
        },
{
    let mut k = i;
    loop
        invariant
            i <= k <= s.len(),
            spec_skip_line(s@, i as int) == spec_skip_line(s@, k as int),
        decreases s.len() - k,
    {
        if let Ok(j) = line_ending(s, k) {
            return Ok(j);
        }
        if k == s.len() {
            return Err(ParseError { position: k, expected: "line ending" });
        }
        k = k + 1;
    }
}

/// An action line with its newline.
pub open spec fn spec_parse_action_line(s: Seq<char>, i: int) -> Option<(int, ActionV)> {
    match spec_parse_action(s, i) {
        None => None,
        Some((j, a)) => match spec_line_ending(s, j) {
            None => None,
            Some(k) => Some((k, a)),
        },
    }
}

/// Zero or more newline-terminated action lines starting at `i`.
pub open spec fn spec_parse_actions0(s: Seq<char>, i: int) -> (int, Seq<ActionV>)
    decreases s.len() - i,
{
    match spec_parse_action_line(s, i) {
        None => (i, Seq::empty()),
        Some((j, a)) => if i < j <= s.len() {
            let (k, rest) = spec_parse_actions0(s, j);
            (k, seq![a] + rest)
        } else {
            (j, seq![a])
        },
    }
}

/// Parses an action line with its newline.
fn parse_action_line(s: &[char], i: usize) -> (r: Result<(usize, Action), ParseError>)
    requires
        i <= s.len(),
    ensures
        match r {
            Ok((j, v)) => spec_parse_action_line(s@, i as int) == Some((j as int, v@)) && i < j
                <= s@.len(),
            Err(e) => spec_parse_action_line(s@, i as int) is None,
        },
{
    let (j, a) = match Action::parse_at(s, i) {
        Ok(v) => v,
        Err(e) => {
            return Err(e);
        },
    };
    match line_ending(s, j) {
        Ok(k) => Ok((k, a)),
        Err(e) => Err(e),
    }
}

/// Parses zero or more newline-terminated action lines at `i`.
pub fn parse_actions0(s: &[char], i: usize) -> (r: (usize, Vec<Action>))
    requires
        i <= s.len(),
    ensures
        spec_parse_actions0(s@, i as int) == (r.0 as int, r.1.deep_view()),
        i <= r.0 <= s@.len(),
{
    let mut actions: Vec<Action> = Vec::new();
    let mut cur = i;
    proof {
        assert(actions.deep_view() =~= Seq::<ActionV>::empty());
        assert(spec_parse_actions0(s@, i as int).1 =~= actions.deep_view() + spec_parse_actions0(
            s@,
            cur as int,
        ).1);
    }
    loop
        invariant
            i <= cur <= s.len(),
            spec_parse_actions0(s@, i as int).0 == spec_parse_actions0(s@, cur as int).0,
            spec_parse_actions0(s@, i as int).1 == actions.deep_view() + spec_parse_actions0(
                s@,
                cur as int,
            ).1,
        ensures
            spec_parse_actions0(s@, i as int).0 == cur as int,
            spec_parse_actions0(s@, i as int).1 == actions.deep_view(),
            i <= cur <= s.len(),
        decreases s.len() - cur,
    {
        match parse_action_line(s, cur) {
            Err(_) => {
                proof {
                    assert(spec_parse_actions0(s@, cur as int).1 =~= Seq::<ActionV>::empty());
                    assert(spec_parse_actions0(s@, i as int).1 =~= actions.deep_view());
                }
                break;
            },
            Ok((j, a)) => {
                let ghost old_views = actions.deep_view();
                actions.push(a);
                proof {
                    assert(actions.deep_view() =~= old_views + seq![a@]);
                    assert(spec_parse_actions0(s@, cur as int).1 =~= seq![a@]
                        + spec_parse_actions0(s@, j as int).1);
                    assert(spec_parse_actions0(s@, i as int).1 =~= actions.deep_view()
                        + spec_parse_actions0(s@, j as int).1);
                }
                cur = j;
            },
        }
    }
    (cur, actions)
}

/// A street section at `i`: its opener (the rest of that line, which may
/// carry a partial board, is skipped) and its action lines, possibly none.
pub open spec fn spec_parse_street(s: Seq<char>, i: int) -> Option<(int, StreetV)> {
    match spec_parse_street_type(s, i) {
        None => None,
        Some((t1, street_type)) => match spec_skip_line(s, t1) {
            None => None,
            Some(a0) => {
                let (j, actions) = spec_parse_actions0(s, a0);
                Some((j, StreetV { street_type, actions }))
            },
        },
    }
}

impl Street {
    /// Parses a street section at `i`.
    pub fn parse_at(s: &[char], i: usize) -> (r: Result<(usize, Street), ParseError>)
        requires
            i <= s.len(),
        ensures
            match r {
                Ok((j, v)) => spec_parse_street(s@, i as int) == Some((j as int, v@)) && i < j
                    <= s@.len(),
                Err(e) => spec_parse_street(s@, i as int) is None,
            },
    {
        let (t1, street_type) = match parse_street_type_at(s, i) {
            Ok(v) => v,
            Err(e) => {
                return Err(e);
            },
        };
        let a0 = match skip_line(s, t1) {
            Ok(v) => v,
            Err(e) => {
                return Err(e);
            },
        };
        let (j, actions) = parse_actions0(s, a0);
        Ok((j, Street { street_type, actions }))
    }

    /// Parses a street section from the start of a string.
    pub fn parse(input: &str) -> (r: Result<(usize, Street), ParseError>)
        ensures
            match r {
                Ok((j, v)) => spec_parse_street(input@, 0) == Some((j as int, v@)),
                Err(e) => spec_parse_street(input@, 0) is None,
            },
    {
        let v = str_to_chars(input);
        Street::parse_at(v.as_slice(), 0)
    }
}

// ------------------------------------------------------------------
// The board and the hero's dealt cards.
// ------------------------------------------------------------------

/// The community cards of a hand, in order.
#[derive(Debug, PartialEq, Eq, Clone)]
pub struct Board {
    pub cards: Vec<Card>,
}

/// Spec-level mirror of `Board`.
pub ghost struct BoardV {
    pub cards: Seq<Card>,
}

impl View for Board {
    type V = BoardV;

    open spec fn view(&self) -> BoardV {
        BoardV { cards: self.cards@ }
    }
}

impl DeepView for Board {
    type V = BoardV;

    open spec fn deep_view(&self) -> BoardV {
        self.view()
    }
}

/// The continuation of a space-separated card list after a card ending at
/// `j`: further ` <card>` groups, as long as both the space and the card are
/// there.
pub open spec fn spec_parse_cards_more(s: Seq<char>, j: int) -> (int, Seq<Card>)
    decreases s.len() - j,
{
    if 0 <= j < s.len() && s[j] == ' ' {
        match spec_parse_card(s, j + 1) {
            None => (j, Seq::empty()),
            Some((j2, c)) => if j + 1 < j2 <= s.len() {
                let (k, rest) = spec_parse_cards_more(s, j2);
                (k, seq![c] + rest)
            } else {
                (j2, seq![c])
            },
        }
    } else {
        (j, Seq::empty())
    }
}

/// Zero or more card tokens separated by single spaces, starting at `i`.
pub open spec fn spec_parse_cards0(s: Seq<char>, i: int) -> (int, Seq<Card>) {
    match spec_parse_card(s, i) {
        None => (i, Seq::empty()),
        Some((j, c)) => {
            let (k, rest) = spec_parse_cards_more(s, j);
            (k, seq![c] + rest)
        },
    }
}

/// Parses zero or more space-separated card tokens at `i`.
pub fn parse_cards0(s: &[char], i: usize) -> (r: (usize, Vec<Card>))
    requires
        i <= s.len(),
    ensures
        spec_parse_cards0(s@, i as int) == (r.0 as int, r.1@),
        i <= r.0 <= s@.len(),
{
    let mut cards: Vec<Card> = Vec::new();
    let first = match Card::parse_at(s, i) {
        Ok(v) => v,
        Err(_) => {
            proof {
                assert(cards@ =~= Seq::<Card>::empty());
            }
            return (i, cards);
        },
    };
    let (first_end, first_card) = first;
    let mut cur = first_end;
    cards.push(first_card);
    proof {
        assert(cards@ =~= seq![first_card]);
        assert(spec_parse_cards0(s@, i as int).1 =~= cards@ + spec_parse_cards_more(
            s@,
            cur as int,
        ).1);
    }
    loop
        invariant
            i < cur <= s.len(),
            cards.len() >= 1,
            spec_parse_cards0(s@, i as int).0 == spec_parse_cards_more(s@, cur as int).0,
            spec_parse_cards0(s@, i as int).1 == cards@ + spec_parse_cards_more(s@, cur as int).1,
        ensures
            spec_parse_cards0(s@, i as int).0 == cur as int,
            spec_parse_cards0(s@, i as int).1 == cards@,
            i <= cur <= s@.len(),
        decreases s.len() - cur,
    {
        if !(cur < s.len() && s[cur] == ' ') {
            proof {
                assert(spec_parse_cards_more(s@, cur as int).1 =~= Seq::<Card>::empty());
                assert(spec_parse_cards0(s@, i as int).1 =~= cards@);
            }
            break;
        }
        match Card::parse_at(s, cur + 1) {
            Err(_) => {
                proof {
                    assert(spec_parse_cards_more(s@, cur as int).1 =~= Seq::<Card>::empty());
                    assert(spec_parse_cards0(s@, i as int).1 =~= cards@);
                }
                break;
            },
            Ok((j, c)) => {
                let ghost old_cards = cards@;
                cards.push(c);
                proof {
                    assert(cards@ =~= old_cards + seq![c]);
                    assert(spec_parse_cards_more(s@, cur as int).1 =~= seq![c]
                        + spec_parse_cards_more(s@, j as int).1);
                    assert(spec_parse_cards0(s@, i as int).1 =~= cards@ + spec_parse_cards_more(
                        s@,
                        j as int,
                    ).1);
                }
                cur = j;
            },
        }
    }
    (cur, cards)
}

} // verus!

verus! {

/// A board line at `i`: `Board: [<cards>]`, newline-terminated.
pub open spec fn spec_parse_board(s: Seq<char>, i: int) -> Option<(int, BoardV)> {
    match spec_tag(s, i, "Board: ["@) {
        None => None,
        Some(c0) => {
            let (c1, cards) = spec_parse_cards0(s, c0);
            if c1 < s.len() && s[c1] == ']' {
                match spec_line_ending(s, c1 + 1) {
                    None => None,
                    Some(j) => Some((j, BoardV { cards })),
                }
            } else {
                None
            }
        },
    }
}

impl Board {
    /// Parses a board line at `i`.
    pub fn parse_at(s: &[char], i: usize) -> (r: Result<(usize, Board), ParseError>)
        requires
            i <= s.len(),
        ensures
            match r {
                Ok((j, v)) => spec_parse_board(s@, i as int) == Some((j as int, v@)) && i < j
                    <= s@.len(),
                Err(e) => spec_parse_board(s@, i as int) is None,
            },
    {
        let c0 = match tag(s, i, "Board: [") {
            Ok(v) => v,
            Err(e) => {
                return Err(e);
            },
        };
        let (c1, cards) = parse_cards0(s, c0);
        if !(c1 < s.len() && s[c1] == ']') {
            return Err(ParseError { position: c1, expected: "closing bracket" });
        }
        match line_ending(s, c1 + 1) {
            Ok(j) => Ok((j, Board { cards })),
            Err(e) => Err(e),
        }
    }

    /// Parses a board line from the start of a string.
    pub fn parse(input: &str) -> (r: Result<(usize, Board), ParseError>)
        ensures
            match r {
                Ok((j, v)) => spec_parse_board(input@, 0) == Some((j as int, v@)),
                Err(e) => spec_parse_board(input@, 0) is None,
            },
    {
        let v = str_to_chars(input);
        Board::parse_at(v.as_slice(), 0)
    }
}

/// The hero's dealt line.
#[derive(Debug, PartialEq, Eq, Clone)]
pub struct DealtToHero {
    pub player_name: String,
    pub hole_cards: HoleCards,
}

/// Spec-level mirror of `DealtToHero`.
pub ghost struct DealtToHeroV {
    pub player_name: Seq<char>,
    pub hole_cards: HoleCards,
}

impl View for DealtToHero {
    type V = DealtToHeroV;

    open spec fn view(&self) -> DealtToHeroV {
        DealtToHeroV { player_name: self.player_name@, hole_cards: self.hole_cards }
    }
}

impl DeepView for DealtToHero {
    type V = DealtToHeroV;

    open spec fn deep_view(&self) -> DealtToHeroV {
        self.view()
    }
}

/// The bracketed hole-cards group ` [<c1> <c2>]` at `k`, which terminates the
/// hero name scan.
pub open spec fn spec_dealt_term(s: Seq<char>, k: int) -> Option<(int, HoleCards)> {
    match spec_tag(s, k, " ["@) {
        None => None,
        Some(h0) => match spec_parse_hole_cards(s, h0) {
            None => None,
            Some((hj, hc)) => if hj < s.len() && s[hj] == ']' {
                Some((hj + 1, hc))
            } else {
                None
            },
        },
    }
}

/// Scans from `k` for the hole-cards group; any character, a newline
/// included, may belong to the hero name before it.
pub open spec fn spec_dealt_scan(s: Seq<char>, k: int) -> Option<(int, int, HoleCards)>
    decreases s.len() - k,
{
    if !(0 <= k <= s.len()) {
        None
    } else {
        match spec_dealt_term(s, k) {
            Some((j, hc)) => Some((k, j, hc)),
            None => if k < s.len() {
                spec_dealt_scan(s, k + 1)
            } else {
                None
            },
        }
    }
}

/// A dealt line at `i`: `Dealt to <name> [<c1> <c2>]`, newline-terminated.
pub open spec fn spec_parse_dealt(s: Seq<char>, i: int) -> Option<(int, DealtToHeroV)> {
    match spec_tag(s, i, "Dealt to "@) {
        None => None,
        Some(n0) => match spec_dealt_scan(s, n0) {
            None => None,
            Some((ne, t1, hole_cards)) => match spec_line_ending(s, t1) {
                None => None,
                Some(j) => Some(
                    (j, DealtToHeroV { player_name: s.subrange(n0, ne), hole_cards }),
                ),
            },
        },
    }
}

/// Parses the hole-cards group that terminates the hero name scan.
fn parse_dealt_term(s: &[char], k: usize) -> (r: Result<(usize, HoleCards), ParseError>)
    requires
        k <= s.len(),
    ensures
        match r {
            Ok((j, v)) => spec_dealt_term(s@, k as int) == Some((j as int, v)) && k < j
                <= s@.len(),
            Err(e) => spec_dealt_term(s@, k as int) is None,
        },
{
    let h0 = match tag(s, k, " [") {
        Ok(v) => v,
        Err(e) => {
            return Err(e);
        },
    };
    let (hj, hc) = match HoleCards::parse_at(s, h0) {
        Ok(v) => v,
        Err(e) => {
            return Err(e);
        },
    };
    if hj < s.len() && s[hj] == ']' {
        Ok((hj + 1, hc))
    } else {
        Err(ParseError { position: hj, expected: "closing bracket" })
    }
}

impl DealtToHero {
    /// Parses a dealt line at `i`.
    pub fn parse_at(s: &[char], i: usize) -> (r: Result<(usize, DealtToHero), ParseError>)
        requires
            i <= s.len(),
        ensures
            match r {
                Ok((j, v)) => spec_parse_dealt(s@, i as int) == Some((j as int, v@)) && i < j
                    <= s@.len(),
                Err(e) => spec_parse_dealt(s@, i as int) is None,
            },
    {
        let n0 = match tag(s, i, "Dealt to ") {
            Ok(v) => v,
            Err(e) => {
                return Err(e);
            },
        };
        let mut k = n0;
        loop
            invariant
                n0 <= k <= s.len(),
                i <= n0 <= s.len(),
                spec_tag(s@, i as int, "Dealt to "@) == Some(n0 as int),
                spec_dealt_scan(s@, n0 as int) == spec_dealt_scan(s@, k as int),
            decreases s.len() - k,
        {
            if let Ok((t1, hole_cards)) = parse_dealt_term(s, k) {
                let j = match line_ending(s, t1) {
                    Ok(v) => v,
                    Err(e) => {
                        return Err(e);
                    },
                };
                let player_name = chars_to_string(slice_subrange(s, n0, k));
                return Ok((j, DealtToHero { player_name, hole_cards }));
            }
            if k == s.len() {
                return Err(ParseError { position: k, expected: "hole cards" });
            }
            k = k + 1;
        }
    }

    /// Parses a dealt line from the start of a string.
    pub fn parse(input: &str) -> (r: Result<(usize, DealtToHero), ParseError>)
        ensures
            match r {
                Ok((j, v)) => spec_parse_dealt(input@, 0) == Some((j as int, v@)),
                Err(e) => spec_parse_dealt(input@, 0) is None,
            },
    {
        let v = str_to_chars(input);
        DealtToHero::parse_at(v.as_slice(), 0)
    }
}

} // verus!

verus! {

// ------------------------------------------------------------------
// The summary section.
// ------------------------------------------------------------------

/// What a summary line says a player ended with: winnings, or a loss.
#[derive(Debug, PartialEq, Eq, Structural, Clone, Copy)]
pub enum SummaryResult {
    Won(AmountType),
    Lost,
}

/// A showdown hand category with its rank tie-breakers.
#[derive(Debug, PartialEq, Eq, Structural, Clone, Copy)]
pub enum HandCategory {
    HighCard(Rank),
    Pair(Rank),
    TwoPair(Rank, Rank),
    ThreeOfAKind(Rank),
    Straight(Rank),
    Flush(Rank),
    Full(Rank, Rank),
    FourOfAKind(Rank),
    StraightFlush(Rank),
}

/// A hand-category sentence at `i`. The alternatives are tried in a fixed
/// order; ranks appear in their long word form.
pub open spec fn spec_parse_hand_category(s: Seq<char>, i: int) -> Option<(int, HandCategory)> {
    match spec_tag(s, i, "High card : "@) {
        Some(r0) => match crate::cards::spec_parse_rank_words(s, r0) {
            Some((j, r)) => Some((j, HandCategory::HighCard(r))),
            None => None,
        },
        None => match spec_tag(s, i, "One pair : "@) {
            Some(r0) => match crate::cards::spec_parse_rank_words(s, r0) {
                Some((j, r)) => Some((j, HandCategory::Pair(r))),
                None => None,
            },
            None => match spec_tag(s, i, "Two pairs : "@) {
                Some(r0) => match spec_parse_rank_pair(s, r0) {
                    Some((j, (r1, r2))) => Some((j, HandCategory::TwoPair(r1, r2))),
                    None => None,
                },
                None => match spec_tag(s, i, "Trips of "@) {
                    Some(r0) => match crate::cards::spec_parse_rank_words(s, r0) {
                        Some((j, r)) => Some((j, HandCategory::ThreeOfAKind(r))),
                        None => None,
                    },
                    None => spec_parse_hand_category_tail(s, i),
                },
            },
        },
    }
}

/// The later hand-category alternatives: four of a kind, full house,
/// straight, flush, straight flush.
pub open spec fn spec_parse_hand_category_tail(s: Seq<char>, i: int) -> Option<(int,
    HandCategory)> {
    match spec_tag(s, i, "Four of a kind : "@) {
        Some(r0) => match crate::cards::spec_parse_rank_words(s, r0) {
            Some((j, r)) => Some((j, HandCategory::FourOfAKind(r))),
            None => None,
        },
        None => match spec_tag(s, i, "Full of "@) {
            Some(r0) => match spec_parse_rank_pair(s, r0) {
                Some((j, (r1, r2))) => Some((j, HandCategory::Full(r1, r2))),
                None => None,
            },
            None => {
                let straight = spec_parse_straight(s, i);
                if straight is Some {
                    straight
                } else {
                    let flush = spec_parse_flush(s, i);
                    if flush is Some {
                        flush
                    } else {
                        spec_parse_straight_flush(s, i)
                    }
                }
            },
        },
    }
}

/// Two rank words joined by ` and `, as two-pair and full-house sentences use.
pub open spec fn spec_parse_rank_pair(s: Seq<char>, i: int) -> Option<(int, (Rank, Rank))> {
    match crate::cards::spec_parse_rank_words(s, i) {
        None => None,
        Some((j1, r1)) => match spec_tag(s, j1, " and "@) {
            None => None,
            Some(r0) => match crate::cards::spec_parse_rank_words(s, r0) {
                None => None,
                Some((j2, r2)) => Some((j2, (r1, r2))),
            },
        },
    }
}

/// The flush alternative: `Flush <rank>`.
pub open spec fn spec_parse_flush(s: Seq<char>, i: int) -> Option<(int, HandCategory)> {
    match spec_tag(s, i, "Flush "@) {
        None => None,
        Some(r0) => match crate::cards::spec_parse_rank_words(s, r0) {
            Some((j, r)) => Some((j, HandCategory::Flush(r))),
            None => None,
        },
    }
}

/// The straight-flush alternative: `Straight flush <rank>`.
pub open spec fn spec_parse_straight_flush(s: Seq<char>, i: int) -> Option<(int, HandCategory)> {
    match spec_tag(s, i, "Straight flush "@) {
        None => None,
        Some(r0) => match crate::cards::spec_parse_rank_words(s, r0) {
            Some((j, r)) => Some((j, HandCategory::StraightFlush(r))),
            None => None,
        },
    }
}

/// The straight alternative: `Straight <rank> high`.
pub open spec fn spec_parse_straight(s: Seq<char>, i: int) -> Option<(int, HandCategory)> {
    match spec_tag(s, i, "Straight "@) {
        None => None,
        Some(r0) => match crate::cards::spec_parse_rank_words(s, r0) {
            None => None,
            Some((j, r)) => match spec_tag(s, j, " high"@) {
                None => None,
                Some(k) => Some((k, HandCategory::Straight(r))),
            },
        },
    }
}

/// Parses two rank words joined by ` and `.
fn parse_rank_pair(s: &[char], i: usize) -> (r: Result<(usize, (Rank, Rank)), ParseError>)
    requires
        i <= s.len(),
    ensures
        match r {
            Ok((j, v)) => spec_parse_rank_pair(s@, i as int) == Some((j as int, v)) && i < j
                <= s@.len(),
            Err(e) => spec_parse_rank_pair(s@, i as int) is None,
        },
{
    let (j1, r1) = match Rank::parse_words_at(s, i) {
        Ok(v) => v,
        Err(e) => {
            return Err(e);
        },
    };
    let r0 = match tag(s, j1, " and ") {
        Ok(v) => v,
        Err(e) => {
            return Err(e);
        },
    };
    match Rank::parse_words_at(s, r0) {
        Ok((j2, r2)) => Ok((j2, (r1, r2))),
        Err(e) => Err(e),
    }
}

impl HandCategory {
    /// Parses a hand-category sentence at `i`.
    pub fn parse_at(s: &[char], i: usize) -> (r: Result<(usize, HandCategory), ParseError>)
        requires
            i <= s.len(),
        ensures
            match r {
                Ok((j, v)) => spec_parse_hand_category(s@, i as int) == Some((j as int, v)) && i
                    < j <= s@.len(),
                Err(e) => spec_parse_hand_category(s@, i as int) is None,
            },
    {
        if let Ok(r0) = tag(s, i, "High card : ") {
            return match Rank::parse_words_at(s, r0) {
                Ok((j, r)) => Ok((j, HandCategory::HighCard(r))),
                Err(e) => Err(e),
            };
        }
        if let Ok(r0) = tag(s, i, "One pair : ") {
            return match Rank::parse_words_at(s, r0) {
                Ok((j, r)) => Ok((j, HandCategory::Pair(r))),
                Err(e) => Err(e),
            };
        }
        if let Ok(r0) = tag(s, i, "Two pairs : ") {
            return match parse_rank_pair(s, r0) {
                Ok((j, (r1, r2))) => Ok((j, HandCategory::TwoPair(r1, r2))),
                Err(e) => Err(e),
            };
        }
        if let Ok(r0) = tag(s, i, "Trips of ") {
            return match Rank::parse_words_at(s, r0) {
                Ok((j, r)) => Ok((j, HandCategory::ThreeOfAKind(r))),
                Err(e) => Err(e),
            };
        }
        if let Ok(r0) = tag(s, i, "Four of a kind : ") {
            return match Rank::parse_words_at(s, r0) {
                Ok((j, r)) => Ok((j, HandCategory::FourOfAKind(r))),
                Err(e) => Err(e),
            };
        }
        if let Ok(r0) = tag(s, i, "Full of ") {
            return match parse_rank_pair(s, r0) {
                Ok((j, (r1, r2))) => Ok((j, HandCategory::Full(r1, r2))),
                Err(e) => Err(e),
            };
        }
        if let Ok(r0) = tag(s, i, "Straight ") {
            if let Ok((j, r)) = Rank::parse_words_at(s, r0) {
                if let Ok(k) = tag(s, j, " high") {
                    return Ok((k, HandCategory::Straight(r)));
                }
            }
        }
        if let Ok(r0) = tag(s, i, "Flush ") {
            if let Ok((j, r)) = Rank::parse_words_at(s, r0) {
                return Ok((j, HandCategory::Flush(r)));
            }
        }
        if let Ok(r0) = tag(s, i, "Straight flush ") {
            if let Ok((j, r)) = Rank::parse_words_at(s, r0) {
                return Ok((j, HandCategory::StraightFlush(r)));
            }
        }
        Err(ParseError { position: i, expected: "hand category" })
    }

    /// Parses a hand-category sentence from the start of a string.
    pub fn parse(input: &str) -> (r: Result<(usize, HandCategory), ParseError>)
        ensures
            match r {
                Ok((j, v)) => spec_parse_hand_category(input@, 0) == Some((j as int, v)),
                Err(e) => spec_parse_hand_category(input@, 0) is None,
            },
    {
        let v = str_to_chars(input);
        HandCategory::parse_at(v.as_slice(), 0)
    }
}

} // verus!

verus! {

/// One line of the summary section: a seat, a player name, optionally shown
/// hole cards, the result, and optionally the hand category.
#[derive(Debug, PartialEq, Eq, Clone)]
pub struct SummaryPlayer {
    pub name: String,
    pub seat: u32,
    pub hole_cards: Option<HoleCards>,
    pub result: SummaryResult,
    pub hand_category: Option<HandCategory>,
}

/// Spec-level mirror of `SummaryPlayer`.
pub ghost struct SummaryPlayerV {
    pub name: Seq<char>,
    pub seat: u32,
    pub hole_cards: Option<HoleCards>,
    pub result: SummaryResult,
    pub hand_category: Option<HandCategory>,
}

impl View for SummaryPlayer {
    type V = SummaryPlayerV;

    open spec fn view(&self) -> SummaryPlayerV {
        SummaryPlayerV {
            name: self.name@,
            seat: self.seat,
            hole_cards: self.hole_cards,
            result: self.result,
            hand_category: self.hand_category,
        }
    }
}

impl DeepView for SummaryPlayer {
    type V = SummaryPlayerV;

    open spec fn deep_view(&self) -> SummaryPlayerV {
        self.view()
    }
}

/// The optional position note after the player name: ` (<text>)`.
pub open spec fn spec_sp_position(s: Seq<char>, k: int) -> Option<int> {
    match spec_tag(s, k, " ("@) {
        None => None,
        Some(h0) => {
            let ce = till_char(s, h0, ')');
            if ce < s.len() {
                Some(ce + 1)
            } else {
                None
            }
        },
    }
}

/// The optional shown hole cards: ` showed [<c1> <c2>] and`.
pub open spec fn spec_sp_showed(s: Seq<char>, k: int) -> Option<(int, HoleCards)> {
    match spec_tag(s, k, " showed ["@) {
        None => None,
        Some(h0) => match spec_parse_hole_cards(s, h0) {
            None => None,
            Some((hj, hc)) => match spec_tag(s, hj, "] and"@) {
                None => None,
                Some(j) => Some((j, hc)),
            },
        },
    }
}

/// The result of a summary line: ` won <amount>` or ` lost`.
pub open spec fn spec_sp_result(s: Seq<char>, k: int) -> Option<(int, SummaryResult)> {
    match spec_tag(s, k, " won "@) {
        Some(a0) => match spec_parse_amount(s, a0) {
            Some((j, a)) => Some((j, SummaryResult::Won(a))),
            None => None,
        },
        None => match spec_tag(s, k, " lost"@) {
            Some(j) => Some((j, SummaryResult::Lost)),
            None => None,
        },
    }
}

/// The optional category note: ` with <category>`.
pub open spec fn spec_sp_with(s: Seq<char>, k: int) -> Option<(int, HandCategory)> {
    match spec_tag(s, k, " with "@) {
        None => None,
        Some(h0) => spec_parse_hand_category(s, h0),
    }
}

/// A line ending at `k`, or the end of the input.
pub open spec fn spec_eol_or_eof(s: Seq<char>, k: int) -> Option<int> {
    match spec_line_ending(s, k) {
        Some(j) => Some(j),
        None => if k == s.len() {
            Some(k)
        } else {
            None
        },
    }
}

/// The terminator of the summary-player name scan: optional position note,
/// optional shown cards, the result, an optional category, then a line ending
/// or the end of the input.
pub open spec fn spec_sp_term(s: Seq<char>, k: int) -> Option<(int, Option<HoleCards>,
    SummaryResult, Option<HandCategory>)> {
    let k1 = match spec_sp_position(s, k) {
        Some(p) => p,
        None => k,
    };
    let (k2, showed) = match spec_sp_showed(s, k1) {
        Some((q, hc)) => (q, Some(hc)),
        None => (k1, None),
    };
    match spec_sp_result(s, k2) {
        None => None,
        Some((k3, result)) => {
            let (k4, hcat) = match spec_sp_with(s, k3) {
                Some((q, h)) => (q, Some(h)),
                None => (k3, None),
            };
            match spec_eol_or_eof(s, k4) {
                None => None,
                Some(j) => Some((j, showed, result, hcat)),
            }
        },
    }
}

/// Scans from `k` for the terminator of a summary-player line; any character
/// may belong to the name before it.
pub open spec fn spec_sp_scan(s: Seq<char>, k: int) -> Option<(int, int, Option<HoleCards>,
    SummaryResult, Option<HandCategory>)>
    decreases s.len() - k,
{
    if !(0 <= k <= s.len()) {
        None
    } else {
        match spec_sp_term(s, k) {
            Some((j, showed, result, hcat)) => Some((k, j, showed, result, hcat)),
            None => if k < s.len() {
                spec_sp_scan(s, k + 1)
            } else {
                None
            },
        }
    }
}

/// A summary-player line at `i`:
/// `Seat <n>: <name>[ (<position>)][ showed [..] and] (won <amt>|lost)[ with <category>]`,
/// ended by a newline or the end of the input.
pub open spec fn spec_parse_summary_player(s: Seq<char>, i: int) -> Option<(int,
    SummaryPlayerV)> {
    match spec_tag(s, i, "Seat "@) {
        None => None,
        Some(n0) => match spec_u32(s, n0) {
            None => None,
            Some((n1, seat)) => match spec_tag(s, n1, ": "@) {
                None => None,
                Some(p0) => match spec_sp_scan(s, p0) {
                    None => None,
                    Some((ne, j, hole_cards, result, hand_category)) => Some(
                        (j, SummaryPlayerV {
                            name: s.subrange(p0, ne),
                            seat,
                            hole_cards,
                            result,
                            hand_category,
                        }),
                    ),
                },
            },
        },
    }
}

/// Parses the optional position note of a summary-player line.
fn parse_sp_position(s: &[char], k: usize) -> (r: Option<usize>)
    requires
        k <= s.len(),
    ensures
        match r {
            Some(j) => spec_sp_position(s@, k as int) == Some(j as int) && k <= j <= s@.len(),
            None => spec_sp_position(s@, k as int) is None,
        },
{
    if let Ok(h0) = tag(s, k, " (") {
        let ce = take_till(s, h0, ')');
        if ce < s.len() {
            return Some(ce + 1);
        }
    }
    None
}

/// Parses the optional shown hole cards of a summary-player line.
fn parse_sp_showed(s: &[char], k: usize) -> (r: Option<(usize, HoleCards)>)
    requires
        k <= s.len(),
    ensures
        match r {
            Some((j, hc)) => spec_sp_showed(s@, k as int) == Some((j as int, hc)) && k <= j
                <= s@.len(),
            None => spec_sp_showed(s@, k as int) is None,
        },
{
    if let Ok(h0) = tag(s, k, " showed [") {
        if let Ok((hj, hc)) = HoleCards::parse_at(s, h0) {
            if let Ok(q) = tag(s, hj, "] and") {
                return Some((q, hc));
            }
        }
    }
    None
}

/// Parses the optional category note of a summary-player line.
fn parse_sp_with(s: &[char], k: usize) -> (r: Option<(usize, HandCategory)>)
    requires
        k <= s.len(),
    ensures
        match r {
            Some((j, h)) => spec_sp_with(s@, k as int) == Some((j as int, h)) && k <= j
                <= s@.len(),
            None => spec_sp_with(s@, k as int) is None,
        },
{
    if let Ok(h0) = tag(s, k, " with ") {
        if let Ok((q, h)) = HandCategory::parse_at(s, h0) {
            return Some((q, h));
        }
    }
    None
}

/// Parses the terminator of the summary-player name scan.
fn parse_sp_term(s: &[char], k: usize) -> (r: Result<(usize, Option<HoleCards>, SummaryResult,
    Option<HandCategory>), ParseError>)
    requires
        k <= s.len(),
    ensures
        match r {
            Ok((j, showed, result, hcat)) => spec_sp_term(s@, k as int) == Some(
                (j as int, showed, result, hcat),
            ) && k <= j <= s@.len(),
            Err(e) => spec_sp_term(s@, k as int) is None,
        },
{
    let k1 = match parse_sp_position(s, k) {
        Some(p) => p,
        None => k,
    };
    let (k2, showed) = match parse_sp_showed(s, k1) {
        Some((q, hc)) => (q, Some(hc)),
        None => (k1, None),
    };
    let (k3, result) = match parse_sp_result(s, k2) {
        Ok(v) => v,
        Err(e) => {
            return Err(e);
        },
    };
    let (k4, hcat) = match parse_sp_with(s, k3) {
        Some((q, h)) => (q, Some(h)),
        None => (k3, None),
    };
    if let Ok(j) = line_ending(s, k4) {
        return Ok((j, showed, result, hcat));
    }
    if k4 == s.len() {
        Ok((k4, showed, result, hcat))
    } else {
        Err(ParseError { position: k4, expected: "line ending" })
    }
}

/// Parses the result of a summary line.
fn parse_sp_result(s: &[char], k: usize) -> (r: Result<(usize, SummaryResult), ParseError>)
    requires
        k <= s.len(),
    ensures
        match r {
            Ok((j, v)) => spec_sp_result(s@, k as int) == Some((j as int, v)) && k <= j
                <= s@.len(),
            Err(e) => spec_sp_result(s@, k as int) is None,
        },
{
    if let Ok(a0) = tag(s, k, " won ") {
        return match AmountType::parse_at(s, a0) {
            Ok((j, a)) => Ok((j, SummaryResult::Won(a))),
            Err(e) => Err(e),
        };
    }
    match tag(s, k, " lost") {
        Ok(j) => Ok((j, SummaryResult::Lost)),
        Err(e) => Err(e),
    }
}

impl SummaryPlayer {
    /// Parses a summary-player line at `i`.
    pub fn parse_at(s: &[char], i: usize) -> (r: Result<(usize, SummaryPlayer), ParseError>)
        requires
            i <= s.len(),
        ensures
            match r {
                Ok((j, v)) => spec_parse_summary_player(s@, i as int) == Some((j as int, v@)) && i
                    < j <= s@.len(),
                Err(e) => spec_parse_summary_player(s@, i as int) is None,
            },
    {
        let n0 = match tag(s, i, "Seat ") {
            Ok(v) => v,
            Err(e) => {
                return Err(e);
            },
        };
        let (n1, seat) = match parse_u32(s, n0) {
            Ok(v) => v,
            Err(e) => {
                return Err(e);
            },
        };
        let p0 = match tag(s, n1, ": ") {
            Ok(v) => v,
            Err(e) => {
                return Err(e);
            },
        };
        let mut k = p0;
        loop
            invariant
                p0 <= k <= s.len(),
                i < p0 <= s.len(),
                spec_tag(s@, i as int, "Seat "@) == Some(n0 as int),
                spec_u32(s@, n0 as int) == Some((n1 as int, seat)),
                spec_tag(s@, n1 as int, ": "@) == Some(p0 as int),
                spec_sp_scan(s@, p0 as int) == spec_sp_scan(s@, k as int),
            decreases s.len() - k,
        {
            match parse_sp_term(s, k) {
                Ok((j, hole_cards, result, hand_category)) => {
                    let name = chars_to_string(slice_subrange(s, p0, k));
                    return Ok(
                        (j, SummaryPlayer { name, seat, hole_cards, result, hand_category }),
                    );
                },
                Err(_) => {
                    if k == s.len() {
                        return Err(ParseError { position: k, expected: "summary result" });
                    }
                    k = k + 1;
                },
            }
        }
    }

    /// Parses a summary-player line from the start of a string.
    pub fn parse(input: &str) -> (r: Result<(usize, SummaryPlayer), ParseError>)
        ensures
            match r {
                Ok((j, v)) => spec_parse_summary_player(input@, 0) == Some((j as int, v@)),
                Err(e) => spec_parse_summary_player(input@, 0) is None,
            },
    {
        let v = str_to_chars(input);
        SummaryPlayer::parse_at(v.as_slice(), 0)
    }
}

} // verus!

verus! {

/// The summary section of a hand: the pot, the rake (absent after
/// `No rake`), the board if one was dealt, and the per-player lines.
#[derive(Debug, PartialEq, Eq, Clone)]
pub struct Summary {
    pub pot: AmountType,
    pub rake: Option<AmountType>,
    pub players: Vec<SummaryPlayer>,
    pub board: Option<Board>,
}

/// Spec-level mirror of `Summary`.
pub ghost struct SummaryV {
    pub pot: AmountType,
    pub rake: Option<AmountType>,
    pub players: Seq<SummaryPlayerV>,
    pub board: Option<BoardV>,
}

impl View for Summary {
    type V = SummaryV;

    open spec fn view(&self) -> SummaryV {
        SummaryV {
            pot: self.pot,
            rake: self.rake,
            players: self.players.deep_view(),
            board: self.board.deep_view(),
        }
    }
}

impl DeepView for Summary {
    type V = SummaryV;

    open spec fn deep_view(&self) -> SummaryV {
        self.view()
    }
}

/// The rake note after the pot: `Rake <amount>`, or `No rake` for none.
pub open spec fn spec_parse_rake(s: Seq<char>, i: int) -> Option<(int, Option<AmountType>)> {
    let rake_branch: Option<(int, AmountType)> = match spec_tag(s, i, "Rake "@) {
        None => None,
        Some(a0) => spec_parse_amount(s, a0),
    };
    match rake_branch {
        Some((j, a)) => Some((j, Some(a))),
        None => match spec_tag(s, i, "No rake"@) {
            Some(j) => Some((j, None)),
            None => None,
        },
    }
}

/// A summary-player line with everything before it settled: zero or more
/// further lines.
pub open spec fn spec_parse_players0(s: Seq<char>, i: int) -> (int, Seq<SummaryPlayerV>)
    decreases s.len() - i,
{
    match spec_parse_summary_player(s, i) {
        None => (i, Seq::empty()),
        Some((j, p)) => if i < j <= s.len() {
            let (k, rest) = spec_parse_players0(s, j);
            (k, seq![p] + rest)
        } else {
            (j, seq![p])
        },
    }
}

/// A summary section at `i`:
/// `Total pot <amount> | (Rake <amount>|No rake)`, a newline, an optional
/// board line, and one or more player lines.
pub open spec fn spec_parse_summary(s: Seq<char>, i: int) -> Option<(int, SummaryV)> {
    match spec_tag(s, i, "Total pot "@) {
        None => None,
        Some(a0) => match spec_parse_amount(s, a0) {
            None => None,
            Some((p1, pot)) => match spec_tag(s, p1, " | "@) {
                None => None,
                Some(r0) => match spec_parse_rake(s, r0) {
                    None => None,
                    Some((r1, rake)) => match spec_line_ending(s, r1) {
                        None => None,
                        Some(b0) => {
                            let (b1, board) = match spec_parse_board(s, b0) {
                                Some((q, b)) => (q, Some(b)),
                                None => (b0, None),
                            };
                            if spec_parse_summary_player(s, b1) is Some {
                                let (j, players) = spec_parse_players0(s, b1);
                                Some((j, SummaryV { pot, rake, players, board }))
                            } else {
                                None
                            }
                        },
                    },
                },
            },
        },
    }
}

/// Parses the rake note.
fn parse_rake(s: &[char], i: usize) -> (r: Result<(usize, Option<AmountType>), ParseError>)
    requires
        i <= s.len(),
    ensures
        match r {
            Ok((j, v)) => spec_parse_rake(s@, i as int) == Some((j as int, v)) && i <= j
                <= s@.len(),
            Err(e) => spec_parse_rake(s@, i as int) is None,
        },
{
    if let Ok(a0) = tag(s, i, "Rake ") {
        if let Ok((j, a)) = AmountType::parse_at(s, a0) {
            return Ok((j, Some(a)));
        }
    }
    match tag(s, i, "No rake") {
        Ok(j) => Ok((j, None)),
        Err(e) => Err(e),
    }
}

impl Summary {
    /// Parses a summary section at `i`.
    pub fn parse_at(s: &[char], i: usize) -> (r: Result<(usize, Summary), ParseError>)
        requires
            i <= s.len(),
        ensures
            match r {
                Ok((j, v)) => spec_parse_summary(s@, i as int) == Some((j as int, v@)) && i < j
                    <= s@.len(),
                Err(e) => spec_parse_summary(s@, i as int) is None,
            },
    {
        let a0 = match tag(s, i, "Total pot ") {
            Ok(v) => v,
            Err(e) => {
                return Err(e);
            },
        };
        let (p1, pot) = match AmountType::parse_at(s, a0) {
            Ok(v) => v,
            Err(e) => {
                return Err(e);
            },
        };
        let r0 = match tag(s, p1, " | ") {
            Ok(v) => v,
            Err(e) => {
                return Err(e);
            },
        };
        let (r1, rake) = match parse_rake(s, r0) {
            Ok(v) => v,
            Err(e) => {
                return Err(e);
            },
        };
        let b0 = match line_ending(s, r1) {
            Ok(v) => v,
            Err(e) => {
                return Err(e);
            },
        };
        let mut b1 = b0;
        let mut board: Option<Board> = None;
        if let Ok((q, b)) = Board::parse_at(s, b0) {
            b1 = q;
            board = Some(b);
        }
        let (j0, first) = match SummaryPlayer::parse_at(s, b1) {
            Ok(v) => v,
            Err(e) => {
                return Err(e);
            },
        };
        let mut players: Vec<SummaryPlayer> = Vec::new();
        players.push(first);
        let mut cur = j0;
        proof {
            assert(players.deep_view() =~= seq![first@]);
            assert(spec_parse_players0(s@, b1 as int).0 == spec_parse_players0(s@, cur as int).0);
            assert(spec_parse_players0(s@, b1 as int).1 =~= players.deep_view()
                + spec_parse_players0(s@, cur as int).1);
        }
        loop
            invariant
                b1 < cur <= s.len(),
                players.len() >= 1,
                spec_parse_players0(s@, b1 as int).0 == spec_parse_players0(s@, cur as int).0,
                spec_parse_players0(s@, b1 as int).1 == players.deep_view() + spec_parse_players0(
                    s@,
                    cur as int,
                ).1,
            ensures
                spec_parse_players0(s@, b1 as int).0 == cur as int,
                spec_parse_players0(s@, b1 as int).1 == players.deep_view(),
                b1 < cur <= s.len(),
            decreases s.len() - cur,
        {
            match SummaryPlayer::parse_at(s, cur) {
                Err(_) => {
                    proof {
                        assert(spec_parse_players0(s@, cur as int).1
                            =~= Seq::<SummaryPlayerV>::empty());
                        assert(spec_parse_players0(s@, b1 as int).1 =~= players.deep_view());
                    }
                    break;
                },
                Ok((j, p)) => {
                    let ghost old_views = players.deep_view();
                    players.push(p);
                    proof {
                        assert(players.deep_view() =~= old_views + seq![p@]);
                        assert(spec_parse_players0(s@, cur as int).1 =~= seq![p@]
                            + spec_parse_players0(s@, j as int).1);
                        assert(spec_parse_players0(s@, b1 as int).1 =~= players.deep_view()
                            + spec_parse_players0(s@, j as int).1);
                    }
                    cur = j;
                },
            }
        }
        Ok((cur, Summary { pot, rake, players, board }))
    }

    /// Parses a summary section from the start of a string.
    pub fn parse(input: &str) -> (r: Result<(usize, Summary), ParseError>)
        ensures
            match r {
                Ok((j, v)) => spec_parse_summary(input@, 0) == Some((j as int, v@)),
                Err(e) => spec_parse_summary(input@, 0) is None,
            },
    {
        let v = str_to_chars(input);
        Summary::parse_at(v.as_slice(), 0)
    }
}

} // verus!

verus! {

// ------------------------------------------------------------------
// The whole hand.
// ------------------------------------------------------------------

/// One complete hand record.
#[derive(Debug, PartialEq, Eq, Clone)]
pub struct Hand {
    pub hand_info: HandInfo,
    pub table_info: TableInfo,
    pub seats: Vec<Seat>,
    pub dealt_cards: DealtToHero,
    pub streets: Vec<Street>,
    pub summary: Summary,
}

/// Spec-level mirror of `Hand`.
pub ghost struct HandV {
    pub hand_info: HandInfoV,
    pub table_info: TableInfoV,
    pub seats: Seq<SeatV>,
    pub dealt_cards: DealtToHeroV,
    pub streets: Seq<StreetV>,
    pub summary: SummaryV,
}

impl View for Hand {
    type V = HandV;

    open spec fn view(&self) -> HandV {
        HandV {
            hand_info: self.hand_info@,
            table_info: self.table_info@,
            seats: self.seats.deep_view(),
            dealt_cards: self.dealt_cards@,
            streets: self.streets.deep_view(),
            summary: self.summary@,
        }
    }
}

impl DeepView for Hand {
    type V = HandV;

    open spec fn deep_view(&self) -> HandV {
        self.view()
    }
}

/// The marker that ends the street sections: `*** SUMMARY ***` and a newline.
pub open spec fn spec_summary_marker(s: Seq<char>, i: int) -> Option<int> {
    match spec_tag(s, i, "*** SUMMARY ***"@) {
        None => None,
        Some(m) => spec_line_ending(s, m),
    }
}

/// Street sections from `i` up to the summary marker, which is consumed.
pub open spec fn spec_parse_streets(s: Seq<char>, i: int) -> Option<(int, Seq<StreetV>)>
    decreases s.len() - i,
{
    match spec_summary_marker(s, i) {
        Some(j) => Some((j, Seq::empty())),
        None => match spec_parse_street(s, i) {
            None => None,
            Some((j, st)) => if i < j <= s.len() {
                match spec_parse_streets(s, j) {
                    None => None,
                    Some((k, rest)) => Some((k, seq![st] + rest)),
                }
            } else {
                None
            },
        },
    }
}

/// Parses the summary marker.
fn parse_summary_marker(s: &[char], i: usize) -> (r: Result<usize, ParseError>)
    requires
        i <= s.len(),
    ensures
        match r {
            Ok(j) => spec_summary_marker(s@, i as int) == Some(j as int) && i < j <= s@.len(),
            Err(e) => spec_summary_marker(s@, i as int) is None,
        },
{
    let m = match tag(s, i, "*** SUMMARY ***") {
        Ok(v) => v,
        Err(e) => {
            return Err(e);
        },
    };
    line_ending(s, m)
}

/// Parses street sections up to and over the summary marker.
pub fn parse_streets_at(s: &[char], i: usize) -> (r: Result<(usize, Vec<Street>), ParseError>)
    requires
        i <= s.len(),
    ensures
        match r {
            Ok((j, v)) => spec_parse_streets(s@, i as int) == Some((j as int, v.deep_view())) && i
                < j <= s@.len(),
            Err(e) => spec_parse_streets(s@, i as int) is None,
        },
{
    let mut streets: Vec<Street> = Vec::new();
    let mut cur = i;
    proof {
        assert(streets.deep_view() =~= Seq::<StreetV>::empty());
    }
    loop
        invariant
            i <= cur <= s.len(),
            spec_parse_streets(s@, i as int) is Some <==> spec_parse_streets(
                s@,
                cur as int,
            ) is Some,
            spec_parse_streets(s@, cur as int) matches Some((k, rest)) ==> spec_parse_streets(
                s@,
                i as int,
            ) == Some((k, streets.deep_view() + rest)),
        decreases s.len() - cur,
    {
        match parse_summary_marker(s, cur) {
            Ok(j) => {
                proof {
                    assert(streets.deep_view() + Seq::<StreetV>::empty() =~= streets.deep_view());
                }
                return Ok((j, streets));
            },
            Err(_) => {
            },
        }
        match Street::parse_at(s, cur) {
            Err(e) => {
                return Err(e);
            },
            Ok((j, st)) => {
                let ghost old_views = streets.deep_view();
                streets.push(st);
                proof {
                    assert(streets.deep_view() =~= old_views + seq![st@]);
                    match spec_parse_streets(s@, j as int) {
                        Some((k2, rest)) => {
                            assert((old_views + seq![st@]) + rest =~= old_views + (seq![st@]
                                + rest));
                        },
                        None => {},
                    }
                }
                cur = j;
            },
        }
    }
}

/// A hand record at `i`: characters before the first letter are skipped, then
/// the header, the table line, the seats, the ante/blinds section (skipped up
/// to the dealt line), the dealt line, the streets and the summary.
pub open spec fn spec_parse_hand(s: Seq<char>, i: int) -> Option<(int, HandV)> {
    let a0 = till_alpha(s, i);
    match spec_parse_hand_info(s, a0) {
        None => None,
        Some((h1, hand_info)) => match spec_parse_table_info(s, h1) {
            None => None,
            Some((t1, table_info)) => match spec_parse_seats(s, t1) {
                None => None,
                Some((s1, seats)) => match find_sub(s, s1, "Dealt to"@) {
                    None => None,
                    Some(d0) => match spec_parse_dealt(s, d0) {
                        None => None,
                        Some((d1, dealt_cards)) => match spec_parse_streets(s, d1) {
                            None => None,
                            Some((st1, streets)) => match spec_parse_summary(s, st1) {
                                None => None,
                                Some((j, summary)) => Some(
                                    (j, HandV {
                                        hand_info,
                                        table_info,
                                        seats,
                                        dealt_cards,
                                        streets,
                                        summary,
                                    }),
                                ),
                            },
                        },
                    },
                },
            },
        },
    }
}

impl Hand {
    /// Parses a hand record at `i`.
    pub fn parse_at(s: &[char], i: usize) -> (r: Result<(usize, Hand), ParseError>)
        requires
            i <= s.len(),
        ensures
            match r {
                Ok((j, v)) => spec_parse_hand(s@, i as int) == Some((j as int, v@)) && i < j
                    <= s@.len(),
                Err(e) => spec_parse_hand(s@, i as int) is None,
            },
    {
        let a0 = take_till_alpha(s, i);
        let (h1, hand_info) = match HandInfo::parse_at(s, a0) {
            Ok(v) => v,
            Err(e) => {
                return Err(e);
            },
        };
        let (t1, table_info) = match TableInfo::parse_at(s, h1) {
            Ok(v) => v,
            Err(e) => {
                return Err(e);
            },
        };
        let (s1, seats) = match parse_seats_at(s, t1) {
            Ok(v) => v,
            Err(e) => {
                return Err(e);
            },
        };
        let d0 = match find_pattern(s, s1, "Dealt to") {
            Some(v) => v,
            None => {
                return Err(ParseError { position: s1, expected: "dealt line" });
            },
        };
        let (d1, dealt_cards) = match DealtToHero::parse_at(s, d0) {
            Ok(v) => v,
            Err(e) => {
                return Err(e);
            },
        };
        let (st1, streets) = match parse_streets_at(s, d1) {
            Ok(v) => v,
            Err(e) => {
                return Err(e);
            },
        };
        let (j, summary) = match Summary::parse_at(s, st1) {
            Ok(v) => v,
            Err(e) => {
                return Err(e);
            },
        };
        Ok((j, Hand { hand_info, table_info, seats, dealt_cards, streets, summary }))
    }

    /// Parses a hand record from the start of a string.
    pub fn parse(input: &str) -> (r: Result<(usize, Hand), ParseError>)
        ensures
            match r {
                Ok((j, v)) => spec_parse_hand(input@, 0) == Some((j as int, v@)),
                Err(e) => spec_parse_hand(input@, 0) is None,
            },
    {
        let v = str_to_chars(input);
        Hand::parse_at(v.as_slice(), 0)
    }
}

/// Hand records from `i` to the end of the input. Whitespace before and
/// between records is skipped; an empty (or all-whitespace) input is an empty
/// list, and anything else must parse as hand records to the end.
pub open spec fn spec_parse_hands(s: Seq<char>, i: int) -> Option<(int, Seq<HandV>)>
    decreases s.len() - i,
{
    let k = crate::prim::ws_end(s, i);
    if k >= s.len() {
        Some((k, Seq::empty()))
    } else {
        match spec_parse_hand(s, k) {
            None => None,
            Some((j, h)) => if i < j <= s.len() {
                match spec_parse_hands(s, j) {
                    None => None,
                    Some((j2, rest)) => Some((j2, seq![h] + rest)),
                }
            } else {
                None
            },
        }
    }
}

/// Parses every hand record in the input. Returns the end position (the
/// input's length) and the hands in file order; an input that is whitespace
/// only yields no hands, and a malformed record is an error.
#[verifier::rlimit(100)]
pub fn parse_hands_at(s: &[char], i: usize) -> (r: Result<(usize, Vec<Hand>), ParseError>)
    requires
        i <= s.len(),
    ensures
        match r {
            Ok((j, v)) => spec_parse_hands(s@, i as int) == Some((j as int, v.deep_view())) && i
                <= j <= s@.len(),
            Err(e) => spec_parse_hands(s@, i as int) is None,
        },
{
    let mut hands: Vec<Hand> = Vec::new();
    let mut cur = i;
    proof {
        assert(hands.deep_view() =~= Seq::<HandV>::empty());
    }
    loop
        invariant
            i <= cur <= s.len(),
            spec_parse_hands(s@, i as int) is Some <==> spec_parse_hands(s@, cur as int) is Some,
            spec_parse_hands(s@, cur as int) matches Some((k, rest)) ==> spec_parse_hands(
                s@,
                i as int,
            ) == Some((k, hands.deep_view() + rest)),
        decreases s.len() - cur,
    {
        let k = crate::prim::skip_ws(s, cur);
        if k == s.len() {
            proof {
                assert(hands.deep_view() + Seq::<HandV>::empty() =~= hands.deep_view());
            }
            return Ok((k, hands));
        }
        match Hand::parse_at(s, k) {
            Err(e) => {
                return Err(e);
            },
            Ok((j, h)) => {
                let ghost old_views = hands.deep_view();
                hands.push(h);
                proof {
                    assert(hands.deep_view() =~= old_views + seq![h@]);
                    match spec_parse_hands(s@, j as int) {
                        Some((k2, rest)) => {
                            assert((old_views + seq![h@]) + rest =~= old_views + (seq![h@]
                                + rest));
                        },
                        None => {},
                    }
                }
                cur = j;
            },
        }
    }
}

/// Parses every hand record in a string.
pub fn parse_hands(input: &str) -> (r: Result<(usize, Vec<Hand>), ParseError>)
    ensures
        match r {
            Ok((j, v)) => spec_parse_hands(input@, 0) == Some((j as int, v.deep_view())),
            Err(e) => spec_parse_hands(input@, 0) is None,
        },
{
    let v = str_to_chars(input);
    parse_hands_at(v.as_slice(), 0)
}

} // verus!

verus! {

// ------------------------------------------------------------------
// Laws of the hand grammar.
// ------------------------------------------------------------------

/// A parsed hand's id is read verbatim from the header's `HandId: #` marker:
/// some position in the text carries the marker, and the hand id is exactly
/// the text between the `#` and the following space.
pub proof fn lemma_hand_id_from_header(s: Seq<char>, i: int, j: int, h: HandV)
    requires
        spec_parse_hand(s, i) == Some((j, h)),
    ensures
        exists|p: int|
            #[trigger] spec_tag(s, p, " - HandId: #"@) matches Some(h0) && h.hand_info.hand_id
                == s.subrange(h0, till_char(s, h0, ' ')),
{
    let a0 = till_alpha(s, i);
    let (h1, hand_info) = spec_parse_hand_info(s, a0)->Some_0;
    let (g1, game_info) = spec_parse_game_info(s, a0)->Some_0;
    assert(spec_tag(s, g1, " - HandId: #"@) is Some);
}

/// Parsing is a function of the text alone: two parses of the same text
/// yield the same hand, so the persistence key — hand id, date-time, button
/// and table size — is stable across reparses.
pub proof fn lemma_reparse_stable(s: Seq<char>, j1: int, j2: int, h1: HandV, h2: HandV)
    requires
        spec_parse_hand(s, 0) == Some((j1, h1)),
        spec_parse_hand(s, 0) == Some((j2, h2)),
    ensures
        h1 == h2,
        h1.hand_info.hand_id == h2.hand_info.hand_id,
        h1.hand_info.datetime == h2.hand_info.datetime,
        h1.table_info.button == h2.table_info.button,
        h1.table_info.max_players == h2.table_info.max_players,
{
}

} // verus!
