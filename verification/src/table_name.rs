//! The table-window title parser: derives a logical table identity from a
//! window title, for the window-tracking collaborator.

use vstd::prelude::*;
use vstd::slice::slice_subrange;

use crate::prim::{spec_tag, spec_u32, tag, parse_u32, take_till, till_char, ParseError};
use crate::text::{chars_to_string, str_to_chars};

verus! {

/// A logical table identity derived from a window title: a cash-game table,
/// a tournament table, or a tournament not yet seated at a table.
#[derive(Debug, PartialEq, Eq, Clone, Hash)]
pub enum Table {
    CashGame(String),
    Tournament { name: String, id: u32, table: u32 },
    PendingTournament { name: String, id: u32 },
}

/// Spec-level mirror of `Table`.
pub ghost enum TableV {
    CashGame(Seq<char>),
    Tournament { name: Seq<char>, id: u32, table: u32 },
    PendingTournament { name: Seq<char>, id: u32 },
}

impl View for Table {
    type V = TableV;

    open spec fn view(&self) -> TableV {
        match self {
            Table::CashGame(name) => TableV::CashGame(name@),
            Table::Tournament { name, id, table } => TableV::Tournament {
                name: name@,
                id: *id,
                table: *table,
            },
            Table::PendingTournament { name, id } => TableV::PendingTournament {
                name: name@,
                id: *id,
            },
        }
    }
}

impl DeepView for Table {
    type V = TableV;

    open spec fn deep_view(&self) -> TableV {
        self.view()
    }
}

/// The tournament alternative of a title, after the room prefix:
/// `<name>(<id>)` with an optional `(#<table>)`.
pub open spec fn spec_parse_tournament_title(s: Seq<char>, i: int) -> Option<(int, TableV)> {
    let ne = till_char(s, i, '(');
    if !(ne < s.len()) {
        None
    } else {
        match spec_u32(s, ne + 1) {
            None => None,
            Some((j1, id)) => if j1 < s.len() && s[j1] == ')' {
                match spec_parse_table_suffix(s, j1 + 1) {
                    Some((j2, table)) => Some(
                        (j2, TableV::Tournament { name: s.subrange(i, ne), id, table }),
                    ),
                    None => Some(
                        (j1 + 1, TableV::PendingTournament { name: s.subrange(i, ne), id }),
                    ),
                }
            } else {
                None
            },
        }
    }
}

/// The optional table suffix of a tournament title: `(#<table>)`.
pub open spec fn spec_parse_table_suffix(s: Seq<char>, i: int) -> Option<(int, u32)> {
    match spec_tag(s, i, "(#"@) {
        None => None,
        Some(t0) => match spec_u32(s, t0) {
            None => None,
            Some((j, table)) => if j < s.len() && s[j] == ')' {
                Some((j + 1, table))
            } else {
                None
            },
        },
    }
}

/// A whole window title: the fixed room prefix, then a tournament title or a
/// free-form cash-game name running to the end of the line. Text after a
/// recognised tournament title is ignored. A title without the room prefix
/// is malformed.
pub open spec fn spec_parse_table(s: Seq<char>) -> Option<TableV> {
    match spec_tag(s, 0, "Winamax "@) {
        None => None,
        Some(i1) => match spec_parse_tournament_title(s, i1) {
            Some((_, t)) => Some(t),
            None => Some(TableV::CashGame(s.subrange(i1, till_char(s, i1, '\n')))),
        },
    }
}

/// Parses the tournament alternative of a title at `i`.
pub fn parse_tournament(s: &[char], i: usize) -> (r: Result<(usize, Table), ParseError>)
    requires
        i <= s.len(),
    ensures
        match r {
            Ok((j, v)) => spec_parse_tournament_title(s@, i as int) == Some((j as int, v@)) && i
                <= j <= s@.len(),
            Err(e) => spec_parse_tournament_title(s@, i as int) is None,
        },
{
    let ne = take_till(s, i, '(');
    if !(ne < s.len()) {
        return Err(ParseError { position: ne, expected: "tournament id" });
    }
    let (j1, id) = match parse_u32(s, ne + 1) {
        Ok(v) => v,
        Err(e) => {
            return Err(e);
        },
    };
    if !(j1 < s.len() && s[j1] == ')') {
        return Err(ParseError { position: j1, expected: "closing parenthesis" });
    }
    let name = chars_to_string(slice_subrange(s, i, ne));
    if let Ok(t0) = tag(s, j1 + 1, "(#") {
        if let Ok((j2, table)) = parse_u32(s, t0) {
            if j2 < s.len() && s[j2] == ')' {
                return Ok((j2 + 1, Table::Tournament { name, id, table }));
            }
        }
    }
    Ok((j1 + 1, Table::PendingTournament { name, id }))
}

impl Table {
    /// Parses a window title into a table identity, or reports it malformed
    /// (it does not carry the room prefix).
    pub fn parse(input: &str) -> (r: Result<Table, ParseError>)
        ensures
            match r {
                Ok(v) => spec_parse_table(input@) == Some(v@),
                Err(e) => spec_parse_table(input@) is None,
            },
    {
        let v = str_to_chars(input);
        let s = v.as_slice();
        let i1 = match tag(s, 0, "Winamax ") {
            Ok(v2) => v2,
            Err(e) => {
                return Err(e);
            },
        };
        match parse_tournament(s, i1) {
            Ok((_, t)) => Ok(t),
            Err(_) => {
                let ce = take_till(s, i1, '\n');
                Ok(Table::CashGame(chars_to_string(slice_subrange(s, i1, ce))))
            },
        }
    }
}

} // verus!

verus! {

impl core::str::FromStr for Table {
    type Err = ParseError;

    /// Parses a window title; see `Table::parse`.
    fn from_str(s: &str) -> Result<Table, ParseError> {
        Table::parse(s)
    }
}

} // verus!
