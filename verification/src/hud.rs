//! Read helpers for the table HUD: resolving a detected table window against
//! the most recent hand played there.

use vstd::prelude::*;

use crate::store::{spec_latest_from, table_players_of, Store, TablePlayer};
use crate::table_name::{Table, TableV};

verus! {

/// An error of the HUD read path.
#[derive(Debug, PartialEq, Eq, Clone, Copy)]
pub enum ApplicationError {
    /// The table is a tournament without a seated table yet, so it has no
    /// hands to resolve against.
    GetTableMaxPlayers,
    /// The same, for the player list.
    LoadPlayersForTable,
}

/// The store address a table identity queries: the tournament id for
/// tournament tables, the cash-game name for cash tables, none for a pending
/// tournament.
pub open spec fn table_address(t: TableV) -> Option<(Option<u32>, Option<Seq<char>>)> {
    match t {
        TableV::CashGame(name) => Some((None, Some(name))),
        TableV::Tournament { name, id, table } => Some((Some(id), None)),
        TableV::PendingTournament { .. } => None,
    }
}

/// The table size and hero of the most recent hand at a table: none when the
/// table has no hands yet, an error when the table is a pending tournament.
pub fn get_table_max_players_and_hero(store: &Store, table: Table) -> (r: Result<Option<(u32,
    String)>, ApplicationError>)
    ensures
        match table_address(table@) {
            None => r == Err::<Option<(u32, String)>, ApplicationError>(
                ApplicationError::GetTableMaxPlayers,
            ),
            Some((tid, cgn)) => match spec_latest_from(store@.hands, tid, cgn, 0) {
                None => r == Ok::<Option<(u32, String)>, ApplicationError>(None),
                Some(h) => r matches Ok(Some((mp, hero))) && mp == h.max_players && hero@
                    == h.hero,
            },
        },
{
    let latest = match table {
        Table::CashGame(name) => store.get_latest_hand(None, Some(name)),
        Table::Tournament { name: _, id, table: _ } => store.get_latest_hand(Some(id), None),
        Table::PendingTournament { .. } => {
            return Err(ApplicationError::GetTableMaxPlayers);
        },
    };
    match latest {
        Some(hand) => Ok(Some((hand.max_players, hand.hero))),
        None => Ok(None),
    }
}

/// The players seated at the most recent hand of a table: empty when the
/// table has no hands yet, an error when the table is a pending tournament.
pub fn load_players_for_table(store: &Store, table: Table) -> (r: Result<Vec<TablePlayer>,
    ApplicationError>)
    ensures
        match table_address(table@) {
            None => r == Err::<Vec<TablePlayer>, ApplicationError>(
                ApplicationError::LoadPlayersForTable,
            ),
            Some((tid, cgn)) => match spec_latest_from(store@.hands, tid, cgn, 0) {
                None => r matches Ok(players) && players.len() == 0,
                Some(h) => r matches Ok(players) && players.deep_view() == table_players_of(
                    store@.seats,
                    h.id,
                ),
            },
        },
{
    let found = match table {
        Table::CashGame(name) => store.get_players_for_table(None, Some(name)),
        Table::Tournament { name: _, id, table: _ } => store.get_players_for_table(
            Some(id),
            None,
        ),
        Table::PendingTournament { .. } => {
            return Err(ApplicationError::LoadPlayersForTable);
        },
    };
    match found {
        Some(players) => Ok(players),
        None => Ok(Vec::new()),
    }
}

} // verus!
