use std::str::FromStr;

use holdem_suite::hud::{get_table_max_players_and_hero, ApplicationError};
use holdem_suite::store::Store;
use holdem_suite::table_model::TableModel;
use holdem_suite::table_name::Table;

#[test]
fn test_parse_tournament() {
    let input = "Winamax Monster Stack(676539671)(#0001)";
    let table = Table::from_str(input).unwrap();
    assert_eq!(
        table,
        Table::Tournament {
            name: "Monster Stack".to_owned(),
            id: 676539671,
            table: 1
        }
    );
}

#[test]
fn test_parse_cash_game() {
    let input = "Winamax Wichita 05";
    let table = Table::from_str(input).unwrap();
    assert_eq!(table, Table::CashGame("Wichita 05".to_owned()));
}

#[test]
fn test_parse_pending_tournament() {
    let input = "Winamax WESTERN(655531954)";
    let table = Table::from_str(input).unwrap();
    assert_eq!(
        table,
        Table::PendingTournament {
            name: "WESTERN".to_owned(),
            id: 655531954
        }
    );
}

#[test]
fn test_parse_table_without_prefix_is_error() {
    assert!(Table::parse("Some Other Window").is_err());
    assert!(Table::from_str("PokerStars Main Event(1)").is_err());
}

#[test]
fn test_table_model_shape() {
    let model = TableModel { id: 7, v: Vec::new() };
    assert_eq!(5, model.row_count());
    assert_eq!(3, model.column_count());
}

#[test]
fn test_pending_tournament_has_no_table_to_resolve() {
    let store = Store::new();
    let pending = Table::PendingTournament {
        name: String::from("WESTERN"),
        id: 655531954,
    };
    assert_eq!(
        Err(ApplicationError::GetTableMaxPlayers),
        get_table_max_players_and_hero(&store, pending)
    );
    let empty_table = Table::Tournament {
        name: String::from("WESTERN"),
        id: 655531954,
        table: 77,
    };
    assert_eq!(Ok(None), get_table_max_players_and_hero(&store, empty_table));
}
