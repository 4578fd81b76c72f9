use holdem_suite::amount::AmountType;
use holdem_suite::hud::get_table_max_players_and_hero;
use holdem_suite::ingest::ingest_file;
use holdem_suite::parser::parse_hands;
use holdem_suite::store::Store;
use holdem_suite::table_name::Table;

fn hand_text(
    id: &str,
    datetime: &str,
    table: &str,
    hero: &str,
    cards: &str,
    players: &[&str],
    winner_seat: u32,
) -> String {
    let mut t = String::new();
    t.push_str("Winamax Poker - Tournament \"WESTERN\" buyIn: 0.90€ + 0.10€ level: 6 - HandId: #");
    t.push_str(id);
    t.push_str(" - Holdem no limit (70/300/600) - ");
    t.push_str(datetime);
    t.push_str("\n");
    t.push_str(&format!(
        "Table: '{}' 6-max (real money) Seat #1 is the button\n",
        table
    ));
    for (k, name) in players.iter().enumerate() {
        t.push_str(&format!("Seat {}: {} (20000)\n", k + 1, name));
    }
    t.push_str("*** ANTE/BLINDS ***\n");
    t.push_str(&format!("{} posts small blind 300\n", players[0]));
    t.push_str(&format!("{} posts big blind 600\n", players[1]));
    t.push_str(&format!("Dealt to {} [{}]\n", hero, cards));
    t.push_str("*** PRE-FLOP ***\n");
    for (k, name) in players.iter().enumerate() {
        if k as u32 + 1 != winner_seat {
            t.push_str(&format!("{} folds\n", name));
        }
    }
    t.push_str(&format!(
        "{} collected 2670 from pot\n",
        players[(winner_seat - 1) as usize]
    ));
    t.push_str("*** SUMMARY ***\n");
    t.push_str("Total pot 2670 | No rake\n");
    t.push_str(&format!(
        "Seat {}: {} won 2670\n\n",
        winner_seat,
        players[(winner_seat - 1) as usize]
    ));
    t
}

fn sample_hands_text() -> String {
    let mut t = String::new();
    t.push_str(&hand_text(
        "2815488303912976462-15-1684698584",
        "2023/05/21 19:49:44 UTC",
        "WESTERN(655531954)#077",
        "WinterSound",
        "Ah Kd",
        &["WinterSound", "Alice", "Bobby"],
        3,
    ));
    t.push_str("\n");
    t.push_str(&hand_text(
        "2815488303912976462-16-1684698650",
        "2023/05/21 19:50:50 UTC",
        "WESTERN(655531954)#077",
        "NotWinterSound",
        "2c 3d",
        &["NotWinterSound", "Dave", "Emma"],
        2,
    ));
    t.push_str("\n");
    t.push_str(&hand_text(
        "2815488303912976462-17-1684698755",
        "2023/05/21 19:52:35 UTC",
        "WESTERN(1684698755)#004",
        "WinterSound",
        "6s Qh",
        &["WinterSound", "Alice", "Carol"],
        1,
    ));
    t
}

fn mystery_ko_text() -> String {
    let mut t = String::new();
    t.push_str("Winamax Poker - Tournament summary : MYSTERY KO(669464094)\n");
    t.push_str("Player : WinterSound\n");
    t.push_str("Buy-In : 0.60€ + 0.30€ + 0.10€\n");
    t.push_str("Registered players : 160\n");
    t.push_str("Mode : tt\n");
    t.push_str("Type : knockout\n");
    t.push_str("Speed : normal\n");
    t.push_str("Flight ID : 0\n");
    t.push_str(
        "Levels : Levels : [100-200:25:2100:holdem-no-limit,125-250:30:420:holdem-no-limit]\n",
    );
    t.push_str("Prizepool : 198.70€\n");
    t.push_str("Tournament started 2023/07/08 11:30:00 UTC\n");
    t.push_str("You played 20min 52s \n");
    t.push_str("You finished in 145th place\n");
    t.push_str("You won 1.00€");
    t
}

#[test]
fn test_parse_file() {
    let mut store = Store::new();
    let nb_parsed_hands = ingest_file(&mut store, "history/sample1.txt", &sample_hands_text());
    assert_eq!(3, nb_parsed_hands);

    let hands = store.get_hands();
    assert_eq!(3, hands.len());
    assert_eq!("6s", hands[0].hole_card_1);
}

#[test]
fn test_get_hands_for_player() {
    let mut store = Store::new();
    ingest_file(&mut store, "history/sample1.txt", &sample_hands_text());
    let hands = store.get_hands();
    assert_eq!(3, hands.len());
    let hands = store.get_hands_for_player("WinterSound");
    assert_eq!(2, hands.len());
}

#[test]
fn test_get_players() {
    let mut store = Store::new();
    ingest_file(&mut store, "history/sample1.txt", &sample_hands_text());
    let players = store.get_players();
    assert_eq!(7, players.len());
}

#[test]
fn test_get_max_players_and_hero() {
    let mut store = Store::new();
    ingest_file(&mut store, "history/sample1.txt", &sample_hands_text());
    let table = Table::Tournament {
        name: String::from("WESTERN"),
        id: 655531954,
        table: 77,
    };
    let (max_players, hero) = get_table_max_players_and_hero(&store, table)
        .unwrap()
        .unwrap();
    assert_eq!(6, max_players);
    assert_eq!("NotWinterSound", hero);
}

#[test]
fn test_insert_and_get_summary() {
    let mut store = Store::new();
    let inserted = ingest_file(
        &mut store,
        "history/tournament_summary.txt",
        &mystery_ko_text(),
    );
    assert_eq!(0, inserted);
    let summaries = store.get_summaries();
    assert_eq!(1, summaries.len());
    let summary = &summaries[0];
    assert_eq!("MYSTERY KO", summary.name);
    assert_eq!(669464094, summary.id);
    assert_eq!(145, summary.finish_place);
    assert_eq!(100, summary.won.unwrap());
    assert_eq!("knockout", summary.tournament_type);
    assert_eq!("2023/07/08 11:30:00 UTC", summary.date);
}

#[test]
fn test_idempotent_ingest() {
    let mut store = Store::new();
    let first = ingest_file(&mut store, "history/sample1.txt", &sample_hands_text());
    assert_eq!(3, first);
    let hands_before = store.get_hands().len();
    let seats_before = store
        .get_hands()
        .iter()
        .map(|h| store.get_seats(&h.id).len())
        .sum::<usize>();
    let actions_before = store
        .get_hands()
        .iter()
        .map(|h| store.get_actions(h.id.clone()).len())
        .sum::<usize>();

    let second = ingest_file(&mut store, "history/sample1.txt", &sample_hands_text());
    assert_eq!(0, second);
    assert_eq!(hands_before, store.get_hands().len());
    let seats_after = store
        .get_hands()
        .iter()
        .map(|h| store.get_seats(&h.id).len())
        .sum::<usize>();
    let actions_after = store
        .get_hands()
        .iter()
        .map(|h| store.get_actions(h.id.clone()).len())
        .sum::<usize>();
    assert_eq!(seats_before, seats_after);
    assert_eq!(actions_before, actions_after);
}

fn western_hand_text() -> String {
    let mut t = String::new();
    t.push_str("Winamax Poker - Tournament \"WESTERN\" buyIn: 0.90€ + 0.10€ level: 7 - ");
    t.push_str("HandId: #2815488303912976462-17-1684698755 - Holdem no limit (70/300/600)");
    t.push_str(" - 2023/05/21 19:52:35 UTC\n");
    t.push_str("Table: 'WESTERN(1684698755)#004' 6-max (real money) Seat #3 is the button\n");
    t.push_str("Seat 1: Anonymous1 (23940, 0.45€ bounty)\n");
    t.push_str("Seat 2: Anonymous 2 (14388, 0.45€ bounty)\n");
    t.push_str("Seat 3: Anonymous 3 (20410, 0.45€ bounty)\n");
    t.push_str("Seat 4: Anonymous4 (15425, 0.45€ bounty)\n");
    t.push_str("Seat 5: WinterSound (14285, 0.45€ bounty)\n");
    t.push_str("Seat 6: Anonymous5 (109973, 1€ bounty)\n");
    t.push_str("*** ANTE/BLINDS ***\n");
    t.push_str("Anonymous5 posts ante 70\n");
    t.push_str("Anonymous1 posts ante 70\n");
    t.push_str("Dealt to WinterSound [6s Qh]\n");
    t.push_str("*** PRE-FLOP ***\n");
    t.push_str("Anonymous 2 folds\n");
    t.push_str("Anonymous 3 raises 750 to 1350\n");
    t.push_str("Anonymous4 folds\n");
    t.push_str("WinterSound folds\n");
    t.push_str("Anonymous5 folds\n");
    t.push_str("Anonymous1 folds\n");
    t.push_str("Anonymous 3 collected 2670 from pot\n");
    t.push_str("*** SUMMARY ***\n");
    t.push_str("Total pot 2670 | No rake\n");
    t.push_str("Seat 3: Anonymous 3 won 2670\n\n");
    t
}

#[test]
fn test_fold_around_hand_rows() {
    let mut store = Store::new();
    let input = western_hand_text();
    let (_, hands) = parse_hands(&input).unwrap();
    let inserted = store.insert_hands(&hands);
    assert_eq!(1, inserted);

    let rows = store.get_hands();
    assert_eq!(1, rows.len());
    let row = &rows[0];
    assert_eq!("2815488303912976462-17-1684698755", row.id);
    assert_eq!(AmountType::Chips(2670), row.pot);
    assert_eq!(None, row.rake);
    assert_eq!(Some(1684698755), row.tournament_id);
    assert_eq!(None, row.flop1);

    let seats = store.get_seats(&row.id);
    assert_eq!(6, seats.len());
    assert_eq!(Some(45), seats[0].bounty);

    // The collected row is persisted but filtered out of the visible list.
    let stored = store.get_actions(row.id.clone());
    assert_eq!(7, stored.len());
    let visible = store.get_actions_for_hand(&row.id);
    assert_eq!(6, visible.len());
    let raises = visible
        .iter()
        .filter(|a| a.action_type == "raise")
        .count();
    let folds = visible.iter().filter(|a| a.action_type == "fold").count();
    assert_eq!(1, raises);
    assert_eq!(5, folds);
}

#[test]
fn test_showdown_board_columns() {
    let mut store = Store::new();
    let mut input = String::new();
    input.push_str("Winamax Poker - CashGame - HandId: #18567763-280-1687022958 - Holdem no limit (0.01€/0.02€) - 2023/06/17 17:29:18 UTC\n");
    input.push_str("Table: 'Wichita 05' 6-max (real money) Seat #2 is the button\n");
    input.push_str("Seat 2: Player One (2.00€)\n");
    input.push_str("Seat 3: Player Two (1.80€)\n");
    input.push_str("*** ANTE/BLINDS ***\n");
    input.push_str("Player One posts small blind 0.01€\n");
    input.push_str("Player Two posts big blind 0.02€\n");
    input.push_str("Dealt to Player One [9c Kd]\n");
    input.push_str("*** PRE-FLOP ***\n");
    input.push_str("Player One calls 0.02€\n");
    input.push_str("Player Two checks\n");
    input.push_str("*** FLOP *** [3s Ks Qh]\n");
    input.push_str("Player Two checks\n");
    input.push_str("Player One bets 0.05€\n");
    input.push_str("Player Two calls 0.05€\n");
    input.push_str("*** TURN *** [3s Ks Qh 2s]\n");
    input.push_str("Player Two checks\n");
    input.push_str("Player One checks\n");
    input.push_str("*** RIVER *** [3s Ks Qh 2s 2c]\n");
    input.push_str("Player Two checks\n");
    input.push_str("Player One checks\n");
    input.push_str("*** SHOW DOWN ***\n");
    input.push_str("Player One shows [9c Kd] (One pair : Kings)\n");
    input.push_str("Player Two shows [Qd As] (Two pairs : Queens and 2)\n");
    input.push_str("Player One collected 0.30€ from pot\n");
    input.push_str("*** SUMMARY ***\n");
    input.push_str("Total pot 0.30€ | Rake 0.03€\n");
    input.push_str("Board: [3s Ks Qh 2s 2c]\n");
    input.push_str("Seat 2: Player One (big blind) showed [9c Kd] and won 0.30€ with One pair : Kings\n");
    input.push_str("Seat 3: Player Two showed [Qd As] and lost with Two pairs : Queens and 2\n\n");

    let (_, hands) = parse_hands(&input).unwrap();
    assert_eq!(1, hands.len());
    let inserted = store.insert_hands(&hands);
    assert_eq!(1, inserted);
    let rows = store.get_hands();
    let row = &rows[0];
    assert_eq!(AmountType::Money(30), row.pot);
    assert_eq!(Some(AmountType::Money(3)), row.rake);
    assert_eq!(Some(String::from("3s")), row.flop1);
    assert_eq!(Some(String::from("Ks")), row.flop2);
    assert_eq!(Some(String::from("Qh")), row.flop3);
    assert_eq!(Some(String::from("2s")), row.turn);
    assert_eq!(Some(String::from("2c")), row.river);
    assert_eq!(Some(String::from("Wichita 05")), row.cash_game_name);
    assert_eq!(None, row.tournament_id);

    // Shown cards land on the seats rows.
    let seats = store.get_seats(&row.id);
    assert_eq!(Some(String::from("9c")), seats[0].card1);
    assert_eq!(Some(String::from("Kd")), seats[0].card2);
    assert_eq!(None, seats[0].bounty);
}

#[test]
fn test_ingest_empty_file() {
    let mut store = Store::new();
    let inserted = ingest_file(&mut store, "history/empty.txt", "");
    assert_eq!(0, inserted);
    assert_eq!(0, store.get_hands().len());
}

#[test]
fn test_ingest_truncated_file_retains_committed_hands() {
    let mut store = Store::new();
    let full = sample_hands_text();
    assert_eq!(3, ingest_file(&mut store, "history/sample1.txt", &full));
    let truncated = &full[0..300];
    let inserted = ingest_file(&mut store, "history/sample1.txt", truncated);
    assert_eq!(0, inserted);
    assert_eq!(3, store.get_hands().len());
}

#[test]
fn test_get_latest_hand_picks_max_datetime() {
    let mut store = Store::new();
    ingest_file(&mut store, "history/sample1.txt", &sample_hands_text());
    let latest = store.get_latest_hand(Some(655531954), None).unwrap();
    assert_eq!("2815488303912976462-16-1684698650", latest.id);
    assert_eq!("2023/05/21 19:50:50 UTC", latest.datetime);
    assert!(store.get_latest_hand(Some(99), None).is_none());
}

#[test]
fn test_get_players_for_table_uses_latest_hand() {
    let mut store = Store::new();
    ingest_file(&mut store, "history/sample1.txt", &sample_hands_text());
    let players = store.get_players_for_table(Some(655531954), None).unwrap();
    let names: Vec<&str> = players.iter().map(|p| p.name.as_str()).collect();
    assert_eq!(vec!["NotWinterSound", "Dave", "Emma"], names);
    assert_eq!(1, players[0].seat_number);
    // The read surface returns hands newest first.
    let hands = store.get_hands();
    assert_eq!("2815488303912976462-17-1684698755", hands[0].id);
    assert_eq!("2815488303912976462-15-1684698584", hands[2].id);
    assert!(store.get_players_for_table(Some(99), None).is_none());
}

#[test]
fn test_insert_summary_is_idempotent() {
    let mut store = Store::new();
    assert_eq!(
        0,
        ingest_file(
            &mut store,
            "history/tournament_summary.txt",
            &mystery_ko_text(),
        )
    );
    assert_eq!(
        0,
        ingest_file(
            &mut store,
            "history/tournament_summary.txt",
            &mystery_ko_text(),
        )
    );
    assert_eq!(1, store.get_summaries().len());
}

#[test]
fn test_summary_parse_error_changes_nothing() {
    let mut store = Store::new();
    let inserted = ingest_file(&mut store, "history/tournament_summary.txt", "not a summary");
    assert_eq!(0, inserted);
    assert_eq!(0, store.get_summaries().len());
}
