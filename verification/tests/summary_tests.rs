use holdem_suite::summary_parser::{BuyIn, Level, PokerType, TournamentSummary, TournamentType};

#[test]
fn test_parse_poker_type() {
    assert_eq!(
        PokerType::parse("holdem-no-limit"),
        Ok((15, PokerType::HoldemNoLimit))
    );
}

#[test]
fn test_parse_level() {
    assert_eq!(
        Level::parse("10-20:0:600:holdem-no-limit"),
        Ok((
            27,
            Level {
                ante: 0,
                small_blind: 10,
                big_blind: 20,
                seconds: 600,
                poker_type: PokerType::HoldemNoLimit,
            }
        ))
    );
}

#[test]
fn test_parse_buyin() {
    let input = "0.45€ + 0.05€";
    let (_, buy_in) = BuyIn::parse(input).unwrap();
    assert_eq!(
        buy_in,
        BuyIn {
            buy_in: 45,
            rake: 5,
            bounty: None,
        }
    );
}

#[test]
fn test_parse_buyin_bounty() {
    let input = "0.60€ + 0.30€ + 0.10€";
    let (_, buy_in) = BuyIn::parse(input).unwrap();
    assert_eq!(
        buy_in,
        BuyIn {
            buy_in: 60,
            rake: 30,
            bounty: Some(10),
        }
    );
}

#[test]
fn test_parse_tournament_type() {
    assert_eq!(
        TournamentType::parse("sitngo"),
        Ok((6, TournamentType::Sitngo))
    );
    assert_eq!(TournamentType::parse("tt"), Ok((2, TournamentType::Mtt)));
}

pub fn mystery_ko_text() -> String {
    let mut t = String::new();
    t.push_str("Winamax Poker - Tournament summary : MYSTERY KO(669464094)\n");
    t.push_str("Player : WinterSound\n");
    t.push_str("Buy-In : 0.60€ + 0.30€ + 0.10€\n");
    t.push_str("Registered players : 160\n");
    t.push_str("Mode : tt\n");
    t.push_str("Type : knockout\n");
    t.push_str("Speed : normal\n");
    t.push_str("Flight ID : 0\n");
    t.push_str(
        "Levels : Levels : [100-200:25:2100:holdem-no-limit,125-250:30:420:holdem-no-limit]\n",
    );
    t.push_str("Prizepool : 198.70€\n");
    t.push_str("Tournament started 2023/07/08 11:30:00 UTC\n");
    t.push_str("You played 20min 52s \n");
    t.push_str("You finished in 145th place\n");
    t.push_str("You won 1.00€");
    t
}

#[test]
fn test_parse_tournament_summary() {
    let input = mystery_ko_text();
    let (_, tournament_summary) = TournamentSummary::parse(&input).unwrap();
    let expected = TournamentSummary {
        name: String::from("MYSTERY KO"),
        id: 669464094,
        hero: String::from("WinterSound"),
        buy_in: BuyIn {
            buy_in: 60,
            rake: 30,
            bounty: Some(10),
        },
        entries: 160,
        mode: String::from("tt"),
        tournament_type: TournamentType::Knockout,
        speed: String::from("normal"),
        flight_id: 0,
        levels: vec![
            Level {
                ante: 25,
                small_blind: 100,
                big_blind: 200,
                seconds: 2100,
                poker_type: PokerType::HoldemNoLimit,
            },
            Level {
                ante: 30,
                small_blind: 125,
                big_blind: 250,
                seconds: 420,
                poker_type: PokerType::HoldemNoLimit,
            },
        ],
        prizepool: 19870,
        date: String::from("2023/07/08 11:30:00 UTC"),
        play_time: String::from("20min 52s "),
        finish_place: 145,
        won: Some(100),
    };
    assert_eq!(tournament_summary, expected);
}

#[test]
fn test_parse_tournament_summary_ordinal_first_place() {
    let input = mystery_ko_text().replace("145th place", "1st place");
    let (_, tournament_summary) = TournamentSummary::parse(&input).unwrap();
    assert_eq!(tournament_summary.finish_place, 1);
}

#[test]
fn test_parse_tournament_summary_truncated_is_error() {
    let input = mystery_ko_text();
    assert!(TournamentSummary::parse(&input[0..120]).is_err());
}
