use holdem_suite::amount::{parse_blind, AmountType, Stack};
use holdem_suite::cards::{Card, HoleCards, Rank, Suit};
use holdem_suite::parser::{
    parse_hands, parse_seats, Action, ActionType, Blinds, Board, DealtToHero, GameInfo, Hand,
    HandCategory, HandInfo, MoneyType, PokerType, PostType, Seat, Street, StreetType, Summary,
    SummaryPlayer, SummaryResult, TableInfo, TableName, TournamentInfo,
};

#[test]
fn test_parse_tournament_info() {
    let input = "\"WESTERN\" buyIn: 0.90€ + 0.10€ level: 6";
    let expected = TournamentInfo {
        name: String::from("WESTERN"),
        buy_in: 90,
        rake: 10,
        level: 6,
    };
    let (_, actual) = TournamentInfo::parse(input).unwrap();
    assert_eq!(expected, actual);
}

#[test]
fn test_parse_game_info_tournament() {
    let input = "Winamax Poker - Tournament \"WESTERN\" buyIn: 0.90€ + 0.10€ level: 6";
    let expected = GameInfo::Tournament(TournamentInfo {
        name: String::from("WESTERN"),
        buy_in: 90,
        rake: 10,
        level: 6,
    });
    let (_, actual) = GameInfo::parse(input).unwrap();
    assert_eq!(expected, actual);
}

#[test]
fn test_parse_game_info_cashgame() {
    let input = "Winamax Poker - CashGame";
    let expected = GameInfo::CashGame;
    let (_, actual) = GameInfo::parse(input).unwrap();
    assert_eq!(expected, actual);
}

#[test]
fn test_parse_blind_chips() {
    let input = "60";
    let expected = AmountType::Chips(60);
    assert_eq!(expected, parse_blind(input).unwrap().1);
}

#[test]
fn test_parse_blind_money() {
    let input = "60€";
    let expected = AmountType::Money(6000);
    assert_eq!(expected, parse_blind(input).unwrap().1);
}

#[test]
fn test_parse_blinds_chips() {
    let input = "60/250/500";
    let expected = Blinds {
        ante: Some(AmountType::Chips(60)),
        small_blind: AmountType::Chips(250),
        big_blind: AmountType::Chips(500),
    };
    let (_, actual) = Blinds::parse(input).unwrap();
    assert_eq!(expected, actual);
}

#[test]
fn test_parse_blinds_no_ante() {
    let input = "250/500";
    let expected = Blinds {
        ante: None,
        small_blind: AmountType::Chips(250),
        big_blind: AmountType::Chips(500),
    };
    let (_, actual) = Blinds::parse(input).unwrap();
    assert_eq!(expected, actual);
}

#[test]
fn test_hand_info_tournament() {
    let input = "Winamax Poker - Tournament \"WESTERN\" buyIn: 0.90€ + 0.10€ level: 6 - HandId: #2815488303912976462-15-1684698584 - Holdem no limit (60/250/500) - 2023/05/21 19:49:44 UTC\n";

    let expected = HandInfo {
        game_info: GameInfo::Tournament(TournamentInfo {
            name: String::from("WESTERN"),
            buy_in: 90,
            rake: 10,
            level: 6,
        }),
        hand_id: String::from("2815488303912976462-15-1684698584"),
        poker_type: PokerType::HoldemNoLimit,
        blinds: Blinds {
            ante: Some(AmountType::Chips(60)),
            small_blind: AmountType::Chips(250),
            big_blind: AmountType::Chips(500),
        },
        datetime: String::from("2023/05/21 19:49:44 UTC"),
    };
    let (_, actual) = HandInfo::parse(input).unwrap();
    assert_eq!(expected, actual);
}

#[test]
fn test_hand_info_hold_up() {
    let input = "Winamax Poker - HOLD-UP \"Colorado\" - HandId: #18559747-238220-1687014585 - Holdem no limit (0.01€/0.02€) - 2023/06/17 15:09:45 UTC\n";

    let expected = HandInfo {
        game_info: GameInfo::HoldUp,
        hand_id: String::from("18559747-238220-1687014585"),
        poker_type: PokerType::HoldemNoLimit,
        blinds: Blinds {
            ante: None,
            small_blind: AmountType::Money(1),
            big_blind: AmountType::Money(2),
        },
        datetime: String::from("2023/06/17 15:09:45 UTC"),
    };
    let (_, actual) = HandInfo::parse(input).unwrap();
    assert_eq!(expected, actual);
}

#[test]
fn test_hand_info_cash_game() {
    let input = "Winamax Poker - CashGame - HandId: #18567763-280-1687022958 - Holdem no limit (0.01€/0.02€) - 2023/06/17 17:29:18 UTC\n";
    let expected = HandInfo {
        game_info: GameInfo::CashGame,
        hand_id: String::from("18567763-280-1687022958"),
        poker_type: PokerType::HoldemNoLimit,
        blinds: Blinds {
            ante: None,
            small_blind: AmountType::Money(1),
            big_blind: AmountType::Money(2),
        },
        datetime: String::from("2023/06/17 17:29:18 UTC"),
    };

    let (_, actual) = HandInfo::parse(input).unwrap();
    assert_eq!(expected, actual);
}

#[test]
fn test_parse_table_name_tournament() {
    let input = "'Kill The Fish(651864208)#003'";
    let expected = TableName::Tournament(String::from("Kill The Fish"), 651864208, 3);
    let (_, actual) = TableName::parse(input).unwrap();
    assert_eq!(expected, actual);
}

#[test]
fn test_parse_table_name_cashgame() {
    let input = "'Nice 17'";
    let expected = TableName::CashGame(String::from("Nice 17"));
    let (_, actual) = TableName::parse(input).unwrap();
    assert_eq!(expected, actual);
}

#[test]
fn test_parse_table_name_holdup() {
    let input = "'Colorado'";
    let expected = TableName::CashGame(String::from("Colorado"));
    let (_, actual) = TableName::parse(input).unwrap();
    assert_eq!(expected, actual);
}

#[test]
fn test_parse_table_info_tournament() {
    let input = "Table: 'WESTERN(655531954)#077' 6-max (real money) Seat #3 is the button\n";
    let expected = TableInfo {
        table_name: TableName::Tournament(String::from("WESTERN"), 655531954, 77),
        max_players: 6,
        currency: MoneyType::RealMoney,
        button: 3,
    };
    let (_, actual) = TableInfo::parse(input).unwrap();
    assert_eq!(expected, actual);
}

#[test]
fn test_parse_seat_chips_with_bounty() {
    let input = "Seat 5: WinterSound (20000, 0.45€ bounty)\n";
    let expected = Seat {
        seat_number: 5,
        player_name: String::from("WinterSound"),
        stack: Stack::Chips(20000),
        bounty: Some(45),
    };
    let (_, actual) = Seat::parse(input).unwrap();
    assert_eq!(expected, actual);
}

#[test]
fn test_parse_seat_chips_without_bounty() {
    let input = "Seat 3: WinterSound (18744)\n";
    let expected = Seat {
        seat_number: 3,
        player_name: String::from("WinterSound"),
        stack: Stack::Chips(18744),
        bounty: None,
    };
    let (_, actual) = Seat::parse(input).unwrap();
    assert_eq!(expected, actual);
}

#[test]
fn test_parse_seat_cashgame() {
    let input = "Seat 3: Winter Sound (0.50€)\n";
    let expected = Seat {
        seat_number: 3,
        player_name: String::from("Winter Sound"),
        stack: Stack::Money(50),
        bounty: None,
    };
    let (_, actual) = Seat::parse(input).unwrap();
    assert_eq!(expected, actual);
}

#[test]
fn test_parse_seats() {
    let input = "Seat 1: WinterSound (20000, 0.45€ bounty)\nSeat 2: Player Two (18744)\n";
    let expected = vec![
        Seat {
            seat_number: 1,
            player_name: String::from("WinterSound"),
            stack: Stack::Chips(20000),
            bounty: Some(45),
        },
        Seat {
            seat_number: 2,
            player_name: String::from("Player Two"),
            stack: Stack::Chips(18744),
            bounty: None,
        },
    ];
    let (_, actual) = parse_seats(input).unwrap();
    assert_eq!(expected, actual);
}

#[test]
fn test_parse_seats_6() {
    let input = "Seat 1: Anonymous1 (23940, 0.45€ bounty)\nSeat 2: Anonymous 2 (14388, 0.45€ bounty)\nSeat 3: Anonymous 3 (20410, 0.45€ bounty)\nSeat 4: Anonymous4 (15425, 0.45€ bounty)\nSeat 5: WinterSound (14285, 0.45€ bounty)\nSeat 6: Anonymous5 (109973, 1€ bounty)\n*** ANTE/BLINDS ***\n";
    let expected = vec![
        Seat {
            seat_number: 1,
            player_name: String::from("Anonymous1"),
            stack: Stack::Chips(23940),
            bounty: Some(45),
        },
        Seat {
            seat_number: 2,
            player_name: String::from("Anonymous 2"),
            stack: Stack::Chips(14388),
            bounty: Some(45),
        },
        Seat {
            seat_number: 3,
            player_name: String::from("Anonymous 3"),
            stack: Stack::Chips(20410),
            bounty: Some(45),
        },
        Seat {
            seat_number: 4,
            player_name: String::from("Anonymous4"),
            stack: Stack::Chips(15425),
            bounty: Some(45),
        },
        Seat {
            seat_number: 5,
            player_name: String::from("WinterSound"),
            stack: Stack::Chips(14285),
            bounty: Some(45),
        },
        Seat {
            seat_number: 6,
            player_name: String::from("Anonymous5"),
            stack: Stack::Chips(109973),
            bounty: Some(100),
        },
    ];
    let (_, actual) = parse_seats(input).unwrap();
    assert_eq!(expected, actual);
}

#[test]
fn test_parse_post_type_sb() {
    let input = "small blind 250\n";
    let expected = PostType::SmallBlind(AmountType::Chips(250));
    let (_, actual) = PostType::parse(input).unwrap();
    assert_eq!(expected, actual);
}

#[test]
fn test_parse_post_type_bb_cash() {
    let input = "big blind 0.02€\n";
    let expected = PostType::BigBlind(AmountType::Money(2));
    let (_, actual) = PostType::parse(input).unwrap();
    assert_eq!(expected, actual);
}

#[test]
fn test_parse_post_type_ante_chips() {
    let input = "big blind 60\n";
    let expected = PostType::BigBlind(AmountType::Chips(60));
    let (_, actual) = PostType::parse(input).unwrap();
    assert_eq!(expected, actual);
}

#[test]
fn test_parse_action_type_post_bb() {
    let input = "posts big blind 500\n";
    let expected = ActionType::Post(PostType::BigBlind(AmountType::Chips(500)));
    let (_, actual) = ActionType::parse(input).unwrap();
    assert_eq!(expected, actual);
}

#[test]
fn test_parse_action_type_check() {
    let input = "checks\n";
    let expected = ActionType::Check;
    let (_, actual) = ActionType::parse(input).unwrap();
    assert_eq!(expected, actual);
}

#[test]
fn test_parse_action_type_call() {
    let input = "calls 500\n";
    let expected = ActionType::Call {
        amount: AmountType::Chips(500),
    };
    let (_, actual) = ActionType::parse(input).unwrap();
    assert_eq!(expected, actual);
}

#[test]
fn test_parse_action_type_bet() {
    let input = "bets 500\n";
    let expected = ActionType::Bet {
        amount: AmountType::Chips(500),
    };
    let (_, actual) = ActionType::parse(input).unwrap();
    assert_eq!(expected, actual);
}

#[test]
fn test_parse_action_type_raise() {
    let input = "raises 500 to 1000\n";
    let expected = ActionType::Raise {
        to_call: AmountType::Chips(500),
        amount: AmountType::Chips(1000),
    };
    let (_, actual) = ActionType::parse(input).unwrap();
    assert_eq!(expected, actual);
}

#[test]
fn test_parse_action_fold() {
    let input = "As 2 carrot folds\n";
    let expected = Action {
        player_name: String::from("As 2 carrot"),
        action: ActionType::Fold,
        is_all_in: false,
    };
    let (_, actual) = Action::parse(input).unwrap();
    assert_eq!(expected, actual);
}

#[test]
fn test_parse_action_check() {
    let input = "Player One checks\n";
    let expected = Action {
        player_name: String::from("Player One"),
        action: ActionType::Check,
        is_all_in: false,
    };
    let (_, actual) = Action::parse(input).unwrap();
    assert_eq!(expected, actual);
}

#[test]
fn test_parse_action_raises() {
    let input = "Player One raises 500 to 1000\n";
    let expected = Action {
        player_name: String::from("Player One"),
        action: ActionType::Raise {
            to_call: AmountType::Chips(500),
            amount: AmountType::Chips(1000),
        },
        is_all_in: false,
    };
    let (_, actual) = Action::parse(input).unwrap();
    assert_eq!(expected, actual);
}

#[test]
fn test_parse_dealt_to() {
    let input = "Dealt to Player One [Ks 9s]\n";
    let expected = DealtToHero {
        player_name: String::from("Player One"),
        hole_cards: HoleCards {
            card1: Card {
                rank: Rank::King,
                suit: Suit::Spades,
            },
            card2: Card {
                rank: Rank::Nine,
                suit: Suit::Spades,
            },
        },
    };
    let (_, actual) = DealtToHero::parse(input).unwrap();
    assert_eq!(expected, actual);
}

#[test]
fn test_parse_street() {
    let input = "*** FLOP *** [8s 7h 4h]\nPlayer One raises 500 to 1000\nPlayer Two calls 1000\n";
    let expected = Street {
        street_type: StreetType::Flop,
        actions: vec![
            Action {
                player_name: String::from("Player One"),
                action: ActionType::Raise {
                    to_call: AmountType::Chips(500),
                    amount: AmountType::Chips(1000),
                },
                is_all_in: false,
            },
            Action {
                player_name: String::from("Player Two"),
                action: ActionType::Call {
                    amount: AmountType::Chips(1000),
                },
                is_all_in: false,
            },
        ],
    };
    let (_, actual) = Street::parse(input).unwrap();
    assert_eq!(expected, actual);
}

#[test]
fn test_parse_board() {
    let input = "Board: [8s 7h 4h 3s 2h]\n";
    let expected = Board {
        cards: vec![
            Card {
                rank: Rank::Eight,
                suit: Suit::Spades,
            },
            Card {
                rank: Rank::Seven,
                suit: Suit::Hearts,
            },
            Card {
                rank: Rank::Four,
                suit: Suit::Hearts,
            },
            Card {
                rank: Rank::Three,
                suit: Suit::Spades,
            },
            Card {
                rank: Rank::Two,
                suit: Suit::Hearts,
            },
        ],
    };
    let (_, actual) = Board::parse(input).unwrap();
    assert_eq!(expected, actual);
}

#[test]
fn test_parse_hand_category_high() {
    let input = "High card : Ace";
    let expected = HandCategory::HighCard(Rank::Ace);
    let (_, actual) = HandCategory::parse(input).unwrap();
    assert_eq!(expected, actual);
}

#[test]
fn test_parse_hand_category_pair() {
    let input = "One pair : Aces";
    let expected = HandCategory::Pair(Rank::Ace);
    let (_, actual) = HandCategory::parse(input).unwrap();
    assert_eq!(expected, actual);
}

#[test]
fn test_parse_hand_category_two_pair() {
    let input = "Two pairs : Queens and 2";
    let expected = HandCategory::TwoPair(Rank::Queen, Rank::Two);
    let (_, actual) = HandCategory::parse(input).unwrap();
    assert_eq!(expected, actual);
}

#[test]
fn test_parse_hand_category_flush() {
    let input = "Flush Jack high";
    let expected = HandCategory::Flush(Rank::Jack);
    let (_, actual) = HandCategory::parse(input).unwrap();
    assert_eq!(expected, actual);
}

#[test]
fn test_parse_hand_category_full() {
    let input = "Full of 6 and 4";
    let expected = HandCategory::Full(Rank::Six, Rank::Four);
    let (_, actual) = HandCategory::parse(input).unwrap();
    assert_eq!(expected, actual);
}

#[test]
fn test_parse_hand_category_straight() {
    let input = "Straight Ten high";
    let expected = HandCategory::Straight(Rank::Ten);
    let (_, actual) = HandCategory::parse(input).unwrap();
    assert_eq!(expected, actual);
}

#[test]
fn test_parse_summary_player() {
    let input = "Seat 6: Alexarango (button) won 0.31€";
    let expected = SummaryPlayer {
        seat: 6,
        name: String::from("Alexarango"),
        result: SummaryResult::Won(AmountType::Money(31)),
        hole_cards: None,
        hand_category: None,
    };
    let (_, actual) = SummaryPlayer::parse(input).unwrap();
    assert_eq!(expected, actual);
}

#[test]
fn test_parse_summary_player_showdown() {
    let input = "Seat 6: Alexarango (button) showed [8d Td] and won 0.36€ with Straight Ten high\n";
    let expected = SummaryPlayer {
        seat: 6,
        name: String::from("Alexarango"),
        result: SummaryResult::Won(AmountType::Money(36)),
        hole_cards: Some(HoleCards {
            card1: Card {
                rank: Rank::Eight,
                suit: Suit::Diamonds,
            },
            card2: Card {
                rank: Rank::Ten,
                suit: Suit::Diamonds,
            },
        }),
        hand_category: Some(HandCategory::Straight(Rank::Ten)),
    };
    let (_, actual) = SummaryPlayer::parse(input).unwrap();
    assert_eq!(expected, actual);
}

#[test]
fn test_parse_summary_player_showdown_lost() {
    let input = "Seat 3: Player Two showed [Qd As] and won 0.36€ with Two pairs : Queens and 2\n";
    let expected = SummaryPlayer {
        seat: 3,
        name: String::from("Player Two"),
        result: SummaryResult::Won(AmountType::Money(36)),
        hole_cards: Some(HoleCards {
            card1: Card {
                rank: Rank::Queen,
                suit: Suit::Diamonds,
            },
            card2: Card {
                rank: Rank::Ace,
                suit: Suit::Spades,
            },
        }),
        hand_category: Some(HandCategory::TwoPair(Rank::Queen, Rank::Two)),
    };
    let (_, actual) = SummaryPlayer::parse(input).unwrap();
    assert_eq!(expected, actual);
}

#[test]
fn test_parse_summary_no_flop_no_rake() {
    let input = "Total pot 2670 | No rake\nSeat 3: Player One won 2670\n\n";
    let expected = Summary {
        pot: AmountType::Chips(2670),
        rake: None,
        players: vec![SummaryPlayer {
            seat: 3,
            name: String::from("Player One"),
            result: SummaryResult::Won(AmountType::Chips(2670)),
            hole_cards: None,
            hand_category: None,
        }],
        board: None,
    };
    let (_, actual) = Summary::parse(input).unwrap();
    assert_eq!(expected, actual);
}

#[test]
fn test_parse_summary_with_rake() {
    let input = "Total pot 0.79€ | Rake 0.01€\nBoard: [8c 5h Ts Kd Td]\nSeat 3: Player One won 0.79€";
    let expected = Summary {
        pot: AmountType::Money(79),
        rake: Some(AmountType::Money(1)),
        players: vec![SummaryPlayer {
            seat: 3,
            name: String::from("Player One"),
            result: SummaryResult::Won(AmountType::Money(79)),
            hole_cards: None,
            hand_category: None,
        }],
        board: Some(Board {
            cards: vec![
                Card {
                    rank: Rank::Eight,
                    suit: Suit::Clubs,
                },
                Card {
                    rank: Rank::Five,
                    suit: Suit::Hearts,
                },
                Card {
                    rank: Rank::Ten,
                    suit: Suit::Spades,
                },
                Card {
                    rank: Rank::King,
                    suit: Suit::Diamonds,
                },
                Card {
                    rank: Rank::Ten,
                    suit: Suit::Diamonds,
                },
            ],
        }),
    };
    let (_, actual) = Summary::parse(input).unwrap();
    assert_eq!(expected, actual);
}

#[test]
fn test_parse_summary_with_board() {
    let input = "Total pot 2670 | No rake\nBoard: [8s 7h 4h 3s 2h]\nSeat 3: Player One won 2670\n\n";
    let expected = Summary {
        pot: AmountType::Chips(2670),
        rake: None,
        players: vec![SummaryPlayer {
            seat: 3,
            name: String::from("Player One"),
            result: SummaryResult::Won(AmountType::Chips(2670)),
            hole_cards: None,
            hand_category: None,
        }],
        board: Some(Board {
            cards: vec![
                Card {
                    rank: Rank::Eight,
                    suit: Suit::Spades,
                },
                Card {
                    rank: Rank::Seven,
                    suit: Suit::Hearts,
                },
                Card {
                    rank: Rank::Four,
                    suit: Suit::Hearts,
                },
                Card {
                    rank: Rank::Three,
                    suit: Suit::Spades,
                },
                Card {
                    rank: Rank::Two,
                    suit: Suit::Hearts,
                },
            ],
        }),
    };
    let (_, actual) = Summary::parse(input).unwrap();
    assert_eq!(expected, actual);
}

#[test]
fn test_parse_summary_with_showdown() {
    let input = "Total pot 0.30€ | Rake 0.03€\nBoard: [3s Ks Qh 2s 2c]\nSeat 2: Player One (big blind) showed [9c Kd] and won 0.30€ with One pair : Kings\nSeat 3: Player Two showed [Qd As] and lost with Two pairs : Queens and 2\n\n";

    let expected = Summary {
        pot: AmountType::Money(30),
        rake: Some(AmountType::Money(3)),
        players: vec![
            SummaryPlayer {
                seat: 2,
                name: String::from("Player One"),
                result: SummaryResult::Won(AmountType::Money(30)),
                hole_cards: Some(HoleCards {
                    card1: Card {
                        rank: Rank::Nine,
                        suit: Suit::Clubs,
                    },
                    card2: Card {
                        rank: Rank::King,
                        suit: Suit::Diamonds,
                    },
                }),
                hand_category: Some(HandCategory::Pair(Rank::King)),
            },
            SummaryPlayer {
                seat: 3,
                name: String::from("Player Two"),
                result: SummaryResult::Lost,
                hole_cards: Some(HoleCards {
                    card1: Card {
                        rank: Rank::Queen,
                        suit: Suit::Diamonds,
                    },
                    card2: Card {
                        rank: Rank::Ace,
                        suit: Suit::Spades,
                    },
                }),
                hand_category: Some(HandCategory::TwoPair(Rank::Queen, Rank::Two)),
            },
        ],
        board: Some(Board {
            cards: vec![
                Card {
                    rank: Rank::Three,
                    suit: Suit::Spades,
                },
                Card {
                    rank: Rank::King,
                    suit: Suit::Spades,
                },
                Card {
                    rank: Rank::Queen,
                    suit: Suit::Hearts,
                },
                Card {
                    rank: Rank::Two,
                    suit: Suit::Spades,
                },
                Card {
                    rank: Rank::Two,
                    suit: Suit::Clubs,
                },
            ],
        }),
    };
    let (_, actual) = Summary::parse(input).unwrap();
    assert_eq!(expected, actual);
}

fn western_hand_text() -> String {
    let mut t = String::new();
    t.push_str("Winamax Poker - Tournament \"WESTERN\" buyIn: 0.90€ + 0.10€ level: 7 - ");
    t.push_str("HandId: #2815488303912976462-17-1684698755 - Holdem no limit (70/300/600)");
    t.push_str(" - 2023/05/21 19:52:35 UTC\n");
    t.push_str("Table: 'WESTERN(1684698755)#004' 6-max (real money) Seat #3 is the button\n");
    t.push_str("Seat 1: Anonymous1 (23940, 0.45€ bounty)\n");
    t.push_str("Seat 2: Anonymous 2 (14388, 0.45€ bounty)\n");
    t.push_str("Seat 3: Anonymous 3 (20410, 0.45€ bounty)\n");
    t.push_str("Seat 4: Anonymous4 (15425, 0.45€ bounty)\n");
    t.push_str("Seat 5: WinterSound (14285, 0.45€ bounty)\n");
    t.push_str("Seat 6: Anonymous5 (109973, 1€ bounty)\n");
    t.push_str("*** ANTE/BLINDS ***\n");
    t.push_str("Anonymous5 posts ante 70\n");
    t.push_str("Anonymous1 posts ante 70\n");
    t.push_str("Anonymous 2 posts ante 70\n");
    t.push_str("Anonymous 3 posts ante 70\n");
    t.push_str("Anonymous4 posts ante 70\n");
    t.push_str("WinterSound posts ante 70\n");
    t.push_str("Anonymous5 posts small blind 300\n");
    t.push_str("Anonymous1 posts big blind 60\n");
    t.push_str("Dealt to WinterSound [6s Qh]\n");
    t.push_str("*** PRE-FLOP ***\n");
    t.push_str("Anonymous 2 folds\n");
    t.push_str("Anonymous 3 raises 750 to 1350\n");
    t.push_str("Anonymous4 folds\n");
    t.push_str("WinterSound folds\n");
    t.push_str("Anonymous5 folds\n");
    t.push_str("Anonymous1 folds\n");
    t.push_str("Anonymous 3 collected 2670 from pot\n");
    t.push_str("*** SUMMARY ***\n");
    t.push_str("Total pot 2670 | No rake\n");
    t.push_str("Seat 3: Anonymous 3 won 2670\n\n");
    t
}

#[test]
fn test_parse_hand() {
    let input = western_hand_text();

    let expected = Hand {
        hand_info: HandInfo {
            game_info: GameInfo::Tournament(TournamentInfo {
                name: String::from("WESTERN"),
                buy_in: 90,
                rake: 10,
                level: 7,
            }),
            hand_id: String::from("2815488303912976462-17-1684698755"),
            poker_type: PokerType::HoldemNoLimit,
            blinds: Blinds {
                ante: Some(AmountType::Chips(70)),
                small_blind: AmountType::Chips(300),
                big_blind: AmountType::Chips(600),
            },
            datetime: String::from("2023/05/21 19:52:35 UTC"),
        },
        table_info: TableInfo {
            table_name: TableName::Tournament(String::from("WESTERN"), 1684698755, 4),
            max_players: 6,
            currency: MoneyType::RealMoney,
            button: 3,
        },
        seats: vec![
            Seat {
                seat_number: 1,
                player_name: String::from("Anonymous1"),
                stack: Stack::Chips(23940),
                bounty: Some(45),
            },
            Seat {
                seat_number: 2,
                player_name: String::from("Anonymous 2"),
                stack: Stack::Chips(14388),
                bounty: Some(45),
            },
            Seat {
                seat_number: 3,
                player_name: String::from("Anonymous 3"),
                stack: Stack::Chips(20410),
                bounty: Some(45),
            },
            Seat {
                seat_number: 4,
                player_name: String::from("Anonymous4"),
                stack: Stack::Chips(15425),
                bounty: Some(45),
            },
            Seat {
                seat_number: 5,
                player_name: String::from("WinterSound"),
                stack: Stack::Chips(14285),
                bounty: Some(45),
            },
            Seat {
                seat_number: 6,
                player_name: String::from("Anonymous5"),
                stack: Stack::Chips(109973),
                bounty: Some(100),
            },
        ],
        dealt_cards: DealtToHero {
            player_name: String::from("WinterSound"),
            hole_cards: HoleCards {
                card1: Card {
                    rank: Rank::Six,
                    suit: Suit::Spades,
                },
                card2: Card {
                    rank: Rank::Queen,
                    suit: Suit::Hearts,
                },
            },
        },
        streets: vec![Street {
            street_type: StreetType::Preflop,
            actions: vec![
                Action {
                    player_name: String::from("Anonymous 2"),
                    action: ActionType::Fold,
                    is_all_in: false,
                },
                Action {
                    player_name: String::from("Anonymous 3"),
                    action: ActionType::Raise {
                        to_call: AmountType::Chips(750),
                        amount: AmountType::Chips(1350),
                    },
                    is_all_in: false,
                },
                Action {
                    player_name: String::from("Anonymous4"),
                    action: ActionType::Fold,
                    is_all_in: false,
                },
                Action {
                    player_name: String::from("WinterSound"),
                    action: ActionType::Fold,
                    is_all_in: false,
                },
                Action {
                    player_name: String::from("Anonymous5"),
                    action: ActionType::Fold,
                    is_all_in: false,
                },
                Action {
                    player_name: String::from("Anonymous1"),
                    action: ActionType::Fold,
                    is_all_in: false,
                },
                Action {
                    player_name: String::from("Anonymous 3"),
                    action: ActionType::Collect,
                    is_all_in: false,
                },
            ],
        }],
        summary: Summary {
            pot: AmountType::Chips(2670),
            rake: None,
            players: vec![SummaryPlayer {
                name: String::from("Anonymous 3"),
                seat: 3,
                hole_cards: None,
                result: SummaryResult::Won(AmountType::Chips(2670)),
                hand_category: None,
            }],
            board: None,
        },
    };
    let (_, actual) = Hand::parse(&input).unwrap();
    assert_eq!(expected, actual);
}

#[test]
fn test_parse_hands() {
    let mut data = String::new();
    data.push_str(&western_hand_text());
    data.push_str("\n");
    data.push_str(&western_hand_text().replace("-17-1684698755", "-18-1684698899"));
    data.push_str("\n");
    data.push_str(&western_hand_text().replace("-17-1684698755", "-19-1684698999"));
    let (_, hands) = parse_hands(&data).unwrap();
    assert_eq!(hands.len(), 3);
}

#[test]
fn test_parse_hands_empty_input_is_empty_list() {
    let (pos, hands) = parse_hands("").unwrap();
    assert_eq!(pos, 0);
    assert_eq!(hands.len(), 0);
    let (_, hands) = parse_hands("  \n\n").unwrap();
    assert_eq!(hands.len(), 0);
}

#[test]
fn test_parse_hands_truncated_record_is_error() {
    let input = western_hand_text();
    let truncated = &input[0..200];
    assert!(parse_hands(truncated).is_err());
}

#[test]
fn test_parse_street_with_no_actions() {
    let input = "*** TURN *** [8s 7h 4h 2c]\n*** SUMMARY ***\n";
    let (_, street) = Street::parse(input).unwrap();
    assert_eq!(street.street_type, StreetType::Turn);
    assert_eq!(street.actions.len(), 0);
}
