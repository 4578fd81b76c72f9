use holdem_suite::metrics::{compute_hand_metrics, player_stats_counts};
use holdem_suite::store::Action;

fn action(id: usize, player_name: &str, street: &str, action_type: &str, amount: Option<u64>) -> Action {
    Action {
        id,
        hand_id: String::from("whatever"),
        is_all_in: false,
        player_name: String::from(player_name),
        street: String::from(street),
        action_type: String::from(action_type),
        amount: amount.map(holdem_suite::amount::AmountType::Money),
    }
}

#[test]
fn test_compute_hand_metrics() {
    let actions = vec![
        action(0, "Player 1", "preflop", "raise", Some(100)),
        action(1, "Player 2", "preflop", "call", Some(100)),
        action(2, "Player 3", "preflop", "fold", None),
        action(3, "Player 4", "preflop", "raise", Some(300)),
        action(4, "Player 1", "preflop", "fold", None),
        action(5, "Player 1", "preflop", "fold", None),
    ];
    let metrics = compute_hand_metrics(&actions);
    assert!(metrics.get("Player 1").unwrap().vpip);
    assert!(metrics.get("Player 1").unwrap().pfr);
    assert!(!metrics.get("Player 1").unwrap().three_bet);
    assert!(metrics.get("Player 2").unwrap().vpip);
    assert!(!metrics.get("Player 2").unwrap().pfr);
    assert!(!metrics.get("Player 2").unwrap().three_bet);
    assert!(!metrics.get("Player 3").unwrap().vpip);
    assert!(!metrics.get("Player 3").unwrap().pfr);
    assert!(!metrics.get("Player 3").unwrap().three_bet);
    assert!(metrics.get("Player 4").unwrap().vpip);
    assert!(metrics.get("Player 4").unwrap().pfr);
    assert!(metrics.get("Player 4").unwrap().three_bet);
}

#[test]
fn test_metrics_six_player_preflop() {
    let actions = vec![
        action(0, "P1", "preflop", "raise", Some(100)),
        action(1, "P2", "preflop", "call", Some(100)),
        action(2, "P3", "preflop", "fold", None),
        action(3, "P4", "preflop", "raise", Some(300)),
        action(4, "P1", "preflop", "fold", None),
        action(5, "P2", "preflop", "fold", None),
    ];
    let metrics = compute_hand_metrics(&actions);
    let p1 = metrics.get("P1").unwrap();
    assert!(p1.vpip && p1.pfr && !p1.three_bet && !p1.open_limp);
    let p2 = metrics.get("P2").unwrap();
    assert!(p2.vpip && !p2.pfr && !p2.three_bet && !p2.open_limp);
    let p3 = metrics.get("P3").unwrap();
    assert!(!p3.vpip && !p3.pfr && !p3.three_bet && !p3.open_limp);
    let p4 = metrics.get("P4").unwrap();
    assert!(p4.vpip && p4.pfr && p4.three_bet && !p4.open_limp);
}

#[test]
fn test_metrics_open_limp() {
    let actions = vec![
        action(0, "P1", "preflop", "call", Some(100)),
        action(1, "P2", "preflop", "call", Some(100)),
    ];
    let metrics = compute_hand_metrics(&actions);
    assert!(metrics.get("P1").unwrap().open_limp);
    assert!(!metrics.get("P2").unwrap().open_limp);
}

#[test]
fn test_metrics_order_dependent_preflop() {
    // A call before the first raise is an open limp; after it, it is not.
    let limp_first = vec![
        action(0, "P1", "preflop", "call", Some(100)),
        action(1, "P2", "preflop", "raise", Some(300)),
    ];
    let raise_first = vec![
        action(0, "P2", "preflop", "raise", Some(300)),
        action(1, "P1", "preflop", "call", Some(300)),
    ];
    let m1 = compute_hand_metrics(&limp_first);
    let m2 = compute_hand_metrics(&raise_first);
    assert!(m1.get("P1").unwrap().open_limp);
    assert!(!m2.get("P1").unwrap().open_limp);
}

#[test]
fn test_metrics_stop_at_first_postflop_action() {
    let with_postflop = vec![
        action(0, "P1", "preflop", "raise", Some(100)),
        action(1, "P2", "preflop", "call", Some(100)),
        action(2, "P2", "flop", "bet", Some(200)),
        action(3, "P1", "flop", "raise", Some(600)),
        action(4, "P3", "turn", "bet", Some(900)),
    ];
    let preflop_only = vec![
        action(0, "P1", "preflop", "raise", Some(100)),
        action(1, "P2", "preflop", "call", Some(100)),
        action(2, "P2", "flop", "bet", Some(200)),
    ];
    let m1 = compute_hand_metrics(&with_postflop);
    let m2 = compute_hand_metrics(&preflop_only);
    assert_eq!(m1.len(), m2.len());
    assert_eq!(m1.get("P1"), m2.get("P1"));
    assert_eq!(m1.get("P2"), m2.get("P2"));
    // The flop raise by P1 does not count as a preflop raise twice,
    // and P3 never appears.
    assert!(m1.get("P3").is_none());
}

#[test]
fn test_player_stats_counts() {
    let hand = |n: usize, raise_by_p1: bool| {
        let row = holdem_suite::store::Hand {
            id: format!("hand-{}", n),
            hole_card_1: String::from("Ah"),
            hole_card_2: String::from("Kd"),
            tournament_id: None,
            cash_game_name: Some(String::from("Wichita 05")),
            datetime: String::from("2023/06/17 17:29:18 UTC"),
            button: 1,
            max_players: 6,
            hero: String::from("P1"),
            ante: None,
            small_blind: holdem_suite::amount::AmountType::Chips(1),
            big_blind: holdem_suite::amount::AmountType::Chips(2),
            pot: holdem_suite::amount::AmountType::Chips(4),
            rake: None,
            flop1: None,
            flop2: None,
            flop3: None,
            turn: None,
            river: None,
        };
        let acts = if raise_by_p1 {
            vec![action(0, "P1", "preflop", "raise", Some(100))]
        } else {
            vec![action(0, "P1", "preflop", "fold", None)]
        };
        (row, acts)
    };
    let pairs = vec![hand(1, true), hand(2, false), hand(3, true)];
    let counts = player_stats_counts("P1", &pairs);
    assert_eq!(3, counts.nb_hands);
    assert_eq!(2, counts.vpip);
    assert_eq!(2, counts.pfr);
    assert_eq!(0, counts.three_bet);
    assert_eq!(0, counts.open_limp);
}
