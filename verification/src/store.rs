//! The storage layer: a typed, idempotent upsert of parsed hands and a query
//! surface over four tables (summaries, hands, seats, actions). Rows are
//! content-keyed — hands by their hand id, seats by hand id and seat number,
//! summaries by tournament id — so re-ingesting the same file converges.

use vstd::prelude::*;

use crate::amount::AmountType;
use crate::cards::card_chars;
use crate::parser;
use crate::parser::{ActionV, HandV, SeatV, StreetV, SummaryPlayerV};
use crate::summary_parser::{tournament_type_chars, TournamentSummary};

verus! {

// ------------------------------------------------------------------
// Rows.
// ------------------------------------------------------------------

/// A row of the `summaries` table, keyed by tournament id.
#[derive(Debug, PartialEq, Eq)]
pub struct Summary {
    pub id: u32,
    pub name: String,
    pub finish_place: u32,
    pub buyin: u64,
    pub date: String,
    pub play_time: String,
    pub entries: u32,
    pub mode: String,
    pub tournament_type: String,
    pub speed: String,
    pub won: Option<u64>,
}

/// Spec-level mirror of a `summaries` row.
pub ghost struct SummaryRowV {
    pub id: u32,
    pub name: Seq<char>,
    pub finish_place: u32,
    pub buyin: u64,
    pub date: Seq<char>,
    pub play_time: Seq<char>,
    pub entries: u32,
    pub mode: Seq<char>,
    pub tournament_type: Seq<char>,
    pub speed: Seq<char>,
    pub won: Option<u64>,
}

impl View for Summary {
    type V = SummaryRowV;

    open spec fn view(&self) -> SummaryRowV {
        SummaryRowV {
            id: self.id,
            name: self.name@,
            finish_place: self.finish_place,
            buyin: self.buyin,
            date: self.date@,
            play_time: self.play_time@,
            entries: self.entries,
            mode: self.mode@,
            tournament_type: self.tournament_type@,
            speed: self.speed@,
            won: self.won,
        }
    }
}

impl DeepView for Summary {
    type V = SummaryRowV;

    open spec fn deep_view(&self) -> SummaryRowV {
        self.view()
    }
}

/// A row of the `hands` table, keyed by the textual hand id.
#[derive(Debug, PartialEq, Eq)]
pub struct Hand {
    pub id: String,
    pub hole_card_1: String,
    pub hole_card_2: String,
    pub tournament_id: Option<u32>,
    pub cash_game_name: Option<String>,
    pub datetime: String,
    pub button: u32,
    pub max_players: u32,
    pub hero: String,
    pub ante: Option<AmountType>,
    pub small_blind: AmountType,
    pub big_blind: AmountType,
    pub pot: AmountType,
    pub rake: Option<AmountType>,
    pub flop1: Option<String>,
    pub flop2: Option<String>,
    pub flop3: Option<String>,
    pub turn: Option<String>,
    pub river: Option<String>,
}

/// Spec-level mirror of a `hands` row.
pub ghost struct HandRowV {
    pub id: Seq<char>,
    pub hole_card_1: Seq<char>,
    pub hole_card_2: Seq<char>,
    pub tournament_id: Option<u32>,
    pub cash_game_name: Option<Seq<char>>,
    pub datetime: Seq<char>,
    pub button: u32,
    pub max_players: u32,
    pub hero: Seq<char>,
    pub ante: Option<AmountType>,
    pub small_blind: AmountType,
    pub big_blind: AmountType,
    pub pot: AmountType,
    pub rake: Option<AmountType>,
    pub flop1: Option<Seq<char>>,
    pub flop2: Option<Seq<char>>,
    pub flop3: Option<Seq<char>>,
    pub turn: Option<Seq<char>>,
    pub river: Option<Seq<char>>,
}

impl View for Hand {
    type V = HandRowV;

    open spec fn view(&self) -> HandRowV {
        HandRowV {
            id: self.id@,
            hole_card_1: self.hole_card_1@,
            hole_card_2: self.hole_card_2@,
            tournament_id: self.tournament_id,
            cash_game_name: self.cash_game_name.deep_view(),
            datetime: self.datetime@,
            button: self.button,
            max_players: self.max_players,
            hero: self.hero@,
            ante: self.ante,
            small_blind: self.small_blind,
            big_blind: self.big_blind,
            pot: self.pot,
            rake: self.rake,
            flop1: self.flop1.deep_view(),
            flop2: self.flop2.deep_view(),
            flop3: self.flop3.deep_view(),
            turn: self.turn.deep_view(),
            river: self.river.deep_view(),
        }
    }
}

impl DeepView for Hand {
    type V = HandRowV;

    open spec fn deep_view(&self) -> HandRowV {
        self.view()
    }
}

/// A row of the `seats` table, keyed by hand id and seat number.
#[derive(Debug, PartialEq, Eq)]
pub struct Seat {
    pub hand_id: String,
    pub player_name: String,
    pub seat_number: u32,
    pub stack: AmountType,
    pub bounty: Option<u64>,
    pub card1: Option<String>,
    pub card2: Option<String>,
}

/// Spec-level mirror of a `seats` row.
pub ghost struct SeatRowV {
    pub hand_id: Seq<char>,
    pub player_name: Seq<char>,
    pub seat_number: u32,
    pub stack: AmountType,
    pub bounty: Option<u64>,
    pub card1: Option<Seq<char>>,
    pub card2: Option<Seq<char>>,
}

impl View for Seat {
    type V = SeatRowV;

    open spec fn view(&self) -> SeatRowV {
        SeatRowV {
            hand_id: self.hand_id@,
            player_name: self.player_name@,
            seat_number: self.seat_number,
            stack: self.stack,
            bounty: self.bounty,
            card1: self.card1.deep_view(),
            card2: self.card2.deep_view(),
        }
    }
}

impl DeepView for Seat {
    type V = SeatRowV;

    open spec fn deep_view(&self) -> SeatRowV {
        self.view()
    }
}

/// A row of the `actions` table. The id is the row's position in the table,
/// assigned at insertion and never reused; `action_type` and `street` hold
/// the textual forms consumers map back at the boundary.
#[derive(Debug, PartialEq, Eq)]
pub struct Action {
    pub id: usize,
    pub hand_id: String,
    pub player_name: String,
    pub action_type: String,
    pub amount: Option<AmountType>,
    pub is_all_in: bool,
    pub street: String,
}

/// Spec-level mirror of an `actions` row.
pub ghost struct ActionRowV {
    pub id: usize,
    pub hand_id: Seq<char>,
    pub player_name: Seq<char>,
    pub action_type: Seq<char>,
    pub amount: Option<AmountType>,
    pub is_all_in: bool,
    pub street: Seq<char>,
}

impl View for Action {
    type V = ActionRowV;

    open spec fn view(&self) -> ActionRowV {
        ActionRowV {
            id: self.id,
            hand_id: self.hand_id@,
            player_name: self.player_name@,
            action_type: self.action_type@,
            amount: self.amount,
            is_all_in: self.is_all_in,
            street: self.street@,
        }
    }
}

impl DeepView for Action {
    type V = ActionRowV;

    open spec fn deep_view(&self) -> ActionRowV {
        self.view()
    }
}

// ------------------------------------------------------------------
// Textual forms of the string-typed columns.
// ------------------------------------------------------------------

/// The `street` column value for a street kind.
pub open spec fn street_chars(st: parser::StreetType) -> Seq<char> {
    match st {
        parser::StreetType::Preflop => "preflop"@,
        parser::StreetType::Flop => "flop"@,
        parser::StreetType::Turn => "turn"@,
        parser::StreetType::River => "river"@,
        parser::StreetType::Showdown => "showdown"@,
    }
}

/// The `action_type` column value for an action kind.
pub open spec fn action_type_chars(a: parser::ActionType) -> Seq<char> {
    match a {
        parser::ActionType::Bet { .. } => "bet"@,
        parser::ActionType::Call { .. } => "call"@,
        parser::ActionType::Check => "check"@,
        parser::ActionType::Fold => "fold"@,
        parser::ActionType::Post(..) => "post"@,
        parser::ActionType::Raise { .. } => "raise"@,
        parser::ActionType::Collect => "collect"@,
        parser::ActionType::Shows => "shows"@,
    }
}

/// The `amount` column value for an action kind: bets, calls and raises
/// carry their amount, everything else none.
pub open spec fn action_amount(a: parser::ActionType) -> Option<AmountType> {
    match a {
        parser::ActionType::Bet { amount } => Some(amount),
        parser::ActionType::Call { amount } => Some(amount),
        parser::ActionType::Raise { to_call, amount } => Some(amount),
        _ => None,
    }
}

impl parser::StreetType {
    /// The `street` column value.
    pub fn to_string(&self) -> (r: String)
        ensures
            r@ == street_chars(*self),
    {
        match self {
            parser::StreetType::Preflop => String::from_str("preflop"),
            parser::StreetType::Flop => String::from_str("flop"),
            parser::StreetType::Turn => String::from_str("turn"),
            parser::StreetType::River => String::from_str("river"),
            parser::StreetType::Showdown => String::from_str("showdown"),
        }
    }
}

impl parser::ActionType {
    /// The `action_type` column value.
    pub fn to_string(&self) -> (r: String)
        ensures
            r@ == action_type_chars(*self),
    {
        match self {
            parser::ActionType::Bet { .. } => String::from_str("bet"),
            parser::ActionType::Call { .. } => String::from_str("call"),
            parser::ActionType::Check => String::from_str("check"),
            parser::ActionType::Fold => String::from_str("fold"),
            parser::ActionType::Post(..) => String::from_str("post"),
            parser::ActionType::Raise { .. } => String::from_str("raise"),
            parser::ActionType::Collect => String::from_str("collect"),
            parser::ActionType::Shows => String::from_str("shows"),
        }
    }
}

// ------------------------------------------------------------------
// From a parsed hand to rows.
// ------------------------------------------------------------------

/// The board card at position `n` of a parsed hand's summary, as the
/// nullable `flop1..river` columns hold it.
pub open spec fn board_card(h: HandV, n: int) -> Option<Seq<char>> {
    match h.summary.board {
        None => None,
        Some(b) => if 0 <= n < b.cards.len() {
            Some(card_chars(b.cards[n]))
        } else {
            None
        },
    }
}

/// The `hands` row a parsed hand maps to.
pub open spec fn hand_row_of(h: HandV) -> HandRowV {
    HandRowV {
        id: h.hand_info.hand_id,
        hole_card_1: card_chars(h.dealt_cards.hole_cards.card1),
        hole_card_2: card_chars(h.dealt_cards.hole_cards.card2),
        tournament_id: match h.table_info.table_name {
            parser::TableNameV::Tournament(_, tid, _) => Some(tid),
            parser::TableNameV::CashGame(_) => None,
        },
        cash_game_name: match h.table_info.table_name {
            parser::TableNameV::CashGame(name) => Some(name),
            parser::TableNameV::Tournament(..) => None,
        },
        datetime: h.hand_info.datetime,
        button: h.table_info.button,
        max_players: h.table_info.max_players,
        hero: h.dealt_cards.player_name,
        ante: h.hand_info.blinds.ante,
        small_blind: h.hand_info.blinds.small_blind,
        big_blind: h.hand_info.blinds.big_blind,
        pot: h.summary.pot,
        rake: h.summary.rake,
        flop1: board_card(h, 0),
        flop2: board_card(h, 1),
        flop3: board_card(h, 2),
        turn: board_card(h, 3),
        river: board_card(h, 4),
    }
}

/// The first summary player with the given name, if any.
pub open spec fn summary_player_for(players: Seq<SummaryPlayerV>, name: Seq<char>) -> Option<
    SummaryPlayerV>
    decreases players.len(),
{
    if players.len() == 0 {
        None
    } else if players[0].name == name {
        Some(players[0])
    } else {
        summary_player_for(players.skip(1), name)
    }
}

/// The shown cards the summary attributes to a player, split into the two
/// nullable card columns.
pub open spec fn summary_cards_for(players: Seq<SummaryPlayerV>, name: Seq<char>) -> (Option<
    Seq<char>>, Option<Seq<char>>) {
    match summary_player_for(players, name) {
        None => (None, None),
        Some(p) => match p.hole_cards {
            None => (None, None),
            Some(hc) => (Some(card_chars(hc.card1)), Some(card_chars(hc.card2))),
        },
    }
}

/// The `seats` row a parsed seat maps to, within its hand.
pub open spec fn seat_row_of(h: HandV, seat: SeatV) -> SeatRowV {
    let (card1, card2) = summary_cards_for(h.summary.players, seat.player_name);
    SeatRowV {
        hand_id: h.hand_info.hand_id,
        player_name: seat.player_name,
        seat_number: seat.seat_number,
        stack: seat.stack,
        bounty: seat.bounty,
        card1,
        card2,
    }
}

/// The data of an `actions` row before an id is assigned.
pub ghost struct ActionDataV {
    pub hand_id: Seq<char>,
    pub player_name: Seq<char>,
    pub action_type: Seq<char>,
    pub amount: Option<AmountType>,
    pub is_all_in: bool,
    pub street: Seq<char>,
}

/// The action rows of one street, in order; `Shows` lines are dropped.
pub open spec fn street_action_rows(hand_id: Seq<char>, street: Seq<char>, actions: Seq<ActionV>)
    -> Seq<ActionDataV>
    decreases actions.len(),
{
    if actions.len() == 0 {
        Seq::empty()
    } else {
        let head = actions[0];
        let rest = street_action_rows(hand_id, street, actions.skip(1));
        if head.action is Shows {
            rest
        } else {
            seq![
                ActionDataV {
                    hand_id,
                    player_name: head.player_name,
                    action_type: action_type_chars(head.action),
                    amount: action_amount(head.action),
                    is_all_in: head.is_all_in,
                    street,
                },
            ] + rest
        }
    }
}

/// The action rows of a parsed hand's streets, in street order.
pub open spec fn hand_action_rows(id: Seq<char>, streets: Seq<StreetV>) -> Seq<ActionDataV>
    decreases streets.len(),
{
    if streets.len() == 0 {
        Seq::empty()
    } else {
        street_action_rows(id, street_chars(streets[0].street_type), streets[0].actions)
            + hand_action_rows(id, streets.skip(1))
    }
}

} // verus!

verus! {

// ------------------------------------------------------------------
// The store.
// ------------------------------------------------------------------

/// The store's mathematical content: the four tables, each a sequence of
/// rows in insertion order.
pub ghost struct StoreV {
    pub summaries: Seq<SummaryRowV>,
    pub hands: Seq<HandRowV>,
    pub seats: Seq<SeatRowV>,
    pub actions: Seq<ActionRowV>,
}

/// The local store: four tables of typed rows, idempotently upserted.
pub struct Store {
    summaries: Vec<Summary>,
    hands: Vec<Hand>,
    seats: Vec<Seat>,
    actions: Vec<Action>,
}

impl View for Store {
    type V = StoreV;

    closed spec fn view(&self) -> StoreV {
        StoreV {
            summaries: self.summaries.deep_view(),
            hands: self.hands.deep_view(),
            seats: self.seats.deep_view(),
            actions: self.actions.deep_view(),
        }
    }
}

/// Whether a hand with this id is present.
pub open spec fn has_hand(hands: Seq<HandRowV>, id: Seq<char>) -> bool {
    exists|k: int| 0 <= k < hands.len() && hands[k].id == id
}

/// Whether a summary with this tournament id is present.
pub open spec fn has_summary(summaries: Seq<SummaryRowV>, id: u32) -> bool {
    exists|k: int| 0 <= k < summaries.len() && summaries[k].id == id
}

/// Whether a seat row with this key is present.
pub open spec fn has_seat(seats: Seq<SeatRowV>, hand_id: Seq<char>, seat_number: u32) -> bool {
    exists|k: int|
        0 <= k < seats.len() && seats[k].hand_id == hand_id && seats[k].seat_number == seat_number
}

impl StoreV {
    /// The store's well-formedness: keys are unique and child rows refer to
    /// existing hands.
    pub open spec fn wf(self) -> bool {
        &&& (forall|k1: int, k2: int|
            0 <= k1 < k2 < self.hands.len() ==> self.hands[k1].id != self.hands[k2].id)
        &&& (forall|k1: int, k2: int|
            0 <= k1 < k2 < self.summaries.len() ==> self.summaries[k1].id
                != self.summaries[k2].id)
        &&& (forall|k1: int, k2: int|
            0 <= k1 < k2 < self.seats.len() ==> !(self.seats[k1].hand_id == self.seats[k2].hand_id
                && self.seats[k1].seat_number == self.seats[k2].seat_number))
        &&& (forall|k: int|
            0 <= k < self.seats.len() ==> has_hand(self.hands, self.seats[k].hand_id))
        &&& (forall|k: int|
            0 <= k < self.actions.len() ==> has_hand(self.hands, self.actions[k].hand_id))
    }

    /// An empty store.
    pub open spec fn empty() -> StoreV {
        StoreV {
            summaries: Seq::empty(),
            hands: Seq::empty(),
            seats: Seq::empty(),
            actions: Seq::empty(),
        }
    }
}

/// The `summaries` row a parsed tournament summary maps to.
pub open spec fn summary_row_of(ts: crate::summary_parser::TournamentSummaryV) -> SummaryRowV {
    SummaryRowV {
        id: ts.id,
        name: ts.name,
        finish_place: ts.finish_place,
        buyin: ts.buy_in.buy_in,
        date: ts.date,
        play_time: ts.play_time,
        entries: ts.entries,
        mode: ts.mode,
        tournament_type: tournament_type_chars(ts.tournament_type),
        speed: ts.speed,
        won: ts.won,
    }
}

/// Inserting a tournament summary: a new row unless its id is present.
pub open spec fn spec_insert_summary(store: StoreV, ts: crate::summary_parser::TournamentSummaryV)
    -> (StoreV, int) {
    if has_summary(store.summaries, ts.id) {
        (store, 0)
    } else {
        (StoreV { summaries: store.summaries + seq![summary_row_of(ts)], ..store }, 1)
    }
}

/// Inserting a hand's seat rows in order, skipping any whose key is already
/// present.
pub open spec fn insert_seats(existing: Seq<SeatRowV>, h: HandV, seats: Seq<SeatV>) -> Seq<
    SeatRowV>
    decreases seats.len(),
{
    if seats.len() == 0 {
        existing
    } else {
        let row = seat_row_of(h, seats[0]);
        let next = if has_seat(existing, row.hand_id, row.seat_number) {
            existing
        } else {
            existing + seq![row]
        };
        insert_seats(next, h, seats.skip(1))
    }
}

/// Appending action rows in order; each takes its position as its id.
pub open spec fn append_actions(existing: Seq<ActionRowV>, data: Seq<ActionDataV>) -> Seq<
    ActionRowV>
    decreases data.len(),
{
    if data.len() == 0 {
        existing
    } else {
        let row = ActionRowV {
            id: existing.len() as usize,
            hand_id: data[0].hand_id,
            player_name: data[0].player_name,
            action_type: data[0].action_type,
            amount: data[0].amount,
            is_all_in: data[0].is_all_in,
            street: data[0].street,
        };
        append_actions(existing + seq![row], data.skip(1))
    }
}

/// Appending a concatenation of action rows appends each part in turn.
pub proof fn lemma_append_actions_concat(existing: Seq<ActionRowV>, a: Seq<ActionDataV>, b: Seq<
    ActionDataV>)
    ensures
        append_actions(existing, a + b) == append_actions(append_actions(existing, a), b),
    decreases a.len(),
{
    if a.len() == 0 {
        assert(a + b =~= b);
    } else {
        let row = ActionRowV {
            id: existing.len() as usize,
            hand_id: a[0].hand_id,
            player_name: a[0].player_name,
            action_type: a[0].action_type,
            amount: a[0].amount,
            is_all_in: a[0].is_all_in,
            street: a[0].street,
        };
        assert((a + b)[0] == a[0]);
        assert((a + b).skip(1) =~= a.skip(1) + b);
        lemma_append_actions_concat(existing + seq![row], a.skip(1), b);
    }
}

/// Inserting one fresh hand: its row, its seat rows, and its action rows.
pub open spec fn spec_insert_one(store: StoreV, h: HandV) -> StoreV {
    StoreV {
        summaries: store.summaries,
        hands: store.hands + seq![hand_row_of(h)],
        seats: insert_seats(store.seats, h, h.seats),
        actions: append_actions(store.actions, hand_action_rows(h.hand_info.hand_id, h.streets)),
    }
}

/// Inserting a list of parsed hands in order: a hand whose id is already
/// present is skipped whole — neither its seats nor its actions are touched —
/// and the count of newly inserted hands is returned.
pub open spec fn spec_insert_hands(store: StoreV, hands: Seq<HandV>) -> (StoreV, int)
    decreases hands.len(),
{
    if hands.len() == 0 {
        (store, 0int)
    } else {
        let h = hands[0];
        let (store1, n1) = if has_hand(store.hands, h.hand_info.hand_id) {
            (store, 0int)
        } else {
            (spec_insert_one(store, h), 1int)
        };
        let (store2, rest) = spec_insert_hands(store1, hands.skip(1));
        (store2, n1 + rest)
    }
}

} // verus!

verus! {

/// Finds the first summary player with the given name and splits their shown
/// cards into the two card columns.
fn summary_cards(players: &Vec<parser::SummaryPlayer>, name: &String) -> (r: (Option<String>,
    Option<String>))
    ensures
        (r.0.deep_view(), r.1.deep_view()) == summary_cards_for(players.deep_view(), name@),
{
    let ghost full = players.deep_view();
    let mut k: usize = 0;
    proof {
        assert(players.deep_view().skip(0) =~= players.deep_view());
    }
    loop
        invariant
            0 <= k <= players.len(),
            full == players.deep_view(),
            summary_player_for(full, name@) == summary_player_for(
                players.deep_view().skip(k as int),
                name@,
            ),
        decreases players.len() - k,
    {
        if k == players.len() {
            proof {
                assert(players.deep_view().skip(k as int) =~= Seq::<SummaryPlayerV>::empty());
            }
            return (None, None);
        }
        proof {
            assert(players.deep_view().skip(k as int)[0] == players[k as int]@);
            assert(players.deep_view().skip(k as int).skip(1) =~= players.deep_view().skip(
                k + 1,
            ));
        }
        if players[k].name == *name {
            match &players[k].hole_cards {
                Some(hc) => {
                    return (Some(hc.card1.to_string()), Some(hc.card2.to_string()));
                },
                None => {
                    return (None, None);
                },
            }
        }
        k = k + 1;
    }
}

/// The nullable board-card column at position `n` for a parsed hand.
fn board_card_at(h: &parser::Hand, n: usize) -> (r: Option<String>)
    ensures
        r.deep_view() == board_card(h@, n as int),
{
    match &h.summary.board {
        None => None,
        Some(b) => {
            if n < b.cards.len() {
                Some(b.cards[n].to_string())
            } else {
                None
            }
        },
    }
}

/// Builds the `hands` row of a parsed hand.
fn hand_to_row(h: &parser::Hand) -> (r: Hand)
    ensures
        r@ == hand_row_of(h@),
{
    Hand {
        id: h.hand_info.hand_id.clone(),
        hole_card_1: h.dealt_cards.hole_cards.card1.to_string(),
        hole_card_2: h.dealt_cards.hole_cards.card2.to_string(),
        tournament_id: match &h.table_info.table_name {
            parser::TableName::Tournament(_, tid, _) => Some(*tid),
            parser::TableName::CashGame(_) => None,
        },
        cash_game_name: match &h.table_info.table_name {
            parser::TableName::CashGame(name) => Some(name.clone()),
            parser::TableName::Tournament(..) => None,
        },
        datetime: h.hand_info.datetime.clone(),
        button: h.table_info.button,
        max_players: h.table_info.max_players,
        hero: h.dealt_cards.player_name.clone(),
        ante: h.hand_info.blinds.ante,
        small_blind: h.hand_info.blinds.small_blind,
        big_blind: h.hand_info.blinds.big_blind,
        pot: h.summary.pot,
        rake: h.summary.rake,
        flop1: board_card_at(h, 0),
        flop2: board_card_at(h, 1),
        flop3: board_card_at(h, 2),
        turn: board_card_at(h, 3),
        river: board_card_at(h, 4),
    }
}

/// Builds the `seats` row of one parsed seat.
fn seat_to_row(h: &parser::Hand, seat: &parser::Seat) -> (r: Seat)
    ensures
        r@ == seat_row_of(h@, seat@),
{
    let (card1, card2) = summary_cards(&h.summary.players, &seat.player_name);
    Seat {
        hand_id: h.hand_info.hand_id.clone(),
        player_name: seat.player_name.clone(),
        seat_number: seat.seat_number,
        stack: seat.stack,
        bounty: seat.bounty,
        card1,
        card2,
    }
}

impl Store {
    /// An empty store, as opening a fresh database yields.
    pub fn new() -> (r: Store)
        ensures
            r@ == StoreV::empty(),
            r@.wf(),
    {
        let r = Store { summaries: Vec::new(), hands: Vec::new(), seats: Vec::new(),
            actions: Vec::new() };
        proof {
            assert(r@.summaries =~= Seq::<SummaryRowV>::empty());
            assert(r@.hands =~= Seq::<HandRowV>::empty());
            assert(r@.seats =~= Seq::<SeatRowV>::empty());
            assert(r@.actions =~= Seq::<ActionRowV>::empty());
        }
        r
    }

    /// Whether a hand with this id has been persisted.
    pub fn contains_hand(&self, id: &String) -> (r: bool)
        ensures
            r == has_hand(self@.hands, id@),
    {
        let mut k: usize = 0;
        loop
            invariant
                0 <= k <= self.hands.len(),
                forall|m: int| 0 <= m < k ==> self.hands.deep_view()[m].id != id@,
            decreases self.hands.len() - k,
        {
            if k == self.hands.len() {
                return false;
            }
            if self.hands[k].id == *id {
                proof {
                    assert(self@.hands[k as int].id == id@);
                }
                return true;
            }
            k = k + 1;
        }
    }

    /// Whether a seat row with this key is present.
    fn contains_seat(&self, hand_id: &String, seat_number: u32) -> (r: bool)
        ensures
            r == has_seat(self@.seats, hand_id@, seat_number),
    {
        let mut k: usize = 0;
        loop
            invariant
                0 <= k <= self.seats.len(),
                forall|m: int|
                    0 <= m < k ==> !(self.seats.deep_view()[m].hand_id == hand_id@
                        && self.seats.deep_view()[m].seat_number == seat_number),
            decreases self.seats.len() - k,
        {
            if k == self.seats.len() {
                return false;
            }
            if self.seats[k].hand_id == *hand_id && self.seats[k].seat_number == seat_number {
                proof {
                    assert(self@.seats[k as int].hand_id == hand_id@);
                }
                return true;
            }
            k = k + 1;
        }
    }

    /// Inserts a parsed tournament summary unless its id is already present.
    /// Returns the number of rows added: one for a new id, zero otherwise.
    pub fn insert_summary(&mut self, summary: TournamentSummary) -> (r: usize)
        ensures
            (final(self)@, r as int) == spec_insert_summary(old(self)@, summary@),
    {
        let mut k: usize = 0;
        loop
            invariant
                0 <= k <= self.summaries.len(),
                self == old(self),
                forall|m: int| 0 <= m < k ==> self.summaries.deep_view()[m].id != summary.id,
            ensures
                self == old(self),
                !has_summary(self@.summaries, summary.id),
            decreases self.summaries.len() - k,
        {
            if k == self.summaries.len() {
                break;
            }
            if self.summaries[k].id == summary.id {
                proof {
                    assert(self@.summaries[k as int].id == summary@.id);
                }
                return 0;
            }
            k = k + 1;
        }
        let row = Summary {
            id: summary.id,
            name: summary.name,
            finish_place: summary.finish_place,
            buyin: summary.buy_in.buy_in,
            date: summary.date,
            play_time: summary.play_time,
            entries: summary.entries,
            mode: summary.mode,
            tournament_type: summary.tournament_type.to_string(),
            speed: summary.speed,
            won: summary.won,
        };
        let ghost old_rows = self@.summaries;
        self.summaries.push(row);
        proof {
            assert(self@.summaries =~= old_rows + seq![summary_row_of(summary@)]);
        }
        1
    }

    /// Inserts one hand whose id is not yet present: its row, its seat rows
    /// (each skipped when its key is already there), and its action rows.
    fn insert_one_hand(&mut self, h: &parser::Hand)
        ensures
            final(self)@ == spec_insert_one(old(self)@, h@),
    {
        let row = hand_to_row(h);
        let ghost hands0 = self@.hands;
        self.hands.push(row);
        proof {
            assert(self@.hands =~= hands0 + seq![hand_row_of(h@)]);
        }
        let ghost seats0 = self@.seats;
        let mut k: usize = 0;
        proof {
            assert(h@.seats.skip(0) =~= h@.seats);
        }
        loop
            invariant
                0 <= k <= h.seats.len(),
                self@.hands == hands0 + seq![hand_row_of(h@)],
                self@.summaries == old(self)@.summaries,
                self@.actions == old(self)@.actions,
                insert_seats(seats0, h@, h@.seats) == insert_seats(
                    self@.seats,
                    h@,
                    h@.seats.skip(k as int),
                ),
            ensures
                self@.hands == hands0 + seq![hand_row_of(h@)],
                self@.summaries == old(self)@.summaries,
                self@.actions == old(self)@.actions,
                self@.seats == insert_seats(seats0, h@, h@.seats),
            decreases h.seats.len() - k,
        {
            if k == h.seats.len() {
                proof {
                    assert(h@.seats.skip(k as int) =~= Seq::<SeatV>::empty());
                }
                break;
            }
            proof {
                assert(h@.seats.skip(k as int)[0] == h.seats[k as int]@);
                assert(h@.seats.skip(k as int).skip(1) =~= h@.seats.skip(k + 1));
            }
            let srow = seat_to_row(h, &h.seats[k]);
            if !self.contains_seat(&srow.hand_id, srow.seat_number) {
                let ghost cur = self@.seats;
                self.seats.push(srow);
                proof {
                    assert(self@.seats =~= cur + seq![seat_row_of(h@, h.seats[k as int]@)]);
                }
            }
            k = k + 1;
        }
        let ghost actions0 = self@.actions;
        let ghost hid = h@.hand_info.hand_id;
        let mut si: usize = 0;
        proof {
            assert(h@.streets.skip(0) =~= h@.streets);
        }
        loop
            invariant
                0 <= si <= h.streets.len(),
                hid == h@.hand_info.hand_id,
                self@.hands == hands0 + seq![hand_row_of(h@)],
                self@.summaries == old(self)@.summaries,
                self@.seats == insert_seats(seats0, h@, h@.seats),
                append_actions(actions0, hand_action_rows(hid, h@.streets)) == append_actions(
                    self@.actions,
                    hand_action_rows(hid, h@.streets.skip(si as int)),
                ),
            ensures
                self@.hands == hands0 + seq![hand_row_of(h@)],
                self@.summaries == old(self)@.summaries,
                self@.seats == insert_seats(seats0, h@, h@.seats),
                self@.actions == append_actions(actions0, hand_action_rows(hid, h@.streets)),
            decreases h.streets.len() - si,
        {
            if si == h.streets.len() {
                proof {
                    assert(h@.streets.skip(si as int) =~= Seq::<StreetV>::empty());
                }
                break;
            }
            proof {
                assert(h@.streets.skip(si as int)[0] == h.streets[si as int]@);
                assert(h@.streets.skip(si as int).skip(1) =~= h@.streets.skip(si + 1));
            }
            let street = &h.streets[si];
            let street_name = street.street_type.to_string();
            let ghost sdata = street_action_rows(
                hid,
                street_chars(h.streets[si as int].street_type),
                h@.streets[si as int].actions,
            );
            proof {
                assert(hand_action_rows(hid, h@.streets.skip(si as int)) =~= sdata
                    + hand_action_rows(hid, h@.streets.skip(si + 1)));
                lemma_append_actions_concat(
                    self@.actions,
                    sdata,
                    hand_action_rows(hid, h@.streets.skip(si + 1)),
                );
            }
            let ghost inner0 = self@.actions;
            let mut ai: usize = 0;
            proof {
                assert(h@.streets[si as int].actions.skip(0) =~= h@.streets[si as int].actions);
            }
            loop
                invariant
                    0 <= ai <= street.actions.len(),
                    hid == h@.hand_info.hand_id,
                    street@ == h@.streets[si as int],
                    street.actions.deep_view() == h@.streets[si as int].actions,
                    street_name@ == street_chars(h.streets[si as int].street_type),
                    self@.hands == hands0 + seq![hand_row_of(h@)],
                    self@.summaries == old(self)@.summaries,
                    self@.seats == insert_seats(seats0, h@, h@.seats),
                    append_actions(inner0, sdata) == append_actions(
                        self@.actions,
                        street_action_rows(
                            hid,
                            street_chars(h.streets[si as int].street_type),
                            h@.streets[si as int].actions.skip(ai as int),
                        ),
                    ),
                ensures
                    self@.hands == hands0 + seq![hand_row_of(h@)],
                    self@.summaries == old(self)@.summaries,
                    self@.seats == insert_seats(seats0, h@, h@.seats),
                    self@.actions == append_actions(inner0, sdata),
                decreases street.actions.len() - ai,
            {
                if ai == street.actions.len() {
                    proof {
                        assert(h@.streets[si as int].actions.skip(ai as int) =~= Seq::<
                            ActionV,
                        >::empty());
                    }
                    break;
                }
                proof {
                    assert(h@.streets[si as int].actions.skip(ai as int)[0]
                        == street.actions[ai as int]@);
                    assert(h@.streets[si as int].actions.skip(ai as int).skip(1)
                        =~= h@.streets[si as int].actions.skip(ai + 1));
                }
                let action = &street.actions[ai];
                match action.action {
                    parser::ActionType::Shows => {
                    },
                    _ => {
                        let next_id = self.actions.len();
                        let arow = Action {
                            id: next_id,
                            hand_id: h.hand_info.hand_id.clone(),
                            player_name: action.player_name.clone(),
                            action_type: action.action.to_string(),
                            amount: match action.action {
                                parser::ActionType::Bet { amount } => Some(amount),
                                parser::ActionType::Call { amount } => Some(amount),
                                parser::ActionType::Raise { to_call: _, amount } => Some(amount),
                                _ => None,
                            },
                            is_all_in: action.is_all_in,
                            street: street_name.clone(),
                        };
                        let ghost cur = self@.actions;
                        let ghost arow_v = arow@;
                        self.actions.push(arow);
                        proof {
                            let stname = street_chars(h.streets[si as int].street_type);
                            let remaining = h@.streets[si as int].actions.skip(ai as int);
                            let data = street_action_rows(hid, stname, remaining);
                            let head = remaining[0];
                            assert(self@.actions =~= cur + seq![arow_v]);
                            assert(cur.len() == next_id as int);
                            assert(data[0] == (ActionDataV {
                                hand_id: hid,
                                player_name: head.player_name,
                                action_type: action_type_chars(head.action),
                                amount: action_amount(head.action),
                                is_all_in: head.is_all_in,
                                street: stname,
                            }));
                            assert(data.skip(1) =~= street_action_rows(
                                hid,
                                stname,
                                h@.streets[si as int].actions.skip(ai + 1),
                            ));
                            assert(arow_v.id == cur.len() as usize);
                            assert(arow_v.hand_id == data[0].hand_id);
                            assert(arow_v.player_name == data[0].player_name);
                            assert(arow_v.action_type == data[0].action_type);
                            assert(arow_v.amount == data[0].amount);
                            assert(arow_v.is_all_in == data[0].is_all_in);
                            assert(arow_v.street == data[0].street);
                            assert(arow_v == (ActionRowV {
                                id: cur.len() as usize,
                                hand_id: data[0].hand_id,
                                player_name: data[0].player_name,
                                action_type: data[0].action_type,
                                amount: data[0].amount,
                                is_all_in: data[0].is_all_in,
                                street: data[0].street,
                            }));
                            assert(append_actions(cur, data) == append_actions(
                                cur + seq![arow_v],
                                data.skip(1),
                            ));
                        }
                    },
                }
                ai = ai + 1;
            }
            si = si + 1;
        }
    }

    /// Runs the idempotent upsert over a list of parsed hands, in order,
    /// inside what amounts to one transaction: a hand whose id is already
    /// present is skipped whole, and the count of newly inserted hands is
    /// returned.
    pub fn insert_hands(&mut self, hands_vec: &Vec<parser::Hand>) -> (r: usize)
        ensures
            (final(self)@, r as int) == spec_insert_hands(old(self)@, hands_vec.deep_view()),
    {
        let mut count: usize = 0;
        let mut k: usize = 0;
        proof {
            assert(hands_vec.deep_view().skip(0) =~= hands_vec.deep_view());
        }
        loop
            invariant
                0 <= k <= hands_vec.len(),
                count <= k,
                spec_insert_hands(old(self)@, hands_vec.deep_view()) == {
                    let (s2, n2) = spec_insert_hands(
                        self@,
                        hands_vec.deep_view().skip(k as int),
                    );
                    (s2, count + n2)
                },
            ensures
                spec_insert_hands(old(self)@, hands_vec.deep_view()) == (self@, count as int),
            decreases hands_vec.len() - k,
        {
            if k == hands_vec.len() {
                proof {
                    assert(hands_vec.deep_view().skip(k as int) =~= Seq::<HandV>::empty());
                }
                break;
            }
            proof {
                assert(hands_vec.deep_view().skip(k as int)[0] == hands_vec[k as int]@);
                assert(hands_vec.deep_view().skip(k as int).skip(1) =~= hands_vec.deep_view().skip(
                    k + 1,
                ));
            }
            let h = &hands_vec[k];
            if !self.contains_hand(&h.hand_info.hand_id) {
                self.insert_one_hand(h);
                count = count + 1;
            }
            k = k + 1;
        }
        count
    }
}

} // verus!

verus! {

/// Clones an optional string.
fn clone_opt_string(s: &Option<String>) -> (r: Option<String>)
    ensures
        r == *s,
{
    match s {
        Some(v) => Some(v.clone()),
        None => None,
    }
}

impl Clone for Summary {
    /// An exact copy of the row.
    fn clone(&self) -> (r: Summary)
        ensures
            r == *self,
    {
        Summary {
            id: self.id,
            name: self.name.clone(),
            finish_place: self.finish_place,
            buyin: self.buyin,
            date: self.date.clone(),
            play_time: self.play_time.clone(),
            entries: self.entries,
            mode: self.mode.clone(),
            tournament_type: self.tournament_type.clone(),
            speed: self.speed.clone(),
            won: self.won,
        }
    }
}

impl Clone for Hand {
    /// An exact copy of the row.
    fn clone(&self) -> (r: Hand)
        ensures
            r == *self,
    {
        Hand {
            id: self.id.clone(),
            hole_card_1: self.hole_card_1.clone(),
            hole_card_2: self.hole_card_2.clone(),
            tournament_id: self.tournament_id,
            cash_game_name: clone_opt_string(&self.cash_game_name),
            datetime: self.datetime.clone(),
            button: self.button,
            max_players: self.max_players,
            hero: self.hero.clone(),
            ante: self.ante,
            small_blind: self.small_blind,
            big_blind: self.big_blind,
            pot: self.pot,
            rake: self.rake,
            flop1: clone_opt_string(&self.flop1),
            flop2: clone_opt_string(&self.flop2),
            flop3: clone_opt_string(&self.flop3),
            turn: clone_opt_string(&self.turn),
            river: clone_opt_string(&self.river),
        }
    }
}

impl Clone for Seat {
    /// An exact copy of the row.
    fn clone(&self) -> (r: Seat)
        ensures
            r == *self,
    {
        Seat {
            hand_id: self.hand_id.clone(),
            player_name: self.player_name.clone(),
            seat_number: self.seat_number,
            stack: self.stack,
            bounty: self.bounty,
            card1: clone_opt_string(&self.card1),
            card2: clone_opt_string(&self.card2),
        }
    }
}

impl Clone for Action {
    /// An exact copy of the row.
    fn clone(&self) -> (r: Action)
        ensures
            r == *self,
    {
        Action {
            id: self.id,
            hand_id: self.hand_id.clone(),
            player_name: self.player_name.clone(),
            action_type: self.action_type.clone(),
            amount: self.amount,
            is_all_in: self.is_all_in,
            street: self.street.clone(),
        }
    }
}

// ------------------------------------------------------------------
// The read surface.
// ------------------------------------------------------------------

/// A distinct player seen in the seats table.
#[derive(Debug, PartialEq, Eq, PartialOrd, Clone, Hash)]
pub struct Player {
    pub name: String,
}

impl View for Player {
    type V = Seq<char>;

    open spec fn view(&self) -> Seq<char> {
        self.name@
    }
}

impl DeepView for Player {
    type V = Seq<char>;

    open spec fn deep_view(&self) -> Seq<char> {
        self.name@
    }
}

/// A player at a table, with their seat number, resolved against the most
/// recent hand there.
#[derive(Debug, PartialEq, Eq, PartialOrd, Clone, Hash)]
pub struct TablePlayer {
    pub name: String,
    pub seat_number: u32,
}

/// Spec-level mirror of `TablePlayer`.
pub ghost struct TablePlayerV {
    pub name: Seq<char>,
    pub seat_number: u32,
}

impl View for TablePlayer {
    type V = TablePlayerV;

    open spec fn view(&self) -> TablePlayerV {
        TablePlayerV { name: self.name@, seat_number: self.seat_number }
    }
}

impl DeepView for TablePlayer {
    type V = TablePlayerV;

    open spec fn deep_view(&self) -> TablePlayerV {
        self.view()
    }
}

/// The hands rows whose tournament id is `id`, in insertion order.
pub open spec fn hands_for_tournament(hands: Seq<HandRowV>, id: u32) -> Seq<HandRowV>
    decreases hands.len(),
{
    if hands.len() == 0 {
        Seq::empty()
    } else {
        let rest = hands_for_tournament(hands.skip(1), id);
        if hands[0].tournament_id == Some(id) {
            seq![hands[0]] + rest
        } else {
            rest
        }
    }
}

/// The actions rows of one hand, in insertion order.
pub open spec fn actions_for(actions: Seq<ActionRowV>, hand_id: Seq<char>) -> Seq<ActionRowV>
    decreases actions.len(),
{
    if actions.len() == 0 {
        Seq::empty()
    } else {
        let rest = actions_for(actions.skip(1), hand_id);
        if actions[0].hand_id == hand_id {
            seq![actions[0]] + rest
        } else {
            rest
        }
    }
}

/// The actions rows of one hand with the `collect` rows hidden, as the
/// consumer-facing action list shows them.
pub open spec fn actions_for_hand_visible(actions: Seq<ActionRowV>, hand_id: Seq<char>) -> Seq<
    ActionRowV>
    decreases actions.len(),
{
    if actions.len() == 0 {
        Seq::empty()
    } else {
        let rest = actions_for_hand_visible(actions.skip(1), hand_id);
        if actions[0].hand_id == hand_id && actions[0].action_type != "collect"@ {
            seq![actions[0]] + rest
        } else {
            rest
        }
    }
}

/// The actions rows of one player, across all hands, in insertion order.
pub open spec fn actions_for_player(actions: Seq<ActionRowV>, name: Seq<char>) -> Seq<ActionRowV>
    decreases actions.len(),
{
    if actions.len() == 0 {
        Seq::empty()
    } else {
        let rest = actions_for_player(actions.skip(1), name);
        if actions[0].player_name == name {
            seq![actions[0]] + rest
        } else {
            rest
        }
    }
}

/// The seats rows of one hand, in insertion order.
pub open spec fn seats_for(seats: Seq<SeatRowV>, hand_id: Seq<char>) -> Seq<SeatRowV>
    decreases seats.len(),
{
    if seats.len() == 0 {
        Seq::empty()
    } else {
        let rest = seats_for(seats.skip(1), hand_id);
        if seats[0].hand_id == hand_id {
            seq![seats[0]] + rest
        } else {
            rest
        }
    }
}

/// Whether a player has a seat in the given hand.
pub open spec fn player_in_hand(seats: Seq<SeatRowV>, hand_id: Seq<char>, name: Seq<char>)
    -> bool {
    exists|k: int|
        0 <= k < seats.len() && seats[k].hand_id == hand_id && seats[k].player_name == name
}

/// The hands a player sat in, in insertion order.
pub open spec fn hands_for_player(hands: Seq<HandRowV>, seats: Seq<SeatRowV>, name: Seq<char>)
    -> Seq<HandRowV>
    decreases hands.len(),
{
    if hands.len() == 0 {
        Seq::empty()
    } else {
        let rest = hands_for_player(hands.skip(1), seats, name);
        if player_in_hand(seats, hands[0].id, name) {
            seq![hands[0]] + rest
        } else {
            rest
        }
    }
}

/// Whether a hand row belongs to the addressed table: when a tournament id
/// is given the row must carry it, and when a cash-game name is given the
/// row must carry that.
pub open spec fn matches_table(h: HandRowV, tournament_id: Option<u32>, cash_game_name: Option<
    Seq<char>>) -> bool {
    &&& (tournament_id is Some ==> h.tournament_id == tournament_id)
    &&& (cash_game_name is Some ==> h.cash_game_name == cash_game_name)
}

/// The latest hand at a table among `hands[i..]`: the one with the greatest
/// `datetime` in the lexicographic order, later rows winning ties.
pub open spec fn spec_latest_from(hands: Seq<HandRowV>, tournament_id: Option<u32>,
    cash_game_name: Option<Seq<char>>, i: int) -> Option<HandRowV>
    decreases hands.len() - i,
{
    if !(0 <= i < hands.len()) {
        None
    } else {
        let rest = spec_latest_from(hands, tournament_id, cash_game_name, i + 1);
        if !matches_table(hands[i], tournament_id, cash_game_name) {
            rest
        } else {
            match rest {
                None => Some(hands[i]),
                Some(m) => if crate::text::lex_le(hands[i].datetime, m.datetime) {
                    Some(m)
                } else {
                    Some(hands[i])
                },
            }
        }
    }
}

/// The distinct player names over the seats rows, in first-appearance order,
/// after those already collected.
pub open spec fn collect_players(seats: Seq<SeatRowV>, acc: Seq<Seq<char>>) -> Seq<Seq<char>>
    decreases seats.len(),
{
    if seats.len() == 0 {
        acc
    } else {
        let name = seats[0].player_name;
        let acc2 = if acc.contains(name) {
            acc
        } else {
            acc + seq![name]
        };
        collect_players(seats.skip(1), acc2)
    }
}

/// The players of one hand, as table players.
pub open spec fn table_players_of(seats: Seq<SeatRowV>, hand_id: Seq<char>) -> Seq<TablePlayerV>
    decreases seats.len(),
{
    if seats.len() == 0 {
        Seq::empty()
    } else {
        let rest = table_players_of(seats.skip(1), hand_id);
        if seats[0].hand_id == hand_id {
            seq![TablePlayerV { name: seats[0].player_name, seat_number: seats[0].seat_number }]
                + rest
        } else {
            rest
        }
    }
}

} // verus!

verus! {

impl Store {
    /// Every summaries row, in insertion order.
    pub fn get_summaries(&self) -> (r: Vec<Summary>)
        ensures
            r.deep_view() == self@.summaries,
    {
        let mut r: Vec<Summary> = Vec::new();
        let mut k: usize = 0;
        loop
            invariant
                0 <= k <= self.summaries.len(),
                r.len() == k,
                forall|m: int| 0 <= m < k ==> r.deep_view()[m] == self@.summaries[m],
            ensures
                r.deep_view() =~= self@.summaries,
            decreases self.summaries.len() - k,
        {
            if k == self.summaries.len() {
                break;
            }
            let ghost old_views = r.deep_view();
            r.push(self.summaries[k].clone());
            proof {
                assert(r.deep_view() =~= old_views + seq![self@.summaries[k as int]]);
            }
            k = k + 1;
        }
        r
    }

    /// Every hands row, newest first by datetime.
    pub fn get_hands(&self) -> (r: Vec<Hand>)
        ensures
            r.deep_view() == sort_desc(self@.hands),
    {
        sorted_desc_rows(&self.hands)
    }

    /// The hands of one tournament, newest first by datetime.
    pub fn get_hands_for_tournament(&self, id: u32) -> (r: Vec<Hand>)
        ensures
            r.deep_view() == sort_desc(hands_for_tournament(self@.hands, id)),
    {
        let filtered = self.hands_of_tournament(id);
        sorted_desc_rows(&filtered)
    }

    /// The hands of one tournament, in insertion order.
    fn hands_of_tournament(&self, id: u32) -> (r: Vec<Hand>)
        ensures
            r.deep_view() == hands_for_tournament(self@.hands, id),
    {
        let ghost full = self@.hands;
        let mut r: Vec<Hand> = Vec::new();
        let mut k: usize = 0;
        proof {
            assert(full.skip(0) =~= full);
        }
        loop
            invariant
                0 <= k <= self.hands.len(),
                full == self@.hands,
                hands_for_tournament(full, id) == r.deep_view() + hands_for_tournament(
                    full.skip(k as int),
                    id,
                ),
            ensures
                r.deep_view() == hands_for_tournament(full, id),
            decreases self.hands.len() - k,
        {
            if k == self.hands.len() {
                proof {
                    assert(full.skip(k as int) =~= Seq::<HandRowV>::empty());
                    assert(hands_for_tournament(full, id) =~= r.deep_view());
                }
                break;
            }
            proof {
                assert(full.skip(k as int)[0] == self@.hands[k as int]);
                assert(full.skip(k as int).skip(1) =~= full.skip(k + 1));
            }
            let keep = match self.hands[k].tournament_id {
                Some(t) => t == id,
                None => false,
            };
            if keep {
                let ghost old_views = r.deep_view();
                r.push(self.hands[k].clone());
                proof {
                    assert(r.deep_view() =~= old_views + seq![self@.hands[k as int]]);
                    assert(hands_for_tournament(full.skip(k as int), id) =~= seq![
                        self@.hands[k as int],
                    ] + hands_for_tournament(full.skip(k + 1), id));
                }
            }
            k = k + 1;
        }
        r
    }

    /// The actions of one hand, in insertion order, `collect` rows included.
    pub fn get_actions(&self, hand_id: String) -> (r: Vec<Action>)
        ensures
            r.deep_view() == actions_for(self@.actions, hand_id@),
    {
        let ghost full = self@.actions;
        let mut r: Vec<Action> = Vec::new();
        let mut k: usize = 0;
        proof {
            assert(full.skip(0) =~= full);
        }
        loop
            invariant
                0 <= k <= self.actions.len(),
                full == self@.actions,
                actions_for(full, hand_id@) == r.deep_view() + actions_for(
                    full.skip(k as int),
                    hand_id@,
                ),
            ensures
                r.deep_view() == actions_for(full, hand_id@),
            decreases self.actions.len() - k,
        {
            if k == self.actions.len() {
                proof {
                    assert(full.skip(k as int) =~= Seq::<ActionRowV>::empty());
                    assert(actions_for(full, hand_id@) =~= r.deep_view());
                }
                break;
            }
            proof {
                assert(full.skip(k as int)[0] == self@.actions[k as int]);
                assert(full.skip(k as int).skip(1) =~= full.skip(k + 1));
            }
            if self.actions[k].hand_id == hand_id {
                let ghost old_views = r.deep_view();
                r.push(self.actions[k].clone());
                proof {
                    assert(r.deep_view() =~= old_views + seq![self@.actions[k as int]]);
                    assert(actions_for(full.skip(k as int), hand_id@) =~= seq![
                        self@.actions[k as int],
                    ] + actions_for(full.skip(k + 1), hand_id@));
                }
            }
            k = k + 1;
        }
        r
    }

    /// The actions of one hand as consumers see them: `collect` rows hidden.
    pub fn get_actions_for_hand(&self, hand_id: &str) -> (r: Vec<Action>)
        ensures
            r.deep_view() == actions_for_hand_visible(self@.actions, hand_id@),
    {
        let target: String = hand_id.to_owned();
        let collect_word: String = String::from_str("collect");
        let ghost full = self@.actions;
        let mut r: Vec<Action> = Vec::new();
        let mut k: usize = 0;
        proof {
            assert(full.skip(0) =~= full);
        }
        loop
            invariant
                0 <= k <= self.actions.len(),
                full == self@.actions,
                target@ == hand_id@,
                collect_word@ == "collect"@,
                actions_for_hand_visible(full, hand_id@) == r.deep_view()
                    + actions_for_hand_visible(full.skip(k as int), hand_id@),
            ensures
                r.deep_view() == actions_for_hand_visible(full, hand_id@),
            decreases self.actions.len() - k,
        {
            if k == self.actions.len() {
                proof {
                    assert(full.skip(k as int) =~= Seq::<ActionRowV>::empty());
                    assert(actions_for_hand_visible(full, hand_id@) =~= r.deep_view());
                }
                break;
            }
            proof {
                assert(full.skip(k as int)[0] == self@.actions[k as int]);
                assert(full.skip(k as int).skip(1) =~= full.skip(k + 1));
            }
            if self.actions[k].hand_id == target && !(self.actions[k].action_type
                == collect_word) {
                let ghost old_views = r.deep_view();
                r.push(self.actions[k].clone());
                proof {
                    assert(r.deep_view() =~= old_views + seq![self@.actions[k as int]]);
                    assert(actions_for_hand_visible(full.skip(k as int), hand_id@) =~= seq![
                        self@.actions[k as int],
                    ] + actions_for_hand_visible(full.skip(k + 1), hand_id@));
                }
            }
            k = k + 1;
        }
        r
    }

    /// The actions of one player across all hands, in insertion order.
    pub fn get_actions_for_player(&self, player_name: String) -> (r: Vec<Action>)
        ensures
            r.deep_view() == actions_for_player(self@.actions, player_name@),
    {
        let ghost full = self@.actions;
        let mut r: Vec<Action> = Vec::new();
        let mut k: usize = 0;
        proof {
            assert(full.skip(0) =~= full);
        }
        loop
            invariant
                0 <= k <= self.actions.len(),
                full == self@.actions,
                actions_for_player(full, player_name@) == r.deep_view() + actions_for_player(
                    full.skip(k as int),
                    player_name@,
                ),
            ensures
                r.deep_view() == actions_for_player(full, player_name@),
            decreases self.actions.len() - k,
        {
            if k == self.actions.len() {
                proof {
                    assert(full.skip(k as int) =~= Seq::<ActionRowV>::empty());
                    assert(actions_for_player(full, player_name@) =~= r.deep_view());
                }
                break;
            }
            proof {
                assert(full.skip(k as int)[0] == self@.actions[k as int]);
                assert(full.skip(k as int).skip(1) =~= full.skip(k + 1));
            }
            if self.actions[k].player_name == player_name {
                let ghost old_views = r.deep_view();
                r.push(self.actions[k].clone());
                proof {
                    assert(r.deep_view() =~= old_views + seq![self@.actions[k as int]]);
                    assert(actions_for_player(full.skip(k as int), player_name@) =~= seq![
                        self@.actions[k as int],
                    ] + actions_for_player(full.skip(k + 1), player_name@));
                }
            }
            k = k + 1;
        }
        r
    }

    /// The seats of one hand, in insertion order.
    pub fn get_seats(&self, hand_id: &str) -> (r: Vec<Seat>)
        ensures
            r.deep_view() == seats_for(self@.seats, hand_id@),
    {
        let target: String = hand_id.to_owned();
        let ghost full = self@.seats;
        let mut r: Vec<Seat> = Vec::new();
        let mut k: usize = 0;
        proof {
            assert(full.skip(0) =~= full);
        }
        loop
            invariant
                0 <= k <= self.seats.len(),
                full == self@.seats,
                target@ == hand_id@,
                seats_for(full, hand_id@) == r.deep_view() + seats_for(
                    full.skip(k as int),
                    hand_id@,
                ),
            ensures
                r.deep_view() == seats_for(full, hand_id@),
            decreases self.seats.len() - k,
        {
            if k == self.seats.len() {
                proof {
                    assert(full.skip(k as int) =~= Seq::<SeatRowV>::empty());
                    assert(seats_for(full, hand_id@) =~= r.deep_view());
                }
                break;
            }
            proof {
                assert(full.skip(k as int)[0] == self@.seats[k as int]);
                assert(full.skip(k as int).skip(1) =~= full.skip(k + 1));
            }
            if self.seats[k].hand_id == target {
                let ghost old_views = r.deep_view();
                r.push(self.seats[k].clone());
                proof {
                    assert(r.deep_view() =~= old_views + seq![self@.seats[k as int]]);
                    assert(seats_for(full.skip(k as int), hand_id@) =~= seq![
                        self@.seats[k as int],
                    ] + seats_for(full.skip(k + 1), hand_id@));
                }
            }
            k = k + 1;
        }
        r
    }
}

} // verus!

verus! {

/// Decides `matches_table` on a row.
fn row_matches_table(h: &Hand, tournament_id: &Option<u32>, cash_game_name: &Option<String>) -> (r:
    bool)
    ensures
        r == matches_table(h@, *tournament_id, (*cash_game_name).deep_view()),
{
    let t_ok = match tournament_id {
        Some(id) => match h.tournament_id {
            Some(t) => t == *id,
            None => false,
        },
        None => true,
    };
    proof {
        assert(t_ok == (*tournament_id is Some ==> h@.tournament_id == *tournament_id));
    }
    if !t_ok {
        return false;
    }
    match cash_game_name {
        None => true,
        Some(name) => match &h.cash_game_name {
            Some(hn) => *hn == *name,
            None => false,
        },
    }
}

/// The pairs the per-player read returns: each hand the player sat in,
/// with that hand's full action list.
pub open spec fn hands_player_pairs(hands: Seq<HandRowV>, seats: Seq<SeatRowV>, actions: Seq<
    ActionRowV>, name: Seq<char>) -> Seq<(HandRowV, Seq<ActionRowV>)>
    decreases hands.len(),
{
    if hands.len() == 0 {
        Seq::empty()
    } else {
        let rest = hands_player_pairs(hands.skip(1), seats, actions, name);
        if player_in_hand(seats, hands[0].id, name) {
            seq![(hands[0], actions_for(actions, hands[0].id))] + rest
        } else {
            rest
        }
    }
}

impl Store {
    /// Whether a player has a seat in the given hand.
    fn contains_player_seat(&self, hand_id: &String, name: &String) -> (r: bool)
        ensures
            r == player_in_hand(self@.seats, hand_id@, name@),
    {
        let mut k: usize = 0;
        loop
            invariant
                0 <= k <= self.seats.len(),
                forall|m: int|
                    0 <= m < k ==> !(self.seats.deep_view()[m].hand_id == hand_id@
                        && self.seats.deep_view()[m].player_name == name@),
            decreases self.seats.len() - k,
        {
            if k == self.seats.len() {
                return false;
            }
            if self.seats[k].hand_id == *hand_id && self.seats[k].player_name == *name {
                proof {
                    assert(self@.seats[k as int].hand_id == hand_id@);
                }
                return true;
            }
            k = k + 1;
        }
    }

    /// The hands a player sat in, each paired with its full action list.
    pub fn get_hands_for_player(&self, player_name: &str) -> (r: Vec<(Hand, Vec<Action>)>)
        ensures
            r.deep_view() == hands_player_pairs(
                self@.hands,
                self@.seats,
                self@.actions,
                player_name@,
            ),
    {
        let target: String = player_name.to_owned();
        let ghost full = self@.hands;
        let mut r: Vec<(Hand, Vec<Action>)> = Vec::new();
        let mut k: usize = 0;
        proof {
            assert(full.skip(0) =~= full);
        }
        loop
            invariant
                0 <= k <= self.hands.len(),
                full == self@.hands,
                target@ == player_name@,
                hands_player_pairs(full, self@.seats, self@.actions, player_name@)
                    == r.deep_view() + hands_player_pairs(
                    full.skip(k as int),
                    self@.seats,
                    self@.actions,
                    player_name@,
                ),
            ensures
                r.deep_view() == hands_player_pairs(
                    full,
                    self@.seats,
                    self@.actions,
                    player_name@,
                ),
            decreases self.hands.len() - k,
        {
            if k == self.hands.len() {
                proof {
                    assert(full.skip(k as int) =~= Seq::<HandRowV>::empty());
                    assert(hands_player_pairs(full, self@.seats, self@.actions, player_name@)
                        =~= r.deep_view());
                }
                break;
            }
            proof {
                assert(full.skip(k as int)[0] == self@.hands[k as int]);
                assert(full.skip(k as int).skip(1) =~= full.skip(k + 1));
            }
            if self.contains_player_seat(&self.hands[k].id, &target) {
                let hand = self.hands[k].clone();
                let actions = self.get_actions(hand.id.clone());
                let ghost old_views = r.deep_view();
                let ghost pair_v = (hand@, actions.deep_view());
                r.push((hand, actions));
                proof {
                    assert(r.deep_view() =~= old_views + seq![pair_v]);
                    assert(hands_player_pairs(
                        full.skip(k as int),
                        self@.seats,
                        self@.actions,
                        player_name@,
                    ) =~= seq![
                        (self@.hands[k as int], actions_for(self@.actions, self@.hands[k as int].id)),
                    ] + hands_player_pairs(
                        full.skip(k + 1),
                        self@.seats,
                        self@.actions,
                        player_name@,
                    ));
                }
            }
            k = k + 1;
        }
        r
    }

    /// The most recent hand at the addressed table: the greatest `datetime`
    /// among the matching hands (later rows winning ties), or none when no
    /// hand matches.
    pub fn get_latest_hand(&self, tournament_id: Option<u32>, cash_game_name: Option<String>) -> (r:
        Option<Hand>)
        ensures
            r.deep_view() == spec_latest_from(
                self@.hands,
                tournament_id,
                cash_game_name.deep_view(),
                0,
            ),
    {
        let mut best: Option<Hand> = None;
        let mut k: usize = self.hands.len();
        loop
            invariant
                0 <= k <= self.hands.len(),
                best.deep_view() == spec_latest_from(
                    self@.hands,
                    tournament_id,
                    cash_game_name.deep_view(),
                    k as int,
                ),
            ensures
                k == 0,
                best.deep_view() == spec_latest_from(
                    self@.hands,
                    tournament_id,
                    cash_game_name.deep_view(),
                    0,
                ),
            decreases k,
        {
            if k == 0 {
                break;
            }
            k = k - 1;
            if row_matches_table(&self.hands[k], &tournament_id, &cash_game_name) {
                match &best {
                    None => {
                        best = Some(self.hands[k].clone());
                    },
                    Some(b) => {
                        if crate::text::str_lex_le(self.hands[k].datetime.as_str(),
                            b.datetime.as_str()) {
                        } else {
                            best = Some(self.hands[k].clone());
                        }
                    },
                }
            }
        }
        best
    }

    /// The distinct player names across all seats, in first-appearance order.
    pub fn get_players(&self) -> (r: Vec<Player>)
        ensures
            r.deep_view() == collect_players(self@.seats, Seq::empty()),
    {
        let ghost full = self@.seats;
        let mut r: Vec<Player> = Vec::new();
        let mut k: usize = 0;
        proof {
            assert(full.skip(0) =~= full);
            assert(r.deep_view() =~= Seq::<Seq<char>>::empty());
        }
        loop
            invariant
                0 <= k <= self.seats.len(),
                full == self@.seats,
                collect_players(full, Seq::empty()) == collect_players(
                    full.skip(k as int),
                    r.deep_view(),
                ),
            ensures
                r.deep_view() == collect_players(full, Seq::empty()),
            decreases self.seats.len() - k,
        {
            if k == self.seats.len() {
                proof {
                    assert(full.skip(k as int) =~= Seq::<SeatRowV>::empty());
                }
                break;
            }
            proof {
                assert(full.skip(k as int)[0] == self@.seats[k as int]);
                assert(full.skip(k as int).skip(1) =~= full.skip(k + 1));
            }
            let name = &self.seats[k].player_name;
            let mut seen = false;
            let mut m: usize = 0;
            loop
                invariant
                    0 <= m <= r.len(),
                    seen ==> r.deep_view().contains(name@),
                    !seen ==> forall|q: int| 0 <= q < m ==> r.deep_view()[q] != name@,
                ensures
                    seen == r.deep_view().contains(name@),
                decreases r.len() - m,
            {
                if m == r.len() {
                    proof {
                        if !seen {
                            assert(forall|q: int|
                                0 <= q < r.deep_view().len() ==> r.deep_view()[q] != name@);
                        }
                    }
                    break;
                }
                if r[m].name == *name {
                    seen = true;
                    proof {
                        assert(r.deep_view()[m as int] == name@);
                    }
                    break;
                }
                m = m + 1;
            }
            if !seen {
                let ghost old_views = r.deep_view();
                r.push(Player { name: name.clone() });
                proof {
                    assert(r.deep_view() =~= old_views + seq![name@]);
                }
            }
            k = k + 1;
        }
        r
    }

    /// The players of the most recent hand at the addressed table, with
    /// their seat numbers; none when no hand matches.
    pub fn get_players_for_table(&self, tournament_id: Option<u32>, cash_game_name: Option<
        String>) -> (r: Option<Vec<TablePlayer>>)
        ensures
            match spec_latest_from(self@.hands, tournament_id, cash_game_name.deep_view(), 0) {
                None => r is None,
                Some(h) => r matches Some(players) && players.deep_view() == table_players_of(
                    self@.seats,
                    h.id,
                ),
            },
    {
        let latest = self.get_latest_hand(tournament_id, cash_game_name);
        let hand = match latest {
            None => {
                return None;
            },
            Some(h) => h,
        };
        let ghost full = self@.seats;
        let mut r: Vec<TablePlayer> = Vec::new();
        let mut k: usize = 0;
        proof {
            assert(full.skip(0) =~= full);
        }
        loop
            invariant
                0 <= k <= self.seats.len(),
                full == self@.seats,
                table_players_of(full, hand@.id) == r.deep_view() + table_players_of(
                    full.skip(k as int),
                    hand@.id,
                ),
            ensures
                r.deep_view() == table_players_of(full, hand@.id),
            decreases self.seats.len() - k,
        {
            if k == self.seats.len() {
                proof {
                    assert(full.skip(k as int) =~= Seq::<SeatRowV>::empty());
                    assert(table_players_of(full, hand@.id) =~= r.deep_view());
                }
                break;
            }
            proof {
                assert(full.skip(k as int)[0] == self@.seats[k as int]);
                assert(full.skip(k as int).skip(1) =~= full.skip(k + 1));
            }
            if self.seats[k].hand_id == hand.id {
                let ghost old_views = r.deep_view();
                r.push(
                    TablePlayer {
                        name: self.seats[k].player_name.clone(),
                        seat_number: self.seats[k].seat_number,
                    },
                );
                proof {
                    assert(r.deep_view() =~= old_views + seq![
                        TablePlayerV {
                            name: self@.seats[k as int].player_name,
                            seat_number: self@.seats[k as int].seat_number,
                        },
                    ]);
                    assert(table_players_of(full.skip(k as int), hand@.id) =~= seq![
                        TablePlayerV {
                            name: self@.seats[k as int].player_name,
                            seat_number: self@.seats[k as int].seat_number,
                        },
                    ] + table_players_of(full.skip(k + 1), hand@.id));
                }
            }
            k = k + 1;
        }
        Some(r)
    }
}

} // verus!

verus! {

// ------------------------------------------------------------------
// Laws of the upsert and the read surface.
// ------------------------------------------------------------------

/// A hand id present before an insertion of one hand is present after it.
pub proof fn lemma_insert_one_preserves(store: StoreV, h: HandV, id: Seq<char>)
    requires
        has_hand(store.hands, id),
    ensures
        has_hand(spec_insert_one(store, h).hands, id),
{
    let k = choose|k: int| 0 <= k < store.hands.len() && store.hands[k].id == id;
    assert(spec_insert_one(store, h).hands[k].id == id);
}

/// A hand id present before an insertion of many hands is present after it.
pub proof fn lemma_insert_hands_preserves(store: StoreV, hands: Seq<HandV>, id: Seq<char>)
    requires
        has_hand(store.hands, id),
    ensures
        has_hand(spec_insert_hands(store, hands).0.hands, id),
    decreases hands.len(),
{
    if hands.len() > 0 {
        let h = hands[0];
        if has_hand(store.hands, h.hand_info.hand_id) {
            lemma_insert_hands_preserves(store, hands.skip(1), id);
        } else {
            lemma_insert_one_preserves(store, h, id);
            lemma_insert_hands_preserves(spec_insert_one(store, h), hands.skip(1), id);
        }
    }
}

/// Inserting one hand makes its id present.
pub proof fn lemma_insert_one_adds(store: StoreV, h: HandV)
    ensures
        has_hand(spec_insert_one(store, h).hands, h.hand_info.hand_id),
{
    let hands2 = spec_insert_one(store, h).hands;
    assert(hands2[store.hands.len() as int].id == h.hand_info.hand_id);
}

/// After an upsert, every hand of the list has its id in the store.
pub proof fn lemma_insert_hands_all_present(store: StoreV, hands: Seq<HandV>)
    ensures
        forall|k: int|
            0 <= k < hands.len() ==> has_hand(
                spec_insert_hands(store, hands).0.hands,
                hands[k].hand_info.hand_id,
            ),
    decreases hands.len(),
{
    if hands.len() > 0 {
        let h = hands[0];
        let store1 = if has_hand(store.hands, h.hand_info.hand_id) {
            store
        } else {
            spec_insert_one(store, h)
        };
        if !has_hand(store.hands, h.hand_info.hand_id) {
            lemma_insert_one_adds(store, h);
        }
        lemma_insert_hands_preserves(store1, hands.skip(1), h.hand_info.hand_id);
        lemma_insert_hands_all_present(store1, hands.skip(1));
        assert(forall|k: int|
            1 <= k < hands.len() ==> #[trigger] hands[k] == hands.skip(1)[k - 1]);
    }
}

/// An upsert whose every hand id is already present changes nothing and
/// counts zero.
pub proof fn lemma_insert_hands_no_op(store: StoreV, hands: Seq<HandV>)
    requires
        forall|k: int|
            0 <= k < hands.len() ==> has_hand(store.hands, #[trigger] hands[k].hand_info.hand_id),
    ensures
        spec_insert_hands(store, hands) == (store, 0int),
    decreases hands.len(),
{
    if hands.len() > 0 {
        assert(forall|k: int|
            1 <= k < hands.len() ==> #[trigger] hands[k] == hands.skip(1)[k - 1]);
        assert(has_hand(store.hands, hands[0].hand_info.hand_id));
        lemma_insert_hands_no_op(store, hands.skip(1));
    }
}

/// Re-running the upsert with the same hand list is a no-op: the first run
/// returns its count, every later run returns zero and leaves every table
/// unchanged. This holds on any starting store, converged or empty.
pub proof fn lemma_insert_hands_idempotent(store: StoreV, hands: Seq<HandV>)
    ensures
        ({
            let (s1, n1) = spec_insert_hands(store, hands);
            spec_insert_hands(s1, hands) == (s1, 0int)
        }),
{
    lemma_insert_hands_all_present(store, hands);
    lemma_insert_hands_no_op(spec_insert_hands(store, hands).0, hands);
}

/// Filtering seats distributes over appending one row.
pub proof fn lemma_seats_for_append(s: Seq<SeatRowV>, row: SeatRowV, hid: Seq<char>)
    ensures
        seats_for(s + seq![row], hid) == seats_for(s, hid) + (if row.hand_id == hid {
            seq![row]
        } else {
            Seq::<SeatRowV>::empty()
        }),
    decreases s.len(),
{
    if s.len() == 0 {
        assert((s + seq![row])[0] == row);
        assert((s + seq![row]).skip(1) =~= s);
        assert(seats_for(s, hid) == Seq::<SeatRowV>::empty());
        if row.hand_id == hid {
            assert(seats_for(s + seq![row], hid) =~= seats_for(s, hid) + seq![row]);
        } else {
            assert(seats_for(s + seq![row], hid) =~= seats_for(s, hid));
        }
    } else {
        assert((s + seq![row])[0] == s[0]);
        assert((s + seq![row]).skip(1) =~= s.skip(1) + seq![row]);
        lemma_seats_for_append(s.skip(1), row, hid);
        if s[0].hand_id == hid {
            if row.hand_id == hid {
                assert(seq![s[0]] + (seats_for(s.skip(1), hid) + seq![row]) =~= (seq![s[0]]
                    + seats_for(s.skip(1), hid)) + seq![row]);
                assert(seats_for(s + seq![row], hid) == seats_for(s, hid) + seq![row]);
            } else {
                assert(seats_for(s.skip(1) + seq![row], hid) + Seq::<SeatRowV>::empty()
                    =~= seats_for(s.skip(1) + seq![row], hid));
                assert(seats_for(s + seq![row], hid) == seats_for(s, hid));
                assert(seats_for(s, hid) + Seq::<SeatRowV>::empty() =~= seats_for(s, hid));
            }
        } else {
            if row.hand_id == hid {
            } else {
                assert(seats_for(s, hid) + Seq::<SeatRowV>::empty() =~= seats_for(s, hid));
            }
        }
    }
}

/// Inserting a hand's seats with fresh, distinct keys adds exactly one row
/// per seat.
pub proof fn lemma_insert_seats_count(existing: Seq<SeatRowV>, h: HandV, seats: Seq<SeatV>)
    requires
        forall|j: int, k: int|
            0 <= j < existing.len() && 0 <= k < seats.len() ==> !(existing[j].hand_id
                == h.hand_info.hand_id && existing[j].seat_number == seats[k].seat_number),
        forall|k1: int, k2: int|
            0 <= k1 < k2 < seats.len() ==> seats[k1].seat_number != seats[k2].seat_number,
    ensures
        seats_for(insert_seats(existing, h, seats), h.hand_info.hand_id).len() == seats_for(
            existing,
            h.hand_info.hand_id,
        ).len() + seats.len(),
    decreases seats.len(),
{
    if seats.len() > 0 {
        let row = seat_row_of(h, seats[0]);
        assert(!has_seat(existing, row.hand_id, row.seat_number));
        let existing2 = existing + seq![row];
        lemma_seats_for_append(existing, row, h.hand_info.hand_id);
        assert(forall|k: int| 1 <= k < seats.len() ==> #[trigger] seats[k] == seats.skip(1)[k - 1]);
        assert(forall|j: int, k: int|
            0 <= j < existing2.len() && 0 <= k < seats.skip(1).len() ==> !(existing2[j].hand_id
                == h.hand_info.hand_id && existing2[j].seat_number == seats.skip(
                1,
            )[k].seat_number)) by {
            assert(forall|j: int| 0 <= j < existing.len() ==> existing2[j] == existing[j]);
            assert(existing2[existing.len() as int] == row);
        }
        lemma_insert_seats_count(existing2, h, seats.skip(1));
    }
}

/// The seat rows of a freshly inserted hand are exactly its parsed seats:
/// when the store is well formed, the hand's id is new, and its seat numbers
/// are distinct, the hand has one seat row per parsed seat.
pub proof fn lemma_insert_one_seat_rows(store: StoreV, h: HandV)
    requires
        store.wf(),
        !has_hand(store.hands, h.hand_info.hand_id),
        forall|k1: int, k2: int|
            0 <= k1 < k2 < h.seats.len() ==> h.seats[k1].seat_number != h.seats[k2].seat_number,
    ensures
        seats_for(spec_insert_one(store, h).seats, h.hand_info.hand_id).len() == h.seats.len(),
{
    assert(forall|j: int|
        0 <= j < store.seats.len() ==> #[trigger] store.seats[j].hand_id
            != h.hand_info.hand_id) by {
        assert(forall|j: int|
            0 <= j < store.seats.len() ==> has_hand(store.hands, #[trigger] store.seats[j].hand_id));
    }
    lemma_insert_seats_count(store.seats, h, h.seats);
    lemma_seats_for_none(store.seats, h.hand_info.hand_id);
}

/// A hand id carried by no seat row filters to nothing.
pub proof fn lemma_seats_for_none(seats: Seq<SeatRowV>, hid: Seq<char>)
    requires
        forall|j: int| 0 <= j < seats.len() ==> #[trigger] seats[j].hand_id != hid,
    ensures
        seats_for(seats, hid).len() == 0,
    decreases seats.len(),
{
    if seats.len() > 0 {
        assert(forall|j: int| 1 <= j < seats.len() ==> #[trigger] seats.skip(1)[j - 1] == seats[j]);
        assert(forall|j: int|
            0 <= j < seats.skip(1).len() ==> #[trigger] seats.skip(1)[j] == seats[j + 1]);
        lemma_seats_for_none(seats.skip(1), hid);
    }
}

} // verus!

verus! {

/// The number of rows in a batch that belong to one hand.
pub open spec fn count_match(data: Seq<ActionDataV>, hid: Seq<char>) -> int
    decreases data.len(),
{
    if data.len() == 0 {
        0int
    } else {
        (if data[0].hand_id == hid {
            1int
        } else {
            0int
        }) + count_match(data.skip(1), hid)
    }
}

/// Filtering actions distributes over appending one row.
pub proof fn lemma_actions_for_append(s: Seq<ActionRowV>, row: ActionRowV, hid: Seq<char>)
    ensures
        actions_for(s + seq![row], hid) == actions_for(s, hid) + (if row.hand_id == hid {
            seq![row]
        } else {
            Seq::<ActionRowV>::empty()
        }),
    decreases s.len(),
{
    if s.len() == 0 {
        assert((s + seq![row])[0] == row);
        assert((s + seq![row]).skip(1) =~= s);
        assert(actions_for(s, hid) == Seq::<ActionRowV>::empty());
        if row.hand_id == hid {
            assert(actions_for(s + seq![row], hid) =~= actions_for(s, hid) + seq![row]);
        } else {
            assert(actions_for(s + seq![row], hid) =~= actions_for(s, hid));
        }
    } else {
        assert((s + seq![row])[0] == s[0]);
        assert((s + seq![row]).skip(1) =~= s.skip(1) + seq![row]);
        lemma_actions_for_append(s.skip(1), row, hid);
        if s[0].hand_id == hid {
            if row.hand_id == hid {
                assert(seq![s[0]] + (actions_for(s.skip(1), hid) + seq![row]) =~= (seq![s[0]]
                    + actions_for(s.skip(1), hid)) + seq![row]);
                assert(actions_for(s + seq![row], hid) == actions_for(s, hid) + seq![row]);
            } else {
                assert(actions_for(s + seq![row], hid) == actions_for(s, hid));
                assert(actions_for(s, hid) + Seq::<ActionRowV>::empty() =~= actions_for(s, hid));
            }
        } else {
            if row.hand_id == hid {
            } else {
                assert(actions_for(s, hid) + Seq::<ActionRowV>::empty() =~= actions_for(s, hid));
            }
        }
    }
}

/// Appending a batch adds one matching row per matching batch element.
pub proof fn lemma_append_actions_count(existing: Seq<ActionRowV>, data: Seq<ActionDataV>,
    hid: Seq<char>)
    ensures
        actions_for(append_actions(existing, data), hid).len() == actions_for(existing, hid).len()
            + count_match(data, hid),
    decreases data.len(),
{
    if data.len() > 0 {
        let row = ActionRowV {
            id: existing.len() as usize,
            hand_id: data[0].hand_id,
            player_name: data[0].player_name,
            action_type: data[0].action_type,
            amount: data[0].amount,
            is_all_in: data[0].is_all_in,
            street: data[0].street,
        };
        lemma_actions_for_append(existing, row, hid);
        lemma_append_actions_count(existing + seq![row], data.skip(1), hid);
    }
}

/// Every row of a street batch carries the hand id it was built with.
pub proof fn lemma_street_rows_id(hand_id: Seq<char>, street: Seq<char>, actions: Seq<ActionV>)
    ensures
        count_match(street_action_rows(hand_id, street, actions), hand_id) == street_action_rows(
            hand_id,
            street,
            actions,
        ).len(),
        forall|m: int|
            0 <= m < street_action_rows(hand_id, street, actions).len()
                ==> #[trigger] street_action_rows(hand_id, street, actions)[m].hand_id == hand_id,
    decreases actions.len(),
{
    if actions.len() > 0 {
        lemma_street_rows_id(hand_id, street, actions.skip(1));
        let whole = street_action_rows(hand_id, street, actions);
        let rest = street_action_rows(hand_id, street, actions.skip(1));
        if !(actions[0].action is Shows) {
            assert(whole.skip(1) =~= rest);
            lemma_count_match_all(whole, hand_id);
        } else {
            lemma_count_match_all(whole, hand_id);
        }
    }
}

/// A batch whose rows all carry one hand id matches it completely.
pub proof fn lemma_count_match_all(data: Seq<ActionDataV>, hid: Seq<char>)
    requires
        forall|m: int| 0 <= m < data.len() ==> #[trigger] data[m].hand_id == hid,
    ensures
        count_match(data, hid) == data.len(),
    decreases data.len(),
{
    if data.len() > 0 {
        assert(forall|m: int|
            0 <= m < data.skip(1).len() ==> #[trigger] data.skip(1)[m] == data[m + 1]);
        lemma_count_match_all(data.skip(1), hid);
    }
}

/// Every row of a hand's batch carries the hand's id.
pub proof fn lemma_hand_rows_id(id: Seq<char>, streets: Seq<StreetV>)
    ensures
        forall|m: int|
            0 <= m < hand_action_rows(id, streets).len() ==> #[trigger] hand_action_rows(
                id,
                streets,
            )[m].hand_id == id,
    decreases streets.len(),
{
    if streets.len() > 0 {
        lemma_street_rows_id(id, street_chars(streets[0].street_type), streets[0].actions);
        lemma_hand_rows_id(id, streets.skip(1));
        let head = street_action_rows(id, street_chars(streets[0].street_type),
            streets[0].actions);
        let tail = hand_action_rows(id, streets.skip(1));
        assert(forall|m: int|
            0 <= m < head.len() + tail.len() ==> #[trigger] (head + tail)[m].hand_id == id) by {
            assert(forall|m: int| 0 <= m < head.len() ==> (head + tail)[m] == head[m]);
            assert(forall|m: int|
                head.len() <= m < head.len() + tail.len() ==> (head + tail)[m] == tail[m
                    - head.len()]);
        }
    }
}

/// The number of parsed actions in one street excluding `Shows` lines.
pub open spec fn street_nonshows_count(actions: Seq<ActionV>) -> int
    decreases actions.len(),
{
    if actions.len() == 0 {
        0int
    } else {
        (if actions[0].action is Shows {
            0int
        } else {
            1int
        }) + street_nonshows_count(actions.skip(1))
    }
}

/// The number of parsed actions of a hand excluding `Shows` lines.
pub open spec fn count_actions_excluding_shows(streets: Seq<StreetV>) -> int
    decreases streets.len(),
{
    if streets.len() == 0 {
        0int
    } else {
        street_nonshows_count(streets[0].actions) + count_actions_excluding_shows(streets.skip(1))
    }
}

/// A street's batch has one row per non-`Shows` action.
pub proof fn lemma_street_rows_len(hand_id: Seq<char>, street: Seq<char>, actions: Seq<ActionV>)
    ensures
        street_action_rows(hand_id, street, actions).len() == street_nonshows_count(actions),
    decreases actions.len(),
{
    if actions.len() > 0 {
        lemma_street_rows_len(hand_id, street, actions.skip(1));
    }
}

/// A hand's batch has one row per non-`Shows` action across its streets.
pub proof fn lemma_hand_rows_len(id: Seq<char>, streets: Seq<StreetV>)
    ensures
        hand_action_rows(id, streets).len() == count_actions_excluding_shows(streets),
    decreases streets.len(),
{
    if streets.len() > 0 {
        lemma_street_rows_len(id, street_chars(streets[0].street_type), streets[0].actions);
        lemma_hand_rows_len(id, streets.skip(1));
    }
}

/// A hand id carried by no action row filters to nothing.
pub proof fn lemma_actions_for_none(actions: Seq<ActionRowV>, hid: Seq<char>)
    requires
        forall|j: int| 0 <= j < actions.len() ==> #[trigger] actions[j].hand_id != hid,
    ensures
        actions_for(actions, hid).len() == 0,
    decreases actions.len(),
{
    if actions.len() > 0 {
        assert(forall|j: int|
            0 <= j < actions.skip(1).len() ==> #[trigger] actions.skip(1)[j] == actions[j + 1]);
        lemma_actions_for_none(actions.skip(1), hid);
    }
}

/// The action rows of a freshly inserted hand are exactly its parsed actions
/// without the `Shows` lines: when the store is well formed and the hand's id
/// is new, the hand has one action row per non-`Shows` action. `Collect`
/// rows are persisted here and hidden only by the consumer-facing read.
pub proof fn lemma_insert_one_action_rows(store: StoreV, h: HandV)
    requires
        store.wf(),
        !has_hand(store.hands, h.hand_info.hand_id),
    ensures
        actions_for(spec_insert_one(store, h).actions, h.hand_info.hand_id).len()
            == count_actions_excluding_shows(h.streets),
{
    let hid = h.hand_info.hand_id;
    assert(forall|j: int|
        0 <= j < store.actions.len() ==> #[trigger] store.actions[j].hand_id != hid) by {
        assert(forall|j: int|
            0 <= j < store.actions.len() ==> has_hand(
                store.hands,
                #[trigger] store.actions[j].hand_id,
            ));
    }
    lemma_actions_for_none(store.actions, hid);
    lemma_append_actions_count(store.actions, hand_action_rows(hid, h.streets), hid);
    lemma_hand_rows_id(hid, h.streets);
    lemma_count_match_all(hand_action_rows(hid, h.streets), hid);
    lemma_hand_rows_len(hid, h.streets);
}

/// The latest hand among `hands[i..]` at a table is a matching hand whose
/// `datetime` every other matching hand's is below or equal to; it is absent
/// exactly when no hand matches.
pub proof fn lemma_latest_is_max(hands: Seq<HandRowV>, tournament_id: Option<u32>,
    cash_game_name: Option<Seq<char>>, i: int)
    requires
        0 <= i,
    ensures
        match spec_latest_from(hands, tournament_id, cash_game_name, i) {
            None => forall|k: int|
                i <= k < hands.len() ==> !matches_table(hands[k], tournament_id, cash_game_name),
            Some(m) => (exists|k: int|
                i <= k < hands.len() && hands[k] == m && matches_table(
                    m,
                    tournament_id,
                    cash_game_name,
                )) && (forall|k: int|
                i <= k < hands.len() && matches_table(
                    #[trigger] hands[k],
                    tournament_id,
                    cash_game_name,
                ) ==> crate::text::lex_le(hands[k].datetime, m.datetime)),
        },
    decreases hands.len() - i,
{
    if 0 <= i < hands.len() {
        lemma_latest_is_max(hands, tournament_id, cash_game_name, i + 1);
        let rest = spec_latest_from(hands, tournament_id, cash_game_name, i + 1);
        if matches_table(hands[i], tournament_id, cash_game_name) {
            match rest {
                None => {
                    crate::text::lemma_lex_le_refl(hands[i].datetime);
                },
                Some(m) => {
                    if crate::text::lex_le(hands[i].datetime, m.datetime) {
                    } else {
                        crate::text::lemma_lex_le_total(hands[i].datetime, m.datetime);
                        assert(crate::text::lex_le(m.datetime, hands[i].datetime));
                        assert forall|k: int|
                            i <= k < hands.len() && matches_table(
                                #[trigger] hands[k],
                                tournament_id,
                                cash_game_name,
                            ) implies crate::text::lex_le(
                            hands[k].datetime,
                            hands[i].datetime,
                        ) by {
                            if k == i {
                                crate::text::lemma_lex_le_refl(hands[i].datetime);
                            } else {
                                crate::text::lemma_lex_le_trans(
                                    hands[k].datetime,
                                    m.datetime,
                                    hands[i].datetime,
                                );
                            }
                        }
                    }
                },
            }
        }
    }
}

} // verus!

verus! {

/// Inserting a hand's seats keeps the seat keys unique, and every row is
/// either an existing row or one of the hand's own.
pub proof fn lemma_insert_seats_wf(existing: Seq<SeatRowV>, h: HandV, seats: Seq<SeatV>)
    requires
        forall|k1: int, k2: int|
            0 <= k1 < k2 < existing.len() ==> !(existing[k1].hand_id == existing[k2].hand_id
                && existing[k1].seat_number == existing[k2].seat_number),
    ensures
        ({
            let out = insert_seats(existing, h, seats);
            &&& (forall|k1: int, k2: int|
                0 <= k1 < k2 < out.len() ==> !(out[k1].hand_id == out[k2].hand_id
                    && out[k1].seat_number == out[k2].seat_number))
            &&& (forall|j: int|
                0 <= j < out.len() ==> (exists|j2: int|
                    0 <= j2 < existing.len() && out[j] == existing[j2]) || #[trigger] out[j].hand_id
                    == h.hand_info.hand_id)
        }),
    decreases seats.len(),
{
    if seats.len() > 0 {
        let row = seat_row_of(h, seats[0]);
        if has_seat(existing, row.hand_id, row.seat_number) {
            lemma_insert_seats_wf(existing, h, seats.skip(1));
        } else {
            let existing2 = existing + seq![row];
            assert(forall|k1: int| 0 <= k1 < existing.len() ==> existing2[k1] == existing[k1]);
            assert(existing2[existing.len() as int] == row);
            lemma_insert_seats_wf(existing2, h, seats.skip(1));
            let out = insert_seats(existing2, h, seats.skip(1));
            assert forall|j: int|
                0 <= j < out.len() implies (exists|j2: int|
                0 <= j2 < existing.len() && out[j] == existing[j2]) || #[trigger] out[j].hand_id
                == h.hand_info.hand_id by {
                if exists|j2: int| 0 <= j2 < existing2.len() && out[j] == existing2[j2] {
                    let j2 = choose|j2: int| 0 <= j2 < existing2.len() && out[j] == existing2[j2];
                    if j2 < existing.len() {
                        assert(out[j] == existing[j2]);
                    } else {
                        assert(out[j] == row);
                    }
                }
            }
        }
    }
}

/// Appending a batch keeps every existing row in place and gives each new
/// row its position as id and the batch's hand id.
pub proof fn lemma_append_actions_wf(existing: Seq<ActionRowV>, data: Seq<ActionDataV>,
    hid: Seq<char>)
    requires
        forall|m: int| 0 <= m < data.len() ==> #[trigger] data[m].hand_id == hid,
    ensures
        ({
            let out = append_actions(existing, data);
            &&& out.len() == existing.len() + data.len()
            &&& (forall|k: int| 0 <= k < existing.len() ==> out[k] == existing[k])
            &&& (forall|k: int|
                existing.len() <= k < out.len() ==> #[trigger] out[k].hand_id == hid)
        }),
    decreases data.len(),
{
    if data.len() > 0 {
        let row = ActionRowV {
            id: existing.len() as usize,
            hand_id: data[0].hand_id,
            player_name: data[0].player_name,
            action_type: data[0].action_type,
            amount: data[0].amount,
            is_all_in: data[0].is_all_in,
            street: data[0].street,
        };
        let existing2 = existing + seq![row];
        assert(forall|m: int|
            0 <= m < data.skip(1).len() ==> #[trigger] data.skip(1)[m] == data[m + 1]);
        lemma_append_actions_wf(existing2, data.skip(1), hid);
        assert(forall|k: int| 0 <= k < existing.len() ==> existing2[k] == existing[k]);
        assert(existing2[existing.len() as int] == row);
    }
}

/// Inserting one fresh hand into a well-formed store keeps it well formed.
pub proof fn lemma_insert_one_wf(store: StoreV, h: HandV)
    requires
        store.wf(),
        !has_hand(store.hands, h.hand_info.hand_id),
    ensures
        spec_insert_one(store, h).wf(),
{
    let out = spec_insert_one(store, h);
    let hid = h.hand_info.hand_id;
    assert(forall|k: int| 0 <= k < store.hands.len() ==> out.hands[k] == store.hands[k]);
    assert(out.hands[store.hands.len() as int] == hand_row_of(h));
    lemma_insert_seats_wf(store.seats, h, h.seats);
    lemma_hand_rows_id(hid, h.streets);
    lemma_append_actions_wf(store.actions, hand_action_rows(hid, h.streets), hid);
    assert(has_hand(out.hands, hid));
    assert forall|k: int| 0 <= k < out.seats.len() implies has_hand(
        out.hands,
        #[trigger] out.seats[k].hand_id,
    ) by {
        if out.seats[k].hand_id != hid {
            let j2 = choose|j2: int|
                0 <= j2 < store.seats.len() && out.seats[k] == store.seats[j2];
            assert(has_hand(store.hands, store.seats[j2].hand_id));
            let w = choose|w: int|
                0 <= w < store.hands.len() && store.hands[w].id == store.seats[j2].hand_id;
            assert(out.hands[w].id == out.seats[k].hand_id);
        } else {
            let w = store.hands.len() as int;
            assert(out.hands[w].id == hid);
        }
    }
    assert forall|k: int| 0 <= k < out.actions.len() implies has_hand(
        out.hands,
        #[trigger] out.actions[k].hand_id,
    ) by {
        if k < store.actions.len() {
            assert(out.actions[k] == store.actions[k]);
            assert(has_hand(store.hands, store.actions[k].hand_id));
            let w = choose|w: int|
                0 <= w < store.hands.len() && store.hands[w].id == store.actions[k].hand_id;
            assert(out.hands[w].id == out.actions[k].hand_id);
        } else {
            assert(out.actions[k].hand_id == hid);
            let w = store.hands.len() as int;
            assert(out.hands[w].id == hid);
        }
    }
}

/// The idempotent upsert keeps a well-formed store well formed.
pub proof fn lemma_insert_hands_wf(store: StoreV, hands: Seq<HandV>)
    requires
        store.wf(),
    ensures
        spec_insert_hands(store, hands).0.wf(),
    decreases hands.len(),
{
    if hands.len() > 0 {
        let h = hands[0];
        if has_hand(store.hands, h.hand_info.hand_id) {
            lemma_insert_hands_wf(store, hands.skip(1));
        } else {
            lemma_insert_one_wf(store, h);
            lemma_insert_hands_wf(spec_insert_one(store, h), hands.skip(1));
        }
    }
}

} // verus!

verus! {

/// An upsert whose hands are all new and pairwise distinct counts every one
/// of them: the first ingest of a file of fresh hands returns its hand count.
pub proof fn lemma_insert_hands_fresh_count(store: StoreV, hands: Seq<HandV>)
    requires
        forall|k: int|
            0 <= k < hands.len() ==> !has_hand(store.hands, #[trigger] hands[k].hand_info.hand_id),
        forall|k1: int, k2: int|
            0 <= k1 < k2 < hands.len() ==> hands[k1].hand_info.hand_id
                != hands[k2].hand_info.hand_id,
    ensures
        spec_insert_hands(store, hands).1 == hands.len(),
    decreases hands.len(),
{
    if hands.len() > 0 {
        let h = hands[0];
        let store1 = spec_insert_one(store, h);
        assert(forall|k: int|
            1 <= k < hands.len() ==> #[trigger] hands[k] == hands.skip(1)[k - 1]);
        assert forall|k: int| 0 <= k < hands.skip(1).len() implies !has_hand(
            store1.hands,
            #[trigger] hands.skip(1)[k].hand_info.hand_id,
        ) by {
            let id = hands.skip(1)[k].hand_info.hand_id;
            assert(hands.skip(1)[k] == hands[k + 1]);
            assert(id != h.hand_info.hand_id);
            assert(!has_hand(store.hands, id));
            assert(forall|w: int| 0 <= w < store.hands.len() ==> store.hands[w].id != id);
            assert(forall|w: int|
                0 <= w < store.hands.len() ==> #[trigger] store1.hands[w] == store.hands[w]);
            assert(store1.hands[store.hands.len() as int].id == h.hand_info.hand_id);
        }
        lemma_insert_hands_fresh_count(store1, hands.skip(1));
    }
}

} // verus!

verus! {

// ------------------------------------------------------------------
// Newest-first ordering of the hands read surface.
// ------------------------------------------------------------------

/// Inserts a row into a newest-first list: it lands before the first row
/// whose datetime is below or equal to its own, so a later-inserted row
/// stands before earlier rows with the same datetime.
pub open spec fn insert_desc(row: HandRowV, sorted: Seq<HandRowV>) -> Seq<HandRowV>
    decreases sorted.len(),
{
    if sorted.len() == 0 {
        seq![row]
    } else if crate::text::lex_le(sorted[0].datetime, row.datetime) {
        seq![row] + sorted
    } else {
        seq![sorted[0]] + insert_desc(row, sorted.skip(1))
    }
}

/// The rows folded one by one into a newest-first list, starting from `acc`.
pub open spec fn sort_desc_from(acc: Seq<HandRowV>, rows: Seq<HandRowV>) -> Seq<HandRowV>
    decreases rows.len(),
{
    if rows.len() == 0 {
        acc
    } else {
        sort_desc_from(insert_desc(rows[0], acc), rows.skip(1))
    }
}

/// The rows in newest-first datetime order.
pub open spec fn sort_desc(rows: Seq<HandRowV>) -> Seq<HandRowV> {
    sort_desc_from(Seq::empty(), rows)
}

/// Inserting before the first row at or below the new row's datetime is
/// exactly the list with the row at that position.
pub proof fn lemma_insert_desc_at(row: HandRowV, sorted: Seq<HandRowV>, p: int)
    requires
        0 <= p <= sorted.len(),
        forall|m: int|
            0 <= m < p ==> !crate::text::lex_le(#[trigger] sorted[m].datetime, row.datetime),
        p < sorted.len() ==> crate::text::lex_le(sorted[p].datetime, row.datetime),
    ensures
        insert_desc(row, sorted) == sorted.insert(p, row),
    decreases p,
{
    if p == 0 {
        if sorted.len() == 0 {
            assert(insert_desc(row, sorted) =~= sorted.insert(0, row));
        } else {
            assert(crate::text::lex_le(sorted[0].datetime, row.datetime));
            assert(seq![row] + sorted =~= sorted.insert(0, row));
        }
    } else {
        assert(!crate::text::lex_le(sorted[0].datetime, row.datetime));
        assert(forall|m: int|
            0 <= m < p - 1 ==> #[trigger] sorted.skip(1)[m] == sorted[m + 1]);
        lemma_insert_desc_at(row, sorted.skip(1), p - 1);
        assert(seq![sorted[0]] + sorted.skip(1).insert(p - 1, row) =~= sorted.insert(p, row));
    }
}

/// Sorts hand rows into newest-first datetime order.
fn sorted_desc_rows(rows: &Vec<Hand>) -> (r: Vec<Hand>)
    ensures
        r.deep_view() == sort_desc(rows.deep_view()),
{
    let ghost full = rows.deep_view();
    let mut out: Vec<Hand> = Vec::new();
    let mut k: usize = 0;
    proof {
        assert(full.skip(0) =~= full);
        assert(out.deep_view() =~= Seq::<HandRowV>::empty());
    }
    loop
        invariant
            0 <= k <= rows.len(),
            full == rows.deep_view(),
            sort_desc(full) == sort_desc_from(out.deep_view(), full.skip(k as int)),
        ensures
            out.deep_view() == sort_desc(full),
        decreases rows.len() - k,
    {
        if k == rows.len() {
            proof {
                assert(full.skip(k as int) =~= Seq::<HandRowV>::empty());
            }
            break;
        }
        proof {
            assert(full.skip(k as int)[0] == rows[k as int]@);
            assert(full.skip(k as int).skip(1) =~= full.skip(k + 1));
        }
        let row = &rows[k];
        let mut p: usize = 0;
        loop
            invariant
                0 <= p <= out.len(),
                forall|m: int|
                    0 <= m < p ==> !crate::text::lex_le(
                        #[trigger] out.deep_view()[m].datetime,
                        row@.datetime,
                    ),
            ensures
                0 <= p <= out.len(),
                forall|m: int|
                    0 <= m < p ==> !crate::text::lex_le(
                        #[trigger] out.deep_view()[m].datetime,
                        row@.datetime,
                    ),
                p < out.len() ==> crate::text::lex_le(
                    out.deep_view()[p as int].datetime,
                    row@.datetime,
                ),
            decreases out.len() - p,
        {
            if p == out.len() {
                break;
            }
            if crate::text::str_lex_le(out[p].datetime.as_str(), row.datetime.as_str()) {
                break;
            }
            p = p + 1;
        }
        let ghost old_views = out.deep_view();
        out.insert(p, row.clone());
        proof {
            assert(out.deep_view() =~= old_views.insert(p as int, row@));
            lemma_insert_desc_at(row@, old_views, p as int);
        }
        k = k + 1;
    }
    out
}

} // verus!
