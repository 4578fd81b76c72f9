//! The per-hand behavioural metrics: one left-to-right pass over a hand's
//! action rows, preflop only, tracking who voluntarily put money in, who
//! raised, who three-bet, and who open-limped.

use vstd::prelude::*;

use crate::store::{Action, ActionRowV, Hand, HandRowV};

verus! {

/// The four behavioural flags of one player in one hand.
#[derive(Debug, PartialEq, Eq, Structural, Clone, Copy)]
pub struct PlayerMetrics {
    pub vpip: bool,
    pub pfr: bool,
    pub three_bet: bool,
    pub open_limp: bool,
}

impl View for PlayerMetrics {
    type V = PlayerMetrics;

    open spec fn view(&self) -> PlayerMetrics {
        *self
    }
}

impl DeepView for PlayerMetrics {
    type V = PlayerMetrics;

    open spec fn deep_view(&self) -> PlayerMetrics {
        *self
    }
}

/// The all-false metrics a player starts with.
pub open spec fn default_metrics() -> PlayerMetrics {
    PlayerMetrics { vpip: false, pfr: false, three_bet: false, open_limp: false }
}

impl Default for PlayerMetrics {
    /// All-false metrics.
    fn default() -> (r: PlayerMetrics)
        ensures
            r == default_metrics(),
    {
        PlayerMetrics { vpip: false, pfr: false, three_bet: false, open_limp: false }
    }
}

/// The scan state: per-player entries in first-appearance order, the three
/// table-wide flags, and whether a non-preflop row has ended the scan.
pub ghost struct MState {
    pub entries: Seq<(Seq<char>, PlayerMetrics)>,
    pub limped: bool,
    pub raised: bool,
    pub three_bet: bool,
    pub stopped: bool,
}

impl MState {
    /// The state the scan starts in.
    pub open spec fn init() -> MState {
        MState {
            entries: Seq::empty(),
            limped: false,
            raised: false,
            three_bet: false,
            stopped: false,
        }
    }
}

/// The first entry with this player name, if any.
pub open spec fn lookup_entry(entries: Seq<(Seq<char>, PlayerMetrics)>, name: Seq<char>) -> Option<
    int>
    decreases entries.len(),
{
    if entries.len() == 0 {
        None
    } else if entries[0].0 == name {
        Some(0)
    } else {
        match lookup_entry(entries.skip(1), name) {
            Some(i) => Some(i + 1),
            None => None,
        }
    }
}

/// A found entry lies in range and carries the looked-up name.
pub proof fn lemma_lookup_entry(entries: Seq<(Seq<char>, PlayerMetrics)>, name: Seq<char>)
    ensures
        match lookup_entry(entries, name) {
            Some(i) => 0 <= i < entries.len() && entries[i].0 == name,
            None => forall|m: int| 0 <= m < entries.len() ==> entries[m].0 != name,
        },
    decreases entries.len(),
{
    if entries.len() > 0 && entries[0].0 != name {
        lemma_lookup_entry(entries.skip(1), name);
        assert(forall|m: int|
            1 <= m < entries.len() ==> #[trigger] entries[m] == entries.skip(1)[m - 1]);
    }
}

/// Looking up a name after skipping a prefix without it finds the same entry,
/// shifted.
pub proof fn lemma_lookup_skip(entries: Seq<(Seq<char>, PlayerMetrics)>, name: Seq<char>, k: int)
    requires
        0 <= k <= entries.len(),
        forall|m: int| 0 <= m < k ==> entries[m].0 != name,
    ensures
        lookup_entry(entries, name) == match lookup_entry(entries.skip(k), name) {
            Some(j) => Some(j + k),
            None => None::<int>,
        },
    decreases k,
{
    if k > 0 {
        assert(entries.skip(1).skip(k - 1) =~= entries.skip(k));
        lemma_lookup_skip(entries.skip(1), name, k - 1);
    } else {
        assert(entries.skip(0) =~= entries);
    }
}

/// The entries with this player present: unchanged when it already has an
/// entry, extended by an all-false one otherwise.
pub open spec fn ensure_entry(entries: Seq<(Seq<char>, PlayerMetrics)>, name: Seq<char>) -> Seq<
    (Seq<char>, PlayerMetrics)> {
    if lookup_entry(entries, name) is Some {
        entries
    } else {
        entries + seq![(name, default_metrics())]
    }
}

/// One preflop action applied to the actor's metrics and the table flags:
/// the new metrics, then limped, raised and three-bet.
pub open spec fn apply_action(m: PlayerMetrics, limped: bool, raised: bool, tbet: bool,
    action_type: Seq<char>) -> (PlayerMetrics, bool, bool, bool) {
    if action_type == "raise"@ {
        let hit = raised && !tbet;
        (
            PlayerMetrics { vpip: true, pfr: true, three_bet: m.three_bet || hit,
                open_limp: m.open_limp },
            limped,
            true,
            tbet || hit,
        )
    } else if action_type == "call"@ {
        let limp = !raised && !limped;
        (
            PlayerMetrics { vpip: true, pfr: m.pfr, three_bet: m.three_bet,
                open_limp: m.open_limp || limp },
            limped || limp,
            raised,
            tbet,
        )
    } else {
        (m, limped, raised, tbet)
    }
}

/// One action row applied to the scan state. The actor's entry is created
/// before the street check, so the first non-preflop actor still appears,
/// with all-false metrics, and the scan then stops.
pub open spec fn metrics_step(state: MState, row: ActionRowV) -> MState {
    if state.stopped {
        state
    } else {
        let entries1 = ensure_entry(state.entries, row.player_name);
        if row.street != "preflop"@ {
            MState {
                entries: entries1,
                limped: state.limped,
                raised: state.raised,
                three_bet: state.three_bet,
                stopped: true,
            }
        } else {
            let idx = lookup_entry(entries1, row.player_name)->Some_0;
            let (m2, l2, r2, t2) = apply_action(
                entries1[idx].1,
                state.limped,
                state.raised,
                state.three_bet,
                row.action_type,
            );
            MState {
                entries: entries1.update(idx, (row.player_name, m2)),
                limped: l2,
                raised: r2,
                three_bet: t2,
                stopped: false,
            }
        }
    }
}

/// The scan folded over a row sequence.
pub open spec fn metrics_run(state: MState, rows: Seq<ActionRowV>) -> MState
    decreases rows.len(),
{
    if rows.len() == 0 {
        state
    } else {
        metrics_run(metrics_step(state, rows[0]), rows.skip(1))
    }
}

/// The metrics of one hand's action rows.
pub open spec fn spec_hand_metrics(rows: Seq<ActionRowV>) -> Seq<(Seq<char>, PlayerMetrics)> {
    metrics_run(MState::init(), rows).entries
}

/// A stopped scan ignores everything that follows.
pub proof fn lemma_run_stopped(state: MState, rows: Seq<ActionRowV>)
    requires
        state.stopped,
    ensures
        metrics_run(state, rows) == state,
    decreases rows.len(),
{
    if rows.len() > 0 {
        lemma_run_stopped(state, rows.skip(1));
    }
}

/// The scan splits over concatenation.
pub proof fn lemma_run_concat(state: MState, a: Seq<ActionRowV>, b: Seq<ActionRowV>)
    ensures
        metrics_run(state, a + b) == metrics_run(metrics_run(state, a), b),
    decreases a.len(),
{
    if a.len() == 0 {
        assert(a + b =~= b);
    } else {
        assert((a + b)[0] == a[0]);
        assert((a + b).skip(1) =~= a.skip(1) + b);
        lemma_run_concat(metrics_step(state, a[0]), a.skip(1), b);
    }
}

/// A scan over preflop rows never stops.
pub proof fn lemma_run_preflop_not_stopped(state: MState, rows: Seq<ActionRowV>)
    requires
        !state.stopped,
        forall|m: int| 0 <= m < rows.len() ==> rows[m].street == "preflop"@,
    ensures
        !metrics_run(state, rows).stopped,
    decreases rows.len(),
{
    if rows.len() > 0 {
        lemma_run_preflop_not_stopped(metrics_step(state, rows[0]), rows.skip(1));
    }
}

/// The metrics of a hand depend only on its rows up to and including the
/// first non-preflop row: everything after that row is ignored.
pub proof fn lemma_metrics_ignore_postflop(rows: Seq<ActionRowV>, k: int)
    requires
        0 <= k < rows.len(),
        rows[k].street != "preflop"@,
        forall|m: int| 0 <= m < k ==> rows[m].street == "preflop"@,
    ensures
        spec_hand_metrics(rows) == spec_hand_metrics(rows.take(k + 1)),
{
    let prefix = rows.take(k);
    let upto = rows.take(k + 1);
    assert(upto =~= prefix + seq![rows[k]]);
    assert(rows =~= upto + rows.skip(k + 1));
    assert(forall|m: int| 0 <= m < prefix.len() ==> prefix[m].street == "preflop"@);
    lemma_run_preflop_not_stopped(MState::init(), prefix);
    lemma_run_concat(MState::init(), prefix, seq![rows[k]]);
    let mid = metrics_run(MState::init(), prefix);
    assert(seq![rows[k]].skip(1) =~= Seq::<ActionRowV>::empty());
    assert(metrics_run(MState::init(), upto) == metrics_run(mid, seq![rows[k]]));
    assert(metrics_run(mid, seq![rows[k]]) == metrics_run(
        metrics_step(mid, seq![rows[k]][0]),
        seq![rows[k]].skip(1),
    ));
    assert(seq![rows[k]][0] == rows[k]);
    assert(metrics_run(metrics_step(mid, rows[k]), Seq::<ActionRowV>::empty())
        == metrics_step(mid, rows[k]));
    assert(metrics_run(MState::init(), upto) == metrics_step(mid, rows[k]));
    assert(metrics_step(mid, rows[k]).stopped);
    lemma_run_concat(MState::init(), upto, rows.skip(k + 1));
    lemma_run_stopped(metrics_run(MState::init(), upto), rows.skip(k + 1));
}

/// A table of per-player metrics, in first-appearance order.
pub struct HandMetrics {
    entries: Vec<(String, PlayerMetrics)>,
}

impl View for HandMetrics {
    type V = Seq<(Seq<char>, PlayerMetrics)>;

    closed spec fn view(&self) -> Seq<(Seq<char>, PlayerMetrics)> {
        self.entries.deep_view()
    }
}

impl HandMetrics {
    /// The number of players with an entry.
    pub fn len(&self) -> (r: usize)
        ensures
            r == self@.len(),
    {
        self.entries.len()
    }

    /// The metrics of one player, if they acted in the scan.
    pub fn get(&self, name: &str) -> (r: Option<PlayerMetrics>)
        ensures
            r == match lookup_entry(self@, name@) {
                Some(i) => Some(self@[i].1),
                None => None::<PlayerMetrics>,
            },
    {
        let ghost full = self@;
        let mut k: usize = 0;
        loop
            invariant
                0 <= k <= self.entries.len(),
                full == self@,
                forall|m: int| 0 <= m < k ==> full[m].0 != name@,
            decreases self.entries.len() - k,
        {
            if k == self.entries.len() {
                proof {
                    lemma_lookup_entry(full, name@);
                    if lookup_entry(full, name@) is Some {
                        assert(full[lookup_entry(full, name@)->Some_0].0 == name@);
                    }
                }
                return None;
            }
            if compare_str(&self.entries[k].0, name) {
                proof {
                    lemma_lookup_skip(full, name@, k as int);
                    assert(full.skip(k as int)[0].0 == name@);
                }
                return Some(self.entries[k].1);
            }
            k = k + 1;
        }
    }
}

/// Whether a string equals a string slice, character for character.
fn compare_str(a: &String, b: &str) -> (r: bool)
    ensures
        r == (a@ == b@),
{
    let b_owned: String = b.to_owned();
    *a == b_owned
}

/// Computes each player's behavioural flags from one hand's action rows:
/// a single left-to-right pass over the preflop rows, stopping at the first
/// row of any later street.
pub fn compute_hand_metrics(actions: &Vec<Action>) -> (r: HandMetrics)
    ensures
        r@ == spec_hand_metrics(actions.deep_view()),
{
    let preflop_word: String = String::from_str("preflop");
    let raise_word: String = String::from_str("raise");
    let call_word: String = String::from_str("call");
    let ghost full = actions.deep_view();
    let mut entries: Vec<(String, PlayerMetrics)> = Vec::new();
    let mut limped = false;
    let mut raised = false;
    let mut tbet = false;
    let mut k: usize = 0;
    proof {
        assert(full.skip(0) =~= full);
        assert(entries.deep_view() =~= Seq::<(Seq<char>, PlayerMetrics)>::empty());
    }
    loop
        invariant
            0 <= k <= actions.len(),
            full == actions.deep_view(),
            preflop_word@ == "preflop"@,
            raise_word@ == "raise"@,
            call_word@ == "call"@,
            metrics_run(MState::init(), full) == metrics_run(
                MState {
                    entries: entries.deep_view(),
                    limped: limped,
                    raised: raised,
                    three_bet: tbet,
                    stopped: false,
                },
                full.skip(k as int),
            ),
        ensures
            entries.deep_view() == spec_hand_metrics(full),
        decreases actions.len() - k,
    {
        let ghost state = MState {
            entries: entries.deep_view(),
            limped: limped,
            raised: raised,
            three_bet: tbet,
            stopped: false,
        };
        if k == actions.len() {
            proof {
                assert(full.skip(k as int) =~= Seq::<ActionRowV>::empty());
            }
            break;
        }
        proof {
            assert(full.skip(k as int)[0] == actions[k as int]@);
            assert(full.skip(k as int).skip(1) =~= full.skip(k + 1));
        }
        let row = &actions[k];
        // Find the actor's entry, creating it if this is their first action.
        let mut idx: usize = 0;
        loop
            invariant
                0 <= idx <= entries.len(),
                forall|m: int| 0 <= m < idx ==> entries.deep_view()[m].0 != row.player_name@,
            ensures
                0 <= idx <= entries.len(),
                forall|m: int| 0 <= m < idx ==> entries.deep_view()[m].0 != row.player_name@,
                idx < entries.len() ==> lookup_entry(entries.deep_view(), row.player_name@)
                    == Some(idx as int),
                idx == entries.len() ==> lookup_entry(entries.deep_view(), row.player_name@)
                    is None,
            decreases entries.len() - idx,
        {
            if idx == entries.len() {
                proof {
                    lemma_lookup_entry(entries.deep_view(), row.player_name@);
                    if lookup_entry(entries.deep_view(), row.player_name@) is Some {
                        assert(entries.deep_view()[lookup_entry(
                            entries.deep_view(),
                            row.player_name@,
                        )->Some_0].0 == row.player_name@);
                    }
                }
                break;
            }
            if entries[idx].0 == row.player_name {
                proof {
                    lemma_lookup_skip(entries.deep_view(), row.player_name@, idx as int);
                    assert(entries.deep_view().skip(idx as int)[0].0 == row.player_name@);
                }
                break;
            }
            idx = idx + 1;
        }
        if idx == entries.len() {
            let ghost old_views = entries.deep_view();
            entries.push((row.player_name.clone(), PlayerMetrics::default()));
            proof {
                assert(entries.deep_view() =~= old_views + seq![
                    (row.player_name@, default_metrics()),
                ]);
                assert(entries.deep_view()[idx as int].0 == row.player_name@);
                lemma_lookup_skip(entries.deep_view(), row.player_name@, idx as int);
                assert(entries.deep_view().skip(idx as int)[0] == entries.deep_view()[idx as int]);
                assert(lookup_entry(entries.deep_view(), row.player_name@) == Some(idx as int));
            }
        }
        proof {
            assert(entries.deep_view() =~= ensure_entry(state.entries, row.player_name@));
            assert(lookup_entry(entries.deep_view(), row.player_name@) == Some(idx as int));
        }
        if !(row.street == preflop_word) {
            proof {
                let stopped_state = metrics_step(state, full.skip(k as int)[0]);
                assert(stopped_state.entries =~= entries.deep_view());
                lemma_run_stopped(stopped_state, full.skip(k + 1));
                assert(metrics_run(state, full.skip(k as int)) == metrics_run(
                    stopped_state,
                    full.skip(k + 1),
                ));
                assert(metrics_run(MState::init(), full).entries =~= entries.deep_view());
            }
            return HandMetrics { entries };
        }
        let cur = entries[idx].1;
        let mut next = cur;
        if row.action_type == raise_word {
            if raised && !tbet {
                next.three_bet = true;
                tbet = true;
            }
            raised = true;
            next.vpip = true;
            next.pfr = true;
        } else if row.action_type == call_word {
            next.vpip = true;
            if !raised && !limped {
                next.open_limp = true;
                limped = true;
            }
        }
        let ghost before_update = entries.deep_view();
        entries[idx] = (row.player_name.clone(), next);
        proof {
            assert(entries.deep_view() =~= before_update.update(
                idx as int,
                (row.player_name@, next),
            ));
            assert(metrics_step(state, full.skip(k as int)[0]) == (MState {
                entries: entries.deep_view(),
                limped: limped,
                raised: raised,
                three_bet: tbet,
                stopped: false,
            }));
        }
        k = k + 1;
    }
    HandMetrics { entries }
}

} // verus!

verus! {

/// Flag counts for one player over a set of hands; frequencies are these
/// counts over the number of hands.
#[derive(Debug, PartialEq, Eq, Structural, Clone, Copy)]
pub struct PlayerStatsCounts {
    pub vpip: usize,
    pub pfr: usize,
    pub three_bet: usize,
    pub open_limp: usize,
    pub nb_hands: usize,
}

/// The flag counts of one player over hand/action pairs: each pair where the
/// player has an entry contributes its flags; `nb_hands` counts every pair.
pub open spec fn spec_player_stats(pairs: Seq<(HandRowV, Seq<ActionRowV>)>, name: Seq<char>) -> (
    int,
    int,
    int,
    int,
)
    decreases pairs.len(),
{
    if pairs.len() == 0 {
        (0int, 0int, 0int, 0int)
    } else {
        let (v, p, t, o) = spec_player_stats(pairs.skip(1), name);
        let entries = spec_hand_metrics(pairs[0].1);
        match lookup_entry(entries, name) {
            None => (v, p, t, o),
            Some(i) => {
                let m = entries[i].1;
                (
                    v + if m.vpip {
                        1int
                    } else {
                        0int
                    },
                    p + if m.pfr {
                        1int
                    } else {
                        0int
                    },
                    t + if m.three_bet {
                        1int
                    } else {
                        0int
                    },
                    o + if m.open_limp {
                        1int
                    } else {
                        0int
                    },
                )
            },
        }
    }
}

/// Aggregates one player's flag counts over hands, as the per-player
/// statistics view needs them: each hand's metrics are computed and the
/// player's flags summed; the frequency denominator is the pair count.
pub fn player_stats_counts(player_name: &str, hands_actions: &Vec<(Hand, Vec<Action>)>) -> (r:
    PlayerStatsCounts)
    ensures
        ({
            let (v, p, t, o) = spec_player_stats(hands_actions.deep_view(), player_name@);
            r.vpip == v && r.pfr == p && r.three_bet == t && r.open_limp == o
        }),
        r.nb_hands == hands_actions.len(),
{
    let ghost full = hands_actions.deep_view();
    let mut counts = PlayerStatsCounts { vpip: 0, pfr: 0, three_bet: 0, open_limp: 0, nb_hands: 0 };
    let mut k: usize = 0;
    proof {
        assert(full.skip(0) =~= full);
    }
    loop
        invariant
            0 <= k <= hands_actions.len(),
            full == hands_actions.deep_view(),
            counts.vpip <= k && counts.pfr <= k && counts.three_bet <= k && counts.open_limp <= k,
            ({
                let (v, p, t, o) = spec_player_stats(full, player_name@);
                let (v2, p2, t2, o2) = spec_player_stats(full.skip(k as int), player_name@);
                v == counts.vpip + v2 && p == counts.pfr + p2 && t == counts.three_bet + t2 && o
                    == counts.open_limp + o2
            }),
        ensures
            k == hands_actions.len(),
            ({
                let (v, p, t, o) = spec_player_stats(full, player_name@);
                counts.vpip == v && counts.pfr == p && counts.three_bet == t && counts.open_limp
                    == o
            }),
        decreases hands_actions.len() - k,
    {
        if k == hands_actions.len() {
            proof {
                assert(full.skip(k as int) =~= Seq::<(HandRowV, Seq<ActionRowV>)>::empty());
            }
            break;
        }
        proof {
            assert(full.skip(k as int)[0] == hands_actions[k as int].deep_view());
            assert(full.skip(k as int).skip(1) =~= full.skip(k + 1));
        }
        let metrics = compute_hand_metrics(&hands_actions[k].1);
        match metrics.get(player_name) {
            Some(m) => {
                if m.vpip {
                    counts.vpip = counts.vpip + 1;
                }
                if m.pfr {
                    counts.pfr = counts.pfr + 1;
                }
                if m.three_bet {
                    counts.three_bet = counts.three_bet + 1;
                }
                if m.open_limp {
                    counts.open_limp = counts.open_limp + 1;
                }
            },
            None => {
            },
        }
        k = k + 1;
    }
    counts.nb_hands = hands_actions.len();
    counts
}

} // verus!
