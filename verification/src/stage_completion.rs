use vstd::prelude::*;
use crate::enemy::{spec_fresh_state, EnemyNumberState};
use crate::kill_records::{lemma_sum_counts_three, EnemyKillRecords, ENEMY_TANK_TYPE_COUNT};
use crate::player::PlayerInfo;

verus! {

/// Whose kills the tally is counting up.
#[derive(Clone, Copy, Debug, PartialEq, Eq, Structural)]
pub enum AnimPhase {
    Player1,
    Player2,
}

/// The stage tally: for each enemy kind in turn (a row), the first player's
/// kills count up one at a time, then the second player's.
#[derive(Clone, Copy, Debug)]
pub struct StageCompletionAnim {
    /// Enemy kind being counted (0 to 2); 3 once every row is done.
    pub row: usize,
    pub phase: AnimPhase,
    /// Kills shown so far, per player and per kind.
    pub displayed: [[u32; ENEMY_TANK_TYPE_COUNT]; 2],
    /// The tally has ended and waits for the start key.
    pub finished: bool,
}

/// What a tick of the tally did.
#[derive(Clone, Copy, Debug, PartialEq, Eq, Structural)]
pub enum TallyStep {
    /// The tally had already ended.
    Idle,
    /// The tally ended now: refresh the texts.
    Finished,
    /// One more kill is shown: play a tick sound and refresh the texts.
    Counted,
    /// Moved on to the next player or row without showing anything new.
    Advanced,
}

/// Points per kill a row falls back to: 100, 200 and 500 for the three kinds.
pub open spec fn spec_default_points(row: int) -> usize {
    if row == 1 {
        200
    } else if row == 2 {
        500
    } else {
        100
    }
}

/// Kills of kind `row` in a player's records.
pub open spec fn target(k: EnemyKillRecords, row: int) -> int {
    k.types@[row].count as int
}

/// Kills of kind `row` the second player's column must reach: none when
/// only one player plays.
pub open spec fn target2(k: EnemyKillRecords, row: int, player_count: u8) -> int {
    if player_count >= 2 {
        target(k, row)
    } else {
        0
    }
}

/// Ticks the rows from `from` on take when counted from scratch.
pub open spec fn rest_steps(p1: EnemyKillRecords, p2: EnemyKillRecords, player_count: u8, from: int) -> int
    decreases 3 - from,
{
    if from >= 3 {
        0
    } else {
        target(p1, from) + target2(p2, from, player_count) + 2 + rest_steps(
            p1,
            p2,
            player_count,
            from + 1,
        )
    }
}

/// Ticks a tally takes from its start to its end: one per kill it shows
/// (the second player's only when two play), two per row to move on, and
/// one to end.
pub open spec fn tally_length(p1: EnemyKillRecords, p2: EnemyKillRecords, player_count: u8) -> int {
    p1.total() + (if player_count >= 2 {
        p2.total()
    } else {
        0
    }) + 7
}

/// One tick of the tally takes `s0` to `n` and reports `r`.
pub open spec fn tick_rel(
    s0: StageCompletionAnim,
    n: StageCompletionAnim,
    r: TallyStep,
    p1: EnemyKillRecords,
    p2: EnemyKillRecords,
    player_count: u8,
) -> bool {
    &&& s0.finished ==> r == TallyStep::Idle && n == s0
    &&& !s0.finished && s0.row >= 3 ==> r == TallyStep::Finished
        && n.finished && n.row == s0.row && n.phase == s0.phase
        && n.displayed == s0.displayed
    &&& !s0.finished && s0.row < 3 ==> {
        let row = s0.row as int;
        let s = s0;
        match s.phase {
            AnimPhase::Player1 => if s.shown(0, row) < target(p1, row) {
                &&& r == TallyStep::Counted
                &&& n.displayed@[0]@ == s.displayed@[0]@.update(
                    row,
                    (s.displayed@[0]@[row] + 1) as u32,
                )
                &&& n.displayed@[1] == s.displayed@[1]
                &&& n.row == s.row && n.phase == s.phase
                &&& !n.finished
            } else {
                &&& r == TallyStep::Advanced
                &&& n == (StageCompletionAnim {
                    phase: AnimPhase::Player2,
                    ..s
                })
            },
            AnimPhase::Player2 => if player_count >= 2 && s.shown(1, row) < target(
                p2,
                row,
            ) {
                &&& r == TallyStep::Counted
                &&& n.displayed@[1]@ == s.displayed@[1]@.update(
                    row,
                    (s.displayed@[1]@[row] + 1) as u32,
                )
                &&& n.displayed@[0] == s.displayed@[0]
                &&& n.row == s.row && n.phase == s.phase
                &&& !n.finished
            } else {
                &&& r == TallyStep::Advanced
                &&& n == (StageCompletionAnim {
                    row: (s.row + 1) as usize,
                    phase: AnimPhase::Player1,
                    ..s
                })
            },
        }
    }
}

impl StageCompletionAnim {
    /// Kills shown for player `p` (0 or 1) and kind `r`.
    pub open spec fn shown(&self, p: int, r: int) -> int {
        self.displayed@[p]@[r] as int
    }

    /// The tally is consistent with fixed kill records `p1`, `p2`: nothing
    /// shown exceeds the kills, rows already passed show every kill, and a
    /// finished tally has passed every row.
    pub open spec fn inv(&self, p1: EnemyKillRecords, p2: EnemyKillRecords, player_count: u8) -> bool {
        &&& self.row <= 3
        &&& forall|r: int|
            0 <= r < 3 ==> #[trigger] self.shown(0, r) <= target(p1, r) && self.shown(1, r)
                <= target2(p2, r, player_count)
        &&& forall|r: int|
            0 <= r < self.row ==> #[trigger] self.shown(0, r) == target(p1, r) && self.shown(1, r)
                == target2(p2, r, player_count)
        &&& (self.row < 3 && self.phase == AnimPhase::Player2) ==> self.shown(0, self.row as int)
            == target(p1, self.row as int)
        &&& self.finished ==> self.row == 3
    }

    /// Rows the tally has not reached yet show nothing.
    pub open spec fn untouched_ahead(&self) -> bool {
        forall|p: int, r: int| 0 <= p < 2 && self.row < r < 3 ==> #[trigger] self.shown(p, r) == 0
    }

    /// Ticks left before the tally ends.
    pub open spec fn steps_left(&self, p1: EnemyKillRecords, p2: EnemyKillRecords, player_count: u8) -> int {
        if self.finished {
            0
        } else if self.row >= 3 {
            1
        } else {
            let r = self.row as int;
            let cur = match self.phase {
                AnimPhase::Player1 => (target(p1, r) - self.shown(0, r)) + (target2(
                    p2,
                    r,
                    player_count,
                ) - self.shown(1, r)) + 2,
                AnimPhase::Player2 => (target2(p2, r, player_count) - self.shown(1, r)) + 1,
            };
            1 + cur + rest_steps(p1, p2, player_count, r + 1)
        }
    }

    /// The tally before its first tick.
    pub open spec fn is_start(&self) -> bool {
        &&& self.row == 0
        &&& self.phase == AnimPhase::Player1
        &&& !self.finished
        &&& forall|p: int, r: int| 0 <= p < 2 && 0 <= r < 3 ==> #[trigger] self.shown(p, r) == 0
    }

    /// A tally that has not started.
    pub fn new() -> (r: Self)
        ensures
            r.is_start(),
    {
        StageCompletionAnim {
            row: 0,
            phase: AnimPhase::Player1,
            displayed: [[0, 0, 0], [0, 0, 0]],
            finished: false,
        }
    }

    /// One tick of the tally (its timer fired). `p1` and `p2` are the kill
    /// records of the two players; `player_count` how many play.
    pub fn tick(&mut self, p1: &EnemyKillRecords, p2: &EnemyKillRecords, player_count: u8) -> (r:
        TallyStep)
        ensures
            tick_rel(*old(self), *final(self), r, *p1, *p2, player_count),
    {
        if self.finished {
            return TallyStep::Idle;
        }
        let row = self.row;
        if row >= ENEMY_TANK_TYPE_COUNT {
            self.finished = true;
            return TallyStep::Finished;
        }
        match self.phase {
            AnimPhase::Player1 => {
                let t = p1.count_for_type(row);
                let mut d = self.displayed[0];
                if d[row] < t {
                    d[row] = d[row] + 1;
                    self.displayed[0] = d;
                    return TallyStep::Counted;
                }
                self.phase = AnimPhase::Player2;
                TallyStep::Advanced
            },
            AnimPhase::Player2 => {
                if player_count < 2 {
                    self.row = row + 1;
                    self.phase = AnimPhase::Player1;
                    return TallyStep::Advanced;
                }
                let t = p2.count_for_type(row);
                let mut d = self.displayed[1];
                if d[row] < t {
                    d[row] = d[row] + 1;
                    self.displayed[1] = d;
                    return TallyStep::Counted;
                }
                self.row = row + 1;
                self.phase = AnimPhase::Player1;
                TallyStep::Advanced
            },
        }
    }
}

/// Every row still to count takes at least two ticks.
pub proof fn lemma_rest_steps_nonneg(p1: EnemyKillRecords, p2: EnemyKillRecords, player_count: u8, from: int)
    ensures
        rest_steps(p1, p2, player_count, from) >= 0,
    decreases 3 - from,
{
    if from < 3 {
        lemma_rest_steps_nonneg(p1, p2, player_count, from + 1);
    }
}

/// A tally that has not started is consistent with any kill records.
pub proof fn law_tally_starts_consistent(
    anim: StageCompletionAnim,
    p1: EnemyKillRecords,
    p2: EnemyKillRecords,
    player_count: u8,
)
    requires
        anim.is_start(),
    ensures
        anim.inv(p1, p2, player_count),
{
    assert forall|r: int| 0 <= r < 3 implies #[trigger] anim.shown(0, r) <= target(p1, r)
        && anim.shown(1, r) <= target2(p2, r, player_count) by {
        assert(anim.shown(0, r) == 0);
        assert(anim.shown(1, r) == 0);
    }
}

/// A tick keeps the tally consistent: it never shows more kills than a
/// player made, and rows it leaves show every kill.
pub proof fn law_tally_tick_keeps_consistent(
    s0: StageCompletionAnim,
    n: StageCompletionAnim,
    r: TallyStep,
    p1: EnemyKillRecords,
    p2: EnemyKillRecords,
    player_count: u8,
)
    requires
        s0.inv(p1, p2, player_count),
        tick_rel(s0, n, r, p1, p2, player_count),
    ensures
        n.inv(p1, p2, player_count),
{
    if !s0.finished && s0.row < 3 {
        let row = s0.row as int;
        assert forall|k: int| 0 <= k < 3 implies {
            &&& n.shown(0, k) == s0.shown(0, k) + (if r == TallyStep::Counted && s0.phase
                == AnimPhase::Player1 && k == row {
                1int
            } else {
                0
            })
            &&& n.shown(1, k) == s0.shown(1, k) + (if r == TallyStep::Counted && s0.phase
                == AnimPhase::Player2 && k == row {
                1int
            } else {
                0
            })
        } by {
            assert(s0.shown(0, k) <= target(p1, k));
        }
        assert forall|k: int| 0 <= k < 3 implies #[trigger] n.shown(0, k) <= target(p1, k)
            && n.shown(1, k) <= target2(p2, k, player_count) by {
            assert(s0.shown(0, k) <= target(p1, k));
            assert(s0.shown(1, k) <= target2(p2, k, player_count));
        }
        assert forall|k: int| 0 <= k < n.row implies #[trigger] n.shown(0, k) == target(p1, k)
            && n.shown(1, k) == target2(p2, k, player_count) by {
            assert(s0.shown(0, k) <= target(p1, k));
            assert(s0.shown(1, k) <= target2(p2, k, player_count));
        }
    } else {
        assert forall|k: int| 0 <= k < 3 implies #[trigger] n.shown(0, k) <= target(p1, k)
            && n.shown(1, k) <= target2(p2, k, player_count) by {
            assert(s0.shown(0, k) <= target(p1, k));
            assert(s0.shown(1, k) <= target2(p2, k, player_count));
        }
        assert forall|k: int| 0 <= k < n.row implies #[trigger] n.shown(0, k) == target(p1, k)
            && n.shown(1, k) == target2(p2, k, player_count) by {
            assert(s0.shown(0, k) == target(p1, k));
            assert(s0.shown(1, k) == target2(p2, k, player_count));
        }
    }
}

/// Each tick of an unfinished tally brings its end one step nearer, so the
/// tally always ends.
pub proof fn law_tally_tick_progresses(
    s0: StageCompletionAnim,
    n: StageCompletionAnim,
    r: TallyStep,
    p1: EnemyKillRecords,
    p2: EnemyKillRecords,
    player_count: u8,
)
    requires
        s0.inv(p1, p2, player_count),
        tick_rel(s0, n, r, p1, p2, player_count),
        !s0.finished,
    ensures
        0 <= n.steps_left(p1, p2, player_count) < s0.steps_left(p1, p2, player_count),
{
    law_tally_tick_keeps_consistent(s0, n, r, p1, p2, player_count);
    if s0.row < 3 {
        let row = s0.row as int;
        lemma_rest_steps_nonneg(p1, p2, player_count, row + 1);
        lemma_rest_steps_nonneg(p1, p2, player_count, row + 2);
        assert(s0.shown(0, row) <= target(p1, row));
        assert(s0.shown(1, row) <= target2(p2, row, player_count));
        if n.row < 3 {
            assert(n.shown(0, n.row as int) <= target(p1, n.row as int));
            assert(n.shown(1, n.row as int) <= target2(p2, n.row as int, player_count));
            assert(n.shown(0, n.row as int) >= 0);
            assert(n.shown(1, n.row as int) >= 0);
        }
    }
}

/// A finished tally shows exactly the kills of each player, and nothing in
/// the second player's column when one player plays.
pub proof fn law_tally_ends_with_every_kill(
    anim: StageCompletionAnim,
    p1: EnemyKillRecords,
    p2: EnemyKillRecords,
    player_count: u8,
)
    requires
        anim.inv(p1, p2, player_count),
        anim.finished,
    ensures
        forall|r: int|
            0 <= r < 3 ==> #[trigger] anim.shown(0, r) == target(p1, r) && anim.shown(1, r) == (
            if player_count >= 2 {
                target(p2, r)
            } else {
                0
            }),
{
}

/// Counting every row from scratch, then ending, takes the tally's length.
pub proof fn lemma_rest_steps_from_start(p1: EnemyKillRecords, p2: EnemyKillRecords, player_count: u8)
    ensures
        rest_steps(p1, p2, player_count, 0) + 1 == tally_length(p1, p2, player_count),
{
    reveal_with_fuel(rest_steps, 4);
    lemma_sum_counts_three(p1.types@);
    lemma_sum_counts_three(p2.types@);
}

/// An unfinished consistent tally has at least one tick left; a finished
/// one has none.
pub proof fn lemma_steps_left_positive(
    anim: StageCompletionAnim,
    p1: EnemyKillRecords,
    p2: EnemyKillRecords,
    player_count: u8,
)
    requires
        anim.inv(p1, p2, player_count),
    ensures
        anim.finished <==> anim.steps_left(p1, p2, player_count) == 0,
        anim.steps_left(p1, p2, player_count) >= 0,
{
    if !anim.finished && anim.row < 3 {
        let row = anim.row as int;
        lemma_rest_steps_nonneg(p1, p2, player_count, row + 1);
        assert(anim.shown(0, row) <= target(p1, row));
        assert(anim.shown(1, row) <= target2(p2, row, player_count));
    }
}

/// A tick of an unfinished tally that has not touched the rows ahead leaves
/// them untouched and brings its end exactly one tick nearer.
pub proof fn lemma_tick_takes_one_step(
    s0: StageCompletionAnim,
    n: StageCompletionAnim,
    r: TallyStep,
    p1: EnemyKillRecords,
    p2: EnemyKillRecords,
    player_count: u8,
)
    requires
        s0.inv(p1, p2, player_count),
        s0.untouched_ahead(),
        tick_rel(s0, n, r, p1, p2, player_count),
        !s0.finished,
    ensures
        n.inv(p1, p2, player_count),
        n.untouched_ahead(),
        n.steps_left(p1, p2, player_count) == s0.steps_left(p1, p2, player_count) - 1,
{
    law_tally_tick_keeps_consistent(s0, n, r, p1, p2, player_count);
    if s0.row < 3 {
        let row = s0.row as int;
        assert(s0.shown(0, row) <= target(p1, row));
        assert(s0.shown(1, row) <= target2(p2, row, player_count));
        assert forall|p: int, k: int| 0 <= p < 2 && n.row < k < 3 implies #[trigger] n.shown(p, k)
            == 0 by {
            assert(s0.shown(p, k) == 0);
            assert(s0.shown(0, k) == 0);
            assert(s0.shown(1, k) == 0);
        }
        if n.row > s0.row && n.row < 3 {
            let nr = n.row as int;
            assert(s0.shown(0, nr) == 0);
            assert(s0.shown(1, nr) == 0);
            assert(n.shown(0, nr) == 0);
            assert(n.shown(1, nr) == 0);
        }
    }
}

/// The tally ends after exactly `tally_length` ticks: run from its start,
/// it is unfinished after fewer ticks and finished after that many or more,
/// and then it shows exactly each player's kills (nothing in the second
/// player's column when one player plays). `states[k]` is the tally after
/// `k` ticks, `steps[k]` what tick `k + 1` reported.
pub proof fn law_tally_takes_exact_ticks(
    states: Seq<StageCompletionAnim>,
    steps: Seq<TallyStep>,
    p1: EnemyKillRecords,
    p2: EnemyKillRecords,
    player_count: u8,
)
    requires
        states.len() == steps.len() + 1,
        states[0].is_start(),
        forall|k: int|
            0 <= k < steps.len() ==> tick_rel(states[k], states[k + 1], #[trigger] steps[k], p1, p2, player_count),
    ensures
        forall|k: int|
            0 <= k < states.len() ==> ((#[trigger] states[k]).finished <==> k >= tally_length(
                p1,
                p2,
                player_count,
            )),
        forall|k: int, r: int|
            0 <= k < states.len() && states[k].finished && 0 <= r < 3 ==> #[trigger] states[k].shown(0, r)
                == target(p1, r) && states[k].shown(1, r) == (if player_count >= 2 {
                target(p2, r)
            } else {
                0
            }),
{
    assert forall|k: int| 0 <= k < states.len() implies ((#[trigger] states[k]).finished <==> k
        >= tally_length(p1, p2, player_count)) && states[k].inv(p1, p2, player_count) by {
        lemma_tally_prefix(states, steps, p1, p2, player_count, k);
        lemma_steps_left_positive(states[k], p1, p2, player_count);
    }
    assert forall|k: int, r: int|
        0 <= k < states.len() && states[k].finished && 0 <= r < 3 implies #[trigger] states[k].shown(0, r)
            == target(p1, r) && states[k].shown(1, r) == (if player_count >= 2 {
            target(p2, r)
        } else {
            0
        }) by {
        lemma_tally_prefix(states, steps, p1, p2, player_count, k);
        law_tally_ends_with_every_kill(states[k], p1, p2, player_count);
    }
}

/// After `k` ticks from the start the tally is consistent, has not touched
/// the rows ahead, and has `tally_length - k` ticks left (none once past).
proof fn lemma_tally_prefix(
    states: Seq<StageCompletionAnim>,
    steps: Seq<TallyStep>,
    p1: EnemyKillRecords,
    p2: EnemyKillRecords,
    player_count: u8,
    k: int,
)
    requires
        states.len() == steps.len() + 1,
        states[0].is_start(),
        forall|j: int|
            0 <= j < steps.len() ==> tick_rel(states[j], states[j + 1], #[trigger] steps[j], p1, p2, player_count),
        0 <= k < states.len(),
    ensures
        states[k].inv(p1, p2, player_count),
        states[k].untouched_ahead(),
        states[k].steps_left(p1, p2, player_count) == if k <= tally_length(p1, p2, player_count) {
            tally_length(p1, p2, player_count) - k
        } else {
            0
        },
    decreases k,
{
    let len = tally_length(p1, p2, player_count);
    if k == 0 {
        let s = states[0];
        law_tally_starts_consistent(s, p1, p2, player_count);
        lemma_rest_steps_from_start(p1, p2, player_count);
        assert(s.shown(0, 0) == 0);
        assert(s.shown(1, 0) == 0);
        assert forall|p: int, r: int| 0 <= p < 2 && s.row < r < 3 implies #[trigger] s.shown(p, r)
            == 0 by {}
        lemma_rest_steps_nonneg(p1, p2, player_count, 0);
    } else {
        lemma_tally_prefix(states, steps, p1, p2, player_count, k - 1);
        let s0 = states[k - 1];
        let n = states[k];
        assert(tick_rel(s0, n, steps[k - 1], p1, p2, player_count));
        lemma_steps_left_positive(s0, p1, p2, player_count);
        if !s0.finished {
            lemma_tick_takes_one_step(s0, n, steps[k - 1], p1, p2, player_count);
        }
    }
}

/// `r` is the index of the first player with id `id`, or `None` when no
/// player has it.
pub open spec fn is_first_with_id(players: Seq<PlayerInfo>, id: u8, r: Option<usize>) -> bool {
    match r {
        Some(i) => i < players.len() && players[i as int].id == id && forall|j: int|
            0 <= j < i ==> #[trigger] players[j].id != id,
        None => forall|j: int| 0 <= j < players.len() ==> #[trigger] players[j].id != id,
    }
}

/// Index of the first player with id `id`.
pub fn first_with_id(players: &Vec<PlayerInfo>, id: u8) -> (r: Option<usize>)
    ensures
        is_first_with_id(players@, id, r),
{
    let mut i: usize = 0;
    while i < players.len()
        invariant
            i <= players@.len(),
            forall|j: int| 0 <= j < i ==> #[trigger] players@[j].id != id,
        decreases players@.len() - i,
    {
        if players[i].id == id {
            return Some(i);
        }
        i = i + 1;
    }
    None
}

/// Whose header (name and score) the tally screen shows, as indexes into
/// `players`: the first player's whenever that player takes part, the
/// second's only in a two-player game and when that player takes part.
pub fn tally_headers(players: &Vec<PlayerInfo>, player_count: u8) -> (r: (Option<usize>, Option<usize>))
    ensures
        player_count >= 1 ==> is_first_with_id(players@, 1, r.0),
        player_count < 1 ==> r.0 is None,
        player_count >= 2 ==> is_first_with_id(players@, 2, r.1),
        player_count < 2 ==> r.1 is None,
{
    let first = if player_count >= 1 {
        first_with_id(players, 1)
    } else {
        None
    };
    let second = if player_count >= 2 {
        first_with_id(players, 2)
    } else {
        None
    };
    (first, second)
}

/// Points per kill a row falls back to when none was recorded.
pub fn default_points_for_row(row: usize) -> (r: usize)
    ensures
        r == spec_default_points(row as int),
{
    if row == 1 {
        200
    } else if row == 2 {
        500
    } else {
        100
    }
}

/// Points per kill a row shows: the recorded value, at least the default.
pub fn shown_points_per_kill(kills: &EnemyKillRecords, row: usize) -> (r: usize)
    requires
        row < ENEMY_TANK_TYPE_COUNT,
    ensures
        r == (if kills.types@[row as int].points_per_kill >= spec_default_points(row as int) {
            kills.types@[row as int].points_per_kill
        } else {
            spec_default_points(row as int)
        }),
{
    let recorded = kills.points_per_kill(row);
    let fallback = default_points_for_row(row);
    if recorded >= fallback {
        recorded
    } else {
        fallback
    }
}

/// Points a row shows for a player: kills shown times points per kill.
pub fn row_points(shown: u32, points_per_kill: usize) -> (r: usize)
    requires
        shown * points_per_kill <= usize::MAX,
    ensures
        r == shown * points_per_kill,
{
    (shown as usize) * points_per_kill
}

/// Total kills shown for player `p` (0 or 1).
pub fn shown_total(anim: &StageCompletionAnim, p: usize) -> (r: u32)
    requires
        p < 2,
        anim.shown(p as int, 0) + anim.shown(p as int, 1) + anim.shown(p as int, 2) <= u32::MAX,
    ensures
        r == anim.shown(p as int, 0) + anim.shown(p as int, 1) + anim.shown(p as int, 2),
{
    let d = anim.displayed[p];
    d[0] + d[1] + d[2]
}

/// Moves to the next stage once the tally is acknowledged: the stage number
/// goes up, the enemy counts start over and every player's kills are
/// cleared (the rest of each player's stats is kept).
pub fn advance_stage(
    stage: &mut usize,
    enemies: &mut EnemyNumberState,
    players: &mut Vec<PlayerInfo>,
)
    requires
        *old(stage) < usize::MAX,
    ensures
        *final(stage) == *old(stage) + 1,
        *final(enemies) == spec_fresh_state(),
        final(players)@.len() == old(players)@.len(),
        forall|i: int|
            0 <= i < final(players)@.len() ==> {
                let n = #[trigger] final(players)@[i];
                let o = old(players)@[i];
                &&& n.enemy_kills.is_empty()
                &&& n.id == o.id && n.level == o.level && n.life == o.life
                &&& n.chance == o.chance && n.score == o.score && n.move_sound == o.move_sound
            },
{
    *stage = *stage + 1;
    enemies.reset();
    let mut i: usize = 0;
    while i < players.len()
        invariant
            i <= players@.len(),
            players@.len() == old(players)@.len(),
            forall|j: int|
                0 <= j < players@.len() ==> {
                    let n = #[trigger] players@[j];
                    let o = old(players)@[j];
                    &&& j < i ==> n.enemy_kills.is_empty()
                    &&& j >= i ==> n == o
                    &&& n.id == o.id && n.level == o.level && n.life == o.life
                    &&& n.chance == o.chance && n.score == o.score && n.move_sound == o.move_sound
                },
        decreases players@.len() - i,
    {
        let mut p = players[i];
        p.enemy_kills.reset();
        players[i] = p;
        i = i + 1;
    }
}

} // verus!
