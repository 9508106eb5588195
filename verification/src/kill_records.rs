use vstd::prelude::*;

verus! {

/// Number of enemy tank kinds (light, fast, heavy).
pub const ENEMY_TANK_TYPE_COUNT: usize = 3;

/// Kill record for one kind of enemy tank.
#[derive(Clone, Copy, Debug)]
pub struct EnemyTypeKill {
    pub count: u32,
    pub points_per_kill: usize,
}

/// A player's kills, one record per enemy tank kind (kinds 1 to 3).
#[derive(Clone, Copy, Debug)]
pub struct EnemyKillRecords {
    pub types: [EnemyTypeKill; ENEMY_TANK_TYPE_COUNT],
}

/// A record with no kills and no points.
pub open spec fn empty_kill() -> EnemyTypeKill {
    EnemyTypeKill { count: 0, points_per_kill: 0 }
}

/// Sum of the kill counts of a sequence of records.
pub open spec fn sum_counts(s: Seq<EnemyTypeKill>) -> int
    decreases s.len(),
{
    if s.len() == 0 {
        0
    } else {
        sum_counts(s.drop_last()) + s.last().count
    }
}

impl Default for EnemyTypeKill {
    fn default() -> (r: Self)
        ensures
            r == empty_kill(),
    {
        EnemyTypeKill { count: 0, points_per_kill: 0 }
    }
}

impl Default for EnemyKillRecords {
    fn default() -> (r: Self)
        ensures
            r.is_empty(),
    {
        let e = EnemyTypeKill { count: 0, points_per_kill: 0 };
        EnemyKillRecords { types: [e, e, e] }
    }
}

impl EnemyKillRecords {
    /// Every record holds no kills and no points.
    pub open spec fn is_empty(&self) -> bool {
        forall|i: int| 0 <= i < ENEMY_TANK_TYPE_COUNT ==> #[trigger] self.types@[i] == empty_kill()
    }

    /// Total number of kills over all kinds.
    pub open spec fn total(&self) -> int {
        sum_counts(self.types@)
    }

    /// The records after a kill of tank kind `tank_type` worth `score`:
    /// kinds outside 1 to 3 leave the records unchanged.
    pub open spec fn recorded(old_types: Seq<EnemyTypeKill>, tank_type: u8, score: usize) -> Seq<
        EnemyTypeKill,
    > {
        if 1 <= tank_type <= ENEMY_TANK_TYPE_COUNT {
            let i = tank_type - 1;
            old_types.update(
                i,
                EnemyTypeKill { count: (old_types[i].count + 1) as u32, points_per_kill: score },
            )
        } else {
            old_types
        }
    }

    /// Counts one kill of enemy tank kind `tank_type` (1 to 3) worth `score`
    /// points; any other kind is ignored.
    pub fn record(&mut self, tank_type: u8, score: usize)
        requires
            1 <= tank_type,
            tank_type <= ENEMY_TANK_TYPE_COUNT ==> old(self).types@[tank_type - 1].count
                < u32::MAX,
        ensures
            final(self).types@ == Self::recorded(old(self).types@, tank_type, score),
    {
        let index = (tank_type - 1) as usize;
        if index >= ENEMY_TANK_TYPE_COUNT {
            return;
        }
        let mut slot = self.types[index];
        slot.count = slot.count + 1;
        slot.points_per_kill = score;
        self.types[index] = slot;
    }

    /// Kills of the kind at `type_index` (0-based).
    pub fn count_for_type(&self, type_index: usize) -> (r: u32)
        requires
            type_index < ENEMY_TANK_TYPE_COUNT,
        ensures
            r == self.types@[type_index as int].count,
    {
        self.types[type_index].count
    }

    /// Points earned for the kind at `type_index`: kills times points per kill.
    pub fn points_for_type(&self, type_index: usize) -> (r: usize)
        requires
            type_index < ENEMY_TANK_TYPE_COUNT,
            self.types@[type_index as int].count * self.types@[type_index as int].points_per_kill
                <= usize::MAX,
        ensures
            r == self.types@[type_index as int].count * self.types@[type_index as int].points_per_kill,
    {
        let entry = self.types[type_index];
        (entry.count as usize) * entry.points_per_kill
    }

    /// Points per kill last recorded for the kind at `type_index`.
    pub fn points_per_kill(&self, type_index: usize) -> (r: usize)
        requires
            type_index < ENEMY_TANK_TYPE_COUNT,
        ensures
            r == self.types@[type_index as int].points_per_kill,
    {
        self.types[type_index].points_per_kill
    }

    /// Kills over all kinds.
    pub fn total_kills(&self) -> (r: u32)
        requires
            self.total() <= u32::MAX,
        ensures
            r == self.total(),
    {
        let mut sum: u32 = 0;
        let mut i: usize = 0;
        while i < ENEMY_TANK_TYPE_COUNT
            invariant
                i <= ENEMY_TANK_TYPE_COUNT,
                self.total() <= u32::MAX,
                sum == sum_counts(self.types@.take(i as int)),
            decreases ENEMY_TANK_TYPE_COUNT - i,
        {
            proof {
                lemma_sum_counts_prefix_le(self.types@, (i + 1) as int);
                assert(self.types@.take(i + 1).drop_last() =~= self.types@.take(i as int));
            }
            sum = sum + self.types[i].count;
            i = i + 1;
        }
        proof {
            assert(self.types@.take(ENEMY_TANK_TYPE_COUNT as int) =~= self.types@);
        }
        sum
    }

    /// Clears every record.
    pub fn reset(&mut self)
        ensures
            final(self).is_empty(),
    {
        *self = Self::default();
    }
}

/// A prefix never holds more kills than the whole sequence.
pub proof fn lemma_sum_counts_prefix_le(s: Seq<EnemyTypeKill>, n: int)
    requires
        0 <= n <= s.len(),
    ensures
        sum_counts(s.take(n)) <= sum_counts(s),
    decreases s.len(),
{
    if n < s.len() {
        lemma_sum_counts_prefix_le(s.drop_last(), n);
        assert(s.drop_last().take(n) =~= s.take(n));
    } else {
        assert(s.take(n) =~= s);
    }
}

/// The total of three records is the sum of their counts.
pub proof fn lemma_sum_counts_three(s: Seq<EnemyTypeKill>)
    requires
        s.len() == 3,
    ensures
        sum_counts(s) == s[0].count + s[1].count + s[2].count,
{
    reveal_with_fuel(sum_counts, 4);
    assert(s.drop_last().drop_last().drop_last() =~= Seq::<EnemyTypeKill>::empty());
}

/// Recording a kill of kind 1 to 3 adds one to that kind's count and to the
/// total, sets its points per kill, and leaves the other kinds alone; a kill
/// of any other kind changes nothing.
pub proof fn law_record_adds_one_kill(records: EnemyKillRecords, tank_type: u8, score: usize)
    requires
        1 <= tank_type <= 3 ==> records.types@[tank_type - 1].count < u32::MAX,
    ensures
        ({
            let n = EnemyKillRecords::recorded(records.types@, tank_type, score);
            &&& 1 <= tank_type <= 3 ==> {
                &&& sum_counts(n) == records.total() + 1
                &&& n[tank_type - 1].count == records.types@[tank_type - 1].count + 1
                &&& n[tank_type - 1].points_per_kill == score
                &&& forall|j: int| 0 <= j < 3 && j != tank_type - 1 ==> #[trigger] n[j] == records.types@[j]
            }
            &&& !(1 <= tank_type <= 3) ==> n == records.types@
        }),
{
    let n = EnemyKillRecords::recorded(records.types@, tank_type, score);
    lemma_sum_counts_three(records.types@);
    if 1 <= tank_type <= 3 {
        lemma_sum_counts_three(n);
    }
}

/// Records after a sequence of kills, each given as (kind, score), counted
/// one by one from `start`.
pub open spec fn replay(start: Seq<EnemyTypeKill>, kills: Seq<(u8, usize)>) -> Seq<EnemyTypeKill>
    decreases kills.len(),
{
    if kills.len() == 0 {
        start
    } else {
        EnemyKillRecords::recorded(replay(start, kills.drop_last()), kills.last().0, kills.last().1)
    }
}

/// Score of the most recent kill of kind `kind` in a sequence of kills, or 0
/// when there is none.
pub open spec fn last_score(kills: Seq<(u8, usize)>, kind: int) -> usize
    decreases kills.len(),
{
    if kills.len() == 0 {
        0
    } else if kills.last().0 == kind {
        kills.last().1
    } else {
        last_score(kills.drop_last(), kind)
    }
}

/// Starting from cleared records (a new game or a new stage), the points per
/// kill of each kind are those of the most recent kill of that kind, or 0
/// when there was none; there stay three records.
pub proof fn law_points_per_kill_is_last_score(records: EnemyKillRecords, kills: Seq<(u8, usize)>)
    requires
        records.is_empty(),
    ensures
        replay(records.types@, kills).len() == 3,
        forall|i: int|
            0 <= i < 3 ==> (#[trigger] replay(records.types@, kills)[i]).points_per_kill
                == last_score(kills, i + 1),
    decreases kills.len(),
{
    if kills.len() == 0 {
        assert forall|i: int| 0 <= i < 3 implies (#[trigger] replay(records.types@, kills)[i]).points_per_kill
            == last_score(kills, i + 1) by {
            assert(records.types@[i] == empty_kill());
        }
    } else {
        law_points_per_kill_is_last_score(records, kills.drop_last());
        let prev = replay(records.types@, kills.drop_last());
        assert forall|i: int| 0 <= i < 3 implies (#[trigger] replay(records.types@, kills)[i]).points_per_kill
            == last_score(kills, i + 1) by {
            assert(prev[i].points_per_kill == last_score(kills.drop_last(), i + 1));
        }
    }
}

/// Cleared records hold no kill at all.
pub proof fn law_cleared_records_total_zero(records: EnemyKillRecords)
    requires
        records.is_empty(),
    ensures
        records.total() == 0,
        forall|i: int| 0 <= i < 3 ==> (#[trigger] records.types@[i]).count == 0
            && records.types@[i].points_per_kill == 0,
{
    lemma_sum_counts_three(records.types@);
    assert(records.types@[0] == empty_kill());
    assert(records.types@[1] == empty_kill());
    assert(records.types@[2] == empty_kill());
    assert forall|i: int| 0 <= i < 3 implies (#[trigger] records.types@[i]).count == 0
        && records.types@[i].points_per_kill == 0 by {
        assert(records.types@[i] == empty_kill());
    }
}

} // verus!
