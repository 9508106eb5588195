use vstd::prelude::*;

verus! {

/// Cells of the stone ring around the camp.
pub const RING_CELLS: usize = 12;

/// Half the side of a stone cell, in pixels.
pub const STONE_CELL_HALF: i64 = 4;

/// Half the side of a red brick, in pixels.
pub const RED_BRICK_HALF: i64 = 2;

/// The shovel's walls around the camp. The effect's timer lives with the
/// caller, which says whether it has run out.
pub struct CampShovelEffect {
    /// Stones the shovel put up.
    pub spawned_stones: Vec<u64>,
    /// Red bricks hidden under those stones.
    pub hidden_red_bricks: Vec<u64>,
}

/// Offset of ring cell `i` from the camp centre: the twelve 8-pixel cells
/// around the 16-pixel camp, bottom row, sides, then top row.
pub open spec fn spec_ring_offset(i: int) -> (int, int) {
    if i == 0 {
        (-12, -12)
    } else if i == 1 {
        (-4, -12)
    } else if i == 2 {
        (4, -12)
    } else if i == 3 {
        (12, -12)
    } else if i == 4 {
        (-12, -4)
    } else if i == 5 {
        (12, -4)
    } else if i == 6 {
        (-12, 4)
    } else if i == 7 {
        (12, 4)
    } else if i == 8 {
        (-12, 12)
    } else if i == 9 {
        (-4, 12)
    } else if i == 10 {
        (4, 12)
    } else {
        (12, 12)
    }
}

/// `d` is a cell offset on the ring of 8-pixel cells around the 16-pixel
/// camp: both coordinates are cell centres (-12, -4, 4 or 12) and at least
/// one of them lies on the ring's outer edge.
pub open spec fn on_camp_ring(d: (int, int)) -> bool {
    let on_grid = |x: int| x == -12 || x == -4 || x == 4 || x == 12;
    &&& on_grid(d.0)
    &&& on_grid(d.1)
    &&& (d.0 == 12 || d.0 == -12 || d.1 == 12 || d.1 == -12)
}

/// The twelve ring offsets are pairwise distinct and each lies on the ring,
/// and every cell of the ring is one of them: the stones cover the ring
/// once, with no hole and no two on one cell. They come row by row from
/// the bottom, left to right within a row.
pub proof fn law_ring_cells_surround_camp()
    ensures
        forall|i: int| 0 <= i < 12 ==> on_camp_ring(#[trigger] spec_ring_offset(i)),
        forall|i: int, j: int|
            0 <= i < j < 12 ==> #[trigger] spec_ring_offset(i) != #[trigger] spec_ring_offset(j),
        forall|i: int, j: int|
            0 <= i < j < 12 ==> #[trigger] spec_ring_offset(i).1 < #[trigger] spec_ring_offset(j).1
                || (spec_ring_offset(i).1 == spec_ring_offset(j).1 && spec_ring_offset(i).0
                < spec_ring_offset(j).0),
        forall|d: (int, int)|
            #![trigger on_camp_ring(d)]
            on_camp_ring(d) ==> exists|i: int| 0 <= i < 12 && spec_ring_offset(i) == d,
{
    assert forall|d: (int, int)| on_camp_ring(d) implies exists|i: int|
        0 <= i < 12 && spec_ring_offset(i) == d by {
        if d == spec_ring_offset(0) {} else if d == spec_ring_offset(1) {} else if d == spec_ring_offset(2) {}
        else if d == spec_ring_offset(3) {} else if d == spec_ring_offset(4) {} else if d == spec_ring_offset(5) {}
        else if d == spec_ring_offset(6) {} else if d == spec_ring_offset(7) {} else if d == spec_ring_offset(8) {}
        else if d == spec_ring_offset(9) {} else if d == spec_ring_offset(10) {} else {
            assert(d == spec_ring_offset(11));
        }
    }
}

/// A 4-pixel brick centred at `b` overlaps the 8-pixel cell centred at `c`
/// (touching counts).
pub open spec fn spec_overlaps(b: (i32, i32), c: (i64, i64)) -> bool {
    let dx = b.0 - c.0;
    let dy = b.1 - c.1;
    -(RED_BRICK_HALF + STONE_CELL_HALF) <= dx <= RED_BRICK_HALF + STONE_CELL_HALF && -(
    RED_BRICK_HALF + STONE_CELL_HALF) <= dy <= RED_BRICK_HALF + STONE_CELL_HALF
}

/// A brick at `b` lies in the ring whose cell centres are `centres`.
pub open spec fn spec_in_ring(b: (i32, i32), centres: Seq<(i64, i64)>) -> bool {
    exists|i: int| 0 <= i < centres.len() && spec_overlaps(b, #[trigger] centres[i])
}

/// `s` without the ids listed in `removed`, order kept.
pub open spec fn without(s: Seq<u64>, removed: Seq<u64>) -> Seq<u64>
    decreases s.len(),
{
    if s.len() == 0 {
        Seq::empty()
    } else {
        let rest = without(s.drop_last(), removed);
        if removed.contains(s.last()) {
            rest
        } else {
            rest.push(s.last())
        }
    }
}

/// Ids in `items` whose position lies in the ring, order kept.
pub open spec fn in_ring_ids(items: Seq<(u64, (i32, i32))>, centres: Seq<(i64, i64)>) -> Seq<u64>
    decreases items.len(),
{
    if items.len() == 0 {
        Seq::empty()
    } else {
        let rest = in_ring_ids(items.drop_last(), centres);
        if spec_in_ring(items.last().1, centres) {
            rest.push(items.last().0)
        } else {
            rest
        }
    }
}

/// Offset of ring cell `i` from the camp centre.
pub fn ring_offset(i: usize) -> (r: (i64, i64))
    requires
        i < RING_CELLS,
    ensures
        (r.0 as int, r.1 as int) == spec_ring_offset(i as int),
{
    if i == 0 {
        (-12, -12)
    } else if i == 1 {
        (-4, -12)
    } else if i == 2 {
        (4, -12)
    } else if i == 3 {
        (12, -12)
    } else if i == 4 {
        (-12, -4)
    } else if i == 5 {
        (12, -4)
    } else if i == 6 {
        (-12, 4)
    } else if i == 7 {
        (12, 4)
    } else if i == 8 {
        (-12, 12)
    } else if i == 9 {
        (-4, 12)
    } else if i == 10 {
        (4, 12)
    } else {
        (12, 12)
    }
}

/// Centres of the twelve ring cells around the camp centred at `camp`
/// (pixel coordinates).
pub fn camp_ring_cell_centers(camp: (i32, i32)) -> (r: Vec<(i64, i64)>)
    ensures
        r@.len() == RING_CELLS,
        forall|i: int|
            0 <= i < RING_CELLS ==> #[trigger] r@[i] == (
            (camp.0 + spec_ring_offset(i).0) as i64,
            (camp.1 + spec_ring_offset(i).1) as i64,
        ),
        forall|i: int, j: int| 0 <= i < j < RING_CELLS ==> #[trigger] r@[i] != #[trigger] r@[j],
{
    proof {
        law_ring_cells_surround_camp();
    }
    let mut v: Vec<(i64, i64)> = Vec::new();
    let mut i: usize = 0;
    while i < RING_CELLS
        invariant
            i <= RING_CELLS,
            v@.len() == i,
            forall|k: int|
                0 <= k < i ==> #[trigger] v@[k] == (
                (camp.0 + spec_ring_offset(k).0) as i64,
                (camp.1 + spec_ring_offset(k).1) as i64,
            ),
        decreases RING_CELLS - i,
    {
        let (dx, dy) = ring_offset(i);
        v.push((camp.0 as i64 + dx, camp.1 as i64 + dy));
        i = i + 1;
    }
    v
}

/// Whether a brick centred at `b` overlaps the cell centred at `c`.
pub fn brick_overlaps_cell(b: (i32, i32), c: (i64, i64)) -> (r: bool)
    requires
        -0x4000_0000_0000_0000 <= c.0 <= 0x4000_0000_0000_0000,
        -0x4000_0000_0000_0000 <= c.1 <= 0x4000_0000_0000_0000,
    ensures
        r == spec_overlaps(b, c),
{
    let dx = b.0 as i64 - c.0;
    let dy = b.1 as i64 - c.1;
    let reach = RED_BRICK_HALF + STONE_CELL_HALF;
    -reach <= dx && dx <= reach && -reach <= dy && dy <= reach
}

/// Whether a brick centred at `b` lies in the ring.
pub fn in_camp_ring(b: (i32, i32), centres: &Vec<(i64, i64)>) -> (r: bool)
    requires
        forall|i: int|
            0 <= i < centres@.len() ==> -0x4000_0000_0000_0000 <= (#[trigger] centres@[i]).0
                <= 0x4000_0000_0000_0000 && -0x4000_0000_0000_0000 <= centres@[i].1
                <= 0x4000_0000_0000_0000,
    ensures
        r == spec_in_ring(b, centres@),
{
    let mut i: usize = 0;
    while i < centres.len()
        invariant
            i <= centres@.len(),
            forall|k: int|
                0 <= k < centres@.len() ==> -0x4000_0000_0000_0000 <= (#[trigger] centres@[k]).0
                    <= 0x4000_0000_0000_0000 && -0x4000_0000_0000_0000 <= centres@[k].1
                    <= 0x4000_0000_0000_0000,
            forall|k: int| 0 <= k < i ==> !spec_overlaps(b, #[trigger] centres@[k]),
        decreases centres@.len() - i,
    {
        if brick_overlaps_cell(b, centres[i]) {
            return true;
        }
        i = i + 1;
    }
    false
}

/// Ids of the walls in `items` (id and centre) that lie in the ring.
pub fn walls_in_ring(items: &Vec<(u64, (i32, i32))>, centres: &Vec<(i64, i64)>) -> (r: Vec<u64>)
    requires
        forall|i: int|
            0 <= i < centres@.len() ==> -0x4000_0000_0000_0000 <= (#[trigger] centres@[i]).0
                <= 0x4000_0000_0000_0000 && -0x4000_0000_0000_0000 <= centres@[i].1
                <= 0x4000_0000_0000_0000,
    ensures
        r@ == in_ring_ids(items@, centres@),
{
    let mut v: Vec<u64> = Vec::new();
    let mut i: usize = 0;
    while i < items.len()
        invariant
            i <= items@.len(),
            forall|k: int|
                0 <= k < centres@.len() ==> -0x4000_0000_0000_0000 <= (#[trigger] centres@[k]).0
                    <= 0x4000_0000_0000_0000 && -0x4000_0000_0000_0000 <= centres@[k].1
                    <= 0x4000_0000_0000_0000,
            v@ == in_ring_ids(items@.take(i as int), centres@),
        decreases items@.len() - i,
    {
        proof {
            assert(items@.take(i + 1).drop_last() =~= items@.take(i as int));
        }
        let (id, pos) = items[i];
        if in_camp_ring(pos, centres) {
            v.push(id);
        }
        i = i + 1;
    }
    proof {
        assert(items@.take(items@.len() as int) =~= items@);
    }
    v
}

/// Whether `s` holds `x`.
pub fn contains_id(s: &Vec<u64>, x: u64) -> (r: bool)
    ensures
        r == s@.contains(x),
{
    let mut i: usize = 0;
    while i < s.len()
        invariant
            i <= s@.len(),
            forall|k: int| 0 <= k < i ==> s@[k] != x,
        decreases s@.len() - i,
    {
        if s[i] == x {
            return true;
        }
        i = i + 1;
    }
    false
}

/// `s` without the ids in `removed`.
pub fn remove_ids(s: &Vec<u64>, removed: &Vec<u64>) -> (r: Vec<u64>)
    ensures
        r@ == without(s@, removed@),
{
    let mut v: Vec<u64> = Vec::new();
    let mut i: usize = 0;
    while i < s.len()
        invariant
            i <= s@.len(),
            v@ == without(s@.take(i as int), removed@),
        decreases s@.len() - i,
    {
        proof {
            assert(s@.take(i + 1).drop_last() =~= s@.take(i as int));
        }
        if !contains_id(removed, s[i]) {
            v.push(s[i]);
        }
        i = i + 1;
    }
    proof {
        assert(s@.take(s@.len() as int) =~= s@);
    }
    v
}

/// Nothing listed in `removed` survives in `without(s, removed)`, and
/// everything else does.
pub proof fn lemma_without_contains(s: Seq<u64>, removed: Seq<u64>, x: u64)
    ensures
        without(s, removed).contains(x) <==> (s.contains(x) && !removed.contains(x)),
    decreases s.len(),
{
    if s.len() > 0 {
        let d = s.drop_last();
        let l = s.last();
        lemma_without_contains(d, removed, x);
        let rest = without(d, removed);
        if d.contains(x) {
            let k = choose|k: int| 0 <= k < d.len() && d[k] == x;
            assert(s[k] == x);
        }
        if s.contains(x) && l != x {
            let k = choose|k: int| 0 <= k < s.len() && s[k] == x;
            assert(d[k] == x);
        }
        assert(s[s.len() - 1] == l);
        if !removed.contains(l) {
            let p = rest.push(l);
            assert(p[rest.len() as int] == l);
            if rest.contains(x) {
                let k = choose|k: int| 0 <= k < rest.len() && rest[k] == x;
                assert(p[k] == x);
            }
            if p.contains(x) {
                let k = choose|k: int| 0 <= k < p.len() && p[k] == x;
                if k < rest.len() {
                    assert(rest[k] == x);
                }
            }
        }
    }
}

impl CampShovelEffect {
    /// No shovel effect.
    pub fn new() -> (r: Self)
        ensures
            r.spawned_stones@.len() == 0,
            r.hidden_red_bricks@.len() == 0,
    {
        CampShovelEffect { spawned_stones: Vec::new(), hidden_red_bricks: Vec::new() }
    }

    /// The stone walls stand: some were put up and their time has not run
    /// out. Picking up another shovel then only restarts the timer.
    pub fn is_active(&self, timer_finished: bool) -> (r: bool)
        ensures
            r == (self.spawned_stones@.len() > 0 && !timer_finished),
    {
        self.spawned_stones.len() > 0 && !timer_finished
    }

    /// The timer only runs while stones stand.
    pub fn needs_tick(&self) -> (r: bool)
        ensures
            r == (self.spawned_stones@.len() > 0),
    {
        self.spawned_stones.len() > 0
    }

    /// The shovel takes effect: `hidden` are the red bricks in the ring, now
    /// hidden, and `stones` the stones just put up.
    pub fn begin(&mut self, hidden: Vec<u64>, stones: Vec<u64>)
        ensures
            final(self).hidden_red_bricks@ == hidden@,
            final(self).spawned_stones@ == old(self).spawned_stones@ + stones@,
    {
        self.hidden_red_bricks = hidden;
        let mut i: usize = 0;
        while i < stones.len()
            invariant
                i <= stones@.len(),
                self.hidden_red_bricks@ == hidden@,
                self.spawned_stones@ == old(self).spawned_stones@ + stones@.take(i as int),
            decreases stones@.len() - i,
        {
            proof {
                assert(stones@.take(i + 1) =~= stones@.take(i as int).push(stones@[i as int]));
            }
            self.spawned_stones.push(stones[i]);
            i = i + 1;
        }
        proof {
            assert(stones@.take(stones@.len() as int) =~= stones@);
        }
    }

    /// An enemy's shovel tore down the ring for good: `bricks_removed` (red
    /// bricks, shown or hidden) and `stones_removed` are the walls
    /// destroyed. The effect forgets them; if no stone of it is left while
    /// its time runs, it ends at once (the result says so, and the caller
    /// finishes the timer) and no brick comes back. The ring stays cleared.
    pub fn tear_down(
        &mut self,
        bricks_removed: &Vec<u64>,
        stones_removed: &Vec<u64>,
        timer_finished: bool,
        ring_cleared: &mut bool,
    ) -> (end_now: bool)
        ensures
            *final(ring_cleared),
            final(self).spawned_stones@ == without(
                old(self).spawned_stones@,
                bricks_removed@ + stones_removed@,
            ),
            end_now == (final(self).spawned_stones@.len() == 0 && !timer_finished),
            end_now ==> final(self).hidden_red_bricks@.len() == 0,
            !end_now ==> final(self).hidden_red_bricks@ == without(
                old(self).hidden_red_bricks@,
                bricks_removed@,
            ),
    {
        let hidden = remove_ids(&self.hidden_red_bricks, bricks_removed);
        self.hidden_red_bricks = hidden;
        let mut all = bricks_removed.clone();
        let mut i: usize = 0;
        while i < stones_removed.len()
            invariant
                i <= stones_removed@.len(),
                all@ == bricks_removed@ + stones_removed@.take(i as int),
            decreases stones_removed@.len() - i,
        {
            proof {
                assert(stones_removed@.take(i + 1) =~= stones_removed@.take(i as int).push(
                    stones_removed@[i as int],
                ));
            }
            all.push(stones_removed[i]);
            i = i + 1;
        }
        proof {
            assert(stones_removed@.take(stones_removed@.len() as int) =~= stones_removed@);
        }
        let stones = remove_ids(&self.spawned_stones, &all);
        self.spawned_stones = stones;
        let end_now = self.spawned_stones.len() == 0 && !timer_finished;
        if end_now {
            self.hidden_red_bricks = Vec::new();
        }
        *ring_cleared = true;
        end_now
    }

    /// The effect's time ran out: its stones go (first result). The hidden
    /// bricks come back (second result) unless an enemy's shovel cleared
    /// the ring, in which case they are dropped. Both lists end empty.
    pub fn restore(&mut self, ring_cleared: bool) -> (r: (Vec<u64>, Vec<u64>))
        ensures
            r.0@ == old(self).spawned_stones@,
            ring_cleared ==> r.1@.len() == 0,
            !ring_cleared ==> r.1@ == old(self).hidden_red_bricks@,
            final(self).spawned_stones@.len() == 0,
            final(self).hidden_red_bricks@.len() == 0,
    {
        let mut stones: Vec<u64> = Vec::new();
        std::mem::swap(&mut stones, &mut self.spawned_stones);
        let mut bricks: Vec<u64> = Vec::new();
        std::mem::swap(&mut bricks, &mut self.hidden_red_bricks);
        if ring_cleared {
            (stones, Vec::new())
        } else {
            (stones, bricks)
        }
    }
}

/// After the camp ring is torn down, no destroyed wall stays on the effect's
/// lists, and nothing else leaves them.
pub proof fn law_torn_down_walls_forgotten(
    old_stones: Seq<u64>,
    old_hidden: Seq<u64>,
    bricks_removed: Seq<u64>,
    stones_removed: Seq<u64>,
    x: u64,
)
    ensures
        without(old_stones, bricks_removed + stones_removed).contains(x) <==> (old_stones.contains(
            x,
        ) && !bricks_removed.contains(x) && !stones_removed.contains(x)),
        without(old_hidden, bricks_removed).contains(x) <==> (old_hidden.contains(x)
            && !bricks_removed.contains(x)),
{
    lemma_without_contains(old_stones, bricks_removed + stones_removed, x);
    lemma_without_contains(old_hidden, bricks_removed, x);
    let both = bricks_removed + stones_removed;
    if both.contains(x) {
        let k = choose|k: int| 0 <= k < both.len() && both[k] == x;
        if k < bricks_removed.len() {
            assert(bricks_removed[k] == x);
        } else {
            assert(stones_removed[k - bricks_removed.len()] == x);
        }
    }
    if bricks_removed.contains(x) {
        let k = choose|k: int| 0 <= k < bricks_removed.len() && bricks_removed[k] == x;
        assert(both[k] == x);
    }
    if stones_removed.contains(x) {
        let k = choose|k: int| 0 <= k < stones_removed.len() && stones_removed[k] == x;
        assert(both[bricks_removed.len() + k] == x);
    }
}

} // verus!
