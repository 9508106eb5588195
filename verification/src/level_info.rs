use vstd::prelude::*;
use crate::player::PlayerInfo;

verus! {

/// Whether index `a` comes before index `b` in the chance panel: higher ids
/// first, and among equal ids the later index first.
pub open spec fn row_before(players: Seq<PlayerInfo>, a: int, b: int) -> bool {
    players[a].id > players[b].id || (players[a].id == players[b].id && a > b)
}

/// Cell (column, row) of the `i`-th icon in the panel of enemies still to
/// come: two columns, filled row by row.
pub fn enemy_icon_cell(i: usize) -> (r: (usize, usize))
    ensures
        r == (i % 2, i / 2),
{
    (i % 2, i / 2)
}

/// Icons to drop from the panel of enemies still to come: those from index
/// `remaining` on, when there are more than `remaining`.
pub fn surplus_icons_from(icon_count: usize, remaining: usize) -> (r: Option<usize>)
    ensures
        r == (if icon_count > remaining { Some(remaining) } else { None }),
{
    if icon_count > remaining {
        Some(remaining)
    } else {
        None
    }
}

/// Players shown in the chance panel, bottom row first: those taking part
/// (id at most `player_number`), highest id at the bottom. Returns indices
/// into `players`.
pub fn chance_rows(players: &Vec<PlayerInfo>, player_number: u8) -> (r: Vec<usize>)
    ensures
        forall|k: int|
            0 <= k < r@.len() ==> #[trigger] r@[k] < players@.len() && players@[r@[k] as int].id
                <= player_number,
        forall|i: int|
            0 <= i < players@.len() && #[trigger] players@[i].id <= player_number ==> r@.contains(
                i as usize,
            ),
        forall|a: int, b: int|
            0 <= a < b < r@.len() ==> row_before(players@, #[trigger] r@[a] as int, #[trigger] r@[b] as int),
{
    let mut v: Vec<usize> = Vec::new();
    let mut hi: u16 = player_number as u16 + 1;
    while hi > 0
        invariant
            hi <= player_number + 1,
            forall|k: int|
                0 <= k < v@.len() ==> #[trigger] v@[k] < players@.len() && hi
                    <= players@[v@[k] as int].id <= player_number,
            forall|i: int|
                0 <= i < players@.len() && hi <= #[trigger] players@[i].id <= player_number
                    ==> v@.contains(i as usize),
            forall|a: int, b: int|
                0 <= a < b < v@.len() ==> row_before(players@, #[trigger] v@[a] as int, #[trigger] v@[b] as int),
        decreases hi,
    {
        let cur: u8 = (hi - 1) as u8;
        let ghost before = v@;
        let mut i: usize = players.len();
        while i > 0
            invariant
                i <= players@.len(),
                cur + 1 == hi,
                hi <= player_number + 1,
                before.len() <= v@.len(),
                forall|k: int| 0 <= k < before.len() ==> v@[k] == before[k],
                forall|k: int|
                    0 <= k < before.len() ==> #[trigger] before[k] < players@.len() && hi
                        <= players@[before[k] as int].id <= player_number,
                forall|k: int|
                    before.len() <= k < v@.len() ==> #[trigger] v@[k] < players@.len() && i <= v@[k]
                        && players@[v@[k] as int].id == cur,
                forall|a: int, b: int|
                    0 <= a < b < v@.len() ==> row_before(players@, #[trigger] v@[a] as int, #[trigger] v@[b] as int),
                forall|j: int|
                    i <= j < players@.len() && #[trigger] players@[j].id == cur ==> v@.contains(
                        j as usize,
                    ),
                forall|j: int|
                    0 <= j < players@.len() && hi <= #[trigger] players@[j].id <= player_number
                        ==> before.contains(j as usize),
            decreases i,
        {
            i = i - 1;
            if players[i].id == cur {
                let ghost prev = v@;
                v.push(i);
                assert forall|a: int, b: int|
                    0 <= a < b < v@.len() implies row_before(players@, #[trigger] v@[a] as int, #[trigger] v@[b] as int) by {
                    if b == prev.len() {
                        if a < before.len() {
                            assert(players@[before[a] as int].id > cur);
                        } else {
                            assert(v@[a] > i);
                        }
                    } else {
                        assert(row_before(players@, prev[a] as int, prev[b] as int));
                    }
                }
                assert forall|j: int|
                    i <= j < players@.len() && #[trigger] players@[j].id == cur implies v@.contains(
                        j as usize,
                    ) by {
                    if j == i {
                        assert(v@[prev.len() as int] == i);
                    } else {
                        let k = choose|k: int| 0 <= k < prev.len() && prev[k] == j as usize;
                        assert(v@[k] == j as usize);
                    }
                }
            }
        }
        assert forall|j: int|
            0 <= j < players@.len() && cur <= #[trigger] players@[j].id <= player_number
                implies v@.contains(j as usize) by {
            if players@[j].id > cur {
                let k = choose|k: int| 0 <= k < before.len() && before[k] == j as usize;
                assert(v@[k] == j as usize);
            }
        }
        assert forall|k: int| 0 <= k < v@.len() implies #[trigger] v@[k] < players@.len() && cur
            <= players@[v@[k] as int].id <= player_number by {
            if k < before.len() {
                assert(v@[k] == before[k]);
            }
        }
        hi = hi - 1;
    }
    v
}

} // verus!
