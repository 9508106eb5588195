use vstd::prelude::*;

verus! {

/// Current stage (level index in the map file).
#[derive(Clone, Copy, Debug, PartialEq, Eq, Structural)]
pub struct MapLevel {
    pub value: usize,
}

/// Value of a field of a map entity, as far as it matters here.
#[derive(Clone, Copy, Debug, PartialEq, Eq, Structural)]
pub enum FieldValue {
    /// An integer field, possibly unset.
    Int(Option<i32>),
    /// A field of any other type.
    Other,
}

/// Player id a spawn point is marked with, from its fields (name and value
/// each): the integer of its first field named `id`, truncated to a byte; 1
/// when that field is missing, unset or not an integer.
pub fn spawn_pos_id(fields: &Vec<(String, FieldValue)>) -> (r: u8)
    ensures
        (forall|i: int| 0 <= i < fields@.len() ==> #[trigger] fields@[i].0@ != seq!['i', 'd'])
            ==> r == 1,
        forall|i: int|
            0 <= i < fields@.len() && #[trigger] fields@[i].0@ == seq!['i', 'd'] && (forall|j: int|
                0 <= j < i ==> #[trigger] fields@[j].0@ != seq!['i', 'd']) ==> r == (match fields@[i].1 {
                FieldValue::Int(Some(v)) => v as u8,
                _ => 1u8,
            }),
{
    let name = String::from_str("id");
    proof {
        reveal_strlit("id");
    }
    assert(name@ == seq!['i', 'd']);
    let mut i: usize = 0;
    while i < fields.len()
        invariant
            i <= fields@.len(),
            name@ == seq!['i', 'd'],
            forall|j: int| 0 <= j < i ==> #[trigger] fields@[j].0@ != seq!['i', 'd'],
        decreases fields@.len() - i,
    {
        if fields[i].0 == name {
            return match fields[i].1 {
                FieldValue::Int(Some(v)) => v as u8,
                _ => 1,
            };
        }
        i = i + 1;
    }
    1
}

/// Cells of the boundary layer (row-major, one value per cell) where a
/// power-up may appear: those with value 0.
pub fn playable_cells(int_grid: &Vec<i32>) -> (r: Vec<usize>)
    ensures
        forall|k: int| 0 <= k < r@.len() ==> #[trigger] r@[k] < int_grid@.len() && int_grid@[r@[k] as int] == 0,
        forall|a: int, b: int| 0 <= a < b < r@.len() ==> r@[a] < r@[b],
        forall|i: int| 0 <= i < int_grid@.len() && #[trigger] int_grid@[i] == 0 ==> r@.contains(i as usize),
{
    let mut v: Vec<usize> = Vec::new();
    let mut i: usize = 0;
    while i < int_grid.len()
        invariant
            i <= int_grid@.len(),
            forall|k: int| 0 <= k < v@.len() ==> #[trigger] v@[k] < i && int_grid@[v@[k] as int] == 0,
            forall|a: int, b: int| 0 <= a < b < v@.len() ==> v@[a] < v@[b],
            forall|j: int| 0 <= j < i && #[trigger] int_grid@[j] == 0 ==> v@.contains(j as usize),
        decreases int_grid@.len() - i,
    {
        if int_grid[i] == 0 {
            let ghost old_v = v@;
            v.push(i);
            assert forall|j: int| 0 <= j < i + 1 && #[trigger] int_grid@[j] == 0 implies v@.contains(
                j as usize,
            ) by {
                if j == i {
                    assert(v@[old_v.len() as int] == i);
                } else {
                    let k = choose|k: int| 0 <= k < old_v.len() && old_v[k] == j as usize;
                    assert(v@[k] == j as usize);
                }
            }
        }
        i = i + 1;
    }
    v
}

} // verus!
