//! A survey project: a named list of floors.

use vstd::prelude::*;
use crate::models::floor::{is_empty_floor, same_but_measurements, Floor};
use crate::text::{
    decimal_string,
    decimal_text,
    decimal_value,
    is_decimal_digit,
    lemma_decimal_text,
    trim_string,
    trimmed,
};

verus! {

/// A named survey made of floors, in the order they were added.
#[derive(Debug, Clone)]
pub struct Project {
    pub name: String,
    pub floors: Vec<Floor>,
}

/// The floors after removing the one at `index`; an index past the end
/// removes nothing.
pub open spec fn floors_without(floors: Seq<Floor>, index: int) -> Seq<Floor> {
    if 0 <= index < floors.len() {
        floors.remove(index)
    } else {
        floors
    }
}

/// Law: adding a floor and then removing the last floor gives back the
/// floors from before.
pub proof fn lemma_add_then_remove_floor(floors: Seq<Floor>, floor: Floor)
    ensures
        floors_without(floors.push(floor), floors.len() as int) == floors,
{
    assert(floors.push(floor).remove(floors.len() as int) =~= floors);
}

/// Law: removing a floor keeps the floors before it in place and moves
/// those after it one position down.
pub proof fn lemma_remove_floor_shifts(floors: Seq<Floor>, index: int, k: int)
    requires
        0 <= index < floors.len(),
        0 <= k < floors.len() - 1,
    ensures
        floors_without(floors, index)[k] == (if k < index { floors[k] } else { floors[k + 1] }),
{
}

impl Project {
    /// A project with no floors.
    pub fn new(name: &str) -> (p: Self)
        ensures
            p.name@ == name@,
            p.floors@.len() == 0,
    {
        Project { name: name.to_owned(), floors: Vec::new() }
    }

    /// Appends a floor.
    pub fn add_floor(&mut self, floor: Floor)
        ensures
            final(self).floors@ == old(self).floors@.push(floor),
            final(self).name == old(self).name,
    {
        self.floors.push(floor);
    }

    /// Removes the floor at `index`; an index past the end is ignored.
    pub fn remove_floor(&mut self, index: usize)
        ensures
            final(self).floors@ == floors_without(old(self).floors@, index as int),
            final(self).name == old(self).name,
    {
        if index < self.floors.len() {
            self.floors.remove(index);
        }
    }
}

/// Name given to the floor added as number `n`: `Floor <n>`.
pub open spec fn floor_name_text(n: nat) -> Seq<char> {
    "Floor "@ + decimal_text(n)
}

/// Law: the floor added as number `n` is called `Floor ` followed by the
/// decimal numeral of `n` (digits only, no leading zero, standing for `n`).
pub proof fn lemma_floor_name(n: nat)
    ensures
        floor_name_text(n).len() > 6,
        floor_name_text(n).take(6) == "Floor "@,
        forall|i: int|
            6 <= i < floor_name_text(n).len() ==> is_decimal_digit(#[trigger] floor_name_text(n)[i]),
        floor_name_text(n).len() > 7 ==> floor_name_text(n)[6] != '0',
        decimal_value(floor_name_text(n).skip(6)) == n,
{
    reveal_strlit("Floor ");
    lemma_decimal_text(n);
    let d = decimal_text(n);
    assert(floor_name_text(n).take(6) =~= "Floor "@);
    assert(floor_name_text(n).skip(6) =~= d);
    assert forall|i: int| 6 <= i < floor_name_text(n).len() implies is_decimal_digit(
        #[trigger] floor_name_text(n)[i],
    ) by {
        assert(floor_name_text(n)[i] == d[i - 6]);
    }
    assert(floor_name_text(n).len() > 7 ==> floor_name_text(n)[6] == d[0]);
}

/// Law: floors added as different numbers get different names, so the
/// floors added one after another never share a name.
pub proof fn lemma_floor_names_distinct(n: nat, m: nat)
    requires
        n != m,
    ensures
        floor_name_text(n) != floor_name_text(m),
{
    lemma_floor_name(n);
    lemma_floor_name(m);
}

/// `g` is `f` with its measurements cleared.
pub open spec fn cleared(f: Floor, g: Floor) -> bool {
    g.measurements@.len() == 0 && same_but_measurements(g, f)
}

/// `g` is `f` renamed to `name`.
pub open spec fn renamed(f: Floor, g: Floor, name: Seq<char>) -> bool {
    &&& g.name@ == name
    &&& g.image_path == f.image_path
    &&& g.drawing_path == f.drawing_path
    &&& g.measurements == f.measurements
    &&& g.scale_px_per_m_bits == f.scale_px_per_m_bits
    &&& g.calib_point_a_bits == f.calib_point_a_bits
    &&& g.calib_point_b_bits == f.calib_point_b_bits
    &&& g.pdf_page == f.pdf_page
    &&& g.origin_bits == f.origin_bits
}

/// The floor shown after deleting the floor at `current` out of `count`:
/// the one that moves into its place, or the new last floor when the
/// deleted one was last.
pub open spec fn floor_after_removal_index(current: int, count: int) -> int {
    if current + 1 < count {
        current
    } else {
        current - 1
    }
}

/// Law: after deleting floor `current`, the floor shown is the one that
/// followed it, or the one that preceded it when it was the last.
pub proof fn lemma_floor_after_removal(floors: Seq<Floor>, current: int)
    requires
        0 <= current < floors.len(),
        floors.len() > 1,
    ensures
        0 <= floor_after_removal_index(current, floors.len() as int) < floors.len() - 1,
        floors_without(floors, current)[floor_after_removal_index(current, floors.len() as int)]
            == (if current + 1 < floors.len() {
            floors[current + 1]
        } else {
            floors[current - 1]
        }),
{
}

impl Project {
    /// The name of the floor that would be added next.
    pub fn next_floor_name(&self) -> (name: String)
        ensures
            name@ == floor_name_text(self.floors@.len() + 1),
    {
        let mut name = "Floor ".to_owned();
        name.append(decimal_string(self.floors.len() as u128 + 1).as_str());
        name
    }

    /// Gives a project without floors its first floor, `Floor 1`.
    pub fn ensure_floor(&mut self)
        ensures
            old(self).floors@.len() > 0 ==> final(self).floors@ == old(self).floors@,
            old(self).floors@.len() == 0 ==> final(self).floors@.len() == 1,
            old(self).floors@.len() == 0 ==> is_empty_floor(final(self).floors@[0], "Floor 1"@),
            final(self).name == old(self).name,
    {
        if self.floors.len() == 0 {
            self.floors.push(Floor::new("Floor 1"));
        }
    }

    /// Deletes the measurements of the floor at `index`; an index past the
    /// end changes nothing.
    pub fn clear_floor_measurements(&mut self, index: usize)
        ensures
            final(self).name == old(self).name,
            final(self).floors@.len() == old(self).floors@.len(),
            forall|k: int|
                0 <= k < old(self).floors@.len() ==> if k == index {
                    cleared(old(self).floors@[k], #[trigger] final(self).floors@[k])
                } else {
                    final(self).floors@[k] == old(self).floors@[k]
                },
    {
        if index < self.floors.len() {
            let mut f = self.floors.remove(index);
            f.measurements = Vec::new();
            self.floors.insert(index, f);
        }
    }

    /// Deletes the measurements of every floor.
    pub fn clear_all_measurements(&mut self)
        ensures
            final(self).name == old(self).name,
            final(self).floors@.len() == old(self).floors@.len(),
            forall|k: int|
                0 <= k < old(self).floors@.len() ==> cleared(
                    old(self).floors@[k],
                    #[trigger] final(self).floors@[k],
                ),
    {
        let mut i: usize = 0;
        while i < self.floors.len()
            invariant
                i <= self.floors@.len(),
                self.floors@.len() == old(self).floors@.len(),
                self.name == old(self).name,
                forall|k: int|
                    0 <= k < self.floors@.len() ==> if k < i {
                        cleared(old(self).floors@[k], #[trigger] self.floors@[k])
                    } else {
                        self.floors@[k] == old(self).floors@[k]
                    },
            decreases self.floors@.len() - i,
        {
            self.clear_floor_measurements(i);
            i = i + 1;
        }
    }

    /// Renames the floor at `index` to `text` without its surrounding white
    /// space; a name that would be empty is refused (nothing changes and
    /// the result is false).
    pub fn rename_floor(&mut self, index: usize, text: &str) -> (done: bool)
        requires
            index < old(self).floors@.len(),
        ensures
            done == (trimmed(text@).len() > 0),
            final(self).name == old(self).name,
            final(self).floors@.len() == old(self).floors@.len(),
            forall|k: int|
                0 <= k < old(self).floors@.len() ==> if k == index && done {
                    renamed(old(self).floors@[k], #[trigger] final(self).floors@[k], trimmed(text@))
                } else {
                    final(self).floors@[k] == old(self).floors@[k]
                },
    {
        let name = trim_string(text);
        if name.as_str().unicode_len() == 0 {
            return false;
        }
        let mut f = self.floors.remove(index);
        f.name = name;
        self.floors.insert(index, f);
        true
    }

    /// Index of the floor to show after deleting the floor at `current`
    /// out of `count` floors.
    pub fn floor_after_removal(current: usize, count: usize) -> (i: usize)
        requires
            current < count,
            count > 1,
        ensures
            i as int == floor_after_removal_index(current as int, count as int),
            i < count - 1,
    {
        if current + 1 < count {
            current
        } else {
            current - 1
        }
    }
}

} // verus!
