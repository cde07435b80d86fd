//! The project being edited together with the floor on screen.
//!
//! Every value of `Survey` has at least one floor and its current index
//! names one of them; each operation keeps it so.

use vstd::prelude::*;
use crate::models::floor::{is_empty_floor, same_but_measurements, without_id, Floor};
use crate::models::measurement::Measurement;
use crate::models::project::{
    cleared,
    floor_after_removal_index,
    floor_name_text,
    renamed,
    Project,
};
use crate::text::trimmed;

verus! {

/// A project and the index of the floor currently shown.
pub struct Survey {
    project: Project,
    current: usize,
}

impl Survey {
    #[verifier::type_invariant]
    spec fn has_current_floor(self) -> bool {
        &&& self.project.floors@.len() > 0
        &&& self.current < self.project.floors@.len()
    }

    /// The project.
    pub closed spec fn project_view(self) -> Project {
        self.project
    }

    /// The floors of the project, in order.
    pub closed spec fn floors(self) -> Seq<Floor> {
        self.project.floors@
    }

    /// Index of the floor currently shown.
    pub closed spec fn current_index(self) -> int {
        self.current as int
    }

    /// The project has a floor and the current index names one.
    pub open spec fn is_valid(self) -> bool {
        &&& self.floors().len() > 0
        &&& 0 <= self.current_index() < self.floors().len()
    }

    /// Opens `project` on the floor at `start`. A project without floors
    /// first gets `Floor 1`; a `start` past the last floor opens the first.
    pub fn open(project: Project, start: usize) -> (s: Self)
        ensures
            s.is_valid(),
            s.project_view().name == project.name,
            project.floors@.len() > 0 ==> s.floors() == project.floors@,
            project.floors@.len() == 0 ==> s.floors().len() == 1,
            project.floors@.len() == 0 ==> is_empty_floor(s.floors()[0], "Floor 1"@),
            s.current_index() == (if start < s.floors().len() { start as int } else { 0 }),
    {
        let mut project = project;
        project.ensure_floor();
        let current = if start < project.floors.len() { start } else { 0 };
        Survey { project, current }
    }

    /// The project.
    pub fn project(&self) -> (p: &Project)
        ensures
            *p == self.project_view(),
            p.floors@ == self.floors(),
    {
        &self.project
    }

    /// Index of the floor currently shown; it always names a floor.
    pub fn current(&self) -> (i: usize)
        ensures
            i as int == self.current_index(),
            self.is_valid(),
    {
        proof {
            use_type_invariant(self);
        }
        self.current
    }

    /// The floor currently shown.
    pub fn current_floor(&self) -> (f: &Floor)
        ensures
            self.is_valid(),
            *f == self.floors()[self.current_index()],
    {
        proof {
            use_type_invariant(self);
        }
        &self.project.floors[self.current]
    }

    /// Takes the project out, leaving a one-floor placeholder that the
    /// caller replaces.
    fn take_project(&mut self) -> (p: Project)
        ensures
            p == old(self).project_view(),
            p.floors@.len() > 0,
            old(self).current_index() < p.floors@.len(),
    {
        proof {
            use_type_invariant(&*self);
        }
        let mut placeholder = Survey {
            project: Project { name: String::new(), floors: vec![Floor::new("")] },
            current: 0,
        };
        std::mem::swap(self, &mut placeholder);
        let Survey { project, current: _ } = placeholder;
        project
    }

    /// Shows the floor at `index`; an index past the last floor is refused
    /// (the result is false and nothing changes).
    pub fn select(&mut self, index: usize) -> (done: bool)
        ensures
            final(self).is_valid(),
            done == (index < old(self).floors().len()),
            final(self).project_view() == old(self).project_view(),
            final(self).current_index() == (if done {
                index as int
            } else {
                old(self).current_index()
            }),
    {
        proof {
            use_type_invariant(&*self);
        }
        if index < self.project.floors.len() {
            self.current = index;
            true
        } else {
            false
        }
    }

    /// Appends a floor named `Floor <n>`, `n` being the new number of
    /// floors, and shows it. Returns its name.
    pub fn add_floor(&mut self) -> (name: String)
        ensures
            final(self).is_valid(),
            name@ == floor_name_text(old(self).floors().len() + 1),
            final(self).floors().len() == old(self).floors().len() + 1,
            final(self).floors().drop_last() == old(self).floors(),
            is_empty_floor(final(self).floors().last(), name@),
            final(self).current_index() == old(self).floors().len(),
            final(self).project_view().name == old(self).project_view().name,
    {
        let mut project = self.take_project();
        let name = project.next_floor_name();
        project.add_floor(Floor::new(name.as_str()));
        let current = project.floors.len() - 1;
        assert(project.floors@.drop_last() =~= old(self).floors());
        *self = Survey { project, current };
        name
    }

    /// Renames the floor shown to `text` without its surrounding white
    /// space; a name that would be empty is refused (nothing changes and
    /// the result is false).
    pub fn rename_current(&mut self, text: &str) -> (done: bool)
        ensures
            final(self).is_valid(),
            done == (trimmed(text@).len() > 0),
            final(self).current_index() == old(self).current_index(),
            final(self).project_view().name == old(self).project_view().name,
            final(self).floors().len() == old(self).floors().len(),
            forall|k: int|
                0 <= k < old(self).floors().len() ==> if k == old(self).current_index() && done {
                    renamed(old(self).floors()[k], #[trigger] final(self).floors()[k], trimmed(text@))
                } else {
                    final(self).floors()[k] == old(self).floors()[k]
                },
    {
        let current = self.current();
        let mut project = self.take_project();
        let done = project.rename_floor(current, text);
        *self = Survey { project, current };
        done
    }

    /// Deletes the floor shown, when it is not the only one, and shows the
    /// floor that moved into its place, or the new last floor when it was
    /// the last. The result says whether a floor was deleted.
    pub fn delete_current(&mut self) -> (done: bool)
        ensures
            final(self).is_valid(),
            done == (old(self).floors().len() > 1),
            final(self).project_view().name == old(self).project_view().name,
            done ==> final(self).floors() == old(self).floors().remove(old(self).current_index()),
            done ==> final(self).current_index() == floor_after_removal_index(
                old(self).current_index(),
                old(self).floors().len() as int,
            ),
            !done ==> final(self).project_view() == old(self).project_view(),
            !done ==> final(self).current_index() == old(self).current_index(),
    {
        let current = self.current();
        let count = self.project.floors.len();
        if count < 2 {
            return false;
        }
        let next = Project::floor_after_removal(current, count);
        let mut project = self.take_project();
        project.remove_floor(current);
        *self = Survey { project, current: next };
        true
    }

    /// Replaces the floor shown by `floor`.
    pub fn set_current_floor(&mut self, floor: Floor)
        ensures
            final(self).is_valid(),
            final(self).current_index() == old(self).current_index(),
            final(self).project_view().name == old(self).project_view().name,
            final(self).floors() == old(self).floors().update(old(self).current_index(), floor),
    {
        let current = self.current();
        let mut project = self.take_project();
        project.floors.set(current, floor);
        *self = Survey { project, current };
    }

    /// Records a measurement on the floor shown.
    pub fn add_measurement(&mut self, measurement: Measurement)
        ensures
            final(self).is_valid(),
            final(self).current_index() == old(self).current_index(),
            final(self).project_view().name == old(self).project_view().name,
            final(self).floors().len() == old(self).floors().len(),
            forall|k: int|
                0 <= k < old(self).floors().len() && k != old(self).current_index()
                    ==> #[trigger] final(self).floors()[k] == old(self).floors()[k],
            final(self).floors()[old(self).current_index()].measurements@ == old(
                self,
            ).floors()[old(self).current_index()].measurements@.push(measurement),
            same_but_measurements(
                final(self).floors()[old(self).current_index()],
                old(self).floors()[old(self).current_index()],
            ),
    {
        let current = self.current();
        let mut project = self.take_project();
        let mut floor = project.floors.remove(current);
        floor.add_measurement(measurement);
        project.floors.insert(current, floor);
        *self = Survey { project, current };
    }

    /// Deletes the measurements with identifier `id` from the floor shown.
    pub fn remove_measurement(&mut self, id: &str)
        ensures
            final(self).is_valid(),
            final(self).current_index() == old(self).current_index(),
            final(self).project_view().name == old(self).project_view().name,
            final(self).floors().len() == old(self).floors().len(),
            forall|k: int|
                0 <= k < old(self).floors().len() && k != old(self).current_index()
                    ==> #[trigger] final(self).floors()[k] == old(self).floors()[k],
            final(self).floors()[old(self).current_index()].measurements@ == without_id(
                old(self).floors()[old(self).current_index()].measurements@,
                id@,
            ),
            same_but_measurements(
                final(self).floors()[old(self).current_index()],
                old(self).floors()[old(self).current_index()],
            ),
    {
        let current = self.current();
        let mut project = self.take_project();
        let mut floor = project.floors.remove(current);
        floor.remove_measurement(id);
        project.floors.insert(current, floor);
        *self = Survey { project, current };
    }

    /// Deletes every measurement of the floor shown.
    pub fn clear_current_measurements(&mut self)
        ensures
            final(self).is_valid(),
            final(self).current_index() == old(self).current_index(),
            final(self).project_view().name == old(self).project_view().name,
            final(self).floors().len() == old(self).floors().len(),
            forall|k: int|
                0 <= k < old(self).floors().len() ==> if k == old(self).current_index() {
                    cleared(old(self).floors()[k], #[trigger] final(self).floors()[k])
                } else {
                    final(self).floors()[k] == old(self).floors()[k]
                },
    {
        let current = self.current();
        let mut project = self.take_project();
        project.clear_floor_measurements(current);
        *self = Survey { project, current };
    }

    /// Deletes the measurements of every floor.
    pub fn clear_all_measurements(&mut self)
        ensures
            final(self).is_valid(),
            final(self).current_index() == old(self).current_index(),
            final(self).project_view().name == old(self).project_view().name,
            final(self).floors().len() == old(self).floors().len(),
            forall|k: int|
                0 <= k < old(self).floors().len() ==> cleared(
                    old(self).floors()[k],
                    #[trigger] final(self).floors()[k],
                ),
    {
        let current = self.current();
        let mut project = self.take_project();
        project.clear_all_measurements();
        *self = Survey { project, current };
    }
}

} // verus!
