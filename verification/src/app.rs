//! The store: every task under its number, and the highest number ever
//! given, so that no number is given twice.

use vstd::prelude::*;
use std::collections::HashMap;
use crate::configuration::Settings;
use crate::task::Task;

verus! {

broadcast use vstd::std_specs::hash::group_hash_axioms;

pub type Id = usize;

/// The tasks by number, the settings, and the highest number given so far.
pub struct App {
    pub tasks: HashMap<Id, Task>,
    pub settings: Settings,
    pub current_id: usize,
}

/// The mathematical value of a store: its tasks and its watermark.
pub struct StoreModel {
    pub tasks: Map<Id, Task>,
    pub current_id: int,
}

impl StoreModel {
    /// The number that `add` files a task under: its own, or else the one
    /// after the watermark.
    pub open spec fn id_for(self, t: Task) -> int {
        match t.id {
            Some(id) => id as int,
            None => self.current_id + 1,
        }
    }

    /// The store after a task is added or updated. A task with a number
    /// replaces what was under that number and leaves the watermark alone; a
    /// task without one gets the number after the watermark, which becomes
    /// the new watermark.
    pub open spec fn add(self, t: Task) -> StoreModel {
        match t.id {
            Some(id) => StoreModel { tasks: self.tasks.insert(id, t), current_id: self.current_id },
            None => {
                let id = (self.current_id + 1) as usize;
                StoreModel {
                    tasks: self.tasks.insert(id, Task { id: Some(id), ..t }),
                    current_id: self.current_id + 1,
                }
            },
        }
    }

    /// Every task stands under the number that it carries.
    pub open spec fn ids_agree(self) -> bool {
        forall|id: Id| self.tasks.contains_key(id) ==> (#[trigger] self.tasks[id]).id == Some(id)
    }

    /// The store after the task under a number is removed, if there was one.
    pub open spec fn delete(self, id: Id) -> StoreModel {
        StoreModel { tasks: self.tasks.remove(id), current_id: self.current_id }
    }

    /// The store after the completion flag of the task under a number is
    /// flipped, if there is one.
    pub open spec fn toggle(self, id: Id) -> StoreModel {
        if self.tasks.contains_key(id) {
            let t = self.tasks[id];
            StoreModel {
                tasks: self.tasks.insert(id, Task { complete: !t.complete, ..t }),
                current_id: self.current_id,
            }
        } else {
            self
        }
    }
}

/// The tasks that a list of numbered entries holds; of two entries with one
/// number the earlier stays.
pub open spec fn tasks_of(entries: Seq<(Id, Task)>) -> Map<Id, Task>
    decreases entries.len(),
{
    if entries.len() == 0 {
        Map::empty()
    } else {
        tasks_of(entries.drop_first()).insert(entries[0].0, entries[0].1)
    }
}

/// The highest number among the entries, 0 where there is none.
pub open spec fn highest_id(entries: Seq<(Id, Task)>) -> int
    decreases entries.len(),
{
    if entries.len() == 0 {
        0
    } else {
        let rest = highest_id(entries.drop_first());
        if entries[0].0 > rest {
            entries[0].0 as int
        } else {
            rest
        }
    }
}

/// The highest number bounds every entry's number, and is the number of one
/// of them unless there is none.
pub proof fn lemma_highest_id_is_maximum(entries: Seq<(Id, Task)>)
    ensures
        forall|i: int| 0 <= i < entries.len() ==> (#[trigger] entries[i]).0 <= highest_id(entries),
        entries.len() == 0 ==> highest_id(entries) == 0,
        entries.len() > 0 ==> exists|i: int| 0 <= i < entries.len() && (#[trigger] entries[i]).0 == highest_id(entries),
    decreases entries.len(),
{
    if entries.len() > 0 {
        let rest = entries.drop_first();
        lemma_highest_id_is_maximum(rest);
        assert forall|i: int| 0 <= i < entries.len() implies (#[trigger] entries[i]).0 <= highest_id(entries) by {
            if i > 0 {
                assert(entries[i] == rest[i - 1]);
            }
        }
        if entries[0].0 > highest_id(rest) || rest.len() == 0 {
            assert(entries[0].0 == highest_id(entries));
        } else {
            let j = choose|j: int| 0 <= j < rest.len() && (#[trigger] rest[j]).0 == highest_id(rest);
            assert(entries[j + 1] == rest[j]);
        }
    }
}

impl View for App {
    type V = StoreModel;

    open spec fn view(&self) -> StoreModel {
        StoreModel { tasks: self.tasks@, current_id: self.current_id as int }
    }
}

impl App {
    /// The store that holds the loaded entries. Its watermark is the highest
    /// number among them, 0 where there is none.
    pub fn new(settings: Settings, entries: Vec<(Id, Task)>) -> (r: App)
        ensures
            r.settings == settings,
            r.tasks@ == tasks_of(entries@),
            r.current_id == highest_id(entries@),
    {
        let ghost all = entries@;
        let mut entries = entries;
        let mut tasks: HashMap<Id, Task> = HashMap::new();
        let mut current_id: usize = 0;
        while entries.len() > 0
            invariant
                entries@.len() <= all.len(),
                entries@ == all.subrange(0, entries@.len() as int),
                tasks@ == tasks_of(all.subrange(entries@.len() as int, all.len() as int)),
                current_id == highest_id(all.subrange(entries@.len() as int, all.len() as int)),
            decreases entries@.len(),
        {
            let ghost n = entries@.len() as int;
            let entry = entries.pop().unwrap();
            proof {
                let tail = all.subrange(n - 1, all.len() as int);
                assert(tail.drop_first() == all.subrange(n, all.len() as int));
                assert(tail[0] == entry);
                assert(entries@ == all.subrange(0, n - 1));
            }
            if entry.0 > current_id {
                current_id = entry.0;
            }
            tasks.insert(entry.0, entry.1);
        }
        proof {
            assert(all.subrange(0, all.len() as int) == all);
        }
        App { tasks, settings, current_id }
    }

    /// Adds a task, or replaces the one under its number, and returns the
    /// number it stands under.
    pub fn add_task(&mut self, t: Task) -> (id: Id)
        requires
            t.id is None ==> old(self).current_id < usize::MAX,
        ensures
            final(self)@ == old(self)@.add(t),
            id == old(self)@.id_for(t),
            final(self).settings == old(self).settings,
    {
        let mut t = t;
        let new_id = match t.id {
            Some(id) => {
                self.tasks.insert(id, t);
                id
            },
            None => {
                let new_id = self.get_next_id();
                t.id = Some(new_id);
                self.tasks.insert(new_id, t);
                new_id
            },
        };
        new_id
    }

    /// The task under a number, if there is one.
    pub fn get_task(&self, id: Id) -> (r: Option<&Task>)
        ensures
            match r {
                Some(t) => self@.tasks.contains_key(id) && *t == self@.tasks[id],
                None => !self@.tasks.contains_key(id),
            },
    {
        self.tasks.get(&id)
    }

    /// Removes the task under a number and returns it, if there was one. The
    /// watermark stays, so the number is not given again.
    pub fn delete_task(&mut self, id: Id) -> (r: Option<Task>)
        ensures
            final(self)@ == old(self)@.delete(id),
            final(self).settings == old(self).settings,
            match r {
                Some(t) => old(self)@.tasks.contains_key(id) && t == old(self)@.tasks[id],
                None => !old(self)@.tasks.contains_key(id),
            },
    {
        self.tasks.remove(&id)
    }

    /// Flips the completion flag of the task under a number, and says whether
    /// there was such a task.
    pub fn complete_task(&mut self, id: Id) -> (found: bool)
        ensures
            final(self)@ == old(self)@.toggle(id),
            final(self).settings == old(self).settings,
            found == old(self)@.tasks.contains_key(id),
    {
        match self.tasks.remove(&id) {
            Some(t) => {
                let mut t = t;
                t.complete = !t.complete;
                self.tasks.insert(id, t);
                assert(self.tasks@ == old(self).tasks@.insert(id, t));
                true
            },
            None => {
                assert(self.tasks@ == old(self).tasks@);
                false
            },
        }
    }

    /// Gives out the number after the watermark and makes it the watermark.
    fn get_next_id(&mut self) -> (id: usize)
        requires
            old(self).current_id < usize::MAX,
        ensures
            id == old(self).current_id + 1,
            final(self).current_id == id,
            final(self).tasks == old(self).tasks,
            final(self).settings == old(self).settings,
    {
        self.current_id += 1;
        self.current_id
    }
}

/// Two tasks added without a number, one after the other, get two different
/// numbers, the second the higher, and both above the watermark from before.
pub proof fn lemma_fresh_ids_increase(s: StoreModel, a: Task, b: Task)
    requires
        a.id is None,
        b.id is None,
    ensures
        s.current_id < s.id_for(a) < s.add(a).id_for(b),
        s.add(a).add(b).current_id == s.add(a).id_for(b),
{
}

/// No operation lowers the watermark, and removing a task, the one with the
/// highest number too, leaves it where it was.
pub proof fn lemma_watermark_never_decreases(s: StoreModel, t: Task, id: Id)
    ensures
        s.add(t).current_id >= s.current_id,
        s.delete(id).current_id == s.current_id,
        s.toggle(id).current_id == s.current_id,
        t.id is None ==> s.delete(id).id_for(t) > s.current_id,
{
}

/// Where every task stands under the number that it carries, it still does
/// after a task is added or updated, removed, or marked.
pub proof fn lemma_ids_stay_in_step(s: StoreModel, t: Task, id: Id)
    requires
        s.ids_agree(),
    ensures
        s.add(t).ids_agree(),
        s.delete(id).ids_agree(),
        s.toggle(id).ids_agree(),
{
}

} // verus!
