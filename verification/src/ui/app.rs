//! Task-list navigation of the client UI.
//!
//! The task ids arrive in ascending order from the daemon's state; `next`
//! and `previous` move the selection through them, wrapping around at both
//! ends.  The models below state the selection as a function of the scan
//! order, so the contracts hold for any id list.

use vstd::prelude::*;

verus! {

/// Scan model of [`App::next`]: the first id, front to back, that is greater
/// than the current selection.
pub open spec fn find_next(ids: Seq<usize>, cur: usize) -> Option<usize>
    decreases ids.len(),
{
    if ids.len() == 0 {
        None
    } else if ids.first() > cur {
        Some(ids.first())
    } else {
        find_next(ids.drop_first(), cur)
    }
}

/// The selection after `next`: the first id greater than the current
/// selection, or the first id of the list when none is greater.
pub open spec fn next_selection(ids: Seq<usize>, cur: usize) -> usize
    recommends
        ids.len() > 0,
{
    match find_next(ids, cur) {
        Some(id) => id,
        None => ids[0],
    }
}

/// Scan model of [`App::previous`]: walk the ids with the previously seen id
/// in hand; at the first id not below the current selection, the id seen
/// before it is the new selection — unless that is the selection itself, in
/// which case the scan wraps to the last id, as it also does when every id
/// is below the selection.
pub open spec fn prev_scan(rest: Seq<usize>, cur: usize, prev: usize, last: usize) -> usize
    decreases rest.len(),
{
    if rest.len() == 0 {
        last
    } else if rest.first() >= cur {
        if prev == cur {
            last
        } else {
            prev
        }
    } else {
        prev_scan(rest.drop_first(), cur, rest.first(), last)
    }
}

/// The selection after `previous`.
pub open spec fn prev_selection(ids: Seq<usize>, cur: usize) -> usize
    recommends
        ids.len() > 0,
{
    prev_scan(ids, cur, ids[0], ids[ids.len() - 1])
}

/// The task list state of the UI.
pub struct App {
    pub task_ids: Vec<usize>,
    pub selected_task: usize,
}

impl App {
    /// Selects the next task: the first id greater than the current
    /// selection, wrapping to the first task when none is greater.  An empty
    /// list leaves the selection untouched.
    pub fn next(&mut self)
        ensures
            final(self).task_ids@ == old(self).task_ids@,
            old(self).task_ids@.len() == 0 ==> final(self).selected_task == old(self).selected_task,
            old(self).task_ids@.len() > 0 ==> final(self).selected_task == next_selection(
                old(self).task_ids@,
                old(self).selected_task,
            ),
    {
        if self.task_ids.len() == 0 {
            return ;
        }
        let ghost ids = self.task_ids@;
        let ghost cur = self.selected_task;
        let n = self.task_ids.len();
        let mut i: usize = 0;
        proof {
            assert(ids.skip(0) =~= ids);
        }
        while i < n
            invariant
                ids == self.task_ids@,
                cur == self.selected_task,
                ids == old(self).task_ids@,
                cur == old(self).selected_task,
                n == ids.len(),
                i <= n,
                find_next(ids, cur) == find_next(ids.skip(i as int), cur),
            decreases n - i,
        {
            let id = self.task_ids[i];
            if id > self.selected_task {
                proof {
                    assert(ids.skip(i as int).first() == ids[i as int]);
                }
                self.selected_task = id;
                return ;
            }
            proof {
                assert(ids.skip(i as int).drop_first() =~= ids.skip(i + 1));
            }
            i = i + 1;
        }
        proof {
            assert(ids.skip(n as int) =~= Seq::<usize>::empty());
        }
        self.selected_task = self.task_ids[0];
    }

    /// Selects the previous task: the last id seen before the scan reaches
    /// the current selection, wrapping to the last task when the selection
    /// is already the smallest, or when every id is below it.  An empty list
    /// leaves the selection untouched.
    pub fn previous(&mut self)
        ensures
            final(self).task_ids@ == old(self).task_ids@,
            old(self).task_ids@.len() == 0 ==> final(self).selected_task == old(self).selected_task,
            old(self).task_ids@.len() > 0 ==> final(self).selected_task == prev_selection(
                old(self).task_ids@,
                old(self).selected_task,
            ),
    {
        if self.task_ids.len() == 0 {
            return ;
        }
        let ghost ids = self.task_ids@;
        let ghost cur = self.selected_task;
        let n = self.task_ids.len();
        let mut previous: usize = self.task_ids[0];
        let last: usize = self.task_ids[n - 1];
        let mut i: usize = 0;
        proof {
            assert(ids.skip(0) =~= ids);
        }
        while i < n
            invariant
                ids == self.task_ids@,
                cur == self.selected_task,
                ids == old(self).task_ids@,
                cur == old(self).selected_task,
                n == ids.len(),
                i <= n,
                last == ids[n - 1],
                prev_selection(ids, cur) == prev_scan(ids.skip(i as int), cur, previous, last),
            decreases n - i,
        {
            let id = self.task_ids[i];
            proof {
                assert(ids.skip(i as int).first() == ids[i as int]);
            }
            if id >= self.selected_task {
                if previous == self.selected_task {
                    self.selected_task = last;
                    return ;
                }
                self.selected_task = previous;
                return ;
            }
            proof {
                assert(ids.skip(i as int).drop_first() =~= ids.skip(i + 1));
            }
            previous = id;
            i = i + 1;
        }
        proof {
            assert(ids.skip(n as int) =~= Seq::<usize>::empty());
        }
        self.selected_task = last;
    }

    /// Replaces the task list, keeping the selection.
    pub fn update_task_ids(&mut self, ids: Vec<usize>)
        ensures
            final(self).task_ids@ == ids@,
            final(self).selected_task == old(self).selected_task,
    {
        self.task_ids = ids;
    }
}

} // verus!
