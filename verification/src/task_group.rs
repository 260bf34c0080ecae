//! The task group: the set of background work units of one owner, which
//! share one cancellation signal.
//!
//! The group decides which identifier a new unit gets and which units are
//! live; the caller runs the units and stops those that the group names.

use vstd::prelude::*;

verus! {

/// The stable identifier of a work unit within its group.
#[derive(Debug, Clone, Copy, PartialEq, Eq, Hash, Structural)]
pub struct TaskId(pub u64);

/// The observable outcome of a work unit.
#[derive(Debug, PartialEq, Eq)]
pub enum TaskResult<T> {
    /// The work ran to its end and gave a value.
    Completed(T),
    /// The cancellation signal came first.
    Cancelled,
}

/// What a group is, as contracts see it.
pub struct TaskGroupView {
    /// The identifiers of the live members.
    pub members: Set<TaskId>,
    /// The number that the next member gets.
    pub next: u64,
    /// Whether the shared cancellation signal was given.
    pub cancelled: bool,
}

/// The concurrent map of the `dashmap` crate.
#[verifier::external_type_specification]
#[verifier::external_body]
#[verifier::reject_recursive_types(K)]
#[verifier::reject_recursive_types(V)]
#[verifier::reject_recursive_types(S)]
pub struct ExDashMap<K, V, S>(dashmap::DashMap<K, V, S>);

/// The numbers of the tasks that a map holds.
pub uninterp spec fn live_tasks(map: dashmap::DashMap<u64, ()>) -> Set<u64>;

/// Calls `DashMap::new`: a map that holds nothing.
#[verifier::external_body]
pub(crate) fn task_map_new() -> (map: dashmap::DashMap<u64, ()>)
    ensures
        live_tasks(map) == Set::<u64>::empty(),
{
    dashmap::DashMap::new()
}

/// Calls `DashMap::insert`: the map holds the number afterwards, besides
/// what it held.
#[verifier::external_body]
pub(crate) fn task_map_insert(map: &mut dashmap::DashMap<u64, ()>, id: u64)
    ensures
        live_tasks(*final(map)) == live_tasks(*old(map)).insert(id),
{
    map.insert(id, ());
}

/// Calls `DashMap::remove`: the map holds the number no longer; the entry
/// is returned if the map held it.
#[verifier::external_body]
pub(crate) fn task_map_remove(map: &mut dashmap::DashMap<u64, ()>, id: u64) -> (entry: Option<
    (u64, ()),
>)
    ensures
        entry.is_some() == live_tasks(*old(map)).contains(id),
        live_tasks(*final(map)) == live_tasks(*old(map)).remove(id),
{
    map.remove(&id)
}

/// Calls `DashMap::contains_key`: whether the map holds the number.
#[verifier::external_body]
pub(crate) fn task_map_contains(map: &dashmap::DashMap<u64, ()>, id: u64) -> (found: bool)
    ensures
        found == live_tasks(*map).contains(id),
{
    map.contains_key(&id)
}

/// Calls `DashMap::len`: how many numbers the map holds.
#[verifier::external_body]
pub(crate) fn task_map_len(map: &dashmap::DashMap<u64, ()>) -> (n: usize)
    ensures
        n == live_tasks(*map).len(),
{
    map.len()
}

/// Calls `DashMap::iter` and copies the key of each entry: every number
/// that the map holds, once, in no particular order.
#[verifier::external_body]
pub(crate) fn task_map_keys(map: &dashmap::DashMap<u64, ()>) -> (keys: Vec<u64>)
    ensures
        keys@.no_duplicates(),
        keys@.to_set() == live_tasks(*map),
{
    map.iter().map(|entry| *entry.key()).collect()
}

/// Calls `DashMap::clear`: the map holds nothing afterwards.
#[verifier::external_body]
pub(crate) fn task_map_clear(map: &mut dashmap::DashMap<u64, ()>)
    ensures
        live_tasks(*final(map)) == Set::<u64>::empty(),
{
    map.clear();
}

/// A set of live work units with their shared cancellation signal.
pub struct TaskGroup {
    cancelled: bool,
    tasks: dashmap::DashMap<u64, ()>,
    next_task_id: TaskId,
}

/// The identifiers with the given numbers.
pub open spec fn task_ids(numbers: Set<u64>) -> Set<TaskId> {
    Set::new(|t: TaskId| numbers.contains(t.0))
}

/// The identifiers with the given numbers, in their order.
pub open spec fn task_id_list(numbers: Seq<u64>) -> Seq<TaskId> {
    Seq::new(numbers.len(), |i: int| TaskId(numbers[i]))
}

/// A list of numbers without repetitions is a list of identifiers without
/// repetitions, and holds the same tasks.
pub proof fn lemma_task_id_list(numbers: Seq<u64>)
    requires
        numbers.no_duplicates(),
    ensures
        task_id_list(numbers).no_duplicates(),
        task_id_list(numbers).to_set() == task_ids(numbers.to_set()),
{
    let list = task_id_list(numbers);
    assert forall|t: TaskId| list.to_set().contains(t) <==> task_ids(numbers.to_set()).contains(
        t,
    ) by {
        if list.contains(t) {
            let k = choose|k: int| 0 <= k < list.len() && list[k] == t;
            assert(numbers[k] == t.0);
            assert(numbers.contains(t.0));
        }
        if numbers.contains(t.0) {
            let k = choose|k: int| 0 <= k < numbers.len() && numbers[k] == t.0;
            assert(list[k] == t);
        }
    }
    assert(list.to_set() =~= task_ids(numbers.to_set()));
}

impl TaskGroup {
    /// The group as contracts see it.
    pub closed spec fn view(&self) -> TaskGroupView {
        TaskGroupView {
            members: task_ids(live_tasks(self.tasks)),
            next: self.next_task_id.0,
            cancelled: self.cancelled,
        }
    }

    /// The group is consistent: every member got its number from this group.
    pub closed spec fn wf(&self) -> bool {
        &&& live_tasks(self.tasks).finite()
        &&& forall|n: u64| live_tasks(self.tasks).contains(n) ==> n < self.next_task_id.0
    }

    /// Every member's number is below the next one to be given.
    pub proof fn lemma_members_below_next(&self)
        requires
            self.wf(),
        ensures
            forall|t: TaskId| self@.members.contains(t) ==> t.0 < self@.next,
    {
    }

    /// A group without members, whose first member gets the number 0.
    pub fn new() -> (group: TaskGroup)
        ensures
            group.wf(),
            group@.members == Set::<TaskId>::empty(),
            group@.next == 0,
            !group@.cancelled,
    {
        let group = TaskGroup { cancelled: false, tasks: task_map_new(), next_task_id: TaskId(0) };
        assert(group@.members =~= Set::<TaskId>::empty());
        group
    }

    /// Whether one more member can be numbered.
    pub fn has_room(&self) -> (room: bool)
        ensures
            room == (self@.next < u64::MAX),
    {
        self.next_task_id.0 < u64::MAX
    }

    /// Takes a new member in and gives it the next number. The caller
    /// schedules the work under that number.
    pub fn spawn(&mut self) -> (id: TaskId)
        requires
            old(self).wf(),
            old(self)@.next < u64::MAX,
        ensures
            final(self).wf(),
            id == TaskId(old(self)@.next),
            !old(self)@.members.contains(id),
            final(self)@.members == old(self)@.members.insert(id),
            final(self)@.next == old(self)@.next + 1,
            final(self)@.cancelled == old(self)@.cancelled,
    {
        let id = self.next_task_id;
        task_map_insert(&mut self.tasks, id.0);
        self.next_task_id = TaskId(id.0 + 1);
        proof {
            assert(self@.members =~= old(self)@.members.insert(id));
        }
        id
    }

    /// Whether `id` is a live member.
    pub fn contains(&self, id: TaskId) -> (found: bool)
        ensures
            found == self@.members.contains(id),
    {
        task_map_contains(&self.tasks, id.0)
    }

    /// The number of live members.
    pub fn len(&self) -> (n: usize)
        requires
            self.wf(),
        ensures
            self@.members.finite(),
            n == self@.members.len(),
    {
        let n = task_map_len(&self.tasks);
        proof {
            lemma_task_ids_len(live_tasks(self.tasks));
        }
        n
    }

    /// The live members, for the caller to look at; they stay in the group.
    /// Their order is not fixed.
    pub fn ids(&self) -> (ids: Vec<TaskId>)
        ensures
            ids@.no_duplicates(),
            ids@.to_set() == self@.members,
    {
        let numbers = task_map_keys(&self.tasks);
        let mut ids: Vec<TaskId> = Vec::new();
        let mut i: usize = 0;
        while i < numbers.len()
            invariant
                i <= numbers@.len(),
                ids@ == task_id_list(numbers@.subrange(0, i as int)),
            decreases numbers@.len() - i,
        {
            ids.push(TaskId(numbers[i]));
            assert(ids@ =~= task_id_list(numbers@.subrange(0, i + 1)));
            i = i + 1;
        }
        proof {
            assert(numbers@.subrange(0, numbers@.len() as int) =~= numbers@);
            lemma_task_id_list(numbers@);
        }
        ids
    }

    /// Whether the shared cancellation signal was given.
    pub fn is_cancelled(&self) -> (cancelled: bool)
        ensures
            cancelled == self@.cancelled,
    {
        self.cancelled
    }

    /// A member reports that its work has ended: it leaves the group before
    /// its outcome is handed on. `value` is what the work gave, or nothing
    /// when the cancellation signal came first.
    pub fn complete<T>(&mut self, id: TaskId, value: Option<T>) -> (outcome: TaskResult<T>)
        requires
            old(self).wf(),
        ensures
            final(self).wf(),
            final(self)@.members == old(self)@.members.remove(id),
            final(self)@.next == old(self)@.next,
            final(self)@.cancelled == old(self)@.cancelled,
            outcome == match value {
                Some(v) => TaskResult::Completed(v),
                None => TaskResult::Cancelled,
            },
    {
        let _ = self.abort_task(id);
        match value {
            Some(v) => TaskResult::Completed(v),
            None => TaskResult::Cancelled,
        }
    }

    /// The members that the caller has to await; they leave the group.
    /// Their order is not fixed.
    pub fn wait(&mut self) -> (waited: Vec<TaskId>)
        requires
            old(self).wf(),
        ensures
            final(self).wf(),
            waited@.no_duplicates(),
            waited@.to_set() == old(self)@.members,
            final(self)@.members == Set::<TaskId>::empty(),
            final(self)@.next == old(self)@.next,
            final(self)@.cancelled == old(self)@.cancelled,
    {
        self.take_all()
    }

    /// Gives the shared cancellation signal. The members stay until they
    /// report their end.
    pub fn cancel(&mut self)
        requires
            old(self).wf(),
        ensures
            final(self).wf(),
            final(self)@.cancelled,
            final(self)@.members == old(self)@.members,
            final(self)@.next == old(self)@.next,
    {
        self.cancelled = true;
    }

    /// The members that the caller has to stop by force; they leave the
    /// group. Their order is not fixed.
    pub fn abort_all(&mut self) -> (aborted: Vec<TaskId>)
        requires
            old(self).wf(),
        ensures
            final(self).wf(),
            aborted@.no_duplicates(),
            aborted@.to_set() == old(self)@.members,
            final(self)@.members == Set::<TaskId>::empty(),
            final(self)@.next == old(self)@.next,
            final(self)@.cancelled == old(self)@.cancelled,
    {
        self.take_all()
    }

    fn take_all(&mut self) -> (taken: Vec<TaskId>)
        requires
            old(self).wf(),
        ensures
            final(self).wf(),
            taken@.no_duplicates(),
            taken@.to_set() == old(self)@.members,
            final(self)@.members == Set::<TaskId>::empty(),
            final(self).next_task_id == old(self).next_task_id,
            final(self).cancelled == old(self).cancelled,
    {
        let taken = self.ids();
        task_map_clear(&mut self.tasks);
        proof {
            assert(self@.members =~= Set::<TaskId>::empty());
        }
        taken
    }

    /// Takes the member `id` out, for the caller to stop it by force. Says
    /// whether it was a member.
    pub fn abort_task(&mut self, id: TaskId) -> (present: bool)
        requires
            old(self).wf(),
        ensures
            final(self).wf(),
            present == old(self)@.members.contains(id),
            final(self)@.members == old(self)@.members.remove(id),
            final(self)@.next == old(self)@.next,
            final(self)@.cancelled == old(self)@.cancelled,
    {
        let entry = task_map_remove(&mut self.tasks, id.0);
        proof {
            assert(self@.members =~= old(self)@.members.remove(id));
        }
        entry.is_some()
    }
}

/// There are as many identifiers as numbers.
pub proof fn lemma_task_ids_len(numbers: Set<u64>)
    requires
        numbers.finite(),
    ensures
        task_ids(numbers).finite(),
        task_ids(numbers).len() == numbers.len(),
    decreases numbers.len(),
{
    if numbers.len() == 0 {
        assert(numbers =~= Set::<u64>::empty());
        assert(task_ids(numbers) =~= Set::<TaskId>::empty());
    } else {
        let n = numbers.choose();
        let rest = numbers.remove(n);
        lemma_task_ids_len(rest);
        assert(task_ids(numbers) =~= task_ids(rest).insert(TaskId(n)));
        assert(!task_ids(rest).contains(TaskId(n)));
    }
}

} // verus!
