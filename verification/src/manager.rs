//! The task manager: a registry of running tasks, each with the handle of
//! its execution loop.

use crate::task::{Observation, RunnerView, Task, TaskKind, TaskRunner, TaskView};
use crate::text::same_text;
use vstd::prelude::*;

verus! {

/// Why a task could not be registered.
#[derive(Clone, Copy, Debug, PartialEq, Eq, Structural)]
pub enum TaskError {
    /// A task of that name is registered already.
    NameTaken,
}

/// A registered task and the handle of its execution loop.
struct Entry<H> {
    task: Task,
    handle: H,
}

/// Whether the entry at `i` is the task called `name`.
spec fn holds<H>(entries: Seq<Entry<H>>, i: int, name: Seq<char>) -> bool {
    0 <= i < entries.len() && entries[i].task@.name == name
}

/// The index of the task called `name`.
spec fn index_of<H>(entries: Seq<Entry<H>>, name: Seq<char>) -> int {
    choose|i: int| holds(entries, i, name)
}

/// No two entries share a name.
spec fn unique<H>(entries: Seq<Entry<H>>) -> bool {
    forall|i: int, j: int|
        0 <= i < entries.len() && 0 <= j < entries.len() && entries[i].task@.name
            == entries[j].task@.name ==> i == j
}

/// The tasks of the entries, by name.
spec fn registry<H>(entries: Seq<Entry<H>>) -> Map<Seq<char>, TaskView> {
    Map::new(
        |name: Seq<char>| exists|i: int| holds(entries, i, name),
        |name: Seq<char>| entries[index_of(entries, name)].task@,
    )
}

/// The handle kept with the task called `name`.
spec fn handle_in<H>(entries: Seq<Entry<H>>, name: Seq<char>) -> H {
    entries[index_of(entries, name)].handle
}

/// With unique names, a name leads to the one entry that carries it.
proof fn entry_is_found<H>(entries: Seq<Entry<H>>, i: int)
    requires
        unique(entries),
        0 <= i < entries.len(),
    ensures
        index_of(entries, entries[i].task@.name) == i,
        registry(entries).contains_key(entries[i].task@.name),
        registry(entries)[entries[i].task@.name] == entries[i].task@,
        handle_in(entries, entries[i].task@.name) == entries[i].handle,
{
    assert(holds(entries, i, entries[i].task@.name));
}

/// Appending an entry with a new name adds its task and touches no other.
proof fn entry_is_added<H>(entries: Seq<Entry<H>>, entry: Entry<H>)
    requires
        unique(entries),
        !registry(entries).contains_key(entry.task@.name),
    ensures
        unique(entries.push(entry)),
        registry(entries.push(entry)) == registry(entries).insert(entry.task@.name, entry.task@),
        handle_in(entries.push(entry), entry.task@.name) == entry.handle,
        forall|name: Seq<char>| #[trigger]
            registry(entries).contains_key(name) ==> handle_in(entries.push(entry), name)
                == handle_in(entries, name),
{
    let grown = entries.push(entry);
    let n = entries.len() as int;
    assert forall|i: int, j: int|
        0 <= i < grown.len() && 0 <= j < grown.len() && grown[i].task@.name
            == grown[j].task@.name implies i == j by {
        if i < n && j == n {
            assert(holds(entries, i, entry.task@.name));
        }
        if j < n && i == n {
            assert(holds(entries, j, entry.task@.name));
        }
    }
    entry_is_found(grown, n);
    assert forall|name: Seq<char>| #[trigger]
        registry(entries).contains_key(name) implies registry(grown).contains_key(name)
        && registry(grown)[name] == registry(entries)[name] && handle_in(grown, name) == handle_in(
        entries,
        name,
    ) by {
        let i = index_of(entries, name);
        entry_is_found(entries, i);
        entry_is_found(grown, i);
    }
    assert forall|name: Seq<char>| #[trigger]
        registry(grown).contains_key(name) && name != entry.task@.name implies registry(
        entries,
    ).contains_key(name) by {
        let i = index_of(grown, name);
        assert(holds(entries, i, name));
    }
    assert(registry(grown) =~= registry(entries).insert(entry.task@.name, entry.task@));
}

/// Taking an entry out removes its task and touches no other.
proof fn entry_is_removed<H>(entries: Seq<Entry<H>>, at: int)
    requires
        unique(entries),
        0 <= at < entries.len(),
    ensures
        unique(entries.remove(at)),
        registry(entries.remove(at)) == registry(entries).remove(entries[at].task@.name),
        forall|name: Seq<char>| #[trigger]
            registry(entries).contains_key(name) && name != entries[at].task@.name ==> handle_in(
                entries.remove(at),
                name,
            ) == handle_in(entries, name),
{
    let rest = entries.remove(at);
    let gone = entries[at].task@.name;
    assert forall|i: int| 0 <= i < rest.len() implies rest[i] == entries[if i < at {
        i
    } else {
        i + 1
    }] by {}
    assert forall|name: Seq<char>| #[trigger]
        registry(entries).contains_key(name) && name != gone implies registry(rest).contains_key(
        name,
    ) && registry(rest)[name] == registry(entries)[name] && handle_in(rest, name) == handle_in(
        entries,
        name,
    ) by {
        let i = index_of(entries, name);
        entry_is_found(entries, i);
        let k = if i < at {
            i
        } else {
            i - 1
        };
        assert(rest[k] == entries[i]);
        entry_is_found(rest, k);
    }
    assert forall|name: Seq<char>| #[trigger]
        registry(rest).contains_key(name) implies registry(entries).contains_key(name) && name
        != gone by {
        let k = index_of(rest, name);
        let i = if k < at {
            k
        } else {
            k + 1
        };
        assert(holds(entries, i, name));
    }
    assert(registry(rest) =~= registry(entries).remove(gone));
}

/// Replacing an entry by one of the same name and handle replaces its task
/// and touches no other.
proof fn entry_is_replaced<H>(entries: Seq<Entry<H>>, at: int, entry: Entry<H>)
    requires
        unique(entries),
        0 <= at < entries.len(),
        entry.task@.name == entries[at].task@.name,
        entry.handle == entries[at].handle,
    ensures
        unique(entries.update(at, entry)),
        registry(entries.update(at, entry)) == registry(entries).insert(
            entry.task@.name,
            entry.task@,
        ),
        forall|name: Seq<char>| #[trigger]
            registry(entries).contains_key(name) ==> handle_in(entries.update(at, entry), name)
                == handle_in(entries, name),
{
    let changed = entries.update(at, entry);
    assert forall|name: Seq<char>| #[trigger]
        registry(entries).contains_key(name) implies registry(changed).contains_key(name)
        && handle_in(changed, name) == handle_in(entries, name) && registry(changed)[name] == (
    if name == entry.task@.name {
        entry.task@
    } else {
        registry(entries)[name]
    }) by {
        let i = index_of(entries, name);
        entry_is_found(entries, i);
        entry_is_found(changed, i);
    }
    assert forall|name: Seq<char>| #[trigger]
        registry(changed).contains_key(name) implies registry(entries).contains_key(name) by {
        let i = index_of(changed, name);
        assert(holds(entries, i, name));
    }
    entry_is_found(entries, at);
    assert(registry(changed) =~= registry(entries).insert(entry.task@.name, entry.task@));
}

/// Whether a task called `name` can be registered: it can unless a task of
/// that name is registered.
pub open spec fn can_register(registry: Map<Seq<char>, TaskView>, name: Seq<char>) -> bool {
    !registry.contains_key(name)
}

/// The name of the task that samples CPU usage.
pub open spec fn cpu_usage_task_name() -> Seq<char> {
    "dynamic_cpu_usage"@
}

/// The task that samples CPU usage on behalf of the machine `uuid`: switched
/// on, without interval, with the machine's identifier as its one piece of
/// meta data.
pub open spec fn cpu_usage_task(uuid: Seq<char>) -> TaskView {
    TaskView {
        name: cpu_usage_task_name(),
        enabled: true,
        cancelled: false,
        interval: None,
        kind: TaskKind::DynamicCpuUsage,
        meta_data: seq![("uuid"@, uuid)],
    }
}

/// A registry from task names to running tasks. `H` is the type of the
/// handle by which the end of an execution loop is awaited.
pub struct TaskManager<H> {
    entries: Vec<Entry<H>>,
}

impl<H> View for TaskManager<H> {
    type V = Map<Seq<char>, TaskView>;

    /// The registered tasks, by name.
    closed spec fn view(&self) -> Map<Seq<char>, TaskView> {
        registry(self.entries@)
    }
}

impl<H> TaskManager<H> {
    /// The registry's invariant: no two registered tasks share a name.
    /// `new` establishes it and every method keeps it.
    pub closed spec fn wf(&self) -> bool {
        unique(self.entries@)
    }

    /// The handle of the execution loop of the task called `name`.
    pub closed spec fn handle(&self, name: Seq<char>) -> H {
        handle_in(self.entries@, name)
    }

    /// An empty registry.
    pub fn new() -> (manager: Self)
        ensures
            manager.wf(),
            manager@ == Map::<Seq<char>, TaskView>::empty(),
    {
        let manager = TaskManager { entries: Vec::new() };
        assert(manager@ =~= Map::<Seq<char>, TaskView>::empty());
        manager
    }

    /// The index of the task called `name`, if it is registered.
    fn position(&self, name: &str) -> (found: Option<usize>)
        ensures
            match found {
                Some(i) => holds(self.entries@, i as int, name@),
                None => !self@.contains_key(name@),
            },
            found is Some <==> self@.contains_key(name@),
    {
        let mut i: usize = 0;
        while i < self.entries.len()
            invariant
                i <= self.entries.len(),
                forall|k: int| 0 <= k < i ==> !holds(self.entries@, k, name@),
            decreases self.entries.len() - i,
        {
            if same_text(self.entries[i].task.name(), name) {
                assert(holds(self.entries@, i as int, name@));
                return Some(i);
            }
            i += 1;
        }
        None
    }

    /// Whether the task called `name` is switched on, or `None` where no
    /// such task is registered. Nothing is waited for.
    pub fn query_task_status(&self, name: &str) -> (status: Option<bool>)
        requires
            self.wf(),
        ensures
            status == (if self@.contains_key(name@) {
                Some(self@[name@].enabled)
            } else {
                None
            }),
    {
        match self.position(name) {
            Some(i) => {
                proof {
                    entry_is_found(self.entries@, i as int);
                }
                Some(self.entries[i].task.is_enabled())
            },
            None => None,
        }
    }

    /// Registers a task and starts its execution loop: `spawn` is handed the
    /// task's runner and gives back the handle of the loop that it started.
    /// Where a task of that name is registered already, nothing is started
    /// and nothing changes.
    pub fn add_and_start_task<F: FnOnce(TaskRunner) -> H>(&mut self, task: Task, spawn: F) -> (result:
        Result<(), TaskError>)
        requires
            old(self).wf(),
            forall|runner: TaskRunner| spawn.requires((runner,)),
        ensures
            final(self).wf(),
            result is Ok <==> can_register(old(self)@, task@.name),
            result is Err ==> result == Err::<(), TaskError>(TaskError::NameTaken) && final(self)@
                == old(self)@,
            result is Ok ==> final(self)@ == old(self)@.insert(task@.name, task@),
            result is Ok ==> exists|runner: TaskRunner|
                runner@ == (RunnerView {
                    interval: task@.interval,
                    kind: task@.kind,
                    history: Seq::<Observation>::empty(),
                }) && #[trigger] spawn.ensures((runner,), final(self).handle(task@.name)),
            forall|name: Seq<char>| #[trigger]
                old(self)@.contains_key(name) ==> final(self).handle(name) == old(self).handle(
                    name,
                ),
    {
        if self.position(task.name()).is_some() {
            return Err(TaskError::NameTaken);
        }
        let runner = task.start();
        let ghost started = runner;
        let handle = spawn(runner);
        let entry = Entry { task, handle };
        proof {
            entry_is_added(self.entries@, entry);
        }
        self.entries.push(entry);
        assert(spawn.ensures((started,), self.handle(task@.name)));
        Ok(())
    }

    /// Switches the task called `name` off, if it is registered. Its loop
    /// is not waited for.
    pub fn pause_task(&mut self, name: &str)
        requires
            old(self).wf(),
        ensures
            final(self).wf(),
            final(self)@ == (if old(self)@.contains_key(name@) {
                old(self)@.insert(name@, TaskView { enabled: false, ..old(self)@[name@] })
            } else {
                old(self)@
            }),
            forall|other: Seq<char>| #[trigger]
                old(self)@.contains_key(other) ==> final(self).handle(other) == old(self).handle(
                    other,
                ),
    {
        if let Some(i) = self.position(name) {
            let ghost before = self.entries@;
            proof {
                entry_is_found(before, i as int);
            }
            self.entries[i].task.pause();
            proof {
                entry_is_replaced(before, i as int, self.entries@[i as int]);
                assert(self.entries@ =~= before.update(i as int, self.entries@[i as int]));
            }
        }
    }
    /// Switches the task called `name` on again, if it is registered. Its
    /// loop is not waited for.
    pub fn resume_task(&mut self, name: &str)
        requires
            old(self).wf(),
        ensures
            final(self).wf(),
            final(self)@ == (if old(self)@.contains_key(name@) {
                old(self)@.insert(name@, TaskView { enabled: true, ..old(self)@[name@] })
            } else {
                old(self)@
            }),
            forall|other: Seq<char>| #[trigger]
                old(self)@.contains_key(other) ==> final(self).handle(other) == old(self).handle(
                    other,
                ),
    {
        if let Some(i) = self.position(name) {
            let ghost before = self.entries@;
            proof {
                entry_is_found(before, i as int);
            }
            self.entries[i].task.resume();
            proof {
                entry_is_replaced(before, i as int, self.entries@[i as int]);
                assert(self.entries@ =~= before.update(i as int, self.entries@[i as int]));
            }
        }
    }

    /// Removes the task called `name`, if it is registered: signals its
    /// cancellation, hands the handle of its loop to `join`, which returns
    /// once the loop has ended, and only then lets go of the task. After
    /// that the name is free again.
    pub fn remove_task<J: FnOnce(H)>(&mut self, name: &str, join: J)
        requires
            old(self).wf(),
            forall|handle: H| join.requires((handle,)),
        ensures
            final(self).wf(),
            final(self)@ == old(self)@.remove(name@),
            can_register(final(self)@, name@),
            old(self)@.contains_key(name@) ==> join.ensures((old(self).handle(name@),), ()),
            forall|other: Seq<char>| #[trigger]
                old(self)@.contains_key(other) && other != name@ ==> final(self).handle(other)
                    == old(self).handle(other),
    {
        if let Some(i) = self.position(name) {
            let ghost before = self.entries@;
            proof {
                entry_is_found(before, i as int);
            }
            self.entries[i].task.remove();
            let ghost signalled = self.entries@;
            proof {
                entry_is_replaced(before, i as int, signalled[i as int]);
                assert(signalled =~= before.update(i as int, signalled[i as int]));
                entry_is_removed(signalled, i as int);
            }
            let entry = self.entries.remove(i);
            join(entry.handle);
            assert(self@ =~= old(self)@.remove(name@));
        } else {
            assert(self@ =~= old(self)@.remove(name@));
        }
    }
}

/// Starts every task that the agent runs for the machine `uuid`, which is
/// the one task that samples CPU usage. It fails, and starts nothing, where
/// a task of that name is registered already.
pub fn start_all_tasks<H, F: FnOnce(TaskRunner) -> H>(
    uuid: String,
    manager: &mut TaskManager<H>,
    spawn: F,
) -> (result: Result<(), TaskError>)
    requires
        old(manager).wf(),
        forall|runner: TaskRunner| spawn.requires((runner,)),
    ensures
        final(manager).wf(),
        result is Ok <==> can_register(old(manager)@, cpu_usage_task_name()),
        result is Err ==> result == Err::<(), TaskError>(TaskError::NameTaken) && final(manager)@
            == old(manager)@,
        result is Ok ==> final(manager)@ == old(manager)@.insert(
            cpu_usage_task_name(),
            cpu_usage_task(uuid@),
        ),
        result is Ok ==> exists|runner: TaskRunner|
            runner@ == (RunnerView {
                interval: None,
                kind: TaskKind::DynamicCpuUsage,
                history: Seq::<Observation>::empty(),
            }) && #[trigger] spawn.ensures(
                (runner,),
                final(manager).handle(cpu_usage_task_name()),
            ),
        forall|name: Seq<char>| #[trigger]
            old(manager)@.contains_key(name) ==> final(manager).handle(name) == old(
                manager,
            ).handle(name),
{
    let mut meta_data: Vec<(String, String)> = Vec::new();
    meta_data.push(("uuid".to_owned(), uuid));
    assert(meta_data.deep_view() =~= seq![("uuid"@, uuid@)]);
    let task = Task::new("dynamic_cpu_usage".to_owned(), TaskKind::DynamicCpuUsage, None, meta_data);
    manager.add_and_start_task(task, spawn)
}

/// Removal is a barrier: once a task has been removed, its name is absent
/// from the registry and can be registered again at once.
pub proof fn name_is_free_after_removal(registry: Map<Seq<char>, TaskView>, name: Seq<char>)
    ensures
        !registry.remove(name).contains_key(name),
        can_register(registry.remove(name), name),
{
}

} // verus!
