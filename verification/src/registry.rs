//! The polling tasks that are running, by the pipeline they watch.

use crate::protocol::{PipelineKey, PipelineName};
use dashmap::DashMap;
use std::hash::RandomState;
use vstd::prelude::*;

verus! {

/// The concurrent hash map that holds the tasks.
#[verifier::external_type_specification]
#[verifier::external_body]
#[verifier::reject_recursive_types(K)]
#[verifier::reject_recursive_types(V)]
#[verifier::reject_recursive_types(S)]
pub struct ExDashMap<K, V, S>(DashMap<K, V, S>);

/// The tasks as they are held: by the two parts of a pipeline's name.
pub type TaskMap = DashMap<(String, String), u64, RandomState>;

/// A table of tasks: for each pipeline that is watched the task's number.
pub type TaskTable = Map<PipelineName, u64>;

/// What a task map holds: under the two parts of a pipeline's name the number
/// of the task that watches it.
pub uninterp spec fn tasks_held(
    map: TaskMap,
) -> TaskTable;

/// The task of a pipeline in a table.
pub open spec fn lookup(tasks: TaskTable, key: PipelineName) -> Option<u64> {
    if tasks.contains_key(key) {
        Some(tasks[key])
    } else {
        None
    }
}

/// `DashMap::new`, of which is believed that the new map is empty.
#[verifier::external_body]
fn empty_map() -> (map: TaskMap)
    ensures
        tasks_held(map) == TaskTable::empty(),
{
    DashMap::new()
}

/// `DashMap::insert`, of which is believed that it stores the number under the
/// key, leaves every other key alone, and returns what the key held before.
#[verifier::external_body]
fn map_insert(
    map: &mut TaskMap,
    key: &PipelineKey,
    task: u64,
) -> (before: Option<u64>)
    ensures
        tasks_held(*final(map)) == tasks_held(*old(map)).insert(key@, task),
        before == lookup(tasks_held(*old(map)), key@),
{
    map.insert((key.project_id.clone(), key.merge_request_id.clone()), task)
}

/// `DashMap::remove`, of which is believed that it takes the key out, leaves
/// every other key alone, and returns what the key held.
#[verifier::external_body]
fn map_remove(
    map: &mut TaskMap,
    key: &PipelineKey,
) -> (held: Option<u64>)
    ensures
        tasks_held(*final(map)) == tasks_held(*old(map)).remove(key@),
        held == lookup(tasks_held(*old(map)), key@),
{
    let removed = map.remove(&(key.project_id.clone(), key.merge_request_id.clone()));
    removed.map(|entry| entry.1)
}

/// The pipeline that an entry of a task map stands for.
pub open spec fn entry_name(entry: ((String, String), u64)) -> PipelineName {
    (entry.0.0@, entry.0.1@)
}

/// `DashMap::iter`, of which is believed that it visits each key of the map
/// once, with the number that the key holds. In what order is left open.
#[verifier::external_body]
fn map_entries(map: &TaskMap) -> (entries: Vec<((String, String), u64)>)
    ensures
        entries@.map_values(|e: ((String, String), u64)| entry_name(e)).no_duplicates(),
        entries@.map_values(|e: ((String, String), u64)| entry_name(e)).to_set() == tasks_held(
            *map,
        ).dom(),
        forall|i: int|
            #![trigger entries@[i]]
            0 <= i < entries@.len() ==> tasks_held(*map)[entry_name(entries@[i])] == entries@[i].1,
{
    map.iter().map(|entry| (entry.key().clone(), *entry.value())).collect()
}

/// `DashMap::clear`, of which is believed that it takes every key out.
#[verifier::external_body]
fn map_clear(map: &mut TaskMap)
    ensures
        tasks_held(*final(map)) == TaskTable::empty(),
{
    map.clear()
}

/// The active tasks: at most one for each pipeline.
pub struct Registry {
    tasks: TaskMap,
}

impl View for Registry {
    type V = TaskTable;

    closed spec fn view(&self) -> TaskTable {
        tasks_held(self.tasks)
    }
}

/// `names` names each pipeline of the table once, and `tasks` gives their
/// tasks in the same order.
pub open spec fn enumerates(names: Seq<PipelineName>, tasks: Seq<u64>, table: TaskTable) -> bool {
    &&& names.no_duplicates()
    &&& names.to_set() == table.dom()
    &&& tasks.len() == names.len()
    &&& forall|i: int| 0 <= i < names.len() ==> #[trigger] tasks[i] == table[names[i]]
}

/// `tasks` holds the tasks of a table, one for each pipeline.
pub open spec fn lists_all(tasks: Seq<u64>, table: TaskTable) -> bool {
    exists|names: Seq<PipelineName>| #[trigger] enumerates(names, tasks, table)
}

impl Registry {
    /// A registry without tasks.
    pub fn new() -> (registry: Registry)
        ensures
            registry@ == TaskTable::empty(),
    {
        Registry { tasks: empty_map() }
    }

    /// Enters a task for a pipeline and returns the one it takes the place of.
    pub fn insert(&mut self, key: &PipelineKey, task: u64) -> (before: Option<u64>)
        ensures
            final(self)@ == old(self)@.insert(key@, task),
            before == lookup(old(self)@, key@),
    {
        map_insert(&mut self.tasks, key, task)
    }

    /// Takes out the task of a pipeline, if it has one, and returns it.
    pub fn remove(&mut self, key: &PipelineKey) -> (held: Option<u64>)
        ensures
            final(self)@ == old(self)@.remove(key@),
            held == lookup(old(self)@, key@),
    {
        map_remove(&mut self.tasks, key)
    }

    /// Takes out every task and returns them, one for each pipeline that had
    /// one, in no particular order.
    pub fn drain(&mut self) -> (tasks: Vec<u64>)
        ensures
            final(self)@ == TaskTable::empty(),
            lists_all(tasks@, old(self)@),
    {
        let entries = map_entries(&self.tasks);
        map_clear(&mut self.tasks);
        let ghost names = entries@.map_values(|e: ((String, String), u64)| entry_name(e));
        let mut tasks: Vec<u64> = Vec::new();
        for i in 0..entries.len()
            invariant
                tasks@.len() == i,
                forall|k: int| 0 <= k < i ==> tasks@[k] == entries@[k].1,
        {
            tasks.push(entries[i].1);
        }
        proof {
            assert(enumerates(names, tasks@, old(self)@));
        }
        tasks
    }
}

} // verus!
