//! The per-worker task store: a concurrent map from task id to task,
//! backed by dashmap and modelled as a `Map<Seq<char>, Task>`.

use vstd::prelude::*;

verus! {

use crate::types::Task;

#[verifier::external_type_specification]
#[verifier::external_body]
#[verifier::reject_recursive_types(K)]
#[verifier::reject_recursive_types(V)]
#[verifier::reject_recursive_types(S)]
pub struct ExDashMap<K, V, S>(dashmap::DashMap<K, V, S>);

/// The concrete store type: task ids to tasks.
pub type TaskMap = dashmap::DashMap<String, Task>;

/// What the store holds: the map from each task's id to the stored task.
pub uninterp spec fn store_contents(m: TaskMap) -> Map<Seq<char>, Task>;

/// Relies on dashmap's `DashMap::new`: a freshly created map is empty.
#[verifier::external_body]
pub(crate) fn store_new() -> (r: TaskMap)
    ensures
        store_contents(r).dom() == Set::<Seq<char>>::empty(),
{
    dashmap::DashMap::new()
}

/// Relies on dashmap's `DashMap::contains_key`: whether an entry with this
/// key is present.
#[verifier::external_body]
pub(crate) fn store_contains(m: &TaskMap, id: &String) -> (r: bool)
    ensures
        r == store_contents(*m).contains_key(id@),
{
    m.contains_key(id)
}

/// Relies on dashmap's `DashMap::get`: the entry stored under this key, if
/// any, returned as a copy.
#[verifier::external_body]
pub(crate) fn store_get(m: &TaskMap, id: &String) -> (r: Option<Task>)
    ensures
        r == if store_contents(*m).contains_key(id@) {
            Some(store_contents(*m)[id@])
        } else {
            None::<Task>
        },
{
    m.get(id).map(|entry| entry.value().clone())
}

/// Relies on dashmap's `DashMap::insert`: the entry is stored under the
/// key, replacing any previous entry; all other entries are untouched.
#[verifier::external_body]
pub(crate) fn store_insert(m: &mut TaskMap, id: String, task: Task)
    ensures
        store_contents(*final (m)) == store_contents(*old(m)).insert(id@, task),
{
    m.insert(id, task);
}

} // verus!
