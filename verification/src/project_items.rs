//! The project items behind an item of the workspace.

use crate::entity::EntityId;
use vstd::prelude::*;

verus! {

/// A file of a project.
#[derive(Debug, PartialEq, Eq)]
pub struct ProjectPath {
    pub worktree_id: u64,
    pub path: String,
}

/// What a workspace item tells of one of its project items.
#[derive(Debug, PartialEq, Eq)]
pub struct ProjectItem {
    /// The model that holds the project item.
    pub model: EntityId,
    /// The entry in the project, if it is saved there.
    pub entry_id: Option<u64>,
    /// The path in the project, if it has one.
    pub path: Option<ProjectPath>,
}

/// A short list of numbers, kept in place up to three of them.
#[verifier::external_body]
pub struct IdList {
    inner: smallvec::SmallVec<[u64; 3]>,
}

/// The numbers that a list holds, in their order.
pub uninterp spec fn id_list_contents(list: IdList) -> Seq<u64>;

impl View for IdList {
    type V = Seq<u64>;

    open spec fn view(&self) -> Seq<u64> {
        id_list_contents(*self)
    }
}

/// Calls `smallvec::SmallVec::new`, which gives a vector that holds nothing.
#[verifier::external_body]
fn id_list_new() -> (list: IdList)
    ensures
        id_list_contents(list) == Seq::<u64>::empty(),
{
    IdList { inner: smallvec::SmallVec::new() }
}

/// Calls `smallvec::SmallVec::push`, which puts the value behind the others and
/// leaves those as they are. Like `Vec::push` it panics where the values would
/// take more than `isize::MAX` bytes; a list here has at most one value for each
/// element of a vector whose elements are several times as large, so it stays
/// far below that.
#[verifier::external_body]
fn id_list_push(list: &mut IdList, id: u64)
    ensures
        id_list_contents(*final(list)) == id_list_contents(*old(list)).push(id),
{
    list.inner.push(id)
}

/// Calls `smallvec::SmallVec::as_slice`, which gives the values in their order.
#[verifier::external_body]
fn id_list_as_slice(list: &IdList) -> (ids: &[u64])
    ensures
        ids@ == id_list_contents(*list),
{
    list.inner.as_slice()
}

impl IdList {
    /// The numbers of the list, in their order.
    pub fn to_vec(&self) -> (ids: Vec<u64>)
        ensures
            ids@ == self@,
    {
        let slice = id_list_as_slice(self);
        let mut ids: Vec<u64> = Vec::new();
        let mut next: usize = 0;
        while next < slice.len()
            invariant
                next <= slice@.len(),
                ids@ == slice@.take(next as int),
            decreases slice@.len() - next,
        {
            ids.push(slice[next]);
            next = next + 1;
            assert(ids@ =~= slice@.take(next as int));
        }
        assert(slice@.take(next as int) =~= slice@);
        ids
    }
}

/// The path of a singleton: that of the project item visited last, if any was
/// visited. An item that is no singleton has none.
pub open spec fn last_path(singleton: bool, items: Seq<ProjectItem>) -> Option<ProjectPath> {
    if singleton && items.len() > 0 {
        items.last().path
    } else {
        None
    }
}

/// The entries of those project items that have one, in the order of the visit.
pub open spec fn entry_ids(items: Seq<ProjectItem>) -> Seq<u64>
    decreases items.len(),
{
    if items.len() == 0 {
        Seq::empty()
    } else {
        match items.last().entry_id {
            Some(id) => entry_ids(items.drop_last()).push(id),
            None => entry_ids(items.drop_last()),
        }
    }
}

/// The models of all project items, in the order of the visit.
pub open spec fn model_ids(items: Seq<ProjectItem>) -> Seq<u64> {
    items.map_values(|item: ProjectItem| item.model.0)
}

/// Gives the path of an item from what it told of itself.
pub fn project_path(singleton: bool, items: Vec<ProjectItem>) -> (path: Option<ProjectPath>)
    ensures
        path == last_path(singleton, items@),
        singleton && items@.len() > 0 ==> path == items@.last().path,
        !singleton || items@.len() == 0 ==> path is None,
{
    let mut items = items;
    if singleton {
        match items.pop() {
            Some(item) => item.path,
            None => None,
        }
    } else {
        None
    }
}

/// Gives the entries of the project items that have one.
pub fn project_entry_ids(items: &Vec<ProjectItem>) -> (ids: IdList)
    ensures
        ids@ == entry_ids(items@),
{
    let mut ids = id_list_new();
    let mut next: usize = 0;
    assert(items@.take(0) =~= Seq::empty());
    while next < items.len()
        invariant
            next <= items.len(),
            ids@ == entry_ids(items@.take(next as int)),
        decreases items.len() - next,
    {
        if let Some(id) = items[next].entry_id {
            id_list_push(&mut ids, id);
        }
        assert(items@.take(next + 1).drop_last() =~= items@.take(next as int));
        next = next + 1;
    }
    assert(items@.take(next as int) =~= items@);
    ids
}

/// Gives the models of the project items.
pub fn project_item_model_ids(items: &Vec<ProjectItem>) -> (ids: IdList)
    ensures
        ids@ == model_ids(items@),
{
    let mut ids = id_list_new();
    let mut next: usize = 0;
    while next < items.len()
        invariant
            next <= items.len(),
            ids@ == model_ids(items@.take(next as int)),
        decreases items.len() - next,
    {
        id_list_push(&mut ids, items[next].model.0);
        next = next + 1;
        assert(ids@ =~= model_ids(items@.take(next as int)));
    }
    assert(items@.take(next as int) =~= items@);
    ids
}

/// An item lists as many models as it has project items, and never more entries
/// than models; the entries are exactly those that its project items have.
pub proof fn law_entries_are_those_of_the_items(items: Seq<ProjectItem>)
    ensures
        model_ids(items).len() == items.len(),
        entry_ids(items).len() <= items.len(),
        forall|id: u64| #[trigger]
            entry_ids(items).contains(id) <==> exists|i: int|
                0 <= i < items.len() && #[trigger] items[i].entry_id == Some(id),
    decreases items.len(),
{
    if items.len() > 0 {
        let front = items.drop_last();
        law_entries_are_those_of_the_items(front);
        assert forall|id: u64| #[trigger] entry_ids(items).contains(id) implies exists|i: int|
            0 <= i < items.len() && #[trigger] items[i].entry_id == Some(id) by {
            if items.last().entry_id == Some(id) {
                assert(items[items.len() - 1].entry_id == Some(id));
            } else {
                assert(entry_ids(front).contains(id)) by {
                    let k = choose|k: int|
                        0 <= k < entry_ids(items).len() && entry_ids(items)[k] == id;
                    assert(entry_ids(front)[k] == id);
                }
                let i = choose|i: int|
                    0 <= i < front.len() && #[trigger] front[i].entry_id == Some(id);
                assert(items[i].entry_id == Some(id));
            }
        }
        assert forall|id: u64|
            (exists|i: int| 0 <= i < items.len() && #[trigger] items[i].entry_id == Some(id))
                implies #[trigger] entry_ids(items).contains(id) by {
            let i = choose|i: int| 0 <= i < items.len() && #[trigger] items[i].entry_id == Some(id);
            if i == items.len() - 1 {
                assert(entry_ids(items).last() == id);
            } else {
                assert(front[i].entry_id == Some(id));
                assert(entry_ids(front).contains(id));
                let k = choose|k: int| 0 <= k < entry_ids(front).len() && entry_ids(front)[k] == id;
                assert(entry_ids(items)[k] == id);
            }
        }
    }
}

/// The project item that is visited last decides the path of a singleton, be it the
/// only one or not. Without project items, or if the item is no singleton, there is
/// no path.
pub proof fn law_last_visited_decides_the_path(front: Seq<ProjectItem>, item: ProjectItem)
    ensures
        last_path(true, front.push(item)) == item.path,
        last_path(true, Seq::empty()) is None,
        last_path(false, front) is None,
{
}

/// One more project item adds its model to the end of the models, and its entry, if
/// it has one, to the end of the entries; what was there before stays as it is.
pub proof fn law_ids_are_listed_in_order(front: Seq<ProjectItem>, item: ProjectItem)
    ensures
        entry_ids(Seq::empty()).len() == 0,
        model_ids(Seq::empty()).len() == 0,
        model_ids(front.push(item)) == model_ids(front).push(item.model.0),
        item.entry_id is None ==> entry_ids(front.push(item)) == entry_ids(front),
        item.entry_id matches Some(id) ==> entry_ids(front.push(item)) == entry_ids(front).push(id),
{
    assert(front.push(item).drop_last() =~= front);
    assert(model_ids(front.push(item)) =~= model_ids(front).push(item.model.0));
}

} // verus!
