//! Items: what can stand in a pane, and the handle by which the workspace
//! reaches one.

use crate::entity::{EntityId, PaneId, TypeTag};
use crate::project_items::{self, IdList, ProjectItem, ProjectPath};
use crate::workspace::{self, Workspace};
use std::marker::PhantomData;
use std::ops::Range;
use vstd::prelude::*;

verus! {

/// How long the updates of a followed view are held back, in milliseconds.
pub const LEADER_UPDATE_THROTTLE_MILLIS: u64 = 200;

/// What an item can tell about itself.
#[derive(Clone, Copy, PartialEq, Eq, Structural, Debug, Hash)]
pub enum ItemEvent {
    CloseItem,
    UpdateTab,
    UpdateBreadcrumbs,
    Edit,
}

/// A piece of a breadcrumb, with the highlights of its parts. `S` is a style.
#[derive(Debug, PartialEq, Eq)]
pub struct BreadcrumbText<S> {
    pub text: String,
    pub highlights: Option<Vec<(Range<usize>, S)>>,
}

/// Where in a toolbar an item's breadcrumb stands.
#[derive(Clone, Copy, PartialEq, Eq, Structural, Debug)]
pub enum ToolbarItemLocation {
    Hidden,
    PrimaryLeft,
    PrimaryRight,
    Secondary,
}

/// A view whose type is known only by its tag.
#[derive(Clone, Copy, PartialEq, Eq, Structural, Debug)]
pub struct AnyView {
    pub entity_id: EntityId,
    pub type_tag: TypeTag,
}

/// The history of a pane, as the item that stands in it sees it.
#[derive(Clone, Copy, PartialEq, Eq, Structural, Debug)]
pub struct ItemNavHistory {
    pub pane: PaneId,
    pub item: EntityId,
}

/// What can stand in a pane. All but the tag of the type has a default.
pub trait Item: Sized {
    /// What the item emits.
    type Event;

    /// The style of a highlighted part of a breadcrumb.
    type Style;

    /// What the item keeps of a place in its history.
    type NavigationData;

    /// What is drawn in the item's tab.
    type TabContent;

    /// What makes the options of a new window in the item's workspace.
    type WindowBuilder;

    /// The tag that tells this type from all others.
    const TYPE_TAG: TypeTag;

    /// What to draw in the item's tab: nothing, unless the item says otherwise.
    fn tab_content(&self, _detail: Option<usize>, _selected: bool) -> (content: Option<
        Self::TabContent,
    >)
        default_ensures
            content is None,
    {
        None
    }

    /// The item events that an event amounts to.
    fn to_item_events(_event: &Self::Event) -> (events: Vec<ItemEvent>)
        default_ensures
            events@ == Seq::<ItemEvent>::empty(),
    {
        Vec::new()
    }

    /// The item is no longer the active one of its pane.
    fn deactivated(&mut self)
        default_ensures
            *final(self) == *old(self),
    {
    }

    /// The workspace of the item is no longer active.
    fn workspace_deactivated(&mut self)
        default_ensures
            *final(self) == *old(self),
    {
    }

    /// Goes to a place in the history, and says whether that moved anything.
    fn navigate(&mut self, _data: Self::NavigationData) -> (moved: bool)
        default_ensures
            *final(self) == *old(self),
            !moved,
    {
        false
    }

    fn tab_tooltip_text(&self) -> (text: Option<String>)
        default_ensures
            text is None,
    {
        None
    }

    /// The description of the tab, longer for a higher level of detail.
    fn tab_description(&self, _detail: usize) -> (text: Option<String>)
        default_ensures
            text is None,
    {
        None
    }

    fn telemetry_event_text(&self) -> (text: Option<&'static str>)
        default_ensures
            text is None,
    {
        None
    }

    /// The project items behind the item, in the order in which they are visited.
    fn project_items(&self) -> (items: Vec<ProjectItem>)
        default_ensures
            items@ == Seq::<ProjectItem>::empty(),
    {
        Vec::new()
    }

    /// Whether the item shows a single project item.
    fn is_singleton(&self) -> (singleton: bool)
        default_ensures
            !singleton,
    {
        false
    }

    /// The item gets its history in the pane that it enters.
    fn set_nav_history(&mut self, _history: ItemNavHistory)
        default_ensures
            *final(self) == *old(self),
    {
    }

    /// The item for the other half of a split pane.
    fn clone_on_split(&self, _workspace: EntityId) -> (copy: Option<Self>)
        default_ensures
            copy is None,
    {
        None
    }

    fn is_dirty(&self) -> (dirty: bool)
        default_ensures
            !dirty,
    {
        false
    }

    fn has_conflict(&self) -> (conflict: bool)
        default_ensures
            !conflict,
    {
        false
    }

    fn can_save(&self) -> (savable: bool)
        default_ensures
            !savable,
    {
        false
    }

    /// The view to use where one of the type `type_tag` is wanted; `self_handle`
    /// is the view of the item itself.
    fn act_as_type(&self, type_tag: TypeTag, self_handle: AnyView) -> (view: Option<AnyView>)
        default_ensures
            view == (if type_tag == Self::TYPE_TAG {
                Some(self_handle)
            } else {
                None
            }),
    {
        if Self::TYPE_TAG == type_tag {
            Some(self_handle)
        } else {
            None
        }
    }

    fn breadcrumb_location(&self) -> (location: ToolbarItemLocation)
        default_ensures
            location == ToolbarItemLocation::Hidden,
    {
        ToolbarItemLocation::Hidden
    }

    fn breadcrumbs(&self) -> (texts: Option<Vec<BreadcrumbText<Self::Style>>>)
        default_ensures
            texts is None,
    {
        None
    }

    /// The item learns of the workspace that it enters.
    fn added_to_workspace(&mut self, _workspace: &mut Workspace<Self::WindowBuilder>)
        default_ensures
            *final(self) == *old(self),
            *final(_workspace) == *old(_workspace),
    {
    }

    /// The name under which items of this type are stored between sessions.
    fn serialized_item_kind() -> (kind: Option<&'static str>)
        default_ensures
            kind is None,
    {
        None
    }

    fn show_toolbar(&self) -> (shown: bool)
        default_ensures
            shown,
    {
        true
    }
}

impl AnyView {
    /// The view as one of the type with the given tag, if that is its type.
    pub open spec fn as_type(self, tag: TypeTag) -> Option<EntityId> {
        if self.type_tag == tag {
            Some(self.entity_id)
        } else {
            None
        }
    }

    /// The view as one of type `V`, if that is its type.
    pub fn downcast<V: Item>(&self) -> (view: Option<EntityId>)
        ensures
            view == self.as_type(V::TYPE_TAG),
    {
        if self.type_tag == V::TYPE_TAG {
            Some(self.entity_id)
        } else {
            None
        }
    }
}

/// An item can tell that it has the given project path: it says whether it is a
/// singleton, and, if it is, which project items it shows.
pub open spec fn tells_path<T: Item>(item: T, path: Option<ProjectPath>) -> bool {
    exists|singleton: bool, items: Vec<ProjectItem>|
        #![trigger call_ensures(T::is_singleton, (&item,), singleton), items@]
        {
            &&& call_ensures(T::is_singleton, (&item,), singleton)
            &&& singleton ==> call_ensures(T::project_items, (&item,), items)
            &&& path == project_items::last_path(singleton, items@)
        }
}

/// An item can tell of project items that have just these entries.
pub open spec fn tells_entries<T: Item>(item: T, ids: Seq<u64>) -> bool {
    exists|items: Vec<ProjectItem>| #[trigger]
        call_ensures(T::project_items, (&item,), items) && ids == project_items::entry_ids(items@)
}

/// An item can tell of project items that have just these models.
pub open spec fn tells_models<T: Item>(item: T, ids: Seq<u64>) -> bool {
    exists|items: Vec<ProjectItem>| #[trigger]
        call_ensures(T::project_items, (&item,), items) && ids == project_items::model_ids(items@)
}

/// A handle by which the workspace reaches an item. What the item decides, the
/// handle passes on as it is. `T` is the type of the item.
pub trait ItemHandle<T: Item>: Sized {
    /// The handle as a view.
    spec fn as_any(&self) -> AnyView;

    /// The item that is reached.
    spec fn held(&self) -> T;

    fn item_id(&self) -> (id: EntityId)
        ensures
            id == self.as_any().entity_id,
    ;

    fn to_any(&self) -> (view: AnyView)
        ensures
            view == self.as_any(),
            view.type_tag == T::TYPE_TAG,
    ;

    fn tab_tooltip_text(&self) -> (told: Option<String>)
        ensures
            call_ensures(T::tab_tooltip_text, (&self.held(),), told),
    ;

    fn tab_description(&self, detail: usize) -> (told: Option<String>)
        ensures
            call_ensures(T::tab_description, (&self.held(), detail), told),
    ;

    fn tab_content(&self, detail: Option<usize>, selected: bool) -> (told: Option<T::TabContent>)
        ensures
            call_ensures(T::tab_content, (&self.held(), detail, selected), told),
    ;

    /// What to draw of the item's tab while it is dragged: as if it were selected.
    fn dragged_tab_content(&self, detail: Option<usize>) -> (told: Option<T::TabContent>)
        ensures
            call_ensures(T::tab_content, (&self.held(), detail, true), told),
    ;

    fn telemetry_event_text(&self) -> (told: Option<&'static str>)
        ensures
            call_ensures(T::telemetry_event_text, (&self.held(),), told),
    ;

    fn project_items(&self) -> (told: Vec<ProjectItem>)
        ensures
            call_ensures(T::project_items, (&self.held(),), told),
    ;

    fn is_singleton(&self) -> (told: bool)
        ensures
            call_ensures(T::is_singleton, (&self.held(),), told),
    ;

    fn is_dirty(&self) -> (told: bool)
        ensures
            call_ensures(T::is_dirty, (&self.held(),), told),
    ;

    fn has_conflict(&self) -> (told: bool)
        ensures
            call_ensures(T::has_conflict, (&self.held(),), told),
    ;

    fn can_save(&self) -> (told: bool)
        ensures
            call_ensures(T::can_save, (&self.held(),), told),
    ;

    fn breadcrumb_location(&self) -> (told: ToolbarItemLocation)
        ensures
            call_ensures(T::breadcrumb_location, (&self.held(),), told),
    ;

    fn show_toolbar(&self) -> (told: bool)
        ensures
            call_ensures(T::show_toolbar, (&self.held(),), told),
    ;

    fn breadcrumbs(&self) -> (told: Option<Vec<BreadcrumbText<T::Style>>>)
        ensures
            call_ensures(T::breadcrumbs, (&self.held(),), told),
    ;

    fn serialized_item_kind(&self) -> (told: Option<&'static str>)
        ensures
            call_ensures(T::serialized_item_kind, (), told),
    ;

    /// The project path of an item that shows a single project item.
    fn project_path(&self) -> (path: Option<ProjectPath>)
        ensures
            tells_path(self.held(), path),
    ;

    /// The entries of the project items that have one.
    fn project_entry_ids(&self) -> (ids: IdList)
        ensures
            tells_entries(self.held(), ids@),
    ;

    /// The models of the project items.
    fn project_item_model_ids(&self) -> (ids: IdList)
        ensures
            tells_models(self.held(), ids@),
    ;

    fn clone_on_split(&self, workspace: EntityId) -> (copy: Option<T>)
        ensures
            call_ensures(T::clone_on_split, (&self.held(), workspace), copy),
    ;

    /// Puts the item into a pane: the item gets its history there, learns of the
    /// workspace, and is registered. The result says whether to subscribe to the
    /// item's events and to watch for its release: each event then goes to
    /// [`Workspace::item_event`], the release to [`Workspace::item_released`],
    /// which also ends the subscription.
    fn added_to_pane(
        &mut self,
        workspace: &mut Workspace<T::WindowBuilder>,
        pane: PaneId,
    ) -> (subscribe: bool)
        ensures
            final(self).as_any() == old(self).as_any(),
            exists|first: &mut T, second: &mut T, entered: &mut Workspace<T::WindowBuilder>|
                #![trigger call_ensures(
                    T::set_nav_history,
                    (first, ItemNavHistory { pane, item: old(self).as_any().entity_id }),
                    (),
                ), call_ensures(T::added_to_workspace, (second, entered), ())]
                {
                    &&& *first == old(self).held()
                    &&& call_ensures(
                        T::set_nav_history,
                        (first, ItemNavHistory { pane, item: old(self).as_any().entity_id }),
                        (),
                    )
                    &&& *second == *final(first)
                    &&& *entered == *old(workspace)
                    &&& call_ensures(T::added_to_workspace, (second, entered), ())
                    &&& final(self).held() == *final(second)
                    &&& (final(workspace).panes(), subscribe) == workspace::with_item(
                        final(entered).panes(),
                        old(self).as_any().entity_id,
                        pane,
                    )
                    &&& final(workspace).shared() == final(entered).shared()
                },
    ;

    fn deactivated(&mut self)
        ensures
            final(self).as_any() == old(self).as_any(),
            exists|item: &mut T|
                #![trigger call_ensures(T::deactivated, (item,), ())]
                {
                    &&& *item == old(self).held()
                    &&& *final(item) == final(self).held()
                    &&& call_ensures(T::deactivated, (item,), ())
                },
    ;

    fn workspace_deactivated(&mut self)
        ensures
            final(self).as_any() == old(self).as_any(),
            exists|item: &mut T|
                #![trigger call_ensures(T::workspace_deactivated, (item,), ())]
                {
                    &&& *item == old(self).held()
                    &&& *final(item) == final(self).held()
                    &&& call_ensures(T::workspace_deactivated, (item,), ())
                },
    ;

    fn navigate(&mut self, data: T::NavigationData) -> (moved: bool)
        ensures
            final(self).as_any() == old(self).as_any(),
            exists|item: &mut T|
                #![trigger call_ensures(T::navigate, (item, data), moved)]
                {
                    &&& *item == old(self).held()
                    &&& *final(item) == final(self).held()
                    &&& call_ensures(T::navigate, (item, data), moved)
                },
    ;

    fn act_as_type(&self, type_tag: TypeTag) -> (view: Option<AnyView>)
        ensures
            call_ensures(
                T::act_as_type,
                (&self.held(), type_tag, self.as_any()),
                view,
            ),
    ;

    /// The item, if it is of type `V`.
    fn downcast<V: Item>(&self) -> (view: Option<EntityId>)
        ensures
            view == self.as_any().as_type(V::TYPE_TAG),
    {
        self.to_any().downcast::<V>()
    }

    /// What the item offers in place of an item of type `V`.
    fn act_as<V: Item>(&self) -> (view: Option<EntityId>)
        ensures
            exists|offered: Option<AnyView>| #[trigger]
                call_ensures(
                    T::act_as_type,
                    (&self.held(), V::TYPE_TAG, self.as_any()),
                    offered,
                ) && view == (match offered {
                    Some(any) => any.as_type(V::TYPE_TAG),
                    None => None,
                }),
    {
        match self.act_as_type(V::TYPE_TAG) {
            Some(any) => any.downcast::<V>(),
            None => None,
        }
    }
}

/// An item together with the number of its entity.
pub struct ItemView<T> {
    pub entity_id: EntityId,
    pub item: T,
}

impl<T: Item> ItemHandle<T> for ItemView<T> {
    open spec fn as_any(&self) -> AnyView {
        AnyView { entity_id: self.entity_id, type_tag: T::TYPE_TAG }
    }

    open spec fn held(&self) -> T {
        self.item
    }

    fn item_id(&self) -> EntityId {
        self.entity_id
    }

    fn to_any(&self) -> AnyView {
        AnyView { entity_id: self.entity_id, type_tag: T::TYPE_TAG }
    }

    fn tab_tooltip_text(&self) -> Option<String> {
        self.item.tab_tooltip_text()
    }

    fn tab_description(&self, detail: usize) -> Option<String> {
        self.item.tab_description(detail)
    }

    fn tab_content(&self, detail: Option<usize>, selected: bool) -> Option<T::TabContent> {
        self.item.tab_content(detail, selected)
    }

    fn dragged_tab_content(&self, detail: Option<usize>) -> Option<T::TabContent> {
        self.item.tab_content(detail, true)
    }

    fn telemetry_event_text(&self) -> Option<&'static str> {
        self.item.telemetry_event_text()
    }

    fn project_items(&self) -> Vec<ProjectItem> {
        self.item.project_items()
    }

    fn is_singleton(&self) -> bool {
        self.item.is_singleton()
    }

    fn is_dirty(&self) -> bool {
        self.item.is_dirty()
    }

    fn has_conflict(&self) -> bool {
        self.item.has_conflict()
    }

    fn can_save(&self) -> bool {
        self.item.can_save()
    }

    fn breadcrumb_location(&self) -> ToolbarItemLocation {
        self.item.breadcrumb_location()
    }

    fn show_toolbar(&self) -> bool {
        self.item.show_toolbar()
    }

    fn breadcrumbs(&self) -> Option<Vec<BreadcrumbText<T::Style>>> {
        self.item.breadcrumbs()
    }

    fn serialized_item_kind(&self) -> Option<&'static str> {
        T::serialized_item_kind()
    }

    fn project_path(&self) -> Option<ProjectPath> {
        let singleton = self.item.is_singleton();
        let items = if singleton {
            self.item.project_items()
        } else {
            Vec::new()
        };
        project_items::project_path(singleton, items)
    }

    fn project_entry_ids(&self) -> IdList {
        let items = self.item.project_items();
        project_items::project_entry_ids(&items)
    }

    fn project_item_model_ids(&self) -> IdList {
        let items = self.item.project_items();
        project_items::project_item_model_ids(&items)
    }

    fn clone_on_split(&self, workspace: EntityId) -> Option<T> {
        self.item.clone_on_split(workspace)
    }

    fn added_to_pane(&mut self, workspace: &mut Workspace<T::WindowBuilder>, pane: PaneId) -> bool {
        self.item.set_nav_history(ItemNavHistory { pane, item: self.entity_id });
        self.item.added_to_workspace(workspace);
        workspace.item_added(self.entity_id, pane)
    }

    fn deactivated(&mut self) {
        self.item.deactivated()
    }

    fn workspace_deactivated(&mut self) {
        self.item.workspace_deactivated()
    }

    fn navigate(&mut self, data: T::NavigationData) -> bool {
        self.item.navigate(data)
    }

    fn act_as_type(&self, type_tag: TypeTag) -> Option<AnyView> {
        self.item.act_as_type(type_tag, self.to_any())
    }
}

/// A handle that does not keep its item alive.
pub trait WeakItemHandle: Sized {
    /// The item as a view, for as long as it lives.
    spec fn as_any(&self) -> AnyView;

    fn id(&self) -> (id: EntityId)
        ensures
            id == self.as_any().entity_id,
    ;

    /// The item, where `alive` says whether anything still holds it.
    fn upgrade(&self, alive: bool) -> (view: Option<AnyView>)
        ensures
            view == (if alive {
                Some(self.as_any())
            } else {
                None
            }),
    ;
}

/// The number of an item's entity, without the item.
pub struct WeakItemView<T> {
    pub entity_id: EntityId,
    pub item: PhantomData<T>,
}

impl<T: Item> WeakItemHandle for WeakItemView<T> {
    open spec fn as_any(&self) -> AnyView {
        AnyView { entity_id: self.entity_id, type_tag: T::TYPE_TAG }
    }

    fn id(&self) -> EntityId {
        self.entity_id
    }

    fn upgrade(&self, alive: bool) -> Option<AnyView> {
        if alive {
            Some(AnyView { entity_id: self.entity_id, type_tag: T::TYPE_TAG })
        } else {
            None
        }
    }
}

impl<T: Item> ItemView<T> {
    /// A handle on the same item that does not keep it alive.
    pub fn downgrade(&self) -> (weak: WeakItemView<T>)
        ensures
            weak.as_any() == self.as_any(),
    {
        WeakItemView { entity_id: self.entity_id, item: PhantomData }
    }
}

/// A view is one of a type if and only if it has the type's tag, and stays the view
/// of the same entity.
pub proof fn law_view_is_of_the_type_of_its_tag(view: AnyView, tag: TypeTag)
    ensures
        view.as_type(tag) is Some <==> view.type_tag == tag,
        view.as_type(tag) matches Some(id) ==> id == view.entity_id,
{
}

/// A handle, and one that does not keep the item alive, lead to the entity that they
/// were made for, as one of the item's type.
pub proof fn law_handles_lead_to_their_entity<T: Item>(view: ItemView<T>, weak: WeakItemView<T>)
    ensures
        view.as_any().entity_id == view.entity_id,
        view.as_any().type_tag == T::TYPE_TAG,
        view.held() == view.item,
        weak.as_any().entity_id == weak.entity_id,
        weak.as_any().type_tag == T::TYPE_TAG,
{
}

/// For an item that can only answer in one way, whether it is a singleton and which
/// project items it shows decide its path, its entries and its models.
pub proof fn law_item_decides_what_is_told<T: Item>(
    item: T,
    singleton: bool,
    shown: Seq<ProjectItem>,
    path: Option<ProjectPath>,
    entries: Seq<u64>,
    models: Seq<u64>,
)
    requires
        forall|told: bool| #[trigger]
            call_ensures(T::is_singleton, (&item,), told) ==> told == singleton,
        forall|told: Vec<ProjectItem>| #[trigger]
            call_ensures(T::project_items, (&item,), told) ==> told@ == shown,
    ensures
        tells_path(item, path) && singleton && shown.len() > 0 ==> path == shown.last().path,
        tells_path(item, path) && (!singleton || shown.len() == 0) ==> path is None,
        tells_entries(item, entries) ==> entries == project_items::entry_ids(shown),
        tells_models(item, models) ==> models == project_items::model_ids(shown),
{
}

} // verus!
