//! The workspace: which pane each item stands in, what the pane does about an
//! item's events, and navigation through a pane's history.

use crate::entity::{EntityId, PaneId, PeerId};
use crate::item::{Item, ItemEvent};
use std::collections::HashMap;
use std::sync::Arc;
use vstd::prelude::*;

verus! {

broadcast use vstd::std_specs::hash::group_hash_axioms;

/// What the workspace tells its subscribers. `T` is a task to run in a terminal.
#[derive(Debug, PartialEq, Eq)]
pub enum Event<T> {
    PaneAdded(PaneId),
    ContactRequestedJoin(u64),
    WorkspaceCreated(EntityId),
    SpawnTask(T),
}

/// Which of the opened paths become visible in the project.
#[derive(Clone, Copy, PartialEq, Eq, Structural, Debug)]
pub enum OpenVisible {
    All,
    Nothing,
    OnlyFiles,
    OnlyDirectories,
}

/// A view of a collaborator: who made it, and its number there.
#[derive(Clone, Copy, PartialEq, Eq, Structural, Debug, Hash)]
pub struct ViewId {
    pub creator: PeerId,
    pub id: u64,
}

/// What the whole application shares. `B` makes the options of a new window.
pub struct AppState<B> {
    pub build_window_options: B,
}

/// Where in its history a pane is to go.
#[derive(Clone, Copy, PartialEq, Eq, Structural, Debug)]
pub enum NavigationMode {
    GoingBack,
    GoingForward,
}

/// A step through the history of a pane.
#[derive(Clone, Copy, PartialEq, Eq, Structural, Debug)]
pub struct HistoryNavigation {
    pub pane: PaneId,
    pub mode: NavigationMode,
}

/// Why an item is saved.
#[derive(Clone, Copy, PartialEq, Eq, Structural, Debug)]
pub enum SaveIntent {
    Close,
}

/// What a pane does in answer to an item's event.
#[derive(Clone, Copy, PartialEq, Eq, Structural, Debug)]
pub enum PaneAction {
    /// The pane closes the item, and saves it with the given intent.
    CloseItem { pane: PaneId, item: EntityId, intent: SaveIntent },
    /// The pane tells its subscribers that the title of an item has changed.
    EmitChangeItemTitle { pane: PaneId },
    /// The pane is drawn anew.
    Notify { pane: PaneId },
}

/// What a pane does about one event of an item in it.
pub open spec fn event_actions(pane: PaneId, item: EntityId, event: ItemEvent) -> Seq<PaneAction> {
    match event {
        ItemEvent::CloseItem => seq![
            PaneAction::CloseItem { pane, item, intent: SaveIntent::Close },
        ],
        ItemEvent::UpdateTab => seq![
            PaneAction::EmitChangeItemTitle { pane },
            PaneAction::Notify { pane },
        ],
        ItemEvent::UpdateBreadcrumbs | ItemEvent::Edit => Seq::empty(),
    }
}

/// What a pane does about a sequence of events: each in turn, none skipped.
pub open spec fn all_actions(pane: PaneId, item: EntityId, events: Seq<ItemEvent>) -> Seq<
    PaneAction,
>
    decreases events.len(),
{
    if events.len() == 0 {
        Seq::empty()
    } else {
        all_actions(pane, item, events.drop_last()) + event_actions(pane, item, events.last())
    }
}

/// An action is one of the given pane, and closes no item but the given one.
pub open spec fn concerns(action: PaneAction, pane: PaneId, item: EntityId) -> bool {
    match action {
        PaneAction::CloseItem { pane: closing, item: closed, intent } => closing == pane && closed
            == item && intent == SaveIntent::Close,
        PaneAction::EmitChangeItemTitle { pane: telling } => telling == pane,
        PaneAction::Notify { pane: drawn } => drawn == pane,
    }
}

/// What is logged of an event that comes when the item's pane is gone.
pub const DROPPED_PANE: &'static str = "unexpected item event after pane was dropped";

/// Gives what a pane does about the events of an item in it.
pub fn pane_actions(pane: PaneId, item: EntityId, events: &Vec<ItemEvent>) -> (actions: Vec<
    PaneAction,
>)
    ensures
        actions@ == all_actions(pane, item, events@),
        forall|i: int| 0 <= i < actions@.len() ==> concerns(#[trigger] actions@[i], pane, item),
{
    proof {
        law_actions_concern_the_item(pane, item, events@);
    }
    let mut actions: Vec<PaneAction> = Vec::new();
    let mut next: usize = 0;
    assert(events@.take(0) =~= Seq::empty());
    while next < events.len()
        invariant
            next <= events.len(),
            actions@ == all_actions(pane, item, events@.take(next as int)),
        decreases events.len() - next,
    {
        match events[next] {
            ItemEvent::CloseItem => {
                actions.push(PaneAction::CloseItem { pane, item, intent: SaveIntent::Close });
            },
            ItemEvent::UpdateTab => {
                actions.push(PaneAction::EmitChangeItemTitle { pane });
                actions.push(PaneAction::Notify { pane });
            },
            ItemEvent::UpdateBreadcrumbs | ItemEvent::Edit => {},
        }
        assert(events@.take(next + 1).drop_last() =~= events@.take(next as int));
        next = next + 1;
        assert(actions@ =~= all_actions(pane, item, events@.take(next as int)));
    }
    assert(events@.take(next as int) =~= events@);
    actions
}

/// The panes of the items, by the items' numbers.
pub type Panes = Map<u64, PaneId>;

/// The panes after `item` has been put into `pane`, and whether its events are to
/// be subscribed to: only the first time, so that no event is handled twice.
pub open spec fn with_item(panes: Panes, item: EntityId, pane: PaneId) -> (Panes, bool) {
    (panes.insert(item.0, pane), !panes.contains_key(item.0))
}

/// The panes after `item` has been released.
pub open spec fn without_item(panes: Panes, item: EntityId) -> Panes {
    panes.remove(item.0)
}

pub struct Workspace<B> {
    app_state: Arc<AppState<B>>,
    panes_by_item: HashMap<u64, PaneId>,
}

impl<B> Workspace<B> {
    /// The state that the workspace shares with the application.
    pub closed spec fn shared(&self) -> Arc<AppState<B>> {
        self.app_state
    }

    /// The pane of each item that has been added and not been released.
    pub closed spec fn panes(&self) -> Panes {
        self.panes_by_item@
    }

    /// A workspace without items.
    pub fn new(app_state: Arc<AppState<B>>) -> (workspace: Self)
        ensures
            workspace.shared() == app_state,
            workspace.panes() == Panes::empty(),
    {
        Workspace { app_state, panes_by_item: HashMap::new() }
    }

    pub fn app_state(&self) -> (app_state: &Arc<AppState<B>>)
        ensures
            *app_state == self.shared(),
    {
        &self.app_state
    }

    /// Takes a pane one step back in its history.
    pub fn go_back(&mut self, pane: PaneId) -> (navigation: HistoryNavigation)
        ensures
            *final(self) == *old(self),
            navigation == (HistoryNavigation { pane, mode: NavigationMode::GoingBack }),
    {
        HistoryNavigation { pane, mode: NavigationMode::GoingBack }
    }

    /// Takes a pane one step forward in its history.
    pub fn go_forward(&mut self, pane: PaneId) -> (navigation: HistoryNavigation)
        ensures
            *final(self) == *old(self),
            navigation == (HistoryNavigation { pane, mode: NavigationMode::GoingForward }),
    {
        HistoryNavigation { pane, mode: NavigationMode::GoingForward }
    }

    /// Registers an item with the pane that it was put into. The result says
    /// whether to subscribe to the item's events.
    pub fn item_added(&mut self, item: EntityId, pane: PaneId) -> (subscribe: bool)
        ensures
            (final(self).panes(), subscribe) == with_item(old(self).panes(), item, pane),
            final(self).shared() == old(self).shared(),
    {
        let before: Option<PaneId> = self.panes_by_item.insert(item.0, pane);
        before.is_none()
    }

    /// Forgets an item that was released.
    pub fn item_released(&mut self, item: EntityId)
        ensures
            final(self).panes() == without_item(old(self).panes(), item),
            final(self).shared() == old(self).shared(),
    {
        self.panes_by_item.remove(&item.0);
    }

    /// The pane that an item was last put into.
    pub fn pane_of(&self, item: EntityId) -> (pane: Option<PaneId>)
        ensures
            pane == (if self.panes().contains_key(item.0) {
                Some(self.panes()[item.0])
            } else {
                None
            }),
    {
        match self.panes_by_item.get(&item.0) {
            Some(pane) => Some(*pane),
            None => None,
        }
    }

    /// Gives what is done about the events of an item, where `pane_is_open` says
    /// whether the pane from [`Workspace::pane_of`] still exists. Events that came
    /// after the pane was dropped are ignored, and the error is to be logged.
    pub fn item_events(
        &self,
        item: EntityId,
        pane_is_open: bool,
        events: &Vec<ItemEvent>,
    ) -> (actions: Result<Vec<PaneAction>, &'static str>)
        ensures
            actions is Ok <==> self.panes().contains_key(item.0) && pane_is_open,
            actions matches Ok(actions) ==> actions@ == all_actions(
                self.panes()[item.0],
                item,
                events@,
            ),
            actions matches Err(error) ==> error@ == DROPPED_PANE@,
    {
        match self.pane_of(item) {
            Some(pane) if pane_is_open => Ok(pane_actions(pane, item, events)),
            _ => Err(DROPPED_PANE),
        }
    }

    /// Gives what is done about an event that an item emitted: the item says which
    /// item events it amounts to, and those are handled by [`Workspace::item_events`].
    pub fn item_event<T: Item>(
        &self,
        item: EntityId,
        pane_is_open: bool,
        event: &T::Event,
    ) -> (actions: Result<Vec<PaneAction>, &'static str>)
        ensures
            actions is Ok <==> self.panes().contains_key(item.0) && pane_is_open,
            actions matches Err(error) ==> error@ == DROPPED_PANE@,
            actions matches Ok(actions) ==> exists|events: Vec<ItemEvent>|
                #[trigger] call_ensures(T::to_item_events, (event,), events) && actions@
                    == all_actions(self.panes()[item.0], item, events@),
    {
        if !pane_is_open || self.pane_of(item).is_none() {
            return Err(DROPPED_PANE);
        }
        let events = T::to_item_events(event);
        self.item_events(item, pane_is_open, &events)
    }
}

/// Something that happens to an item in a workspace.
#[derive(Debug, PartialEq, Eq)]
pub enum Change {
    Added { item: EntityId, pane: PaneId },
    Released { item: EntityId },
}

/// The panes after a history of changes, from an empty workspace.
pub open spec fn panes_after(history: Seq<Change>) -> Panes
    decreases history.len(),
{
    if history.len() == 0 {
        Panes::empty()
    } else {
        let before = panes_after(history.drop_last());
        match history.last() {
            Change::Added { item, pane } => with_item(before, item, pane).0,
            Change::Released { item } => without_item(before, item),
        }
    }
}

/// How many subscriptions to the events of `item` are alive after a history: one
/// more for each time that adding it asked for one, none after its release.
pub open spec fn subscriptions_after(history: Seq<Change>, item: EntityId) -> nat
    decreases history.len(),
{
    if history.len() == 0 {
        0
    } else {
        let before = subscriptions_after(history.drop_last(), item);
        match history.last() {
            Change::Added { item: added, pane } => if added == item && with_item(
                panes_after(history.drop_last()),
                added,
                pane,
            ).1 {
                before + 1
            } else {
                before
            },
            Change::Released { item: released } => if released == item {
                0
            } else {
                before
            },
        }
    }
}

/// However items were added and released, an item that is registered with a pane
/// has exactly one subscription, and one that is not has none.
pub proof fn law_one_subscription_per_item(history: Seq<Change>, item: EntityId)
    ensures
        subscriptions_after(history, item) == (if panes_after(history).contains_key(item.0) {
            1nat
        } else {
            0nat
        }),
    decreases history.len(),
{
    if history.len() > 0 {
        law_one_subscription_per_item(history.drop_last(), item);
    }
}

/// An item that moves from pane to pane is handled by the pane that it was put
/// into last, and its release forgets it, whatever pane it was in.
pub proof fn law_last_pane_counts(panes: Panes, item: EntityId, first: PaneId, second: PaneId)
    ensures
        with_item(with_item(panes, item, first).0, item, second) == (
            panes.insert(item.0, second),
            false,
        ),
        without_item(with_item(panes, item, first).0, item) == without_item(panes, item),
{
    assert(panes.insert(item.0, first).insert(item.0, second) =~= panes.insert(item.0, second));
    assert(panes.insert(item.0, first).remove(item.0) =~= panes.remove(item.0));
}

/// Closing does not cut a sequence of events short: what comes after it is
/// handled as if it had come alone.
pub proof fn law_events_are_handled_in_turn(
    pane: PaneId,
    item: EntityId,
    earlier: Seq<ItemEvent>,
    later: Seq<ItemEvent>,
)
    ensures
        all_actions(pane, item, earlier + later) == all_actions(pane, item, earlier) + all_actions(
            pane,
            item,
            later,
        ),
    decreases later.len(),
{
    if later.len() == 0 {
        assert(earlier + later =~= earlier);
        assert(all_actions(pane, item, earlier) + Seq::<PaneAction>::empty() =~= all_actions(
            pane,
            item,
            earlier,
        ));
    } else {
        law_events_are_handled_in_turn(pane, item, earlier, later.drop_last());
        assert((earlier + later).drop_last() =~= earlier + later.drop_last());
        assert(all_actions(pane, item, earlier + later) =~= all_actions(pane, item, earlier)
            + all_actions(pane, item, later));
    }
}

/// How many of the events ask for the item to be closed.
pub open spec fn closings_asked(events: Seq<ItemEvent>) -> nat
    decreases events.len(),
{
    if events.len() == 0 {
        0
    } else if events.last() == ItemEvent::CloseItem {
        closings_asked(events.drop_last()) + 1
    } else {
        closings_asked(events.drop_last())
    }
}

/// How many of the events ask for the tab to be updated.
pub open spec fn updates_asked(events: Seq<ItemEvent>) -> nat
    decreases events.len(),
{
    if events.len() == 0 {
        0
    } else if events.last() == ItemEvent::UpdateTab {
        updates_asked(events.drop_last()) + 1
    } else {
        updates_asked(events.drop_last())
    }
}

/// How many of the actions close an item.
pub open spec fn closings(actions: Seq<PaneAction>) -> nat
    decreases actions.len(),
{
    if actions.len() == 0 {
        0
    } else if actions.last() is CloseItem {
        closings(actions.drop_last()) + 1
    } else {
        closings(actions.drop_last())
    }
}

/// How many of the actions tell of a new title.
pub open spec fn titles(actions: Seq<PaneAction>) -> nat
    decreases actions.len(),
{
    if actions.len() == 0 {
        0
    } else if actions.last() is EmitChangeItemTitle {
        titles(actions.drop_last()) + 1
    } else {
        titles(actions.drop_last())
    }
}

/// Whatever the events of an item are, every action that follows is one of its own
/// pane, and none closes another item than the one that the events came from.
pub proof fn law_actions_concern_the_item(pane: PaneId, item: EntityId, events: Seq<ItemEvent>)
    ensures
        forall|i: int|
            0 <= i < all_actions(pane, item, events).len() ==> concerns(
                #[trigger] all_actions(pane, item, events)[i],
                pane,
                item,
            ),
    decreases events.len(),
{
    if events.len() > 0 {
        law_actions_concern_the_item(pane, item, events.drop_last());
        let front = all_actions(pane, item, events.drop_last());
        let all = all_actions(pane, item, events);
        assert forall|i: int| 0 <= i < all.len() implies concerns(#[trigger] all[i], pane, item) by {
            if i < front.len() {
                assert(all[i] == front[i]);
            } else {
                assert(all[i] == event_actions(pane, item, events.last())[i - front.len()]);
            }
        }
    }
}

/// One more event of an item adds what the pane does about it to the end: it closes
/// the item, or tells of the new title and is then drawn anew, or does nothing.
pub proof fn law_each_event_has_its_actions(
    pane: PaneId,
    item: EntityId,
    events: Seq<ItemEvent>,
    event: ItemEvent,
)
    ensures
        all_actions(pane, item, Seq::empty()).len() == 0,
        ({
            let before = all_actions(pane, item, events);
            let after = all_actions(pane, item, events.push(event));
            match event {
                ItemEvent::CloseItem => after == before.push(
                    PaneAction::CloseItem { intent: SaveIntent::Close, item, pane },
                ),
                ItemEvent::UpdateTab => after == before.push(
                    PaneAction::EmitChangeItemTitle { pane },
                ).push(PaneAction::Notify { pane }),
                ItemEvent::UpdateBreadcrumbs => after == before,
                ItemEvent::Edit => after == before,
            }
        }),
{
    assert(events.push(event).drop_last() =~= events);
    let before = all_actions(pane, item, events);
    let after = all_actions(pane, item, events.push(event));
    match event {
        ItemEvent::CloseItem => {
            assert(after =~= before.push(
                PaneAction::CloseItem { intent: SaveIntent::Close, item, pane },
            ));
        },
        ItemEvent::UpdateTab => {
            assert(after =~= before.push(PaneAction::EmitChangeItemTitle { pane }).push(
                PaneAction::Notify { pane },
            ));
        },
        _ => {
            assert(after =~= before);
        },
    }
}

/// There are as many closings as events that ask for one, as many new titles as
/// events that ask for the tab to be updated, each of which also has the pane drawn
/// anew, and nothing else.
pub proof fn law_as_many_actions_as_asked_for(
    pane: PaneId,
    item: EntityId,
    events: Seq<ItemEvent>,
)
    ensures
        closings(all_actions(pane, item, events)) == closings_asked(events),
        titles(all_actions(pane, item, events)) == updates_asked(events),
        all_actions(pane, item, events).len() == closings_asked(events) + 2 * updates_asked(events),
    decreases events.len(),
{
    reveal_with_fuel(closings, 3);
    reveal_with_fuel(titles, 3);
    if events.len() > 0 {
        let front = events.drop_last();
        let event = events.last();
        law_as_many_actions_as_asked_for(pane, item, front);
        law_each_event_has_its_actions(pane, item, front, event);
        assert(front.push(event) =~= events);
        let before = all_actions(pane, item, front);
        let after = all_actions(pane, item, events);
        match event {
            ItemEvent::CloseItem => {
                assert(after.drop_last() =~= before);
            },
            ItemEvent::UpdateTab => {
                let told = before.push(PaneAction::EmitChangeItemTitle { pane });
                assert(after.drop_last() =~= told);
                assert(told.drop_last() =~= before);
            },
            _ => {},
        }
    }
}

/// Adding an item puts it into just that pane, asks for a subscription if and only
/// if the item was not known, and leaves all others where they are. Releasing it
/// makes it unknown and leaves all others where they are.
pub proof fn law_only_the_item_is_touched(
    panes: Panes,
    item: EntityId,
    pane: PaneId,
    other: EntityId,
)
    ensures
        ({
            let (added, subscribe) = with_item(panes, item, pane);
            &&& added.contains_key(item.0) && added[item.0] == pane
            &&& subscribe <==> !panes.contains_key(item.0)
            &&& other != item ==> {
                &&& added.contains_key(other.0) <==> panes.contains_key(other.0)
                &&& panes.contains_key(other.0) ==> added[other.0] == panes[other.0]
            }
        }),
        ({
            let left = without_item(panes, item);
            &&& !left.contains_key(item.0)
            &&& other != item ==> {
                &&& left.contains_key(other.0) <==> panes.contains_key(other.0)
                &&& panes.contains_key(other.0) ==> left[other.0] == panes[other.0]
            }
        }),
{
}

} // verus!
