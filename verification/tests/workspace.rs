use std::sync::Arc;
use zedxa::entity::{EntityId, PaneId, PeerId, TypeTag};
use zedxa::item::{
    AnyView, Item, ItemEvent, ItemHandle, ItemNavHistory, ItemView, ToolbarItemLocation,
    WeakItemHandle, LEADER_UPDATE_THROTTLE_MILLIS,
};
use zedxa::project_items::{
    project_entry_ids, project_item_model_ids, project_path, ProjectItem, ProjectPath,
};
use zedxa::workspace::{
    pane_actions, AppState, Event, HistoryNavigation, NavigationMode, OpenVisible, PaneAction,
    SaveIntent, ViewId, Workspace, DROPPED_PANE,
};

const ITEM: EntityId = EntityId(1);
const PANE: PaneId = PaneId(10);

fn workspace() -> Workspace<u8> {
    Workspace::new(Arc::new(AppState { build_window_options: 5 }))
}

fn close(pane: PaneId) -> PaneAction {
    PaneAction::CloseItem { pane, item: ITEM, intent: SaveIntent::Close }
}

/// An item that keeps every default.
struct Bare;

impl Item for Bare {
    type Event = u8;
    type Style = u8;
    type NavigationData = u8;
    type TabContent = String;
    type WindowBuilder = u8;

    const TYPE_TAG: TypeTag = 1;
}

/// A buffer that can stand in for a `Bare` item.
#[derive(Default)]
struct Buffer {
    singleton: bool,
    position: u8,
    calls: Vec<String>,
    known_before: bool,
}

fn buffer(singleton: bool) -> ItemView<Buffer> {
    ItemView { entity_id: ITEM, item: Buffer { singleton, ..Buffer::default() } }
}

impl Item for Buffer {
    type Event = u8;
    type Style = u8;
    type NavigationData = u8;
    type TabContent = String;
    type WindowBuilder = u8;

    const TYPE_TAG: TypeTag = 2;

    fn tab_content(&self, detail: Option<usize>, selected: bool) -> Option<String> {
        Some(format!("{detail:?} {selected}"))
    }

    fn set_nav_history(&mut self, history: ItemNavHistory) {
        self.calls.push(format!("history of {} in {}", history.item.0, history.pane.0));
    }

    fn added_to_workspace(&mut self, workspace: &mut Workspace<u8>) {
        self.calls.push(format!("added to {}", workspace.app_state().build_window_options));
        self.known_before = workspace.pane_of(ITEM).is_some();
    }

    fn to_item_events(event: &u8) -> Vec<ItemEvent> {
        match event {
            0 => vec![ItemEvent::Edit],
            1 => vec![ItemEvent::CloseItem, ItemEvent::UpdateTab],
            _ => vec![],
        }
    }

    fn is_singleton(&self) -> bool {
        self.singleton
    }

    fn project_items(&self) -> Vec<ProjectItem> {
        items()
    }

    fn navigate(&mut self, data: u8) -> bool {
        self.position = data;
        true
    }

    fn act_as_type(&self, type_tag: TypeTag, self_handle: AnyView) -> Option<AnyView> {
        if type_tag == 1 {
            Some(AnyView { entity_id: EntityId(77), type_tag })
        } else if type_tag == 2 {
            Some(self_handle)
        } else {
            None
        }
    }
}

fn path(name: &str) -> ProjectPath {
    ProjectPath { worktree_id: 4, path: name.to_string() }
}

fn items() -> Vec<ProjectItem> {
    vec![
        ProjectItem { model: EntityId(20), entry_id: Some(5), path: Some(path("a")) },
        ProjectItem { model: EntityId(21), entry_id: None, path: None },
        ProjectItem { model: EntityId(22), entry_id: Some(6), path: Some(path("c")) },
        ProjectItem { model: EntityId(23), entry_id: Some(7), path: Some(path("d")) },
        ProjectItem { model: EntityId(24), entry_id: Some(5), path: Some(path("e")) },
    ]
}

#[test]
fn app_state_is_shared() {
    assert_eq!(workspace().app_state().build_window_options, 5);
}

#[test]
fn navigation_goes_back_and_forward() {
    let mut workspace = workspace();
    assert_eq!(
        workspace.go_back(PANE),
        HistoryNavigation { pane: PANE, mode: NavigationMode::GoingBack }
    );
    assert_eq!(
        workspace.go_forward(PANE),
        HistoryNavigation { pane: PANE, mode: NavigationMode::GoingForward }
    );
}

#[test]
fn item_enters_a_pane() {
    let mut workspace = workspace();
    let mut view = buffer(true);
    assert!(view.added_to_pane(&mut workspace, PANE));
    assert_eq!(view.item.calls, vec!["history of 1 in 10", "added to 5"]);
    assert!(!view.item.known_before);
    assert_eq!(workspace.pane_of(ITEM), Some(PANE));
    assert!(!view.added_to_pane(&mut workspace, PaneId(11)));
    assert_eq!(view.item.calls[2], "history of 1 in 11");
    assert!(view.item.known_before);
    assert_eq!(workspace.pane_of(ITEM), Some(PaneId(11)));
}

#[test]
fn dragged_tab_is_drawn_as_selected() {
    let view = buffer(true);
    assert_eq!(view.tab_content(Some(2), false), Some("Some(2) false".to_string()));
    assert_eq!(view.dragged_tab_content(None), Some("None true".to_string()));
    assert_eq!(view.project_items(), items());
}

#[test]
fn item_is_subscribed_to_once() {
    let mut workspace = workspace();
    assert!(workspace.item_added(ITEM, PANE));
    assert!(!workspace.item_added(ITEM, PaneId(11)));
    assert_eq!(workspace.pane_of(ITEM), Some(PaneId(11)));
    assert!(workspace.item_added(EntityId(2), PANE));
    workspace.item_released(ITEM);
    assert_eq!(workspace.pane_of(ITEM), None);
    assert_eq!(workspace.pane_of(EntityId(2)), Some(PANE));
    assert!(workspace.item_added(ITEM, PANE));
}

#[test]
fn events_become_actions_of_the_pane() {
    assert_eq!(
        pane_actions(
            PANE,
            ITEM,
            &vec![
                ItemEvent::Edit,
                ItemEvent::CloseItem,
                ItemEvent::UpdateBreadcrumbs,
                ItemEvent::UpdateTab
            ]
        ),
        vec![
            close(PANE),
            PaneAction::EmitChangeItemTitle { pane: PANE },
            PaneAction::Notify { pane: PANE }
        ]
    );
    assert_eq!(pane_actions(PANE, ITEM, &vec![]), vec![]);
}

#[test]
fn events_after_the_pane_was_dropped_are_ignored() {
    assert_eq!(DROPPED_PANE, "unexpected item event after pane was dropped");
    let mut workspace = workspace();
    assert_eq!(workspace.item_events(ITEM, true, &vec![ItemEvent::CloseItem]), Err(DROPPED_PANE));
    workspace.item_added(ITEM, PANE);
    assert_eq!(workspace.item_events(ITEM, false, &vec![ItemEvent::CloseItem]), Err(DROPPED_PANE));
    assert_eq!(
        workspace.item_events(ITEM, true, &vec![ItemEvent::CloseItem]),
        Ok(vec![close(PANE)])
    );
}

#[test]
fn item_translates_its_own_events() {
    let mut workspace = workspace();
    workspace.item_added(ITEM, PANE);
    assert_eq!(workspace.item_event::<Buffer>(ITEM, true, &0), Ok(vec![]));
    assert_eq!(
        workspace.item_event::<Buffer>(ITEM, true, &1),
        Ok(vec![
            close(PANE),
            PaneAction::EmitChangeItemTitle { pane: PANE },
            PaneAction::Notify { pane: PANE }
        ])
    );
    assert_eq!(workspace.item_event::<Bare>(ITEM, true, &1), Ok(vec![]));
    assert_eq!(workspace.item_event::<Buffer>(ITEM, false, &1), Err(DROPPED_PANE));
    assert_eq!(workspace.item_event::<Buffer>(EntityId(9), true, &1), Err(DROPPED_PANE));
}

#[test]
fn defaults_of_an_item() {
    let mut view = ItemView { entity_id: ITEM, item: Bare };
    assert_eq!(view.tab_content(None, true), None);
    assert_eq!(view.dragged_tab_content(None), None);
    assert!(view.project_items().is_empty());
    assert_eq!(view.tab_tooltip_text(), None);
    assert_eq!(view.tab_description(3), None);
    assert_eq!(view.telemetry_event_text(), None);
    assert!(!view.is_singleton());
    assert!(!view.is_dirty());
    assert!(!view.has_conflict());
    assert!(!view.can_save());
    assert!(view.show_toolbar());
    assert_eq!(view.breadcrumb_location(), ToolbarItemLocation::Hidden);
    assert_eq!(view.breadcrumbs(), None);
    assert_eq!(view.serialized_item_kind(), None);
    assert!(view.clone_on_split(EntityId(3)).is_none());
    assert_eq!(view.project_path(), None);
    assert!(view.project_entry_ids().to_vec().is_empty());
    assert!(view.project_item_model_ids().to_vec().is_empty());
    assert!(!view.navigate(4));
    view.deactivated();
    view.workspace_deactivated();
    assert_eq!(view.item_id(), ITEM);
}

#[test]
fn item_acts_as_its_own_type() {
    let view = ItemView { entity_id: ITEM, item: Bare };
    let any = AnyView { entity_id: ITEM, type_tag: 1 };
    assert_eq!(view.to_any(), any);
    assert_eq!(view.act_as_type(1), Some(any));
    assert_eq!(view.act_as_type(2), None);
    assert_eq!(view.act_as::<Bare>(), Some(ITEM));
    assert_eq!(view.act_as::<Buffer>(), None);
    assert_eq!(view.downcast::<Bare>(), Some(ITEM));
    assert_eq!(view.downcast::<Buffer>(), None);
}

#[test]
fn item_can_offer_another_view() {
    let view = buffer(true);
    assert_eq!(view.act_as::<Bare>(), Some(EntityId(77)));
    assert_eq!(view.act_as::<Buffer>(), Some(ITEM));
    assert_eq!(view.downcast::<Bare>(), None);
}

fn summary<T: Item, H: ItemHandle<T>>(handle: &H) -> (EntityId, bool, Option<ProjectPath>) {
    (handle.item_id(), handle.is_singleton(), handle.project_path())
}

#[test]
fn handle_can_stand_for_any_item() {
    assert_eq!(summary(&buffer(true)), (ITEM, true, Some(path("e"))));
    let bare = ItemView { entity_id: EntityId(3), item: Bare };
    assert_eq!(summary(&bare), (EntityId(3), false, None));
}

#[test]
fn weak_handle_gives_the_item_while_it_lives() {
    let view = buffer(true);
    let weak = view.downgrade();
    assert_eq!(weak.id(), ITEM);
    assert_eq!(weak.upgrade(true), Some(view.to_any()));
    assert_eq!(weak.upgrade(false), None);
}

#[test]
fn navigation_reaches_the_item() {
    let mut view = buffer(true);
    assert!(view.navigate(9));
    assert_eq!(view.item.position, 9);
    assert_eq!(view.entity_id, ITEM);
}

#[test]
fn singleton_has_the_path_visited_last() {
    let single = buffer(true);
    assert_eq!(single.project_path(), Some(path("e")));
    let several = buffer(false);
    assert_eq!(several.project_path(), None);
    let mut pathless = items();
    pathless.truncate(2);
    assert_eq!(project_path(true, pathless), None);
    assert_eq!(project_path(true, vec![]), None);
}

#[test]
fn entries_and_models_keep_their_order() {
    let view = buffer(false);
    assert_eq!(view.project_entry_ids().to_vec(), vec![5, 6, 7, 5]);
    assert_eq!(view.project_item_model_ids().to_vec(), vec![20, 21, 22, 23, 24]);
    assert_eq!(project_entry_ids(&vec![]).to_vec(), Vec::<u64>::new());
    assert_eq!(project_item_model_ids(&items()).to_vec().len(), 5);
}

#[test]
fn plain_values_of_the_workspace() {
    assert_eq!(LEADER_UPDATE_THROTTLE_MILLIS, 200);
    let view = ViewId { creator: PeerId(3), id: 8 };
    assert_eq!(view, ViewId { creator: PeerId(3), id: 8 });
    assert_ne!(OpenVisible::All, OpenVisible::OnlyFiles);
    assert_ne!(OpenVisible::Nothing, OpenVisible::OnlyDirectories);
    let event: Event<u8> = Event::ContactRequestedJoin(4);
    assert_ne!(event, Event::PaneAdded(PANE));
    assert_ne!(Event::SpawnTask(1), Event::<u8>::WorkspaceCreated(ITEM));
}
