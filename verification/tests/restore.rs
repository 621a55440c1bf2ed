use zedxa::restore::{
    begin_startup, restorable_workspace_locations, restore_or_create_workspace, restore_query,
    LastSession, RestoreOnStartupBehavior, RestoreQuery, Startup, StartupReply, StartupStep,
};

fn session(id: Option<&str>, window_stack: Option<Vec<u64>>) -> Option<LastSession> {
    Some(LastSession { id: id.map(|id| id.to_string()), window_stack })
}

fn session_query(window_stack: Option<Vec<u64>>) -> RestoreQuery {
    RestoreQuery::SessionWorkspaces { session_id: "s1".to_string(), window_stack }
}

#[test]
fn query_follows_the_settings() {
    assert_eq!(
        restore_query(Some(RestoreOnStartupBehavior::Nothing), session(Some("s1"), None)),
        RestoreQuery::Nothing
    );
    assert_eq!(
        restore_query(Some(RestoreOnStartupBehavior::LastWorkspace), session(Some("s1"), None)),
        RestoreQuery::LastWorkspace
    );
    assert_eq!(
        restore_query(
            Some(RestoreOnStartupBehavior::LastSession),
            session(Some("s1"), Some(vec![7, 3]))
        ),
        session_query(Some(vec![7, 3]))
    );
}

#[test]
fn no_session_means_last_workspace() {
    assert_eq!(
        restore_query(Some(RestoreOnStartupBehavior::LastSession), session(None, Some(vec![1]))),
        RestoreQuery::LastWorkspace
    );
}

#[test]
fn nothing_is_asked_if_settings_or_session_cannot_be_read() {
    assert_eq!(restore_query(None, session(Some("s1"), None)), RestoreQuery::Nothing);
    assert_eq!(
        restore_query(Some(RestoreOnStartupBehavior::LastWorkspace), None),
        RestoreQuery::Nothing
    );
    assert_eq!(
        restore_query(Some(RestoreOnStartupBehavior::LastSession), None),
        RestoreQuery::Nothing
    );
}

#[test]
fn last_workspace_is_restored_alone() {
    assert_eq!(
        restorable_workspace_locations(&RestoreQuery::LastWorkspace, Some("a"), Some(vec!["b"])),
        Some(vec!["a"])
    );
    assert_eq!(
        restorable_workspace_locations(&RestoreQuery::LastWorkspace, None, Some(vec!["b"])),
        None
    );
}

#[test]
fn frontmost_window_opens_last() {
    assert_eq!(
        restorable_workspace_locations(
            &session_query(Some(vec![3, 2, 1])),
            None,
            Some(vec!["front", "middle", "back"])
        ),
        Some(vec!["back", "middle", "front"])
    );
}

#[test]
fn session_without_window_stack_keeps_its_order() {
    assert_eq!(
        restorable_workspace_locations(&session_query(None), Some("x"), Some(vec!["a", "b"])),
        Some(vec!["a", "b"])
    );
}

#[test]
fn empty_session_restores_nothing() {
    let none: Option<Vec<&str>> = None;
    assert_eq!(
        restorable_workspace_locations(&session_query(Some(vec![])), Some("x"), Some(vec![])),
        none
    );
    assert_eq!(restorable_workspace_locations(&session_query(None), Some("x"), None), none);
    assert_eq!(
        restorable_workspace_locations(&RestoreQuery::Nothing, Some("x"), Some(vec!["a"])),
        none
    );
}

fn play(
    locations: Option<Vec<&'static str>>,
    first_open: Result<Option<String>, String>,
    failing: Option<usize>,
) -> (Vec<String>, Result<(), String>) {
    let mut taken = Vec::new();
    let mut opened = 0;
    let (mut startup, mut step) = begin_startup(locations);
    loop {
        let reply = match &step {
            StartupStep::Return(result) => return (taken, result.clone()),
            StartupStep::ReadFirstOpen => {
                taken.push("read".to_string());
                StartupReply::FirstOpen(first_open.clone())
            }
            other => {
                taken.push(match other {
                    StartupStep::OpenPaths(location) => format!("open {location}"),
                    StartupStep::ShowWelcome => "welcome".to_string(),
                    _ => "new".to_string(),
                });
                opened += 1;
                StartupReply::Opened(if failing == Some(opened) {
                    Err("no window".to_string())
                } else {
                    Ok(())
                })
            }
        };
        (startup, step) = restore_or_create_workspace(startup, reply);
    }
}

#[test]
fn restored_workspaces_open_in_order() {
    let (taken, result) = play(Some(vec!["a", "b", "c"]), Ok(None), None);
    assert_eq!(taken, vec!["open a", "open b", "open c"]);
    assert_eq!(result, Ok(()));
}

#[test]
fn first_failure_stops_the_restoring() {
    let (taken, result) = play(Some(vec!["a", "b", "c"]), Ok(None), Some(2));
    assert_eq!(taken, vec!["open a", "open b"]);
    assert_eq!(result, Err("no window".to_string()));
}

#[test]
fn welcome_is_for_the_first_start() {
    assert_eq!(play(None, Ok(None), None), (vec!["read".to_string(), "welcome".to_string()], Ok(())));
    assert_eq!(
        play(None, Ok(Some("1".to_string())), None),
        (vec!["read".to_string(), "new".to_string()], Ok(()))
    );
    assert_eq!(
        play(None, Err("locked".to_string()), None),
        (vec!["read".to_string(), "new".to_string()], Ok(()))
    );
}

#[test]
fn failed_welcome_is_returned() {
    let (taken, result) = play(None, Ok(None), Some(1));
    assert_eq!(taken, vec!["read", "welcome"]);
    assert_eq!(result, Err("no window".to_string()));
}

#[test]
fn empty_list_is_done_at_once() {
    let none: Vec<&str> = vec![];
    let (startup, step) = begin_startup(Some(none));
    assert_eq!(startup, Startup::Finished);
    assert_eq!(step, StartupStep::Return(Ok(())));
}
