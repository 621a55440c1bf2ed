use zedxa::fonts::load_embedded_fonts;
use zedxa::launch::{
    fail_to_launch, fail_to_open_window, init_common, init_ui, launch_failure_message,
    uses_bundled_git, AppMode, ErrorText, InitStep, LaunchFailure, LaunchFailureEvent,
    LaunchFailureStep, Prompt, WindowFailure,
};
use zedxa::notifications::{
    handle_keymap_changed, handle_settings_changed, ClickAction, ClickEffect, MessageNotification,
    NotificationCommand, NotificationId,
};
use zedxa::paths::{init_paths, AppDir, DirOutcome, PathsStep};

fn make_dirs(failing: Option<AppDir>) -> (Vec<AppDir>, Result<(), String>) {
    let mut tried = Vec::new();
    let mut last = DirOutcome::Made;
    loop {
        match init_paths(tried.len(), last) {
            PathsStep::Return(result) => return (tried, result),
            PathsStep::MakeDir(dir) => {
                tried.push(dir);
                last = if failing == Some(dir) {
                    DirOutcome::Failed {
                        quoted_path: "\"/x/db\"".to_string(),
                        error: "denied".to_string(),
                    }
                } else {
                    DirOutcome::Made
                };
            }
        }
    }
}

#[test]
fn all_directories_are_made_in_order() {
    let (tried, result) = make_dirs(None);
    assert_eq!(
        tried,
        vec![AppDir::Config, AppDir::Languages, AppDir::Database, AppDir::Logs, AppDir::Temp]
    );
    assert_eq!(result, Ok(()));
}

#[test]
fn first_failed_directory_ends_it() {
    let (tried, result) = make_dirs(Some(AppDir::Database));
    assert_eq!(tried, vec![AppDir::Config, AppDir::Languages, AppDir::Database]);
    assert_eq!(result, Err("Could not create directory \"/x/db\": denied".to_string()));
}

fn boom() -> ErrorText {
    ErrorText { message: "boom".to_string(), full: "boom\n\nCaused by:\n    bang".to_string() }
}

#[test]
fn failed_launch_prompts_and_quits() {
    assert_eq!(
        launch_failure_message(&boom()),
        "Zed failed to launch: boom\n\nCaused by:\n    bang"
    );
    let (failure, step) = fail_to_launch(
        LaunchFailure::OpeningWindow,
        LaunchFailureEvent::WindowOpened(true),
        &boom(),
        true,
    );
    assert_eq!(failure, LaunchFailure::Prompting);
    assert_eq!(
        step,
        LaunchFailureStep::Prompt(Prompt {
            critical: true,
            message: "Zed failed to launch".to_string(),
            detail: "boom\n\nFor help resolving this, please open an issue on https://github.com/zed-industries/zed".to_string(),
            answers: vec!["Exit".to_string()],
        })
    );
    assert_eq!(
        fail_to_launch(failure, LaunchFailureEvent::Answered(true), &boom(), true),
        (LaunchFailure::Finished, LaunchFailureStep::Quit)
    );
    assert_eq!(
        fail_to_launch(LaunchFailure::Prompting, LaunchFailureEvent::Answered(false), &boom(), true),
        (LaunchFailure::Finished, LaunchFailureStep::Nothing)
    );
}

#[test]
fn failed_launch_without_a_window() {
    let line = "Zed failed to open a window: boom\n\nCaused by:\n    bang. \
                See https://zed.dev/docs/linux for troubleshooting steps.";
    for (linux, exit_status) in [(true, None), (false, Some(1))] {
        let failure = WindowFailure { line: line.to_string(), exit_status };
        assert_eq!(fail_to_open_window(&boom(), linux), failure);
        assert_eq!(
            fail_to_launch(
                LaunchFailure::OpeningWindow,
                LaunchFailureEvent::WindowOpened(false),
                &boom(),
                linux
            ),
            (LaunchFailure::Finished, LaunchFailureStep::FailToOpenWindow(failure))
        );
    }
}

#[test]
fn user_interface_is_initialized_once() {
    let mut mode = None;
    let steps = init_ui(&mut mode);
    assert_eq!(mode, Some(AppMode::Ui));
    assert_eq!(
        steps,
        vec![
            InitStep::EmbeddedFonts,
            InitStep::LanguageTheme,
            InitStep::Editor,
            InitStep::Workspace,
            InitStep::TabSwitcher,
            InitStep::ThemeSelector,
            InitStep::Welcome,
            InitStep::Menus,
            InitStep::Activation
        ]
    );
    assert!(init_ui(&mut mode).is_empty());
    assert_eq!(mode, Some(AppMode::Ui));
}

#[test]
fn common_parts_are_initialized_in_order() {
    assert_eq!(
        init_common(),
        vec![InitStep::SystemAppearance, InitStep::Themes, InitStep::CommandPalette]
    );
}

#[test]
fn bundled_git_is_for_marked_macos_bundles() {
    assert!(uses_bundled_git(true, Some("true")));
    assert!(!uses_bundled_git(true, Some("TRUE")));
    assert!(!uses_bundled_git(true, None));
    assert!(!uses_bundled_git(false, Some("true")));
}

#[test]
fn only_font_files_are_loaded() {
    let paths: Vec<String> = ["fonts/a.ttf", "fonts/license.txt", "ttf", ".ttf", "b.ttf.bak", "c.TTF", "\u{e9}.ttf"]
        .iter()
        .map(|path| path.to_string())
        .collect();
    assert_eq!(load_embedded_fonts(paths), vec!["fonts/a.ttf", ".ttf", "\u{e9}.ttf"]);
    assert!(load_embedded_fonts(vec![]).is_empty());
}

fn keymap_notification(error: &str) -> MessageNotification {
    MessageNotification {
        message: format!("Invalid keymap file\n{error}"),
        click_message: "Open keymap file".to_string(),
        on_click: ClickAction::OpenKeymap,
    }
}

#[test]
fn keymap_error_is_shown_in_every_window() {
    let commands = handle_keymap_changed(Some("line 3"), &vec![8, 5]);
    assert_eq!(
        commands,
        vec![
            NotificationCommand::Show {
                window: 8,
                id: NotificationId::KeymapParseError,
                notification: keymap_notification("line 3"),
            },
            NotificationCommand::Show {
                window: 5,
                id: NotificationId::KeymapParseError,
                notification: keymap_notification("line 3"),
            },
        ]
    );
    assert_eq!(
        handle_keymap_changed(None, &vec![8]),
        vec![NotificationCommand::Dismiss { window: 8, id: NotificationId::KeymapParseError }]
    );
}

#[test]
fn settings_error_is_shown_and_dismissed() {
    assert_eq!(
        handle_settings_changed(Some("oops"), &vec![1]),
        vec![NotificationCommand::Show {
            window: 1,
            id: NotificationId::SettingsParseError,
            notification: MessageNotification {
                message: "Invalid settings file\noops".to_string(),
                click_message: "Open settings file".to_string(),
                on_click: ClickAction::OpenSettings,
            },
        }]
    );
    assert_eq!(
        handle_settings_changed(None, &vec![1, 2]),
        vec![
            NotificationCommand::Dismiss { window: 1, id: NotificationId::SettingsParseError },
            NotificationCommand::Dismiss { window: 2, id: NotificationId::SettingsParseError },
        ]
    );
    assert!(handle_settings_changed(Some("oops"), &vec![]).is_empty());
}

#[test]
fn click_opens_the_file_and_dismisses() {
    assert_eq!(
        keymap_notification("e").clicked(),
        vec![ClickEffect::Dispatch(ClickAction::OpenKeymap), ClickEffect::Dismiss]
    );
}
