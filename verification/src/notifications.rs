//! What the user is told when the keymap file or the settings file changes.

use vstd::prelude::*;
use vstd::string::*;

verus! {

/// What a notification is about. A workspace shows at most one of each.
#[derive(Clone, Copy, PartialEq, Eq, Structural, Debug)]
pub enum NotificationId {
    KeymapParseError,
    SettingsParseError,
}

/// What is dispatched when a notification is clicked on.
#[derive(Clone, Copy, PartialEq, Eq, Structural, Debug)]
pub enum ClickAction {
    OpenKeymap,
    OpenSettings,
}

/// A message, what can be clicked on, and what that does. A click also dismisses
/// the notification.
#[derive(Debug, PartialEq, Eq)]
pub struct MessageNotification {
    pub message: String,
    pub click_message: String,
    pub on_click: ClickAction,
}

/// What to do in the window of a workspace.
#[derive(Debug, PartialEq, Eq)]
pub enum NotificationCommand {
    Show { window: u64, id: NotificationId, notification: MessageNotification },
    Dismiss { window: u64, id: NotificationId },
}

pub struct MessageNotificationView {
    pub message: Seq<char>,
    pub click_message: Seq<char>,
    pub on_click: ClickAction,
}

pub enum NotificationCommandView {
    Show { window: u64, id: NotificationId, notification: MessageNotificationView },
    Dismiss { window: u64, id: NotificationId },
}

impl View for MessageNotification {
    type V = MessageNotificationView;

    open spec fn view(&self) -> MessageNotificationView {
        MessageNotificationView {
            message: self.message@,
            click_message: self.click_message@,
            on_click: self.on_click,
        }
    }
}

impl View for NotificationCommand {
    type V = NotificationCommandView;

    open spec fn view(&self) -> NotificationCommandView {
        match self {
            NotificationCommand::Show { window, id, notification } => {
                NotificationCommandView::Show {
                    window: *window,
                    id: *id,
                    notification: notification@,
                }
            },
            NotificationCommand::Dismiss { window, id } => NotificationCommandView::Dismiss {
                window: *window,
                id: *id,
            },
        }
    }
}

/// The commands as they are seen in contracts.
pub open spec fn commands_view(commands: Seq<NotificationCommand>) -> Seq<NotificationCommandView> {
    commands.map_values(|command: NotificationCommand| command@)
}

/// The notification about a file that could not be read because of `error`.
pub open spec fn notification_about(id: NotificationId, error: Seq<char>) -> MessageNotificationView {
    match id {
        NotificationId::KeymapParseError => MessageNotificationView {
            message: "Invalid keymap file\n"@ + error,
            click_message: "Open keymap file"@,
            on_click: ClickAction::OpenKeymap,
        },
        NotificationId::SettingsParseError => MessageNotificationView {
            message: "Invalid settings file\n"@ + error,
            click_message: "Open settings file"@,
            on_click: ClickAction::OpenSettings,
        },
    }
}

/// What is done in one window: the error is shown, or, if the file is in order,
/// an earlier one is dismissed.
pub open spec fn command_for(
    id: NotificationId,
    error: Option<Seq<char>>,
    window: u64,
) -> NotificationCommandView {
    match error {
        Some(error) => NotificationCommandView::Show {
            window,
            id,
            notification: notification_about(id, error),
        },
        None => NotificationCommandView::Dismiss { window, id },
    }
}

/// What is done in all windows: one command for each, in their order.
pub open spec fn commands_for(
    id: NotificationId,
    error: Option<Seq<char>>,
    windows: Seq<u64>,
) -> Seq<NotificationCommandView> {
    windows.map_values(|window: u64| command_for(id, error, window))
}

/// The text of an error, if there is one.
pub open spec fn text_of(error: Option<&str>) -> Option<Seq<char>> {
    match error {
        Some(error) => Some(error@),
        None => None,
    }
}

fn notification(id: NotificationId, error: &str) -> (notification: MessageNotification)
    ensures
        notification@ == notification_about(id, error@),
{
    match id {
        NotificationId::KeymapParseError => MessageNotification {
            message: "Invalid keymap file\n".to_owned().concat(error),
            click_message: "Open keymap file".to_owned(),
            on_click: ClickAction::OpenKeymap,
        },
        NotificationId::SettingsParseError => MessageNotification {
            message: "Invalid settings file\n".to_owned().concat(error),
            click_message: "Open settings file".to_owned(),
            on_click: ClickAction::OpenSettings,
        },
    }
}

fn file_changed(id: NotificationId, error: Option<&str>, windows: &Vec<u64>) -> (commands: Vec<
    NotificationCommand,
>)
    ensures
        commands_view(commands@) == commands_for(id, text_of(error), windows@),
{
    let mut commands: Vec<NotificationCommand> = Vec::new();
    let mut next: usize = 0;
    while next < windows.len()
        invariant
            next <= windows.len(),
            commands@.len() == next,
            commands_view(commands@) == commands_for(
                id,
                text_of(error),
                windows@.take(next as int),
            ),
        decreases windows.len() - next,
    {
        let window: u64 = windows[next];
        let ghost before = commands@;
        match error {
            Some(error) => {
                let notification = notification(id, error);
                commands.push(NotificationCommand::Show { window, id, notification });
            },
            None => {
                commands.push(NotificationCommand::Dismiss { window, id });
            },
        }
        next = next + 1;
        proof {
            let expected = commands_for(id, text_of(error), windows@.take(next as int));
            assert forall|i: int| 0 <= i < next implies #[trigger] commands_view(commands@)[i]
                == expected[i] by {
                if i < next - 1 {
                    assert(commands@[i] == before[i]);
                    assert(commands_view(before)[i] == commands_for(
                        id,
                        text_of(error),
                        windows@.take(next - 1),
                    )[i]);
                }
            }
            assert(commands_view(commands@) =~= expected);
        }
    }
    assert(windows@.take(next as int) =~= windows@);
    commands
}

/// Tells the user, in all local workspace windows, of the error in the keymap
/// file, or dismisses what was told of an earlier one.
pub fn handle_keymap_changed(error: Option<&str>, windows: &Vec<u64>) -> (commands: Vec<
    NotificationCommand,
>)
    ensures
        commands_view(commands@) == commands_for(
            NotificationId::KeymapParseError,
            text_of(error),
            windows@,
        ),
{
    file_changed(NotificationId::KeymapParseError, error, windows)
}

/// Tells the user, in all local workspace windows, of the error in the settings
/// file, or dismisses what was told of an earlier one.
pub fn handle_settings_changed(error: Option<&str>, windows: &Vec<u64>) -> (commands: Vec<
    NotificationCommand,
>)
    ensures
        commands_view(commands@) == commands_for(
            NotificationId::SettingsParseError,
            text_of(error),
            windows@,
        ),
{
    file_changed(NotificationId::SettingsParseError, error, windows)
}

/// What a click on a notification does.
#[derive(Clone, Copy, PartialEq, Eq, Structural, Debug)]
pub enum ClickEffect {
    Dispatch(ClickAction),
    Dismiss,
}

/// What a click does, in order: the action is dispatched, then the notification goes.
pub open spec fn click_effects(action: ClickAction) -> Seq<ClickEffect> {
    seq![ClickEffect::Dispatch(action), ClickEffect::Dismiss]
}

impl MessageNotification {
    /// Gives what a click does.
    pub fn clicked(&self) -> (effects: Vec<ClickEffect>)
        ensures
            effects@ == click_effects(self.on_click),
            effects@.len() == 2,
            effects@[0] == ClickEffect::Dispatch(self.on_click),
            effects@[1] == ClickEffect::Dismiss,
    {
        let mut effects: Vec<ClickEffect> = Vec::new();
        effects.push(ClickEffect::Dispatch(self.on_click));
        effects.push(ClickEffect::Dismiss);
        assert(effects@ =~= click_effects(self.on_click));
        effects
    }
}

/// What the windows show: a notification for a window and what it is about.
pub type Screen = Map<(u64, NotificationId), MessageNotificationView>;

/// What the windows show after a command. A notification takes the place of an
/// earlier one about the same thing.
pub open spec fn screen_after(screen: Screen, command: NotificationCommandView) -> Screen {
    match command {
        NotificationCommandView::Show { window, id, notification } => screen.insert(
            (window, id),
            notification,
        ),
        NotificationCommandView::Dismiss { window, id } => screen.remove((window, id)),
    }
}

/// What the windows show after a sequence of commands.
pub open spec fn screen_after_all(screen: Screen, commands: Seq<NotificationCommandView>) -> Screen
    decreases commands.len(),
{
    if commands.len() == 0 {
        screen
    } else {
        screen_after(screen_after_all(screen, commands.drop_last()), commands.last())
    }
}

/// After a file has changed, each of the windows shows its error, or nothing
/// about it if it is in order, whatever it showed before. Other windows, and
/// notifications about anything else, are as they were.
pub proof fn law_windows_show_the_last_error(
    screen: Screen,
    id: NotificationId,
    error: Option<Seq<char>>,
    windows: Seq<u64>,
)
    ensures
        ({
            let after = screen_after_all(screen, commands_for(id, error, windows));
            forall|window: u64, about: NotificationId|
                #![trigger after.contains_key((window, about))]
                if about == id && windows.contains(window) {
                    &&& after.contains_key((window, about)) <==> error is Some
                    &&& error matches Some(error) ==> after[(window, about)] == notification_about(
                        id,
                        error,
                    )
                } else {
                    &&& after.contains_key((window, about)) <==> screen.contains_key(
                        (window, about),
                    )
                    &&& screen.contains_key((window, about)) ==> after[(window, about)]
                        == screen[(window, about)]
                }
        }),
    decreases windows.len(),
{
    if windows.len() > 0 {
        let front = windows.drop_last();
        law_windows_show_the_last_error(screen, id, error, front);
        let commands = commands_for(id, error, windows);
        assert(commands.drop_last() =~= commands_for(id, error, front));
        let before = screen_after_all(screen, commands_for(id, error, front));
        let after = screen_after_all(screen, commands);
        assert(after == screen_after(before, command_for(id, error, windows.last())));
        assert forall|window: u64| windows.contains(window) == (front.contains(window) || window
            == windows.last()) by {
            if windows.contains(window) {
                let i = choose|i: int| 0 <= i < windows.len() && windows[i] == window;
                if i < front.len() {
                    assert(front[i] == window);
                }
            }
            if front.contains(window) {
                let i = choose|i: int| 0 <= i < front.len() && front[i] == window;
                assert(windows[i] == window);
            }
            if window == windows.last() {
                assert(windows[windows.len() - 1] == window);
            }
        }
        assert forall|window: u64, about: NotificationId|
            #![trigger after.contains_key((window, about))]
            if about == id && windows.contains(window) {
                &&& after.contains_key((window, about)) <==> error is Some
                &&& error matches Some(error) ==> after[(window, about)] == notification_about(
                    id,
                    error,
                )
            } else {
                &&& after.contains_key((window, about)) <==> screen.contains_key((window, about))
                &&& screen.contains_key((window, about)) ==> after[(window, about)]
                    == screen[(window, about)]
            } by {
            // The induction hypothesis speaks of what was shown before the last command.
            let shown_before = before.contains_key((window, about));
            if (window, about) != (windows.last(), id) {
                assert(after.contains_key((window, about)) == shown_before);
            }
        }
    }
}

/// A click dispatches the notification's own action and then dismisses it, and does
/// nothing else. So two notifications with different actions do different things.
pub proof fn law_click_dispatches_its_own_action(action: ClickAction, other: ClickAction)
    ensures
        click_effects(action).len() == 2,
        click_effects(action)[0] == ClickEffect::Dispatch(action),
        click_effects(action)[1] == ClickEffect::Dismiss,
        click_effects(action) == click_effects(other) <==> action == other,
{
    assert(click_effects(action)[0] == ClickEffect::Dispatch(action));
    assert(click_effects(other)[0] == ClickEffect::Dispatch(other));
}

/// What is told of a file names the file, ends with the error, offers to open that
/// file, and opens it on a click.
pub proof fn law_notification_leads_to_its_file(error: Seq<char>)
    ensures
        ({
            let keymap = notification_about(NotificationId::KeymapParseError, error);
            &&& keymap.message == "Invalid keymap file\n"@ + error
            &&& keymap.click_message == "Open keymap file"@
            &&& click_effects(keymap.on_click)[0] == ClickEffect::Dispatch(ClickAction::OpenKeymap)
        }),
        ({
            let settings = notification_about(NotificationId::SettingsParseError, error);
            &&& settings.message == "Invalid settings file\n"@ + error
            &&& settings.click_message == "Open settings file"@
            &&& click_effects(settings.on_click)[0] == ClickEffect::Dispatch(
                ClickAction::OpenSettings,
            )
        }),
{
}

/// Each window gets one command, in the order of the windows: the error is shown
/// there if there is one, even one without a text, and else the earlier one is
/// dismissed.
pub proof fn law_each_window_gets_its_command(
    id: NotificationId,
    error: &str,
    windows: Seq<u64>,
)
    ensures
        ({
            let shown = commands_for(id, text_of(Some(error)), windows);
            &&& shown.len() == windows.len()
            &&& forall|i: int|
                0 <= i < windows.len() ==> #[trigger] shown[i] == (NotificationCommandView::Show {
                    window: windows[i],
                    id,
                    notification: notification_about(id, error@),
                })
        }),
        ({
            let dismissed = commands_for(id, text_of(None), windows);
            &&& dismissed.len() == windows.len()
            &&& forall|i: int|
                0 <= i < windows.len() ==> #[trigger] dismissed[i] == (
                NotificationCommandView::Dismiss { window: windows[i], id })
        }),
{
}

/// What contracts see of these values is all that they hold.
pub proof fn law_notification_views_leave_nothing_out(
    notification: MessageNotification,
    window: u64,
    id: NotificationId,
    commands: Seq<NotificationCommand>,
)
    ensures
        notification@.message == notification.message@,
        notification@.click_message == notification.click_message@,
        notification@.on_click == notification.on_click,
        (NotificationCommand::Show { window, id, notification })@ == (
        NotificationCommandView::Show { window, id, notification: notification@ }),
        (NotificationCommand::Dismiss { window, id })@ == (
        NotificationCommandView::Dismiss { window, id }),
        commands_view(commands).len() == commands.len(),
        forall|i: int|
            0 <= i < commands.len() ==> #[trigger] commands_view(commands)[i] == commands[i]@,
{
}

} // verus!
