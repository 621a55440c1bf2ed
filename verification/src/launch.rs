//! The start of the application: what is initialized, and what happens when the
//! start fails.

use crate::text::same_text;
use vstd::prelude::*;
use vstd::string::*;

verus! {

/// An error as text.
#[derive(Debug, PartialEq, Eq)]
pub struct ErrorText {
    /// The error alone.
    pub message: String,
    /// The error in full, with its causes.
    pub full: String,
}

/// A prompt that the user has to answer.
#[derive(Debug, PartialEq, Eq)]
pub struct Prompt {
    /// Whether the prompt is about something that cannot be mended.
    pub critical: bool,
    pub message: String,
    pub detail: String,
    pub answers: Vec<String>,
}

pub struct PromptView {
    pub critical: bool,
    pub message: Seq<char>,
    pub detail: Seq<char>,
    pub answers: Seq<Seq<char>>,
}

impl View for Prompt {
    type V = PromptView;

    open spec fn view(&self) -> PromptView {
        PromptView {
            critical: self.critical,
            message: self.message@,
            detail: self.detail@,
            answers: self.answers@.map_values(|answer: String| answer@),
        }
    }
}

/// What is done where no window can be opened.
#[derive(Debug, PartialEq, Eq)]
pub struct WindowFailure {
    /// The line on the standard error output.
    pub line: String,
    /// The status with which the process ends at once, if it does.
    pub exit_status: Option<i32>,
}

pub struct WindowFailureView {
    pub line: Seq<char>,
    pub exit_status: Option<i32>,
}

impl View for WindowFailure {
    type V = WindowFailureView;

    open spec fn view(&self) -> WindowFailureView {
        WindowFailureView { line: self.line@, exit_status: self.exit_status }
    }
}

/// What is done where no window can be opened because of an error, given in full:
/// the user is told, and but for Linux the process ends with a failure.
pub open spec fn window_failure(full_error: Seq<char>, linux: bool) -> WindowFailureView {
    WindowFailureView {
        line: "Zed failed to open a window: "@ + full_error
            + ". See https://zed.dev/docs/linux for troubleshooting steps."@,
        exit_status: if linux {
            None
        } else {
            Some(1)
        },
    }
}

/// Gives what is done where no window can be opened.
pub fn fail_to_open_window(error: &ErrorText, linux: bool) -> (failure: WindowFailure)
    ensures
        failure@ == window_failure(error.full@, linux),
{
    let line = "Zed failed to open a window: ".to_owned().concat(error.full.as_str()).concat(
        ". See https://zed.dev/docs/linux for troubleshooting steps.",
    );
    WindowFailure {
        line,
        exit_status: if linux {
            None
        } else {
            Some(1)
        },
    }
}

/// How far telling the user of a failed launch has come.
#[derive(Clone, Copy, PartialEq, Eq, Structural, Debug)]
pub enum LaunchFailure {
    /// A window for the prompt is being opened.
    OpeningWindow,
    /// The user is being asked.
    Prompting,
    Finished,
}

/// What came of the last step.
#[derive(Clone, Copy, PartialEq, Eq, Structural, Debug)]
pub enum LaunchFailureEvent {
    WindowOpened(bool),
    /// The prompt was answered, or went away without an answer.
    Answered(bool),
}

/// What to do next about a failed launch.
#[derive(Debug, PartialEq, Eq)]
pub enum LaunchFailureStep {
    Prompt(Prompt),
    /// There is no window to be had, and this is done about it.
    FailToOpenWindow(WindowFailure),
    Quit,
    Nothing,
}

pub enum LaunchFailureStepView {
    Prompt(PromptView),
    FailToOpenWindow(WindowFailureView),
    Quit,
    Nothing,
}

impl View for LaunchFailureStep {
    type V = LaunchFailureStepView;

    open spec fn view(&self) -> LaunchFailureStepView {
        match self {
            LaunchFailureStep::Prompt(prompt) => LaunchFailureStepView::Prompt(prompt@),
            LaunchFailureStep::FailToOpenWindow(failure) => {
                LaunchFailureStepView::FailToOpenWindow(failure@)
            },
            LaunchFailureStep::Quit => LaunchFailureStepView::Quit,
            LaunchFailureStep::Nothing => LaunchFailureStepView::Nothing,
        }
    }
}

/// The prompt about a launch that failed with `error`.
pub open spec fn launch_prompt(error: Seq<char>) -> PromptView {
    PromptView {
        critical: true,
        message: "Zed failed to launch"@,
        detail: error
            + "\n\nFor help resolving this, please open an issue on https://github.com/zed-industries/zed"@,
        answers: seq!["Exit"@],
    }
}

/// The line on the standard error output about a launch that failed with an error,
/// given in full.
pub open spec fn launch_failure_line(full_error: Seq<char>) -> Seq<char> {
    "Zed failed to launch: "@ + full_error
}

/// An event answers what is being waited for.
pub open spec fn launch_answers(failure: LaunchFailure, event: LaunchFailureEvent) -> bool {
    match failure {
        LaunchFailure::OpeningWindow => event is WindowOpened,
        LaunchFailure::Prompting => event is Answered,
        LaunchFailure::Finished => false,
    }
}

/// The state and the step that follow `event`, for a launch that failed with
/// `error`. Where no window opens, it is the error of the launch that is told, not
/// that of the window.
pub open spec fn launch_failure_next(event: LaunchFailureEvent, error: ErrorText, linux: bool) -> (
    LaunchFailure,
    LaunchFailureStepView,
) {
    match event {
        LaunchFailureEvent::WindowOpened(true) => (
            LaunchFailure::Prompting,
            LaunchFailureStepView::Prompt(launch_prompt(error.message@)),
        ),
        LaunchFailureEvent::WindowOpened(false) => (
            LaunchFailure::Finished,
            LaunchFailureStepView::FailToOpenWindow(window_failure(error.full@, linux)),
        ),
        LaunchFailureEvent::Answered(true) => (
            LaunchFailure::Finished,
            LaunchFailureStepView::Quit,
        ),
        LaunchFailureEvent::Answered(false) => (
            LaunchFailure::Finished,
            LaunchFailureStepView::Nothing,
        ),
    }
}

/// Gives the line on the standard error output with which a failed launch begins.
pub fn launch_failure_message(error: &ErrorText) -> (line: String)
    ensures
        line@ == launch_failure_line(error.full@),
{
    "Zed failed to launch: ".to_owned().concat(error.full.as_str())
}

/// Takes what came of the last step and gives the next one, for a launch that
/// failed with `error`. The first state is [`LaunchFailure::OpeningWindow`].
pub fn fail_to_launch(
    failure: LaunchFailure,
    event: LaunchFailureEvent,
    error: &ErrorText,
    linux: bool,
) -> (stepped: (LaunchFailure, LaunchFailureStep))
    requires
        launch_answers(failure, event),
    ensures
        (stepped.0, stepped.1@) == launch_failure_next(event, *error, linux),
{
    match event {
        LaunchFailureEvent::WindowOpened(true) => {
            let mut answers: Vec<String> = Vec::new();
            answers.push("Exit".to_owned());
            assert(answers@.map_values(|answer: String| answer@) =~= seq!["Exit"@]);
            let prompt = Prompt {
                critical: true,
                message: "Zed failed to launch".to_owned(),
                detail: error.message.clone().concat(
                    "\n\nFor help resolving this, please open an issue on https://github.com/zed-industries/zed",
                ),
                answers,
            };
            (LaunchFailure::Prompting, LaunchFailureStep::Prompt(prompt))
        },
        LaunchFailureEvent::WindowOpened(false) => {
            let failed = fail_to_open_window(error, linux);
            (LaunchFailure::Finished, LaunchFailureStep::FailToOpenWindow(failed))
        },
        LaunchFailureEvent::Answered(true) => (LaunchFailure::Finished, LaunchFailureStep::Quit),
        LaunchFailureEvent::Answered(false) => {
            (LaunchFailure::Finished, LaunchFailureStep::Nothing)
        },
    }
}

/// What comes of the step that leads to a state, where `opened` says whether a
/// window could be opened and `answered` whether the prompt was answered.
pub open spec fn launch_event_in(
    failure: LaunchFailure,
    opened: bool,
    answered: bool,
) -> LaunchFailureEvent {
    match failure {
        LaunchFailure::OpeningWindow => LaunchFailureEvent::WindowOpened(opened),
        _ => LaunchFailureEvent::Answered(answered),
    }
}

/// How many steps are still to come about a failed launch.
pub open spec fn launch_steps_left(failure: LaunchFailure) -> nat {
    match failure {
        LaunchFailure::OpeningWindow => 2,
        LaunchFailure::Prompting => 1,
        LaunchFailure::Finished => 0,
    }
}

/// All that is done about a failed launch, from the given state to the end.
pub open spec fn launch_failure_steps(
    failure: LaunchFailure,
    opened: bool,
    answered: bool,
    error: ErrorText,
    linux: bool,
) -> Seq<LaunchFailureStepView>
    decreases launch_steps_left(failure),
{
    let event = launch_event_in(failure, opened, answered);
    let (following, step) = launch_failure_next(event, error, linux);
    if following == LaunchFailure::Finished || launch_steps_left(following) >= launch_steps_left(
        failure,
    ) {
        seq![step]
    } else {
        seq![step] + launch_failure_steps(following, opened, answered, error, linux)
    }
}

/// About a failed launch, the user is told of its error in one way and only one: by
/// a prompt if a window opens, after which the application quits once it is
/// answered, and else by what [`fail_to_open_window`] gives for the same error.
pub proof fn law_failed_launch_is_told_once(
    opened: bool,
    answered: bool,
    error: ErrorText,
    linux: bool,
)
    ensures
        launch_failure_steps(LaunchFailure::OpeningWindow, opened, answered, error, linux) == (
        if opened {
            seq![
                LaunchFailureStepView::Prompt(launch_prompt(error.message@)),
                if answered {
                    LaunchFailureStepView::Quit
                } else {
                    LaunchFailureStepView::Nothing
                },
            ]
        } else {
            seq![LaunchFailureStepView::FailToOpenWindow(window_failure(error.full@, linux))]
        }),
{
    reveal_with_fuel(launch_failure_steps, 2);
    let steps = launch_failure_steps(LaunchFailure::OpeningWindow, opened, answered, error, linux);
    if opened {
        assert(steps =~= seq![
            LaunchFailureStepView::Prompt(launch_prompt(error.message@)),
            if answered {
                LaunchFailureStepView::Quit
            } else {
                LaunchFailureStepView::Nothing
            },
        ]);
    }
}

/// What the application has been initialized for.
#[derive(Clone, Copy, PartialEq, Eq, Structural, Debug)]
pub enum AppMode {
    Ui,
}

/// A part of the application that is initialized.
#[derive(Clone, Copy, PartialEq, Eq, Structural, Debug)]
pub enum InitStep {
    SystemAppearance,
    Themes,
    CommandPalette,
    EmbeddedFonts,
    LanguageTheme,
    Editor,
    Workspace,
    TabSwitcher,
    ThemeSelector,
    Welcome,
    Menus,
    Activation,
}

/// What is initialized in every mode, in its order.
pub open spec fn common_steps() -> Seq<InitStep> {
    seq![InitStep::SystemAppearance, InitStep::Themes, InitStep::CommandPalette]
}

/// What is initialized for the user interface, in its order.
pub open spec fn ui_steps() -> Seq<InitStep> {
    seq![
        InitStep::EmbeddedFonts,
        InitStep::LanguageTheme,
        InitStep::Editor,
        InitStep::Workspace,
        InitStep::TabSwitcher,
        InitStep::ThemeSelector,
        InitStep::Welcome,
        InitStep::Menus,
        InitStep::Activation,
    ]
}

/// Gives what to initialize in every mode.
pub fn init_common() -> (steps: Vec<InitStep>)
    ensures
        steps@ == common_steps(),
{
    let mut steps: Vec<InitStep> = Vec::new();
    steps.push(InitStep::SystemAppearance);
    steps.push(InitStep::Themes);
    steps.push(InitStep::CommandPalette);
    assert(steps@ =~= common_steps());
    steps
}

/// The mode after the user interface was asked for, and what that initialized:
/// nothing if it had been asked for before, which the mode tells.
pub open spec fn ui_requested(mode: Option<AppMode>) -> (Option<AppMode>, Seq<InitStep>) {
    match mode {
        Some(AppMode::Ui) => (mode, Seq::empty()),
        None => (Some(AppMode::Ui), ui_steps()),
    }
}

/// Gives what to initialize for the user interface.
pub fn init_ui(mode: &mut Option<AppMode>) -> (steps: Vec<InitStep>)
    ensures
        (*final(mode), steps@) == ui_requested(*old(mode)),
{
    let mut steps: Vec<InitStep> = Vec::new();
    if mode.is_none() {
        *mode = Some(AppMode::Ui);
        steps.push(InitStep::EmbeddedFonts);
        steps.push(InitStep::LanguageTheme);
        steps.push(InitStep::Editor);
        steps.push(InitStep::Workspace);
        steps.push(InitStep::TabSwitcher);
        steps.push(InitStep::ThemeSelector);
        steps.push(InitStep::Welcome);
        steps.push(InitStep::Menus);
        steps.push(InitStep::Activation);
        assert(steps@ =~= ui_steps());
    }
    steps
}

/// What was initialized after the user interface was asked for so many times.
pub open spec fn ui_requested_times(mode: Option<AppMode>, times: nat) -> (
    Option<AppMode>,
    Seq<InitStep>,
)
    decreases times,
{
    if times == 0 {
        (mode, Seq::empty())
    } else {
        let (before, done) = ui_requested_times(mode, (times - 1) as nat);
        let (after, steps) = ui_requested(before);
        (after, done + steps)
    }
}

/// However often the user interface is asked for, it is initialized once, and no
/// part of it twice.
pub proof fn law_ui_is_initialized_once(times: nat)
    requires
        times > 0,
    ensures
        ui_requested_times(None, times) == (Some(AppMode::Ui), ui_steps()),
        ui_steps().no_duplicates(),
    decreases times,
{
    reveal_with_fuel(ui_requested_times, 2);
    if times > 1 {
        law_ui_is_initialized_once((times - 1) as nat);
    }
    assert(Seq::<InitStep>::empty() + ui_steps() =~= ui_steps());
    assert(ui_steps() + Seq::<InitStep>::empty() =~= ui_steps());
}

/// Whether the Git that comes with the application is used: only in a macOS
/// bundle, which was marked as one when it was built.
pub fn uses_bundled_git(macos: bool, bundle_mark: Option<&str>) -> (bundled: bool)
    ensures
        bundled == (macos && (bundle_mark matches Some(mark) && mark@ == "true"@)),
{
    match bundle_mark {
        Some(mark) => macos && same_text(mark, "true"),
        None => false,
    }
}

/// The texts about a failed launch carry its error unchanged: the line on the
/// standard error output and the one about the missing window in full, the prompt
/// its message. The prompt is critical and can only be answered by leaving.
pub proof fn law_failed_launch_carries_its_error(error: ErrorText, linux: bool)
    ensures
        launch_failure_line(error.full@) == "Zed failed to launch: "@ + error.full@,
        ({
            let (failure, step) = launch_failure_next(
                LaunchFailureEvent::WindowOpened(true),
                error,
                linux,
            );
            &&& failure == LaunchFailure::Prompting
            &&& step matches LaunchFailureStepView::Prompt(prompt) && {
                &&& prompt.critical
                &&& prompt.message == "Zed failed to launch"@
                &&& prompt.detail == error.message@
                    + "\n\nFor help resolving this, please open an issue on https://github.com/zed-industries/zed"@
                &&& prompt.answers.len() == 1 && prompt.answers[0] == "Exit"@
            }
        }),
        ({
            let (failure, step) = launch_failure_next(
                LaunchFailureEvent::WindowOpened(false),
                error,
                linux,
            );
            &&& failure == LaunchFailure::Finished
            &&& step matches LaunchFailureStepView::FailToOpenWindow(failed) && {
                &&& failed.line == "Zed failed to open a window: "@ + error.full@
                    + ". See https://zed.dev/docs/linux for troubleshooting steps."@
                &&& failed.exit_status == (if linux {
                    None
                } else {
                    Some(1i32)
                })
            }
        }),
        launch_failure_next(LaunchFailureEvent::Answered(true), error, linux).1 is Quit,
        launch_failure_next(LaunchFailureEvent::Answered(false), error, linux).1 is Nothing,
{
}

/// A window is waited for first, then an answer, and then nothing.
pub proof fn law_failed_launch_waits_for_window_then_answer(
    failure: LaunchFailure,
    event: LaunchFailureEvent,
)
    ensures
        launch_answers(failure, event) <==> {
            ||| failure == LaunchFailure::OpeningWindow && event is WindowOpened
            ||| failure == LaunchFailure::Prompting && event is Answered
        },
{
}

/// What contracts see of these values is all that they hold.
pub proof fn law_launch_views_leave_nothing_out(prompt: Prompt, failure: WindowFailure)
    ensures
        prompt@.critical == prompt.critical,
        prompt@.message == prompt.message@,
        prompt@.detail == prompt.detail@,
        prompt@.answers.len() == prompt.answers@.len(),
        forall|i: int|
            0 <= i < prompt.answers@.len() ==> #[trigger] prompt@.answers[i]
                == prompt.answers@[i]@,
        failure@.line == failure.line@,
        failure@.exit_status == failure.exit_status,
        LaunchFailureStep::Prompt(prompt)@ == LaunchFailureStepView::Prompt(prompt@),
        LaunchFailureStep::FailToOpenWindow(failure)@ == LaunchFailureStepView::FailToOpenWindow(
            failure@,
        ),
        (LaunchFailureStep::Quit)@ == LaunchFailureStepView::Quit,
        (LaunchFailureStep::Nothing)@ == LaunchFailureStepView::Nothing,
{
}

} // verus!
