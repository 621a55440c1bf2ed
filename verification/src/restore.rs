//! What is opened at startup: the windows of the last session, the last
//! workspace, the welcome page or an empty file.

use vstd::prelude::*;

verus! {

/// What the settings ask to be restored at startup.
#[derive(Clone, Copy, PartialEq, Eq, Structural, Debug)]
pub enum RestoreOnStartupBehavior {
    /// Nothing is restored.
    Nothing,
    /// The workspace that was opened last.
    LastWorkspace,
    /// All workspaces of the last session.
    LastSession,
}

/// What is known of the last session.
#[derive(Debug, PartialEq, Eq)]
pub struct LastSession {
    /// The session's id, if there was a session before this one.
    pub id: Option<String>,
    /// The windows that were open, the frontmost first, if their order was kept.
    pub window_stack: Option<Vec<u64>>,
}

pub struct LastSessionView {
    pub id: Option<Seq<char>>,
    pub window_stack: Option<Seq<u64>>,
}

impl View for LastSession {
    type V = LastSessionView;

    open spec fn view(&self) -> LastSessionView {
        LastSessionView {
            id: match self.id {
                Some(id) => Some(id@),
                None => None,
            },
            window_stack: match self.window_stack {
                Some(stack) => Some(stack@),
                None => None,
            },
        }
    }
}

/// What to look up in the database of workspaces.
#[derive(Debug, PartialEq, Eq)]
pub enum RestoreQuery {
    Nothing,
    /// The workspace that was opened last.
    LastWorkspace,
    /// The workspaces of a session, in the order of the window stack if there is one.
    SessionWorkspaces { session_id: String, window_stack: Option<Vec<u64>> },
}

pub enum RestoreQueryView {
    Nothing,
    LastWorkspace,
    SessionWorkspaces { session_id: Seq<char>, window_stack: Option<Seq<u64>> },
}

impl View for RestoreQuery {
    type V = RestoreQueryView;

    open spec fn view(&self) -> RestoreQueryView {
        match self {
            RestoreQuery::Nothing => RestoreQueryView::Nothing,
            RestoreQuery::LastWorkspace => RestoreQueryView::LastWorkspace,
            RestoreQuery::SessionWorkspaces { session_id, window_stack } => {
                RestoreQueryView::SessionWorkspaces {
                    session_id: session_id@,
                    window_stack: match window_stack {
                        Some(stack) => Some(stack@),
                        None => None,
                    },
                }
            },
        }
    }
}

/// What is looked up, given the behavior from the settings and the last session,
/// each `None` where it could not be read. Without a last session, its
/// workspaces cannot be asked for, and the last workspace stands in for them.
pub open spec fn query_for(
    behavior: Option<RestoreOnStartupBehavior>,
    session: Option<LastSessionView>,
) -> RestoreQueryView {
    match (behavior, session) {
        (Some(RestoreOnStartupBehavior::LastWorkspace), Some(_)) => RestoreQueryView::LastWorkspace,
        (Some(RestoreOnStartupBehavior::LastSession), Some(session)) => match session.id {
            Some(session_id) => RestoreQueryView::SessionWorkspaces {
                session_id,
                window_stack: session.window_stack,
            },
            None => RestoreQueryView::LastWorkspace,
        },
        _ => RestoreQueryView::Nothing,
    }
}

/// What is restored, given the two lookups' results: `last_workspace` is the
/// workspace that was opened last, `session_workspaces` are those of the session.
/// Only the result that the query asks for counts. No workspaces are as good as
/// none found. The lookup gives the workspaces of a window stack with the
/// frontmost first; they are opened the other way round, so that it ends in front.
pub open spec fn restored<L>(
    query: RestoreQueryView,
    last_workspace: Option<L>,
    session_workspaces: Option<Seq<L>>,
) -> Option<Seq<L>> {
    match query {
        RestoreQueryView::Nothing => None,
        RestoreQueryView::LastWorkspace => match last_workspace {
            Some(location) => Some(seq![location]),
            None => None,
        },
        RestoreQueryView::SessionWorkspaces { window_stack, .. } => match session_workspaces {
            Some(locations) => if locations.len() == 0 {
                None
            } else if window_stack is Some {
                Some(locations.reverse())
            } else {
                Some(locations)
            },
            None => None,
        },
    }
}

/// The view of a list that may be missing.
pub open spec fn listed<L>(list: Option<Vec<L>>) -> Option<Seq<L>> {
    match list {
        Some(list) => Some(list@),
        None => None,
    }
}

/// Gives what to look up in the database of workspaces.
pub fn restore_query(
    behavior: Option<RestoreOnStartupBehavior>,
    session: Option<LastSession>,
) -> (query: RestoreQuery)
    ensures
        query@ == query_for(
            behavior,
            match session {
                Some(session) => Some(session@),
                None => None,
            },
        ),
        query is LastWorkspace <==> session is Some && (behavior == Some(
            RestoreOnStartupBehavior::LastWorkspace,
        ) || (behavior == Some(RestoreOnStartupBehavior::LastSession) && session->0.id is None)),
        query is SessionWorkspaces <==> behavior == Some(RestoreOnStartupBehavior::LastSession)
            && session is Some && session->0.id is Some,
        query matches RestoreQuery::SessionWorkspaces { session_id, window_stack }
            ==> session_id@ == session->0.id->0@ && window_stack == session->0.window_stack,
{
    let behavior = match behavior {
        Some(behavior) => behavior,
        None => return RestoreQuery::Nothing,
    };
    let session = match session {
        Some(session) => session,
        None => return RestoreQuery::Nothing,
    };
    match behavior {
        RestoreOnStartupBehavior::LastWorkspace => RestoreQuery::LastWorkspace,
        RestoreOnStartupBehavior::LastSession => match session.id {
            Some(session_id) => RestoreQuery::SessionWorkspaces {
                session_id,
                window_stack: session.window_stack,
            },
            None => RestoreQuery::LastWorkspace,
        },
        RestoreOnStartupBehavior::Nothing => RestoreQuery::Nothing,
    }
}

/// Turns a list round.
fn reversed<L>(list: Vec<L>) -> (turned: Vec<L>)
    ensures
        turned@ == list@.reverse(),
{
    let mut rest = list;
    let mut turned: Vec<L> = Vec::new();
    while rest.len() > 0
        invariant
            rest@.len() + turned@.len() == list@.len(),
            rest@ == list@.take(rest@.len() as int),
            turned@ == list@.reverse().take(turned@.len() as int),
        decreases rest@.len(),
    {
        if let Some(location) = rest.pop() {
            turned.push(location);
        }
        assert(rest@ =~= list@.take(rest@.len() as int));
        assert(turned@ =~= list@.reverse().take(turned@.len() as int));
    }
    assert(list@.reverse().take(turned@.len() as int) =~= list@.reverse());
    turned
}

/// Gives the workspaces to restore, in the order in which they are opened, or
/// `None` if there is nothing to restore.
pub fn restorable_workspace_locations<L>(
    query: &RestoreQuery,
    last_workspace: Option<L>,
    session_workspaces: Option<Vec<L>>,
) -> (locations: Option<Vec<L>>)
    ensures
        listed(locations) == restored(query@, last_workspace, listed(session_workspaces)),
{
    match query {
        RestoreQuery::Nothing => None,
        RestoreQuery::LastWorkspace => match last_workspace {
            Some(location) => {
                let mut locations: Vec<L> = Vec::new();
                locations.push(location);
                assert(locations@ =~= seq![location]);
                Some(locations)
            },
            None => None,
        },
        RestoreQuery::SessionWorkspaces { window_stack, .. } => match session_workspaces {
            Some(locations) => {
                if locations.len() == 0 {
                    None
                } else if window_stack.is_some() {
                    Some(reversed(locations))
                } else {
                    Some(locations)
                }
            },
            None => None,
        },
    }
}

/// How far the startup has come. `L` is the location of a workspace.
#[derive(Debug, PartialEq, Eq)]
pub enum Startup<L> {
    /// A workspace is being opened; these follow it.
    Restoring(Vec<L>),
    /// The mark that the application was opened before is being read.
    CheckingFirstOpen,
    /// The welcome page or an empty file is being opened.
    OpeningOther,
    Finished,
}

/// What came of the last step. A failure carries its error message.
#[derive(Debug, PartialEq, Eq)]
pub enum StartupReply {
    Opened(Result<(), String>),
    FirstOpen(Result<Option<String>, String>),
}

/// What the startup does next.
#[derive(Debug, PartialEq, Eq)]
pub enum StartupStep<L> {
    /// The workspace is opened.
    OpenPaths(L),
    /// The mark that the application was opened before is read.
    ReadFirstOpen,
    /// The welcome page is shown.
    ShowWelcome,
    /// A workspace with an empty file is opened.
    OpenNewFile,
    /// The startup is over.
    Return(Result<(), String>),
}

pub enum StartupView<L> {
    Restoring(Seq<L>),
    CheckingFirstOpen,
    OpeningOther,
    Finished,
}

pub enum StartupReplyView {
    Opened(Result<(), Seq<char>>),
    FirstOpen(Result<Option<Seq<char>>, Seq<char>>),
}

pub enum StartupStepView<L> {
    OpenPaths(L),
    ReadFirstOpen,
    ShowWelcome,
    OpenNewFile,
    Return(Result<(), Seq<char>>),
}

impl<L> View for Startup<L> {
    type V = StartupView<L>;

    open spec fn view(&self) -> StartupView<L> {
        match self {
            Startup::Restoring(rest) => StartupView::Restoring(rest@),
            Startup::CheckingFirstOpen => StartupView::CheckingFirstOpen,
            Startup::OpeningOther => StartupView::OpeningOther,
            Startup::Finished => StartupView::Finished,
        }
    }
}

impl View for StartupReply {
    type V = StartupReplyView;

    open spec fn view(&self) -> StartupReplyView {
        match self {
            StartupReply::Opened(Ok(_)) => StartupReplyView::Opened(Ok(())),
            StartupReply::Opened(Err(error)) => StartupReplyView::Opened(Err(error@)),
            StartupReply::FirstOpen(Ok(Some(mark))) => StartupReplyView::FirstOpen(Ok(Some(mark@))),
            StartupReply::FirstOpen(Ok(None)) => StartupReplyView::FirstOpen(Ok(None)),
            StartupReply::FirstOpen(Err(error)) => StartupReplyView::FirstOpen(Err(error@)),
        }
    }
}

impl<L> View for StartupStep<L> {
    type V = StartupStepView<L>;

    open spec fn view(&self) -> StartupStepView<L> {
        match self {
            StartupStep::OpenPaths(location) => StartupStepView::OpenPaths(*location),
            StartupStep::ReadFirstOpen => StartupStepView::ReadFirstOpen,
            StartupStep::ShowWelcome => StartupStepView::ShowWelcome,
            StartupStep::OpenNewFile => StartupStepView::OpenNewFile,
            StartupStep::Return(Ok(_)) => StartupStepView::Return(Ok(())),
            StartupStep::Return(Err(error)) => StartupStepView::Return(Err(error@)),
        }
    }
}

/// Going on with the workspaces that are still to be opened.
pub open spec fn open_rest<L>(rest: Seq<L>) -> (StartupView<L>, StartupStepView<L>) {
    if rest.len() == 0 {
        (StartupView::Finished, StartupStepView::Return(Ok(())))
    } else {
        (StartupView::Restoring(rest.drop_first()), StartupStepView::OpenPaths(rest.first()))
    }
}

/// The first state and step: the workspaces to restore are opened; if there are
/// none to restore, it matters whether this is the first start.
pub open spec fn begun<L>(locations: Option<Seq<L>>) -> (StartupView<L>, StartupStepView<L>) {
    match locations {
        Some(locations) => open_rest(locations),
        None => (StartupView::CheckingFirstOpen, StartupStepView::ReadFirstOpen),
    }
}

/// A reply answers what the startup is waiting for.
pub open spec fn answers<L>(startup: StartupView<L>, reply: StartupReplyView) -> bool {
    match startup {
        StartupView::CheckingFirstOpen => reply is FirstOpen,
        StartupView::Finished => false,
        _ => reply is Opened,
    }
}

/// The state and the step that follow `reply`. The welcome page is for the first
/// start, which is known by the mark having been read and not been there. What
/// fails to open ends the startup with its error.
pub open spec fn next<L>(startup: StartupView<L>, reply: StartupReplyView) -> (
    StartupView<L>,
    StartupStepView<L>,
) {
    match (startup, reply) {
        (StartupView::CheckingFirstOpen, StartupReplyView::FirstOpen(Ok(None))) => (
            StartupView::OpeningOther,
            StartupStepView::ShowWelcome,
        ),
        (StartupView::CheckingFirstOpen, _) => (
            StartupView::OpeningOther,
            StartupStepView::OpenNewFile,
        ),
        (_, StartupReplyView::Opened(Err(error))) => (
            StartupView::Finished,
            StartupStepView::Return(Err(error)),
        ),
        (StartupView::Restoring(rest), _) => open_rest(rest),
        (_, _) => (StartupView::Finished, StartupStepView::Return(Ok(()))),
    }
}

fn open_next<L>(rest: Vec<L>) -> (stepped: (Startup<L>, StartupStep<L>))
    ensures
        (stepped.0@, stepped.1@) == open_rest(rest@),
{
    let mut rest = rest;
    if rest.len() == 0 {
        (Startup::Finished, StartupStep::Return(Ok(())))
    } else {
        let ghost before = rest@;
        let location = rest.remove(0);
        assert(rest@ =~= before.drop_first());
        (Startup::Restoring(rest), StartupStep::OpenPaths(location))
    }
}

/// Starts with the workspaces from [`restorable_workspace_locations`].
pub fn begin_startup<L>(locations: Option<Vec<L>>) -> (stepped: (Startup<L>, StartupStep<L>))
    ensures
        (stepped.0@, stepped.1@) == begun(listed(locations)),
{
    match locations {
        Some(locations) => open_next(locations),
        None => (Startup::CheckingFirstOpen, StartupStep::ReadFirstOpen),
    }
}

/// Takes what came of the last step and gives the next one.
pub fn restore_or_create_workspace<L>(startup: Startup<L>, reply: StartupReply) -> (stepped: (
    Startup<L>,
    StartupStep<L>,
))
    requires
        answers(startup@, reply@),
    ensures
        (stepped.0@, stepped.1@) == next(startup@, reply@),
{
    match startup {
        Startup::CheckingFirstOpen => match reply {
            StartupReply::FirstOpen(Ok(None)) => (Startup::OpeningOther, StartupStep::ShowWelcome),
            _ => (Startup::OpeningOther, StartupStep::OpenNewFile),
        },
        Startup::Restoring(rest) => match reply {
            StartupReply::Opened(Err(error)) => {
                (Startup::Finished, StartupStep::Return(Err(error)))
            },
            _ => open_next(rest),
        },
        _ => match reply {
            StartupReply::Opened(Err(error)) => {
                (Startup::Finished, StartupStep::Return(Err(error)))
            },
            _ => (Startup::Finished, StartupStep::Return(Ok(()))),
        },
    }
}

/// Without a last session, asking for its workspaces is asking for the last one.
pub proof fn law_no_session_means_last_workspace(session: LastSessionView)
    requires
        session.id is None,
    ensures
        query_for(Some(RestoreOnStartupBehavior::LastSession), Some(session)) == query_for(
            Some(RestoreOnStartupBehavior::LastWorkspace),
            Some(session),
        ),
{
}

/// What is restored is never an empty list: if there is nothing to open, the
/// startup goes on to the welcome page or an empty file.
pub proof fn law_restored_is_not_empty<L>(
    query: RestoreQueryView,
    last_workspace: Option<L>,
    session_workspaces: Option<Seq<L>>,
)
    ensures
        restored(query, last_workspace, session_workspaces) matches Some(locations)
            ==> locations.len() > 0,
{
}

/// Of a session with a window stack, every workspace is opened, and the one that
/// was in front is opened last.
pub proof fn law_frontmost_opens_last<L>(
    session_id: Seq<char>,
    stack: Seq<u64>,
    last_workspace: Option<L>,
    workspaces: Seq<L>,
)
    requires
        workspaces.len() > 0,
    ensures
        ({
            let query = RestoreQueryView::SessionWorkspaces {
                session_id,
                window_stack: Some(stack),
            };
            restored(query, last_workspace, Some(workspaces)) matches Some(opened) && {
                &&& opened.len() == workspaces.len()
                &&& opened.last() == workspaces.first()
                &&& forall|i: int|
                    0 <= i < workspaces.len() ==> opened[workspaces.len() - 1 - i]
                        == #[trigger] workspaces[i]
            }
        }),
{
    let opened = workspaces.reverse();
    assert forall|i: int| 0 <= i < workspaces.len() implies opened[workspaces.len() - 1 - i]
        == #[trigger] workspaces[i] by {}
}

/// How many steps a startup can still take.
pub open spec fn steps_left<L>(startup: StartupView<L>) -> nat {
    match startup {
        StartupView::Restoring(rest) => rest.len() + 1,
        StartupView::CheckingFirstOpen => 2,
        StartupView::OpeningOther => 1,
        StartupView::Finished => 0,
    }
}

/// Plays a startup to its end: the steps that were taken and what it returned.
/// `first_open` is what reading the mark gives, and `faults` gives the error of
/// the n-th opening if it fails, counted on from `done`.
pub open spec fn play<L>(
    startup: StartupView<L>,
    step: StartupStepView<L>,
    first_open: Result<Option<Seq<char>>, Seq<char>>,
    faults: spec_fn(int) -> Option<Seq<char>>,
    done: int,
) -> (Seq<StartupStepView<L>>, Result<(), Seq<char>>)
    decreases steps_left(startup),
{
    if let StartupStepView::Return(result) = step {
        (Seq::empty(), result)
    } else {
        let reads = step is ReadFirstOpen;
        let reply = if reads {
            StartupReplyView::FirstOpen(first_open)
        } else {
            StartupReplyView::Opened(
                match faults(done) {
                    Some(error) => Err(error),
                    None => Ok(()),
                },
            )
        };
        let (following, asked) = next(startup, reply);
        if steps_left(following) < steps_left(startup) {
            let (later, result) = play(
                following,
                asked,
                first_open,
                faults,
                if reads {
                    done
                } else {
                    done + 1
                },
            );
            (seq![step] + later, result)
        } else {
            (seq![step], Ok(()))
        }
    }
}

/// The workspaces that are opened, one after the other, until one fails.
proof fn lemma_restores_in_order<L>(
    rest: Seq<L>,
    first_open: Result<Option<Seq<char>>, Seq<char>>,
    faults: spec_fn(int) -> Option<Seq<char>>,
    done: int,
)
    ensures
        ({
            let (startup, step) = open_rest(rest);
            let (taken, result) = play(startup, step, first_open, faults, done);
            &&& taken.len() <= rest.len()
            &&& forall|i: int|
                0 <= i < taken.len() ==> #[trigger] taken[i] == StartupStepView::OpenPaths(rest[i])
            &&& forall|i: int| 0 <= i < taken.len() - 1 ==> #[trigger] faults(done + i) is None
            &&& match result {
                Ok(_) => taken.len() == rest.len() && (rest.len() > 0 ==> faults(
                    done + rest.len() - 1,
                ) is None),
                Err(error) => taken.len() > 0 && faults(done + taken.len() - 1) == Some(error),
            }
        }),
    decreases rest.len(),
{
    reveal_with_fuel(play, 2);
    if rest.len() > 0 {
        let tail = rest.drop_first();
        lemma_restores_in_order(tail, first_open, faults, done + 1);
        let (startup, step) = open_rest(rest);
        let (taken, result) = play(startup, step, first_open, faults, done);
        if faults(done) is Some {
            assert(next(startup, StartupReplyView::Opened(Err(faults(done)->0))) == (
                StartupView::<L>::Finished,
                StartupStepView::<L>::Return(Err(faults(done)->0)),
            ));
            assert(taken =~= seq![step]);
        } else {
            let (startup2, step2) = open_rest(tail);
            let (later, result2) = play(startup2, step2, first_open, faults, done + 1);
            assert(next(startup, StartupReplyView::Opened(Ok(()))) == (startup2, step2));
            assert(taken == seq![step] + later);
            assert forall|i: int| 0 <= i < taken.len() implies #[trigger] taken[i]
                == StartupStepView::OpenPaths(rest[i]) by {
                if i > 0 {
                    assert(taken[i] == later[i - 1]);
                    assert(tail[i - 1] == rest[i]);
                }
            }
            assert forall|i: int| 0 <= i < taken.len() - 1 implies #[trigger] faults(
                done + i,
            ) is None by {
                if i > 0 {
                    assert(faults((done + 1) + (i - 1)) is None);
                }
            }
        }
    }
}

/// A startup with workspaces to restore opens exactly these, in their order, up
/// to the first that fails. It succeeds if and only if all of them open, and
/// otherwise returns the error of the one that failed; it opens nothing else.
pub proof fn law_restores_in_order<L>(
    locations: Seq<L>,
    first_open: Result<Option<Seq<char>>, Seq<char>>,
    faults: spec_fn(int) -> Option<Seq<char>>,
)
    ensures
        ({
            let (startup, step) = begun(Some(locations));
            let (taken, result) = play(startup, step, first_open, faults, 0);
            &&& taken.len() <= locations.len()
            &&& forall|i: int|
                0 <= i < taken.len() ==> #[trigger] taken[i] == StartupStepView::OpenPaths(
                    locations[i],
                )
            &&& result is Ok <==> forall|i: int|
                0 <= i < locations.len() ==> #[trigger] faults(i) is None
            &&& result is Ok ==> taken.len() == locations.len()
            &&& result matches Err(error) ==> {
                &&& taken.len() > 0
                &&& faults(taken.len() - 1) == Some(error)
                &&& forall|i: int| 0 <= i < taken.len() - 1 ==> #[trigger] faults(i) is None
            }
        }),
{
    lemma_restores_in_order(locations, first_open, faults, 0);
    let (startup, step) = begun(Some(locations));
    let (taken, result) = play(startup, step, first_open, faults, 0);
    assert(forall|i: int| 0 <= i < taken.len() - 1 ==> #[trigger] faults(0 + i) is None);
    assert forall|i: int| 0 <= i < taken.len() - 1 implies #[trigger] faults(i) is None by {
        assert(faults(0 + i) is None);
    }
}

/// A startup with nothing to restore reads the mark and then opens one thing: the
/// welcome page if and only if the mark could be read and was not there. It
/// returns what came of opening that.
pub proof fn law_opens_welcome_only_the_first_time<L>(
    first_open: Result<Option<Seq<char>>, Seq<char>>,
    faults: spec_fn(int) -> Option<Seq<char>>,
)
    ensures
        ({
            let (startup, step) = begun(None::<Seq<L>>);
            play(startup, step, first_open, faults, 0) == (
                seq![
                    StartupStepView::<L>::ReadFirstOpen,
                    if first_open == Ok::<Option<Seq<char>>, Seq<char>>(None) {
                        StartupStepView::<L>::ShowWelcome
                    } else {
                        StartupStepView::<L>::OpenNewFile
                    },
                ],
                match faults(0) {
                    Some(error) => Err::<(), Seq<char>>(error),
                    None => Ok::<(), Seq<char>>(()),
                },
            )
        }),
{
    reveal_with_fuel(play, 3);
    let (startup, step) = begun(None::<Seq<L>>);
    let opened = if first_open == Ok::<Option<Seq<char>>, Seq<char>>(None) {
        StartupStepView::<L>::ShowWelcome
    } else {
        StartupStepView::<L>::OpenNewFile
    };
    assert(play(startup, step, first_open, faults, 0).0 =~= seq![
        StartupStepView::<L>::ReadFirstOpen,
        opened,
    ]);
}

/// The workspaces of a session are looked up whenever the settings ask for them and
/// there was a session, whether or not the order of its windows was kept. The last
/// workspace is looked up if the settings ask for it, or if they ask for a session
/// that there was not. Nothing is looked up where the settings ask for nothing, or
/// where they or the session could not be read.
pub proof fn law_query_follows_settings_and_session(
    behavior: Option<RestoreOnStartupBehavior>,
    session: Option<LastSessionView>,
)
    ensures
        ({
            let query = query_for(behavior, session);
            let asks_session = behavior == Some(RestoreOnStartupBehavior::LastSession);
            let asks_workspace = behavior == Some(RestoreOnStartupBehavior::LastWorkspace);
            &&& query is SessionWorkspaces <==> asks_session && session is Some && session->0.id
                is Some
            &&& query matches RestoreQueryView::SessionWorkspaces { session_id, window_stack } ==> {
                &&& Some(session_id) == session->0.id
                &&& window_stack == session->0.window_stack
            }
            &&& query is LastWorkspace <==> session is Some && (asks_workspace || (asks_session
                && session->0.id is None))
            &&& query is Nothing <==> session is None || !(asks_session || asks_workspace)
        }),
{
}

/// The order of the windows decides nothing but the order in which the workspaces
/// of the session are opened: with or without it, the same ones are asked for.
pub proof fn law_window_order_does_not_matter_to_the_query(
    id: Option<Seq<char>>,
    stack: Option<Seq<u64>>,
    other: Option<Seq<u64>>,
    behavior: Option<RestoreOnStartupBehavior>,
)
    ensures
        ({
            let one = query_for(behavior, Some(LastSessionView { id, window_stack: stack }));
            let two = query_for(behavior, Some(LastSessionView { id, window_stack: other }));
            &&& one is Nothing <==> two is Nothing
            &&& one is LastWorkspace <==> two is LastWorkspace
            &&& one matches RestoreQueryView::SessionWorkspaces { session_id, .. } ==> two
                == (RestoreQueryView::SessionWorkspaces { session_id, window_stack: other })
        }),
{
}

/// What is restored is what the lookup asked for found: the last workspace alone,
/// or every workspace of the session, in the order found if no window order was
/// kept and the other way round if one was. What the other lookup would have found
/// is of no account.
pub proof fn law_restored_is_what_was_found<L>(
    session_id: Seq<char>,
    stack: Option<Seq<u64>>,
    last_workspace: Option<L>,
    session_workspaces: Option<Seq<L>>,
)
    ensures
        restored(RestoreQueryView::Nothing, last_workspace, session_workspaces) is None,
        ({
            let opened = restored(
                RestoreQueryView::LastWorkspace,
                last_workspace,
                session_workspaces,
            );
            &&& opened is Some <==> last_workspace is Some
            &&& opened matches Some(opened) ==> opened.len() == 1 && Some(opened[0])
                == last_workspace
        }),
        ({
            let query = RestoreQueryView::SessionWorkspaces { session_id, window_stack: stack };
            let opened = restored(query, last_workspace, session_workspaces);
            let found = session_workspaces->0;
            &&& opened is Some <==> session_workspaces is Some && found.len() > 0
            &&& opened matches Some(opened) ==> {
                &&& opened.len() == found.len()
                &&& stack is None ==> opened == found
                &&& stack is Some ==> forall|i: int|
                    0 <= i < found.len() ==> #[trigger] opened[i] == found[found.len() - 1 - i]
            }
        }),
{
}

/// A startup waits for just one kind of reply in each state.
pub proof fn law_startup_waits_for_one_kind_of_reply<L>(
    startup: StartupView<L>,
    reply: StartupReplyView,
)
    ensures
        answers(startup, reply) <==> startup !is Finished && (startup is CheckingFirstOpen
            <==> reply is FirstOpen),
{
}

/// What contracts see of these values is all that they hold.
pub proof fn law_restore_views_leave_nothing_out<L>(
    text: String,
    session: LastSession,
    stack: Vec<u64>,
    list: Vec<L>,
    location: L,
)
    ensures
        (LastSession { id: Some(text), window_stack: session.window_stack })@.id == Some(text@),
        (LastSession { id: None, window_stack: session.window_stack })@.id is None,
        (LastSession { id: session.id, window_stack: Some(stack) })@.window_stack == Some(stack@),
        (LastSession { id: session.id, window_stack: None })@.window_stack is None,
        (RestoreQuery::Nothing)@ == RestoreQueryView::Nothing,
        (RestoreQuery::LastWorkspace)@ == RestoreQueryView::LastWorkspace,
        (RestoreQuery::SessionWorkspaces { session_id: text, window_stack: Some(stack) })@ == (
        RestoreQueryView::SessionWorkspaces { session_id: text@, window_stack: Some(stack@) }),
        (RestoreQuery::SessionWorkspaces { session_id: text, window_stack: None })@ == (
        RestoreQueryView::SessionWorkspaces { session_id: text@, window_stack: None }),
        listed(Some(list)) == Some(list@),
        listed(None::<Vec<L>>) is None,
        Startup::Restoring(list)@ == StartupView::Restoring(list@),
        (Startup::<L>::CheckingFirstOpen)@ == StartupView::<L>::CheckingFirstOpen,
        (Startup::<L>::OpeningOther)@ == StartupView::<L>::OpeningOther,
        (Startup::<L>::Finished)@ == StartupView::<L>::Finished,
        StartupReply::Opened(Ok(()))@ == StartupReplyView::Opened(Ok(())),
        StartupReply::Opened(Err(text))@ == StartupReplyView::Opened(Err(text@)),
        StartupReply::FirstOpen(Ok(None))@ == StartupReplyView::FirstOpen(Ok(None)),
        StartupReply::FirstOpen(Ok(Some(text)))@ == StartupReplyView::FirstOpen(Ok(Some(text@))),
        StartupReply::FirstOpen(Err(text))@ == StartupReplyView::FirstOpen(Err(text@)),
        StartupStep::OpenPaths(location)@ == StartupStepView::OpenPaths(location),
        (StartupStep::<L>::ReadFirstOpen)@ == StartupStepView::<L>::ReadFirstOpen,
        (StartupStep::<L>::ShowWelcome)@ == StartupStepView::<L>::ShowWelcome,
        (StartupStep::<L>::OpenNewFile)@ == StartupStepView::<L>::OpenNewFile,
        StartupStep::<L>::Return(Ok(()))@ == StartupStepView::<L>::Return(Ok(())),
        StartupStep::<L>::Return(Err(text))@ == StartupStepView::<L>::Return(Err(text@)),
{
}

} // verus!
