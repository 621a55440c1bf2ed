//! The directories that the application needs.

use vstd::prelude::*;
use vstd::string::*;

verus! {

/// A directory that the application keeps files in.
#[derive(Clone, Copy, PartialEq, Eq, Structural, Debug)]
pub enum AppDir {
    Config,
    Languages,
    Database,
    Logs,
    Temp,
}

/// The directories that are made at startup, in their order.
pub open spec fn startup_dirs() -> Seq<AppDir> {
    seq![AppDir::Config, AppDir::Languages, AppDir::Database, AppDir::Logs, AppDir::Temp]
}

/// What came of making a directory. A failure carries the directory's path, in
/// quotes and escaped, and the error message.
#[derive(Debug, PartialEq, Eq)]
pub enum DirOutcome {
    Made,
    Failed { quoted_path: String, error: String },
}

/// What to do about the directories next.
#[derive(Debug, PartialEq, Eq)]
pub enum PathsStep {
    MakeDir(AppDir),
    Return(Result<(), String>),
}

pub enum DirOutcomeView {
    Made,
    Failed { quoted_path: Seq<char>, error: Seq<char> },
}

pub enum PathsStepView {
    MakeDir(AppDir),
    Return(Result<(), Seq<char>>),
}

impl View for DirOutcome {
    type V = DirOutcomeView;

    open spec fn view(&self) -> DirOutcomeView {
        match self {
            DirOutcome::Made => DirOutcomeView::Made,
            DirOutcome::Failed { quoted_path, error } => DirOutcomeView::Failed {
                quoted_path: quoted_path@,
                error: error@,
            },
        }
    }
}

impl View for PathsStep {
    type V = PathsStepView;

    open spec fn view(&self) -> PathsStepView {
        match self {
            PathsStep::MakeDir(dir) => PathsStepView::MakeDir(*dir),
            PathsStep::Return(Ok(_)) => PathsStepView::Return(Ok(())),
            PathsStep::Return(Err(error)) => PathsStepView::Return(Err(error@)),
        }
    }
}

/// The error of a directory that could not be made.
pub open spec fn dir_failure(quoted_path: Seq<char>, error: Seq<char>) -> Seq<char> {
    "Could not create directory "@ + quoted_path + ": "@ + error
}

/// The step after `made` directories, the last of them with the given outcome.
pub open spec fn paths_step(made: nat, last: DirOutcomeView) -> PathsStepView {
    match last {
        DirOutcomeView::Failed { quoted_path, error } => PathsStepView::Return(
            Err(dir_failure(quoted_path, error)),
        ),
        DirOutcomeView::Made => if made < startup_dirs().len() {
            PathsStepView::MakeDir(startup_dirs()[made as int])
        } else {
            PathsStepView::Return(Ok(()))
        },
    }
}

/// Gives what to do after `made` directories have been tried, the last of them
/// with the given outcome; before the first, nothing has failed yet, which is as
/// good as [`DirOutcome::Made`].
pub fn init_paths(made: usize, last: DirOutcome) -> (step: PathsStep)
    ensures
        step@ == paths_step(made as nat, last@),
{
    match last {
        DirOutcome::Failed { quoted_path, error } => {
            let message = "Could not create directory ".to_owned().concat(quoted_path.as_str());
            let message = message.concat(": ").concat(error.as_str());
            PathsStep::Return(Err(message))
        },
        DirOutcome::Made => match made {
            0 => PathsStep::MakeDir(AppDir::Config),
            1 => PathsStep::MakeDir(AppDir::Languages),
            2 => PathsStep::MakeDir(AppDir::Database),
            3 => PathsStep::MakeDir(AppDir::Logs),
            4 => PathsStep::MakeDir(AppDir::Temp),
            _ => PathsStep::Return(Ok(())),
        },
    }
}

/// Makes the directories from the n-th on, where `outcomes` gives what comes of
/// each: those that were tried, and what is returned.
pub open spec fn make_dirs(
    made: nat,
    last: DirOutcomeView,
    outcomes: spec_fn(AppDir) -> DirOutcomeView,
) -> (Seq<AppDir>, Result<(), Seq<char>>)
    decreases startup_dirs().len() - made,
{
    match paths_step(made, last) {
        PathsStepView::Return(result) => (Seq::empty(), result),
        PathsStepView::MakeDir(dir) => if made < startup_dirs().len() {
            let (later, result) = make_dirs(made + 1, outcomes(dir), outcomes);
            (seq![dir] + later, result)
        } else {
            (Seq::empty(), Ok(()))
        },
    }
}

proof fn lemma_dirs_until_the_first_failure(
    made: nat,
    last: DirOutcomeView,
    outcomes: spec_fn(AppDir) -> DirOutcomeView,
)
    requires
        made <= startup_dirs().len(),
    ensures
        ({
            let (tried, result) = make_dirs(made, last, outcomes);
            &&& made + tried.len() <= startup_dirs().len()
            &&& tried == startup_dirs().subrange(made as int, (made + tried.len()) as int)
            &&& forall|i: int|
                0 <= i < tried.len() - 1 ==> #[trigger] outcomes(tried[i]) is Made
            &&& tried.len() > 0 ==> last is Made
            &&& match result {
                Ok(_) => {
                    &&& made + tried.len() == startup_dirs().len()
                    &&& last is Made
                    &&& tried.len() > 0 ==> outcomes(tried.last()) is Made
                },
                Err(message) => {
                    let failed = if tried.len() > 0 {
                        outcomes(tried.last())
                    } else {
                        last
                    };
                    failed matches DirOutcomeView::Failed { quoted_path, error } && message
                        == dir_failure(quoted_path, error)
                },
            }
        }),
    decreases startup_dirs().len() - made,
{
    let (tried, result) = make_dirs(made, last, outcomes);
    if last is Made && made < startup_dirs().len() {
        let dir = startup_dirs()[made as int];
        lemma_dirs_until_the_first_failure(made + 1, outcomes(dir), outcomes);
        let (later, result2) = make_dirs(made + 1, outcomes(dir), outcomes);
        assert(tried == seq![dir] + later);
        assert forall|i: int| 0 <= i < tried.len() - 1 implies #[trigger] outcomes(
            tried[i],
        ) is Made by {
            if i > 0 {
                assert(tried[i] == later[i - 1]);
            }
        }
        assert(tried =~= startup_dirs().subrange(made as int, (made + tried.len()) as int));
        if later.len() > 0 {
            assert(tried.last() == later.last());
        }
    } else {
        assert(tried =~= startup_dirs().subrange(made as int, (made + tried.len()) as int));
    }
}

/// The directories are made in their order up to the first that fails; none
/// after it is tried. All is well if and only if every one could be made, and
/// otherwise the error names the one that failed.
pub proof fn law_dirs_until_the_first_failure(outcomes: spec_fn(AppDir) -> DirOutcomeView)
    ensures
        ({
            let (tried, result) = make_dirs(0, DirOutcomeView::Made, outcomes);
            &&& tried.is_prefix_of(startup_dirs())
            &&& forall|i: int| 0 <= i < tried.len() - 1 ==> #[trigger] outcomes(tried[i]) is Made
            &&& result is Ok <==> forall|i: int|
                0 <= i < startup_dirs().len() ==> #[trigger] outcomes(startup_dirs()[i]) is Made
            &&& result is Ok ==> tried == startup_dirs()
            &&& result matches Err(message) ==> {
                &&& tried.len() > 0
                &&& outcomes(tried.last()) matches DirOutcomeView::Failed { quoted_path, error }
                    && message == dir_failure(quoted_path, error)
            }
        }),
{
    lemma_dirs_until_the_first_failure(0, DirOutcomeView::Made, outcomes);
    let (tried, result) = make_dirs(0, DirOutcomeView::Made, outcomes);
    let dirs = startup_dirs();
    if result is Ok {
        assert(tried =~= dirs);
        assert forall|i: int| 0 <= i < dirs.len() implies #[trigger] outcomes(
            dirs[i],
        ) is Made by {
            assert(outcomes(tried[i]) is Made);
        }
    } else {
        assert(outcomes(dirs[tried.len() - 1]) is Failed);
    }
}

/// Whichever directory it was that could not be made, nothing more is tried, and the
/// error holds its path and the reason. As long as none fails, directories are
/// made until all five have been.
pub proof fn law_failed_dir_is_named(made: nat, quoted_path: Seq<char>, error: Seq<char>)
    ensures
        paths_step(made, DirOutcomeView::Failed { quoted_path, error }) == PathsStepView::Return(
            Err("Could not create directory "@ + quoted_path + ": "@ + error),
        ),
        paths_step(made, DirOutcomeView::Made) is MakeDir <==> made < 5,
        made >= 5 ==> paths_step(made, DirOutcomeView::Made) == PathsStepView::Return(Ok(())),
{
}

/// What contracts see of these values is all that they hold.
pub proof fn law_path_views_leave_nothing_out(quoted_path: String, error: String, dir: AppDir)
    ensures
        (DirOutcome::Made)@ == DirOutcomeView::Made,
        (DirOutcome::Failed { quoted_path, error })@ == (DirOutcomeView::Failed {
            quoted_path: quoted_path@,
            error: error@,
        }),
        PathsStep::MakeDir(dir)@ == PathsStepView::MakeDir(dir),
        PathsStep::Return(Ok(()))@ == PathsStepView::Return(Ok(())),
        PathsStep::Return(Err(error))@ == PathsStepView::Return(Err(error@)),
{
}

} // verus!
