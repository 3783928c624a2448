//! Pulling every file under a path that was modified after a date: one query
//! for the list, then one pull per file, stopping at the first failure.
//!
//! The work is a sequence of runs of the device bridge. The job says which
//! run is due ([`PullAfterModDate::command`]); the caller performs it and
//! hands its outcome to [`PullAfterModDate::advance`], which says whether
//! the work goes on or how it ended.

use vstd::prelude::*;
use vstd::string::*;

use crate::command::{
    find_command, pull_command, pull_files, query_files_after_mod_date, texts, AdbSettings,
    CommandLine, Invocation,
};
use crate::files::{is_blank, blank_text_has_no_words, join_path, joined_path, split_file_list, words};
use crate::outcome::{
    empty_output_is_empty_text, execute_outcome, execute_result, query_outcome, query_result,
    AdbError, ProcessOutcome,
};

verus! {

/// Which run the job is waiting for.
#[derive(Debug)]
pub enum Stage {
    /// The query for the file list.
    Query,
    /// The pull of `current`; the files in `rest` follow, in order.
    Pull { current: String, rest: Vec<String> },
}

/// A pull of the files under `source_path` modified after `mod_date` into
/// `destination_path`, somewhere between its start and its end.
#[derive(Debug)]
pub struct PullAfterModDate {
    pub source_path: String,
    pub destination_path: String,
    pub mod_date: String,
    pub settings: AdbSettings,
    pub stage: Stage,
}

/// What the outcome of a run makes of the job.
#[derive(Debug)]
pub enum Progress {
    /// Another run is due.
    Next(PullAfterModDate),
    /// The job is over, with this result.
    Done(Result<(), AdbError>),
}

/// The mathematical content of a [`Stage`].
pub enum StageView {
    Query,
    Pull { current: Seq<char>, rest: Seq<Seq<char>> },
}

/// The mathematical content of a [`PullAfterModDate`].
pub struct PullView {
    pub source_path: Seq<char>,
    pub destination_path: Seq<char>,
    pub mod_date: Seq<char>,
    pub device_name: Seq<char>,
    pub verbose: bool,
    pub stage: StageView,
}

/// The mathematical content of a [`Progress`].
pub enum ProgressView {
    Next(PullView),
    Done(Result<(), AdbError>),
}

impl View for Stage {
    type V = StageView;

    open spec fn view(&self) -> StageView {
        match *self {
            Stage::Query => StageView::Query,
            Stage::Pull { current, rest } => StageView::Pull {
                current: current@,
                rest: texts(rest@),
            },
        }
    }
}

impl View for PullAfterModDate {
    type V = PullView;

    open spec fn view(&self) -> PullView {
        PullView {
            source_path: self.source_path@,
            destination_path: self.destination_path@,
            mod_date: self.mod_date@,
            device_name: self.settings.device_name@,
            verbose: self.settings.verbose,
            stage: self.stage@,
        }
    }
}

impl View for Progress {
    type V = ProgressView;

    open spec fn view(&self) -> ProgressView {
        match *self {
            Progress::Next(job) => ProgressView::Next(job@),
            Progress::Done(result) => ProgressView::Done(result),
        }
    }
}

/// The job before anything was run: the query is due.
pub open spec fn starting(
    source_path: Seq<char>,
    destination_path: Seq<char>,
    mod_date: Seq<char>,
    device_name: Seq<char>,
    verbose: bool,
) -> PullView {
    PullView {
        source_path,
        destination_path,
        mod_date,
        device_name,
        verbose,
        stage: StageView::Query,
    }
}

/// The pull of one listed file: its path is `file` joined onto the source
/// path, its destination the job's.
pub open spec fn pull_of(job: PullView, file: Seq<char>) -> CommandLine {
    pull_command(
        joined_path(job.source_path, file),
        job.destination_path,
        job.device_name,
        job.verbose,
    )
}

/// The run that is due.
pub open spec fn command_of(job: PullView) -> CommandLine {
    match job.stage {
        StageView::Query => find_command(
            job.source_path,
            job.mod_date,
            job.device_name,
            job.verbose,
        ),
        StageView::Pull { current, rest } => pull_of(job, current),
    }
}

/// The job with `files` left to pull: over and well if there is none, else
/// waiting for the pull of the first.
pub open spec fn pulling(job: PullView, files: Seq<Seq<char>>) -> ProgressView {
    if files.len() == 0 {
        ProgressView::Done(Ok(()))
    } else {
        ProgressView::Next(
            PullView { stage: StageView::Pull { current: files[0], rest: files.skip(1) }, ..job },
        )
    }
}

/// What `outcome`, the outcome of the run that was due, makes of the job.
/// A failed run ends the job with that run's error. A successful query
/// leaves the files it listed to pull; a successful pull leaves the rest.
pub open spec fn advanced(job: PullView, outcome: ProcessOutcome) -> ProgressView {
    match job.stage {
        StageView::Query => match query_outcome(outcome) {
            Ok(text) => pulling(job, words(text)),
            Err(e) => ProgressView::Done(Err(e)),
        },
        StageView::Pull { current, rest } => match execute_outcome(outcome) {
            Ok(_) => pulling(job, rest),
            Err(e) => ProgressView::Done(Err(e)),
        },
    }
}

/// Starts a pull of the files under `source_path` that were modified after
/// `mod_date` into `destination_path`.
pub fn pull_files_after_mod_date(
    source_path: &String,
    destination_path: &String,
    mod_date: &String,
    settings: &AdbSettings,
) -> (job: PullAfterModDate)
    ensures
        job@ == starting(
            source_path@,
            destination_path@,
            mod_date@,
            settings.device_name@,
            settings.verbose,
        ),
{
    PullAfterModDate {
        source_path: source_path.clone(),
        destination_path: destination_path.clone(),
        mod_date: mod_date.clone(),
        settings: AdbSettings {
            verbose: settings.verbose,
            device_name: settings.device_name.clone(),
        },
        stage: Stage::Query,
    }
}

fn pull_rest(
    source_path: String,
    destination_path: String,
    mod_date: String,
    settings: AdbSettings,
    files: Vec<String>,
    Ghost(job): Ghost<PullView>,
) -> (p: Progress)
    requires
        job.source_path == source_path@,
        job.destination_path == destination_path@,
        job.mod_date == mod_date@,
        job.device_name == settings.device_name@,
        job.verbose == settings.verbose,
    ensures
        p@ == pulling(job, texts(files@)),
{
    let mut rest = files;
    if rest.len() == 0 {
        Progress::Done(Ok(()))
    } else {
        let current = rest.remove(0);
        assert(texts(rest@) =~= texts(files@).skip(1));
        Progress::Next(
            PullAfterModDate {
                source_path,
                destination_path,
                mod_date,
                settings,
                stage: Stage::Pull { current, rest },
            },
        )
    }
}

impl PullAfterModDate {
    /// The run that is due.
    pub fn command(&self) -> (inv: Invocation)
        ensures
            inv@ == command_of(self@),
    {
        match &self.stage {
            Stage::Query => query_files_after_mod_date(
                &self.source_path,
                &self.mod_date,
                &self.settings,
            ),
            Stage::Pull { current, rest } => {
                let path = join_path(self.source_path.as_str(), current.as_str());
                pull_files(&path, &self.destination_path, &self.settings)
            },
        }
    }

    /// Takes the outcome of the run that was due and says how the job goes on.
    pub fn advance(self, outcome: ProcessOutcome) -> (p: Progress)
        ensures
            p@ == advanced(self@, outcome),
    {
        let ghost job = self@;
        let PullAfterModDate { source_path, destination_path, mod_date, settings, stage } = self;
        match stage {
            Stage::Query => match query_result(outcome) {
                Ok(text) => {
                    let files = split_file_list(text.as_str());
                    pull_rest(source_path, destination_path, mod_date, settings, files, Ghost(job))
                },
                Err(e) => Progress::Done(Err(e)),
            },
            Stage::Pull { current, rest } => match execute_result(outcome) {
                Ok(_) => pull_rest(
                    source_path,
                    destination_path,
                    mod_date,
                    settings,
                    rest,
                    Ghost(job),
                ),
                Err(e) => Progress::Done(Err(e)),
            },
        }
    }
}

/// What a caller sees who performs the run that is due, hands in the next of
/// `outcomes`, and goes on until the job is over or the outcomes run out.
pub struct Run {
    /// The runs performed, in order.
    pub commands: Seq<CommandLine>,
    /// How the job ended; `None` while the last run's outcome is missing.
    pub result: Option<Result<(), AdbError>>,
}

/// The run of `job` on `outcomes`, the first of them being the outcome of the
/// run that is due now. Outcomes past the job's end are not looked at.
pub open spec fn run(job: PullView, outcomes: Seq<ProcessOutcome>) -> Run
    decreases outcomes.len(),
{
    if outcomes.len() == 0 {
        Run { commands: seq![command_of(job)], result: None }
    } else {
        match advanced(job, outcomes[0]) {
            ProgressView::Done(result) => Run {
                commands: seq![command_of(job)],
                result: Some(result),
            },
            ProgressView::Next(next) => {
                let later = run(next, outcomes.skip(1));
                Run { commands: seq![command_of(job)] + later.commands, result: later.result }
            },
        }
    }
}

/// The pulls of `files`, one each and in order.
pub open spec fn pulls_of(job: PullView, files: Seq<Seq<char>>) -> Seq<CommandLine> {
    Seq::new(files.len(), |i: int| pull_of(job, files[i]))
}

/// The files that a job in its pull stage has not finished with: the one
/// whose pull is due, then the rest.
pub open spec fn files_left(job: PullView) -> Seq<Seq<char>> {
    match job.stage {
        StageView::Query => Seq::empty(),
        StageView::Pull { current, rest } => seq![current] + rest,
    }
}

/// A failed query ends the job at once: the query is the only run, no file
/// is pulled, and the job's error is the query's.
pub proof fn failed_query_pulls_nothing(job: PullView, outcomes: Seq<ProcessOutcome>)
    requires
        job.stage is Query,
        outcomes.len() > 0,
        query_outcome(outcomes[0]) is Err,
    ensures
        run(job, outcomes).commands == seq![
            find_command(job.source_path, job.mod_date, job.device_name, job.verbose),
        ],
        run(job, outcomes).result == Some(
            Err::<(), AdbError>(query_outcome(outcomes[0])->Err_0),
        ),
{
}

/// A query that prints nothing, or nothing but whitespace, ends the job at
/// once and well: the query is the only run and no file is pulled.
pub proof fn blank_listing_pulls_nothing(job: PullView, outcomes: Seq<ProcessOutcome>)
    requires
        job.stage is Query,
        outcomes.len() > 0,
        query_outcome(outcomes[0]) is Ok,
        is_blank(query_outcome(outcomes[0])->Ok_0),
    ensures
        run(job, outcomes).commands == seq![
            find_command(job.source_path, job.mod_date, job.device_name, job.verbose),
        ],
        run(job, outcomes).result == Some(Ok::<(), AdbError>(())),
{
    blank_text_has_no_words(query_outcome(outcomes[0])->Ok_0);
}

/// A query that succeeds and prints nothing at all ends the job at once and
/// well.
pub proof fn empty_listing_pulls_nothing(job: PullView, outcomes: Seq<ProcessOutcome>)
    requires
        job.stage is Query,
        outcomes.len() > 0,
        outcomes[0] matches ProcessOutcome::Exited { code, stdout } && code == Some(0i32)
            && stdout@.len() == 0,
    ensures
        run(job, outcomes).commands == seq![
            find_command(job.source_path, job.mod_date, job.device_name, job.verbose),
        ],
        run(job, outcomes).result == Some(Ok::<(), AdbError>(())),
{
    empty_output_is_empty_text(outcomes[0]->stdout@);
    blank_listing_pulls_nothing(job, outcomes);
}

/// From the pull stage on, the first failure ends the job. Where the pulls
/// of the first `failed` files succeed and the next one fails, exactly those
/// `failed + 1` pulls are performed, in the order of the list, none of the
/// later files is touched, and the job's error is that of the failed pull.
pub proof fn pulls_stop_at_first_failure(
    job: PullView,
    outcomes: Seq<ProcessOutcome>,
    failed: int,
)
    requires
        job.stage is Pull,
        0 <= failed < files_left(job).len(),
        failed < outcomes.len(),
        forall|j: int| 0 <= j < failed ==> execute_outcome(#[trigger] outcomes[j]) is Ok,
        execute_outcome(outcomes[failed]) is Err,
    ensures
        run(job, outcomes).commands == pulls_of(job, files_left(job)).take(failed + 1),
        run(job, outcomes).result == Some(
            Err::<(), AdbError>(execute_outcome(outcomes[failed])->Err_0),
        ),
    decreases failed,
{
    let files = files_left(job);
    if failed == 0 {
        assert(seq![command_of(job)] =~= pulls_of(job, files).take(1));
    } else {
        assert(execute_outcome(outcomes[0]) is Ok);
        let next = advanced(job, outcomes[0])->Next_0;
        assert(files_left(next) =~= files.skip(1));
        assert forall|j: int| 0 <= j < failed - 1 implies execute_outcome(
            #[trigger] outcomes.skip(1)[j],
        ) is Ok by {
            assert(outcomes.skip(1)[j] == outcomes[j + 1]);
        }
        pulls_stop_at_first_failure(next, outcomes.skip(1), failed - 1);
        assert(seq![command_of(job)] + pulls_of(next, files.skip(1)).take(failed) =~= pulls_of(
            job,
            files,
        ).take(failed + 1));
    }
}

/// From the pull stage on, where every pull succeeds every file left is
/// pulled, once and in the order of the list, and the job ends well.
pub proof fn pulls_cover_the_list(job: PullView, outcomes: Seq<ProcessOutcome>)
    requires
        job.stage is Pull,
        files_left(job).len() <= outcomes.len(),
        forall|j: int|
            0 <= j < files_left(job).len() ==> execute_outcome(#[trigger] outcomes[j]) is Ok,
    ensures
        run(job, outcomes).commands == pulls_of(job, files_left(job)),
        run(job, outcomes).result == Some(Ok::<(), AdbError>(())),
    decreases files_left(job).len(),
{
    let files = files_left(job);
    assert(execute_outcome(outcomes[0]) is Ok);
    if files.len() == 1 {
        assert(seq![command_of(job)] =~= pulls_of(job, files));
    } else {
        let next = advanced(job, outcomes[0])->Next_0;
        assert(files_left(next) =~= files.skip(1));
        assert forall|j: int| 0 <= j < files.len() - 1 implies execute_outcome(
            #[trigger] outcomes.skip(1)[j],
        ) is Ok by {
            assert(outcomes.skip(1)[j] == outcomes[j + 1]);
        }
        pulls_cover_the_list(next, outcomes.skip(1));
        assert(seq![command_of(job)] + pulls_of(next, files.skip(1)) =~= pulls_of(job, files));
    }
}

/// A whole job whose query succeeds: the query comes first, then the pulls
/// of the listed files in the order of the listing, up to and with the first
/// that fails. `outcomes[0]` is the query's outcome, `outcomes[i + 1]` that
/// of the pull of the listing's file `i`.
pub proof fn job_stops_at_first_failed_pull(
    job: PullView,
    outcomes: Seq<ProcessOutcome>,
    failed: int,
)
    requires
        job.stage is Query,
        outcomes.len() > 0,
        query_outcome(outcomes[0]) is Ok,
        0 <= failed < words(query_outcome(outcomes[0])->Ok_0).len(),
        failed + 1 < outcomes.len(),
        forall|j: int| 1 <= j <= failed ==> execute_outcome(#[trigger] outcomes[j]) is Ok,
        execute_outcome(outcomes[failed + 1]) is Err,
    ensures
        run(job, outcomes).commands == seq![
            find_command(job.source_path, job.mod_date, job.device_name, job.verbose),
        ] + pulls_of(job, words(query_outcome(outcomes[0])->Ok_0)).take(failed + 1),
        run(job, outcomes).result == Some(
            Err::<(), AdbError>(execute_outcome(outcomes[failed + 1])->Err_0),
        ),
{
    let files = words(query_outcome(outcomes[0])->Ok_0);
    let next = advanced(job, outcomes[0])->Next_0;
    assert(files_left(next) =~= files);
    assert forall|j: int| 0 <= j < failed implies execute_outcome(
        #[trigger] outcomes.skip(1)[j],
    ) is Ok by {
        assert(outcomes.skip(1)[j] == outcomes[j + 1]);
    }
    assert(outcomes.skip(1)[failed] == outcomes[failed + 1]);
    pulls_stop_at_first_failure(next, outcomes.skip(1), failed);
    assert(pulls_of(next, files) =~= pulls_of(job, files));
}

/// A whole job whose query and pulls all succeed: the query comes first,
/// then one pull for each listed file, in the order of the listing, and the
/// job ends well.
pub proof fn job_pulls_every_listed_file(job: PullView, outcomes: Seq<ProcessOutcome>)
    requires
        job.stage is Query,
        outcomes.len() > 0,
        query_outcome(outcomes[0]) is Ok,
        words(query_outcome(outcomes[0])->Ok_0).len() < outcomes.len(),
        forall|j: int|
            1 <= j <= words(query_outcome(outcomes[0])->Ok_0).len() ==> execute_outcome(
                #[trigger] outcomes[j],
            ) is Ok,
    ensures
        run(job, outcomes).commands == seq![
            find_command(job.source_path, job.mod_date, job.device_name, job.verbose),
        ] + pulls_of(job, words(query_outcome(outcomes[0])->Ok_0)),
        run(job, outcomes).result == Some(Ok::<(), AdbError>(())),
{
    let files = words(query_outcome(outcomes[0])->Ok_0);
    if files.len() == 0 {
        assert(pulls_of(job, files) =~= Seq::<CommandLine>::empty());
        assert(seq![command_of(job)] + pulls_of(job, files) =~= seq![command_of(job)]);
    } else {
        let next = advanced(job, outcomes[0])->Next_0;
        assert(files_left(next) =~= files);
        assert forall|j: int| 0 <= j < files.len() implies execute_outcome(
            #[trigger] outcomes.skip(1)[j],
        ) is Ok by {
            assert(outcomes.skip(1)[j] == outcomes[j + 1]);
        }
        pulls_cover_the_list(next, outcomes.skip(1));
        assert(pulls_of(next, files) =~= pulls_of(job, files));
    }
}

} // verus!
