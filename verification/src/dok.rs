//! Running a job as a task of the DOK service.
//!
//! [`launch_job_dok`] gives the first action. The program performs each action and
//! hands the outcome to [`DokRun::step`], which gives the next one.
use vstd::prelude::*;

use crate::job::{Infra, InfraView, Job, JobView, Manager, ManagerView, JOB_ID};
use crate::text::{dots, dots_text, join2, join3, join4, opt_text, same_text};

verus! {

/// A container of a task.
#[derive(Debug)]
pub struct TaskContainer {
    /// When the container started, if it did.
    pub start_at: Option<String>,
}

/// The outputs of a task.
#[derive(Debug)]
pub struct Artifact {
    pub id: String,
}

/// A task as the service describes it.
#[derive(Debug)]
pub struct Task {
    pub id: String,
    pub status: String,
    pub http_uri: Option<String>,
    pub containers: Vec<TaskContainer>,
    pub artifact: Option<Artifact>,
}

impl Task {
    /// The id of the task's outputs.
    pub open spec fn artifact_id(self) -> Option<Seq<char>> {
        match self.artifact {
            Some(a) => Some(a.id@),
            None => None,
        }
    }
}

/// What the run asks for. The parameter is the type of texts.
#[derive(Debug)]
pub enum DokAction<S = String> {
    /// Build the project's image.
    BuildImage,
    /// Push the built image to the registry.
    PushImage,
    /// Create the task.
    CreateTask,
    /// Wait.
    Sleep { secs: u64 },
    /// Read how the task stands.
    GetTask { id: S },
    /// Ask where the outputs of the finished task can be fetched.
    GetArtifactUrl { task: S },
    /// Fetch `url` into `file` of the project's directory.
    Download { url: S, file: S },
    /// Unpack `file` in the project's directory.
    Extract { file: S },
    /// Remove `file` of the project's directory.
    RemoveFile { file: S },
    /// The run is over.
    Finish(Result<(), S>),
}

/// The model of `DokAction`.
pub type DokActionView = DokAction<Seq<char>>;

impl View for DokAction<String> {
    type V = DokActionView;

    open spec fn view(&self) -> DokActionView {
        match *self {
            DokAction::BuildImage => DokAction::BuildImage,
            DokAction::PushImage => DokAction::PushImage,
            DokAction::CreateTask => DokAction::CreateTask,
            DokAction::Sleep { secs } => DokAction::Sleep { secs },
            DokAction::GetTask { id } => DokAction::GetTask { id: id@ },
            DokAction::GetArtifactUrl { task } => DokAction::GetArtifactUrl { task: task@ },
            DokAction::Download { url, file } => DokAction::Download { url: url@, file: file@ },
            DokAction::Extract { file } => DokAction::Extract { file: file@ },
            DokAction::RemoveFile { file } => DokAction::RemoveFile { file: file@ },
            DokAction::Finish(Ok(())) => DokAction::Finish(Ok(())),
            DokAction::Finish(Err(e)) => DokAction::Finish(Err(e@)),
        }
    }
}

/// The outcome of an action. Failures come with their message.
#[derive(Debug)]
pub enum DokEvent {
    Built(Result<(), String>),
    Pushed(Result<(), String>),
    /// The id of the created task.
    Created(Result<String, String>),
    Slept,
    TaskRead(Result<Task, String>),
    /// Where the outputs can be fetched.
    ArtifactUrlRead(Result<String, String>),
    Downloaded(Result<(), String>),
    Extracted(Result<(), String>),
    Removed(Result<(), String>),
}

/// What the run waits for.
#[derive(Debug, Clone, Copy, PartialEq, Eq, Structural)]
pub enum DokPhase {
    Building,
    Pushing,
    Creating,
    /// Between two looks at the task.
    Waiting,
    Polling,
    /// Between two looks at the outputs.
    WaitingForOutputs,
    AskingForOutputs,
    Downloading,
    Extracting,
    Removing,
    Finished,
}

/// A run as a task of the DOK service.
#[derive(Debug)]
pub struct DokRun {
    phase: DokPhase,
    created: String,
    done: String,
    artifact: Option<String>,
    dots: usize,
}

/// The model of `DokRun`.
pub struct DokRunView {
    pub phase: DokPhase,
    /// The id of the created task.
    pub created: Seq<char>,
    /// The id of the task that was read as done.
    pub done: Seq<char>,
    /// The id of its outputs.
    pub artifact: Option<Seq<char>>,
    /// How many dots the last notice of missing outputs ended in.
    pub dots: nat,
}

impl View for DokRun {
    type V = DokRunView;

    closed spec fn view(&self) -> DokRunView {
        DokRunView {
            phase: self.phase,
            created: self.created@,
            done: self.done@,
            artifact: opt_text(self.artifact),
            dots: self.dots as nat,
        }
    }
}

/// The file that the outputs are fetched into.
pub open spec fn archive_text() -> Seq<char> {
    "artifact.tar.gz"@
}

/// A line about a task.
pub open spec fn task_line(id: Seq<char>, what: Seq<char>) -> Seq<char> {
    "[sakura internet DOK] task "@ + id + what
}

/// A line about a task that quotes `detail`.
pub open spec fn task_detail_line(id: Seq<char>, what: Seq<char>, detail: Seq<char>) -> Seq<char> {
    "[sakura internet DOK] task "@ + id + what + detail
}

/// The line that tells that the outputs are not there yet.
pub open spec fn not_ready_line(artifact: Seq<char>, task: Seq<char>, dots: nat) -> Seq<char> {
    "[sakura internet DOK] output files (artifact "@ + artifact + ") of task "@ + task
        + " not ready "@ + dots_text(dots)
}

/// What the jobs show after a look at `task`, while it is not done.
pub open spec fn progress(task: Task, jobs: ManagerView) -> ManagerView {
    let jobs = match task.http_uri {
        Some(uri) => jobs.set_infra(
            JOB_ID,
            InfraView::SakuraInternetDOK(task.id@, Some(uri@)),
        ),
        None => jobs,
    };
    if task.containers@.len() > 0 {
        match task.containers@[0].start_at {
            Some(start_at) => jobs.add_log_tmp(
                JOB_ID,
                task_detail_line(task.id@, " started at "@, start_at@),
            ),
            None => jobs.add_log_tmp(JOB_ID, task_line(task.id@, " not ready for use"@)),
        }
    } else {
        jobs
    }
}

/// The jobs at the start of a run.
pub open spec fn launch_notice(with_build: bool, jobs: ManagerView) -> ManagerView {
    if with_build {
        jobs
    } else {
        jobs.add_log(
            JOB_ID,
            "Use docker image directly, no image will be built and pushed."@,
        ).add_log(JOB_ID, "All docker building parameters in @job.toml will be ignored"@)
    }
}

impl DokRunView {
    /// The run before anything is done.
    pub open spec fn initial(with_build: bool) -> DokRunView {
        DokRunView {
            phase: if with_build {
                DokPhase::Building
            } else {
                DokPhase::Creating
            },
            created: Seq::empty(),
            done: Seq::empty(),
            artifact: None,
            dots: 0,
        }
    }

    /// The run in another phase.
    pub open spec fn at(self, phase: DokPhase) -> DokRunView {
        DokRunView { phase, ..self }
    }

    /// The end of the run with the message of a failure.
    pub open spec fn fail(self, e: Seq<char>, jobs: ManagerView) -> (
        DokRunView,
        DokActionView,
        ManagerView,
    ) {
        (self.at(DokPhase::Finished), DokAction::Finish(Err(e)), jobs)
    }

    /// Whether `event` is an outcome of what the run asked for. That outputs are
    /// missing can be told only of a task that has some.
    pub open spec fn accepts(self, event: DokEvent) -> bool {
        match self.phase {
            DokPhase::Building => event is Built,
            DokPhase::Pushing => event is Pushed,
            DokPhase::Creating => event is Created,
            DokPhase::Waiting => event is Slept,
            DokPhase::Polling => event is TaskRead,
            DokPhase::WaitingForOutputs => event is Slept,
            DokPhase::AskingForOutputs => match event {
                DokEvent::ArtifactUrlRead(Ok(_)) => true,
                DokEvent::ArtifactUrlRead(Err(_)) => self.artifact is Some,
                _ => false,
            },
            DokPhase::Downloading => event is Downloaded,
            DokPhase::Extracting => event is Extracted,
            DokPhase::Removing => event is Removed,
            DokPhase::Finished => false,
        }
    }

    /// The run, the action and the jobs after `event`.
    pub open spec fn next(self, event: DokEvent, jobs: ManagerView) -> (
        DokRunView,
        DokActionView,
        ManagerView,
    ) {
        match event {
            DokEvent::Built(Err(e)) => self.fail(e@, jobs),
            DokEvent::Pushed(Err(e)) => self.fail(e@, jobs),
            DokEvent::Created(Err(e)) => self.fail(e@, jobs),
            DokEvent::TaskRead(Err(e)) => self.fail(e@, jobs),
            DokEvent::Downloaded(Err(e)) => self.fail(e@, jobs),
            DokEvent::Extracted(Err(e)) => self.fail(e@, jobs),
            DokEvent::Removed(Err(e)) => self.fail(e@, jobs),
            DokEvent::Built(Ok(())) => (self.at(DokPhase::Pushing), DokAction::PushImage, jobs),
            DokEvent::Pushed(Ok(())) => (self.at(DokPhase::Creating), DokAction::CreateTask, jobs),
            DokEvent::Created(Ok(id)) => (
                DokRunView { phase: DokPhase::Waiting, created: id@, ..self },
                DokAction::Sleep { secs: 5 },
                jobs.add_log(JOB_ID, task_line(id@, " created"@)).insert_job(
                    JobView { id: JOB_ID, infra: InfraView::SakuraInternetDOK(id@, None) },
                ),
            ),
            DokEvent::Slept => if self.phase == DokPhase::Waiting {
                (self.at(DokPhase::Polling), DokAction::GetTask { id: self.created }, jobs)
            } else {
                (
                    self.at(DokPhase::AskingForOutputs),
                    DokAction::GetArtifactUrl { task: self.done },
                    jobs,
                )
            },
            DokEvent::TaskRead(Ok(task)) => {
                let jobs = jobs.add_log_tmp(
                    JOB_ID,
                    task_detail_line(task.id@, " status: "@, task.status@),
                );
                if task.status@ == "done"@ {
                    (
                        DokRunView {
                            phase: DokPhase::WaitingForOutputs,
                            done: task.id@,
                            artifact: task.artifact_id(),
                            ..self
                        },
                        DokAction::Sleep { secs: 1 },
                        jobs.clear_log_tmp(JOB_ID),
                    )
                } else {
                    (
                        self.at(DokPhase::Waiting),
                        DokAction::Sleep { secs: 5 },
                        progress(task, jobs),
                    )
                }
            },
            DokEvent::ArtifactUrlRead(Ok(url)) => (
                self.at(DokPhase::Downloading),
                DokAction::Download { url: url@, file: archive_text() },
                jobs.clear_log_tmp(JOB_ID).add_log(
                    JOB_ID,
                    "[sakura internet DOK] downloading output files of task "@ + self.created,
                ),
            ),
            DokEvent::ArtifactUrlRead(Err(_)) => {
                let dots = (self.dots + 1) % 5;
                (
                    DokRunView { phase: DokPhase::WaitingForOutputs, dots, ..self },
                    DokAction::Sleep { secs: 1 },
                    jobs.add_log_tmp(
                        JOB_ID,
                        not_ready_line(self.artifact->0, self.created, dots),
                    ),
                )
            },
            DokEvent::Downloaded(Ok(())) => (
                self.at(DokPhase::Extracting),
                DokAction::Extract { file: archive_text() },
                jobs,
            ),
            DokEvent::Extracted(Ok(())) => (
                self.at(DokPhase::Removing),
                DokAction::RemoveFile { file: archive_text() },
                jobs.add_log(
                    JOB_ID,
                    "[sakura internet DOK] downloaded output files of task "@ + self.created,
                ),
            ),
            DokEvent::Removed(Ok(())) => (
                self.at(DokPhase::Finished),
                DokAction::Finish(Ok(())),
                jobs,
            ),
        }
    }
}

/// Starts a run, with or without building the project's image first.
pub fn launch_job_dok(with_build: bool, jobs: &mut Manager) -> (r: (DokRun, DokAction))
    ensures
        r.0.wf(),
        r.0@ == DokRunView::initial(with_build),
        r.1@ == if with_build {
            DokActionView::BuildImage
        } else {
            DokActionView::CreateTask
        },
        final(jobs)@ == launch_notice(with_build, old(jobs)@),
{
    if with_build {
        let run = DokRun {
            phase: DokPhase::Building,
            created: String::new(),
            done: String::new(),
            artifact: None,
            dots: 0,
        };
        (run, DokAction::BuildImage)
    } else {
        jobs.add_log(
            JOB_ID,
            "Use docker image directly, no image will be built and pushed.".to_string(),
        );
        jobs.add_log(
            JOB_ID,
            "All docker building parameters in @job.toml will be ignored".to_string(),
        );
        let run = DokRun {
            phase: DokPhase::Creating,
            created: String::new(),
            done: String::new(),
            artifact: None,
            dots: 0,
        };
        (run, DokAction::CreateTask)
    }
}

/// Shows what a look at `task` tells, while the task is not done.
fn show_progress(task: &Task, jobs: &mut Manager)
    ensures
        final(jobs)@ == progress(*task, old(jobs)@),
{
    match &task.http_uri {
        Some(uri) => {
            let infra = Infra::SakuraInternetDOK(task.id.clone(), Some(uri.clone()));
            jobs.set_infra(JOB_ID, infra);
        },
        None => {},
    }
    if task.containers.len() > 0 {
        match &task.containers[0].start_at {
            Some(start_at) => {
                jobs.add_log_tmp(
                    JOB_ID,
                    join4(
                        "[sakura internet DOK] task ",
                        task.id.as_str(),
                        " started at ",
                        start_at.as_str(),
                    ),
                );
            },
            None => {
                jobs.add_log_tmp(
                    JOB_ID,
                    join3("[sakura internet DOK] task ", task.id.as_str(), " not ready for use"),
                );
            },
        }
    }
}

impl DokRun {
    /// Whether the dots stay in their row.
    pub closed spec fn wf(&self) -> bool {
        self.dots < 5
    }

    /// Whether `event` is an outcome of what the run asked for.
    pub fn accepts(&self, event: &DokEvent) -> (r: bool)
        ensures
            r == self@.accepts(*event),
    {
        match (self.phase, event) {
            (DokPhase::Building, DokEvent::Built(_)) => true,
            (DokPhase::Pushing, DokEvent::Pushed(_)) => true,
            (DokPhase::Creating, DokEvent::Created(_)) => true,
            (DokPhase::Waiting, DokEvent::Slept) => true,
            (DokPhase::Polling, DokEvent::TaskRead(_)) => true,
            (DokPhase::WaitingForOutputs, DokEvent::Slept) => true,
            (DokPhase::AskingForOutputs, DokEvent::ArtifactUrlRead(r)) => r.is_ok()
                || self.artifact.is_some(),
            (DokPhase::Downloading, DokEvent::Downloaded(_)) => true,
            (DokPhase::Extracting, DokEvent::Extracted(_)) => true,
            (DokPhase::Removing, DokEvent::Removed(_)) => true,
            _ => false,
        }
    }

    fn fail(&mut self, e: String, jobs: &mut Manager) -> (action: DokAction)
        ensures
            (final(self)@, action@, final(jobs)@) == old(self)@.fail(e@, old(jobs)@),
            final(self).dots == old(self).dots,
    {
        self.phase = DokPhase::Finished;
        DokAction::Finish(Err(e))
    }

    /// Takes a look at the task and gives the next action.
    fn on_task(&mut self, task: Task, jobs: &mut Manager) -> (action: DokAction)
        ensures
            (final(self)@, action@, final(jobs)@) == old(self)@.next(
                DokEvent::TaskRead(Ok(task)),
                old(jobs)@,
            ),
            final(self).dots == old(self).dots,
    {
        jobs.add_log_tmp(
            JOB_ID,
            join4(
                "[sakura internet DOK] task ",
                task.id.as_str(),
                " status: ",
                task.status.as_str(),
            ),
        );
        if same_text(task.status.as_str(), "done") {
            jobs.clear_log_tmp(&JOB_ID);
            self.done = task.id;
            self.artifact = match task.artifact {
                Some(a) => Some(a.id),
                None => None,
            };
            self.phase = DokPhase::WaitingForOutputs;
            DokAction::Sleep { secs: 1 }
        } else {
            show_progress(&task, jobs);
            self.phase = DokPhase::Waiting;
            DokAction::Sleep { secs: 5 }
        }
    }

    /// Takes the outcome of the last action and gives the next one.
    pub fn step(&mut self, event: DokEvent, jobs: &mut Manager) -> (action: DokAction)
        requires
            old(self).wf(),
            old(self)@.accepts(event),
        ensures
            final(self).wf(),
            (final(self)@, action@, final(jobs)@) == old(self)@.next(event, old(jobs)@),
    {
        match event {
            DokEvent::Built(Err(e)) => self.fail(e, jobs),
            DokEvent::Pushed(Err(e)) => self.fail(e, jobs),
            DokEvent::Created(Err(e)) => self.fail(e, jobs),
            DokEvent::TaskRead(Err(e)) => self.fail(e, jobs),
            DokEvent::Downloaded(Err(e)) => self.fail(e, jobs),
            DokEvent::Extracted(Err(e)) => self.fail(e, jobs),
            DokEvent::Removed(Err(e)) => self.fail(e, jobs),
            DokEvent::Built(Ok(())) => {
                self.phase = DokPhase::Pushing;
                DokAction::PushImage
            },
            DokEvent::Pushed(Ok(())) => {
                self.phase = DokPhase::Creating;
                DokAction::CreateTask
            },
            DokEvent::Created(Ok(id)) => {
                jobs.add_log(
                    JOB_ID,
                    join3("[sakura internet DOK] task ", id.as_str(), " created"),
                );
                let infra = Infra::SakuraInternetDOK(id.clone(), None);
                jobs.insert_job(Job { id: JOB_ID, infra });
                self.created = id;
                self.phase = DokPhase::Waiting;
                DokAction::Sleep { secs: 5 }
            },
            DokEvent::Slept => {
                if self.phase == DokPhase::Waiting {
                    self.phase = DokPhase::Polling;
                    DokAction::GetTask { id: self.created.clone() }
                } else {
                    self.phase = DokPhase::AskingForOutputs;
                    DokAction::GetArtifactUrl { task: self.done.clone() }
                }
            },
            DokEvent::TaskRead(Ok(task)) => self.on_task(task, jobs),
            DokEvent::ArtifactUrlRead(Ok(url)) => {
                jobs.clear_log_tmp(&JOB_ID);
                jobs.add_log(
                    JOB_ID,
                    join2(
                        "[sakura internet DOK] downloading output files of task ",
                        self.created.as_str(),
                    ),
                );
                self.phase = DokPhase::Downloading;
                DokAction::Download { url, file: "artifact.tar.gz".to_string() }
            },
            DokEvent::ArtifactUrlRead(Err(_)) => {
                self.dots = (self.dots + 1) % 5;
                let row = dots(self.dots);
                if let Some(artifact) = &self.artifact {
                    let head = join4(
                        "[sakura internet DOK] output files (artifact ",
                        artifact.as_str(),
                        ") of task ",
                        self.created.as_str(),
                    );
                    jobs.add_log_tmp(JOB_ID, join3(head.as_str(), " not ready ", row.as_str()));
                }
                self.phase = DokPhase::WaitingForOutputs;
                DokAction::Sleep { secs: 1 }
            },
            DokEvent::Downloaded(Ok(())) => {
                self.phase = DokPhase::Extracting;
                DokAction::Extract { file: "artifact.tar.gz".to_string() }
            },
            DokEvent::Extracted(Ok(())) => {
                jobs.add_log(
                    JOB_ID,
                    join2(
                        "[sakura internet DOK] downloaded output files of task ",
                        self.created.as_str(),
                    ),
                );
                self.phase = DokPhase::Removing;
                DokAction::RemoveFile { file: "artifact.tar.gz".to_string() }
            },
            DokEvent::Removed(Ok(())) => {
                self.phase = DokPhase::Finished;
                DokAction::Finish(Ok(()))
            },
        }
    }
}

impl DokRunView {
    /// The run and the jobs after `events`, one after the other.
    pub open spec fn after(self, events: Seq<DokEvent>, jobs: ManagerView) -> (
        DokRunView,
        ManagerView,
    )
        decreases events.len(),
    {
        if events.len() == 0 {
            (self, jobs)
        } else {
            let (run, jobs) = self.after(events.drop_last(), jobs);
            let (run, _, jobs) = run.next(events.last(), jobs);
            (run, jobs)
        }
    }

    /// What the run asks for after the last of `events`.
    pub open spec fn asked(self, events: Seq<DokEvent>, jobs: ManagerView) -> DokActionView {
        let (run, jobs) = self.after(events.drop_last(), jobs);
        run.next(events.last(), jobs).1
    }

    /// Whether each of `events` is an outcome of what the run asked for before it.
    pub open spec fn accepts_all(self, events: Seq<DokEvent>, jobs: ManagerView) -> bool
        decreases events.len(),
    {
        events.len() == 0 || {
            &&& self.accepts_all(events.drop_last(), jobs)
            &&& self.after(events.drop_last(), jobs).0.accepts(events.last())
        }
    }

    /// Whether the run has seen its task done.
    pub open spec fn past_task(self) -> bool {
        match self.phase {
            DokPhase::WaitingForOutputs => true,
            DokPhase::AskingForOutputs => true,
            DokPhase::Downloading => true,
            DokPhase::Extracting => true,
            DokPhase::Removing => true,
            _ => false,
        }
    }
}

/// Whether `event` tells that the task was created.
pub open spec fn tells_created(event: DokEvent) -> bool {
    event matches DokEvent::Created(Ok(_))
}

/// Whether some of `events` tells that the task was created.
pub open spec fn saw_created(events: Seq<DokEvent>) -> bool {
    exists|i: int| 0 <= i < events.len() && #[trigger] tells_created(events[i])
}

/// Whether `event` shows the task `id` done.
pub open spec fn shows_done(event: DokEvent, id: Seq<char>) -> bool {
    event matches DokEvent::TaskRead(Ok(task)) && task.status@ == "done"@ && task.id@ == id
}

/// Whether some of `events` shows the task `id` done.
pub open spec fn saw_done(events: Seq<DokEvent>, id: Seq<char>) -> bool {
    exists|i: int| 0 <= i < events.len() && #[trigger] shows_done(events[i], id)
}

/// How many of `events` tell that the outputs are not there.
pub open spec fn misses(events: Seq<DokEvent>) -> nat
    decreases events.len(),
{
    if events.len() == 0 {
        0
    } else {
        misses(events.drop_last()) + if events.last() matches DokEvent::ArtifactUrlRead(Err(_)) {
            1nat
        } else {
            0
        }
    }
}

/// Outputs are asked for only of a task that was read as done.
pub proof fn dok_run_asks_for_outputs_when_done(
    with_build: bool,
    events: Seq<DokEvent>,
    jobs: ManagerView,
)
    requires
        DokRunView::initial(with_build).accepts_all(events, jobs),
    ensures
        ({
            let run = DokRunView::initial(with_build).after(events, jobs).0;
            run.past_task() ==> saw_done(events, run.done)
        }),
        events.len() > 0 ==> (DokRunView::initial(with_build).asked(
            events,
            jobs,
        ) matches DokAction::GetArtifactUrl { task } ==> saw_done(events, task)),
    decreases events.len(),
{
    let start = DokRunView::initial(with_build);
    let run = start.after(events, jobs).0;
    if events.len() > 0 {
        let before = events.drop_last();
        dok_run_asks_for_outputs_when_done(with_build, before, jobs);
        let prior = start.after(before, jobs).0;
        assert(prior.accepts(events.last()));
        if prior.past_task() {
            let i = choose|i: int|
                0 <= i < before.len() && #[trigger] shows_done(before[i], prior.done);
            assert(shows_done(events[i], prior.done));
            assert(saw_done(events, prior.done));
        } else if run.past_task() {
            assert(shows_done(events[events.len() - 1], run.done));
        }
    }
}

/// The dots behind the notice of missing outputs count the misses in fives.
pub proof fn dok_run_counts_misses(with_build: bool, events: Seq<DokEvent>, jobs: ManagerView)
    ensures
        DokRunView::initial(with_build).after(events, jobs).0.dots == misses(events) % 5,
    decreases events.len(),
{
    if events.len() > 0 {
        dok_run_counts_misses(with_build, events.drop_last(), jobs);
    }
}

/// A run succeeds in one way only: the outputs were located, fetched and unpacked,
/// and the fetched file was removed. No temporary line is left.
pub proof fn dok_run_succeeds_with_outputs(
    with_build: bool,
    events: Seq<DokEvent>,
    jobs: ManagerView,
)
    requires
        events.len() > 0,
        DokRunView::initial(with_build).accepts_all(events, jobs),
        DokRunView::initial(with_build).asked(events, jobs) == DokActionView::Finish(Ok(())),
    ensures
        events.len() >= 4,
        events[events.len() - 4] matches DokEvent::ArtifactUrlRead(Ok(_)),
        events[events.len() - 3] matches DokEvent::Downloaded(Ok(_)),
        events[events.len() - 2] matches DokEvent::Extracted(Ok(_)),
        events[events.len() - 1] matches DokEvent::Removed(Ok(_)),
        !DokRunView::initial(with_build).after(events, jobs).1.logs_tmp.contains_key(JOB_ID),
{
    reveal_with_fuel(DokRunView::after, 5);
    reveal_with_fuel(DokRunView::accepts_all, 5);
    let start = DokRunView::initial(with_build);
    let e1 = events.drop_last();
    let e2 = e1.drop_last();
    let e3 = e2.drop_last();
    assert(events.last() matches DokEvent::Removed(Ok(_)));
    assert(start.after(e1, jobs).0.phase == DokPhase::Removing);
    assert(e1.last() matches DokEvent::Extracted(Ok(_)));
    assert(start.after(e2, jobs).0.phase == DokPhase::Extracting);
    assert(e2.last() matches DokEvent::Downloaded(Ok(_)));
    assert(start.after(e3, jobs).0.phase == DokPhase::Downloading);
    assert(e3.last() matches DokEvent::ArtifactUrlRead(Ok(_)));
    assert(!start.after(e3, jobs).1.logs_tmp.contains_key(JOB_ID));
}

proof fn lemma_dok_step(run: DokRunView, event: DokEvent, jobs: ManagerView)
    ensures
        ({
            let later = run.next(event, jobs).2;
            &&& jobs.log(JOB_ID).is_prefix_of(later.log(JOB_ID))
            &&& jobs.same_but_for(JOB_ID, later)
            &&& later.local_infra_cancel_job == jobs.local_infra_cancel_job
            &&& jobs.jobs.contains_key(JOB_ID) || tells_created(event)
                ==> later.jobs.contains_key(JOB_ID)
        }),
{
    let later = run.next(event, jobs).2;
    assert(jobs.log(JOB_ID).is_prefix_of(later.log(JOB_ID)));
    assert(jobs.jobs.remove(JOB_ID) =~= later.jobs.remove(JOB_ID));
    assert(jobs.logs.remove(JOB_ID) =~= later.logs.remove(JOB_ID));
    assert(jobs.logs_tmp.remove(JOB_ID) =~= later.logs_tmp.remove(JOB_ID));
}

/// A run only adds to the log of its job, never takes the job away, and leaves every
/// other job and the wish to cancel alone. Once its task was created, the job is
/// registered for good, also after the run has ended.
pub proof fn dok_run_keeps_the_jobs(with_build: bool, events: Seq<DokEvent>, jobs: ManagerView)
    requires
        DokRunView::initial(with_build).accepts_all(events, jobs),
    ensures
        ({
            let later = DokRunView::initial(with_build).after(events, jobs).1;
            &&& jobs.log(JOB_ID).is_prefix_of(later.log(JOB_ID))
            &&& jobs.same_but_for(JOB_ID, later)
            &&& later.local_infra_cancel_job == jobs.local_infra_cancel_job
            &&& jobs.jobs.contains_key(JOB_ID) || saw_created(events)
                ==> later.jobs.contains_key(JOB_ID)
        }),
    decreases events.len(),
{
    if events.len() > 0 {
        let before = events.drop_last();
        dok_run_keeps_the_jobs(with_build, before, jobs);
        let (run, mid) = DokRunView::initial(with_build).after(before, jobs);
        lemma_dok_step(run, events.last(), mid);
        if saw_created(events) {
            let i = choose|i: int| 0 <= i < events.len() && #[trigger] tells_created(events[i]);
            if i < before.len() {
                assert(tells_created(before[i]));
            }
        }
    }
}

/// A run that uses the image as it is neither builds nor pushes one.
pub proof fn dok_run_builds_only_when_told(events: Seq<DokEvent>, jobs: ManagerView)
    requires
        DokRunView::initial(false).accepts_all(events, jobs),
    ensures
        DokRunView::initial(false).after(events, jobs).0.phase != DokPhase::Building,
        DokRunView::initial(false).after(events, jobs).0.phase != DokPhase::Pushing,
        events.len() > 0 ==> {
            &&& !(DokRunView::initial(false).asked(events, jobs) is BuildImage)
            &&& !(DokRunView::initial(false).asked(events, jobs) is PushImage)
        },
    decreases events.len(),
{
    if events.len() > 0 {
        dok_run_builds_only_when_told(events.drop_last(), jobs);
    }
}

/// Once a task that is not done tells its address, the job shows it.
pub proof fn dok_run_shows_the_address(run: DokRunView, task: Task, uri: String, jobs: ManagerView)
    requires
        task.status@ != "done"@,
        task.http_uri == Some(uri),
        jobs.jobs.contains_key(JOB_ID),
    ensures
        run.next(DokEvent::TaskRead(Ok(task)), jobs).2.jobs[JOB_ID].infra
            == InfraView::SakuraInternetDOK(task.id@, Some(uri@)),
{
}

/// A run is over when it says so, and only then.
pub proof fn dok_run_ends_when_it_says(run: DokRunView, event: DokEvent, jobs: ManagerView)
    requires
        run.accepts(event),
    ensures
        run.next(event, jobs).1 is Finish <==> run.next(event, jobs).0.phase == DokPhase::Finished,
        run.next(event, jobs).1 is Finish ==> forall|later: DokEvent|
            !#[trigger] run.next(event, jobs).0.accepts(later),
{
}

} // verus!
