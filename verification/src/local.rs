//! Running a job in a container on this machine.
//!
//! [`launch_job_local`] gives the first action. The program performs each action and
//! hands the outcome to [`LocalRun::step`], which gives the next one.
use vstd::prelude::*;

use crate::job::{Infra, InfraView, Job, JobView, Manager, ManagerView, JOB_ID};
use crate::text::{join2, join3, texts};

verus! {

/// How a project runs on this machine.
#[derive(Debug)]
pub struct LocalSettings {
    pub docker_image: String,
    pub script: String,
}

/// What the run asks for. The parameters are the types of texts and of lists of
/// texts.
#[derive(Debug)]
pub enum LocalAction<S = String, L = Vec<String>> {
    /// Start a container from `image` with the given volumes bound.
    LaunchContainer { image: S, volume_binds: L },
    /// Prepare `cmd` to run in the container.
    CreateExec {
        container: S,
        cmd: L,
        working_dir: S,
        attach_stdout: bool,
        attach_stderr: bool,
    },
    /// Start the prepared command, attached to its output.
    StartExec { exec_id: S },
    /// Read which job is to be cancelled.
    ReadCancel,
    /// Stop the container.
    StopContainer { container: S, signal: S, timeout_secs: i32 },
    /// Wait.
    Sleep { secs: u64 },
    /// Take the next piece of the command's output.
    ReadOutput,
    /// Remove the container.
    RemoveContainer { container: S, force: bool },
    /// The run is over.
    Finish(Result<(), S>),
}

/// The model of `LocalAction`.
pub type LocalActionView = LocalAction<Seq<char>, Seq<Seq<char>>>;

impl View for LocalAction<String, Vec<String>> {
    type V = LocalActionView;

    open spec fn view(&self) -> LocalActionView {
        match *self {
            LocalAction::LaunchContainer { image, volume_binds } => LocalAction::LaunchContainer {
                image: image@,
                volume_binds: texts(volume_binds@),
            },
            LocalAction::CreateExec {
                container,
                cmd,
                working_dir,
                attach_stdout,
                attach_stderr,
            } => LocalAction::CreateExec {
                container: container@,
                cmd: texts(cmd@),
                working_dir: working_dir@,
                attach_stdout,
                attach_stderr,
            },
            LocalAction::StartExec { exec_id } => LocalAction::StartExec { exec_id: exec_id@ },
            LocalAction::ReadCancel => LocalAction::ReadCancel,
            LocalAction::StopContainer { container, signal, timeout_secs } =>
                LocalAction::StopContainer {
                container: container@,
                signal: signal@,
                timeout_secs,
            },
            LocalAction::Sleep { secs } => LocalAction::Sleep { secs },
            LocalAction::ReadOutput => LocalAction::ReadOutput,
            LocalAction::RemoveContainer { container, force } => LocalAction::RemoveContainer {
                container: container@,
                force,
            },
            LocalAction::Finish(Ok(())) => LocalAction::Finish(Ok(())),
            LocalAction::Finish(Err(e)) => LocalAction::Finish(Err(e@)),
        }
    }
}

/// The outcome of an action. Failures come with their message.
#[derive(Debug)]
pub enum LocalEvent {
    /// The container's id.
    Launched(Result<String, String>),
    /// The id of the prepared command.
    ExecCreated(Result<String, String>),
    /// The command runs, and its output is attached.
    ExecStarted(Result<(), String>),
    /// The job to be cancelled, if any.
    CancelRead(Option<usize>),
    Stopped(Result<(), String>),
    Slept,
    /// A piece of the output, a failure to read one, or nothing more.
    OutputRead(Option<Result<String, String>>),
    Removed,
}

/// What the run waits for.
#[derive(Debug, Clone, Copy, PartialEq, Eq, Structural)]
pub enum LocalPhase {
    Launching,
    Creating,
    Starting,
    Watching,
    Stopping,
    Sleeping,
    Reading,
    Removing,
    Finished,
}

/// A run in a container on this machine.
#[derive(Debug)]
pub struct LocalRun {
    phase: LocalPhase,
    settings: LocalSettings,
    container: String,
}

/// The model of `LocalRun`.
pub struct LocalRunView {
    pub phase: LocalPhase,
    pub image: Seq<char>,
    pub script: Seq<char>,
    /// The container's id, once it is launched.
    pub container: Seq<char>,
}

impl View for LocalRun {
    type V = LocalRunView;

    closed spec fn view(&self) -> LocalRunView {
        LocalRunView {
            phase: self.phase,
            image: self.settings.docker_image@,
            script: self.settings.script@,
            container: self.container@,
        }
    }
}

/// The line that names the image.
pub open spec fn image_line(image: Seq<char>) -> Seq<char> {
    "[Local infra] exec job 0, status: using image "@ + image
}

/// The line that names the new container.
pub open spec fn created_line(container: Seq<char>) -> Seq<char> {
    "[Local infra] exec job 0, status: container "@ + container + " created"@
}

/// The line that shows a piece of output.
pub open spec fn output_line(message: Seq<char>) -> Seq<char> {
    "[Local infra] exec job 0, output: "@ + message
}

/// The line that tells that the container is stopped.
pub open spec fn stopped_line(container: Seq<char>) -> Seq<char> {
    "[Local infra] exec job 0, container "@ + container + " stopped"@
}

/// The line that tells that the container is removed.
pub open spec fn removed_line(container: Seq<char>) -> Seq<char> {
    "[Local infra] exec job 0, container "@ + container + " removed"@
}

impl LocalRunView {
    /// The run before its container is launched.
    pub open spec fn initial(image: Seq<char>, script: Seq<char>) -> LocalRunView {
        LocalRunView { phase: LocalPhase::Launching, image, script, container: Seq::empty() }
    }

    /// The run in another phase.
    pub open spec fn at(self, phase: LocalPhase) -> LocalRunView {
        LocalRunView { phase, ..self }
    }

    /// Whether `event` is an outcome of what the run asked for.
    pub open spec fn accepts(self, event: LocalEvent) -> bool {
        match self.phase {
            LocalPhase::Launching => event is Launched,
            LocalPhase::Creating => event is ExecCreated,
            LocalPhase::Starting => event is ExecStarted,
            LocalPhase::Watching => event is CancelRead,
            LocalPhase::Stopping => event is Stopped,
            LocalPhase::Sleeping => event is Slept,
            LocalPhase::Reading => event is OutputRead,
            LocalPhase::Removing => event is Removed,
            LocalPhase::Finished => false,
        }
    }

    /// The run, the action and the jobs after `event`.
    pub open spec fn next(self, event: LocalEvent, jobs: ManagerView) -> (
        LocalRunView,
        LocalActionView,
        ManagerView,
    ) {
        match event {
            LocalEvent::Launched(Err(e)) | LocalEvent::ExecCreated(Err(e)) | LocalEvent::ExecStarted(
                Err(e),
            ) | LocalEvent::Stopped(Err(e)) => (
                self.at(LocalPhase::Finished),
                LocalAction::Finish(Err(e@)),
                jobs,
            ),
            LocalEvent::Launched(Ok(id)) => (
                LocalRunView { phase: LocalPhase::Creating, container: id@, ..self },
                LocalAction::CreateExec {
                    container: id@,
                    cmd: seq!["sh"@, self.script],
                    working_dir: "/workspace"@,
                    attach_stdout: true,
                    attach_stderr: true,
                },
                jobs.add_log(JOB_ID, image_line(self.image)).add_log(
                    JOB_ID,
                    created_line(id@),
                ).insert_job(JobView { id: JOB_ID, infra: InfraView::Local }),
            ),
            LocalEvent::ExecCreated(Ok(exec_id)) => (
                self.at(LocalPhase::Starting),
                LocalAction::StartExec { exec_id: exec_id@ },
                jobs,
            ),
            LocalEvent::ExecStarted(Ok(())) => (
                self.at(LocalPhase::Watching),
                LocalAction::ReadCancel,
                jobs,
            ),
            LocalEvent::CancelRead(cancel) => if cancel == Some(JOB_ID) {
                (
                    self.at(LocalPhase::Stopping),
                    LocalAction::StopContainer {
                        container: self.container,
                        signal: "SIGINT"@,
                        timeout_secs: 3,
                    },
                    jobs,
                )
            } else {
                (self.at(LocalPhase::Sleeping), LocalAction::Sleep { secs: 1 }, jobs)
            },
            LocalEvent::Stopped(Ok(())) => (
                self.at(LocalPhase::Removing),
                LocalAction::RemoveContainer { container: self.container, force: true },
                ManagerView {
                    local_infra_cancel_job: false,
                    ..jobs.add_log(JOB_ID, stopped_line(self.container))
                },
            ),
            LocalEvent::Slept => (self.at(LocalPhase::Reading), LocalAction::ReadOutput, jobs),
            LocalEvent::OutputRead(output) => (
                self.at(LocalPhase::Watching),
                LocalAction::ReadCancel,
                match output {
                    Some(Ok(message)) => jobs.add_log(JOB_ID, output_line(message@)),
                    _ => jobs,
                },
            ),
            LocalEvent::Removed => (
                self.at(LocalPhase::Finished),
                LocalAction::Finish(Ok(())),
                jobs.add_log(JOB_ID, removed_line(self.container)),
            ),
        }
    }
}

/// Starts a run of the project in `proj_dir`.
pub fn launch_job_local(proj_dir: &str, settings: LocalSettings) -> (r: (LocalRun, LocalAction))
    ensures
        r.0@ == LocalRunView::initial(settings.docker_image@, settings.script@),
        r.1@ == (LocalActionView::LaunchContainer {
            image: settings.docker_image@,
            volume_binds: seq![proj_dir@ + ":"@ + "/workspace"@],
        }),
{
    let bind = join3(proj_dir, ":", "/workspace");
    let volume_binds: Vec<String> = vec![bind];
    let action = LocalAction::LaunchContainer {
        image: settings.docker_image.clone(),
        volume_binds,
    };
    assert(texts(volume_binds@) =~= seq![proj_dir@ + ":"@ + "/workspace"@]);
    (LocalRun { phase: LocalPhase::Launching, settings, container: String::new() }, action)
}

impl LocalRun {
    /// Whether `event` is an outcome of what the run asked for.
    pub fn accepts(&self, event: &LocalEvent) -> (r: bool)
        ensures
            r == self@.accepts(*event),
    {
        match (self.phase, event) {
            (LocalPhase::Launching, LocalEvent::Launched(_)) => true,
            (LocalPhase::Creating, LocalEvent::ExecCreated(_)) => true,
            (LocalPhase::Starting, LocalEvent::ExecStarted(_)) => true,
            (LocalPhase::Watching, LocalEvent::CancelRead(_)) => true,
            (LocalPhase::Stopping, LocalEvent::Stopped(_)) => true,
            (LocalPhase::Sleeping, LocalEvent::Slept) => true,
            (LocalPhase::Reading, LocalEvent::OutputRead(_)) => true,
            (LocalPhase::Removing, LocalEvent::Removed) => true,
            _ => false,
        }
    }

    /// Takes the outcome of the last action and gives the next one.
    pub fn step(&mut self, event: LocalEvent, jobs: &mut Manager) -> (action: LocalAction)
        requires
            old(self)@.accepts(event),
        ensures
            (final(self)@, action@, final(jobs)@) == old(self)@.next(event, old(jobs)@),
    {
        match event {
            LocalEvent::Launched(Err(e))
            | LocalEvent::ExecCreated(Err(e))
            | LocalEvent::ExecStarted(Err(e))
            | LocalEvent::Stopped(Err(e)) => {
                self.phase = LocalPhase::Finished;
                LocalAction::Finish(Err(e))
            },
            LocalEvent::Launched(Ok(id)) => {
                jobs.add_log(
                    JOB_ID,
                    join2(
                        "[Local infra] exec job 0, status: using image ",
                        self.settings.docker_image.as_str(),
                    ),
                );
                jobs.add_log(
                    JOB_ID,
                    join3("[Local infra] exec job 0, status: container ", id.as_str(), " created"),
                );
                jobs.insert_job(Job { id: JOB_ID, infra: Infra::Local });
                let cmd: Vec<String> = vec!["sh".to_string(), self.settings.script.clone()];
                assert(texts(cmd@) =~= seq!["sh"@, self.settings.script@]);
                self.container = id.clone();
                self.phase = LocalPhase::Creating;
                LocalAction::CreateExec {
                    container: id,
                    cmd,
                    working_dir: "/workspace".to_string(),
                    attach_stdout: true,
                    attach_stderr: true,
                }
            },
            LocalEvent::ExecCreated(Ok(exec_id)) => {
                self.phase = LocalPhase::Starting;
                LocalAction::StartExec { exec_id }
            },
            LocalEvent::ExecStarted(Ok(())) => {
                self.phase = LocalPhase::Watching;
                LocalAction::ReadCancel
            },
            LocalEvent::CancelRead(cancel) => {
                let cancel_job: bool = match cancel {
                    Some(id) => id == JOB_ID,
                    None => false,
                };
                if cancel_job {
                    self.phase = LocalPhase::Stopping;
                    LocalAction::StopContainer {
                        container: self.container.clone(),
                        signal: "SIGINT".to_string(),
                        timeout_secs: 3,
                    }
                } else {
                    self.phase = LocalPhase::Sleeping;
                    LocalAction::Sleep { secs: 1 }
                }
            },
            LocalEvent::Stopped(Ok(())) => {
                jobs.add_log(
                    JOB_ID,
                    join3(
                        "[Local infra] exec job 0, container ",
                        self.container.as_str(),
                        " stopped",
                    ),
                );
                jobs.local_infra_cancel_job = false;
                self.phase = LocalPhase::Removing;
                LocalAction::RemoveContainer { container: self.container.clone(), force: true }
            },
            LocalEvent::Slept => {
                self.phase = LocalPhase::Reading;
                LocalAction::ReadOutput
            },
            LocalEvent::OutputRead(output) => {
                if let Some(Ok(message)) = output {
                    jobs.add_log(
                        JOB_ID,
                        join2("[Local infra] exec job 0, output: ", message.as_str()),
                    );
                }
                self.phase = LocalPhase::Watching;
                LocalAction::ReadCancel
            },
            LocalEvent::Removed => {
                jobs.add_log(
                    JOB_ID,
                    join3(
                        "[Local infra] exec job 0, container ",
                        self.container.as_str(),
                        " removed",
                    ),
                );
                self.phase = LocalPhase::Finished;
                LocalAction::Finish(Ok(()))
            },
        }
    }
}

impl LocalRunView {
    /// The run and the jobs after `events`, one after the other.
    pub open spec fn after(self, events: Seq<LocalEvent>, jobs: ManagerView) -> (
        LocalRunView,
        ManagerView,
    )
        decreases events.len(),
    {
        if events.len() == 0 {
            (self, jobs)
        } else {
            let (run, jobs) = self.after(events.drop_last(), jobs);
            let (run, _, jobs) = run.next(events.last(), jobs);
            (run, jobs)
        }
    }

    /// What the run asks for after the last of `events`.
    pub open spec fn asked(self, events: Seq<LocalEvent>, jobs: ManagerView) -> LocalActionView {
        let (run, jobs) = self.after(events.drop_last(), jobs);
        run.next(events.last(), jobs).1
    }

    /// Whether each of `events` is an outcome of what the run asked for before it.
    pub open spec fn accepts_all(self, events: Seq<LocalEvent>, jobs: ManagerView) -> bool
        decreases events.len(),
    {
        events.len() == 0 || {
            &&& self.accepts_all(events.drop_last(), jobs)
            &&& self.after(events.drop_last(), jobs).0.accepts(events.last())
        }
    }
}

/// The container that an action is about.
pub open spec fn container_of(action: LocalActionView) -> Option<Seq<char>> {
    match action {
        LocalAction::CreateExec { container, .. } => Some(container),
        LocalAction::StopContainer { container, .. } => Some(container),
        LocalAction::RemoveContainer { container, .. } => Some(container),
        _ => None,
    }
}

/// The lines that an outcome adds to the log of a run of `image` in `container`.
pub open spec fn lines_of(image: Seq<char>, container: Seq<char>, event: LocalEvent) -> Seq<
    Seq<char>,
> {
    match event {
        LocalEvent::Launched(Ok(id)) => seq![image_line(image), created_line(id@)],
        LocalEvent::OutputRead(Some(Ok(message))) => seq![output_line(message@)],
        LocalEvent::Stopped(Ok(())) => seq![stopped_line(container)],
        LocalEvent::Removed => seq![removed_line(container)],
        _ => Seq::empty(),
    }
}

/// The lines that `events` add, in their order.
pub open spec fn story(image: Seq<char>, container: Seq<char>, events: Seq<LocalEvent>) -> Seq<
    Seq<char>,
>
    decreases events.len(),
{
    if events.len() == 0 {
        Seq::empty()
    } else {
        story(image, container, events.drop_last()) + lines_of(image, container, events.last())
    }
}

/// Whether `event` tells that the container was stopped.
pub open spec fn tells_stopped(event: LocalEvent) -> bool {
    event matches LocalEvent::Stopped(Ok(_))
}

/// Whether some of `events` tells that the container was stopped.
pub open spec fn saw_stopped(events: Seq<LocalEvent>) -> bool {
    exists|i: int| 0 <= i < events.len() && #[trigger] tells_stopped(events[i])
}

/// The container that the first outcome of a run tells.
pub open spec fn launched_container(events: Seq<LocalEvent>) -> Seq<char> {
    match events[0] {
        LocalEvent::Launched(Ok(id)) => id@,
        _ => Seq::empty(),
    }
}

pub(crate) proof fn lemma_local_state(
    image: Seq<char>,
    script: Seq<char>,
    events: Seq<LocalEvent>,
    jobs: ManagerView,
)
    requires
        LocalRunView::initial(image, script).accepts_all(events, jobs),
    ensures
        ({
            let run = LocalRunView::initial(image, script).after(events, jobs).0;
            &&& run.image == image
            &&& run.script == script
            &&& events.len() == 0 <==> run.phase == LocalPhase::Launching
            &&& events.len() > 0 ==> {
                &&& events[0] is Launched
                &&& run.container == launched_container(events)
                &&& events[0]->Launched_0 is Err ==> run.phase == LocalPhase::Finished
            }
        }),
    decreases events.len(),
{
    if events.len() > 0 {
        let before = events.drop_last();
        lemma_local_state(image, script, before, jobs);
        if before.len() > 0 {
            assert(before[0] == events[0]);
        }
    }
}

/// A run is about one container: whatever container an action names is the one that
/// was launched for the run.
pub proof fn local_run_keeps_its_container(
    image: Seq<char>,
    script: Seq<char>,
    events: Seq<LocalEvent>,
    jobs: ManagerView,
)
    requires
        events.len() > 0,
        LocalRunView::initial(image, script).accepts_all(events, jobs),
    ensures
        container_of(LocalRunView::initial(image, script).asked(events, jobs)) matches Some(c)
            ==> (events[0] matches LocalEvent::Launched(Ok(id)) && c == id@),
{
    lemma_local_state(image, script, events.drop_last(), jobs);
    if events.len() > 1 {
        assert(events.drop_last()[0] == events[0]);
    }
}

/// A run succeeds in one way only: the job was cancelled, its container was stopped,
/// and then removed.
pub proof fn local_run_succeeds_only_when_cancelled(
    image: Seq<char>,
    script: Seq<char>,
    events: Seq<LocalEvent>,
    jobs: ManagerView,
)
    requires
        events.len() > 0,
        LocalRunView::initial(image, script).accepts_all(events, jobs),
        LocalRunView::initial(image, script).asked(events, jobs) == LocalActionView::Finish(Ok(())),
    ensures
        events.len() >= 3,
        events[events.len() - 3] == LocalEvent::CancelRead(Some(JOB_ID)),
        events[events.len() - 2] matches LocalEvent::Stopped(Ok(_)),
        events[events.len() - 1] == LocalEvent::Removed,
{
    reveal_with_fuel(LocalRunView::after, 4);
    reveal_with_fuel(LocalRunView::accepts_all, 4);
    let e1 = events.drop_last();
    let e2 = e1.drop_last();
    let start = LocalRunView::initial(image, script);
    assert(events.last() == LocalEvent::Removed);
    assert(start.after(e1, jobs).0.phase == LocalPhase::Removing);
    assert(e1.last() matches LocalEvent::Stopped(Ok(_)));
    assert(start.after(e2, jobs).0.phase == LocalPhase::Stopping);
    assert(e2.last() == LocalEvent::CancelRead(Some(JOB_ID)));
}

pub(crate) proof fn lemma_local_step(run: LocalRunView, event: LocalEvent, jobs: ManagerView)
    ensures
        ({
            let later = run.next(event, jobs).2;
            &&& later.log(JOB_ID) == jobs.log(JOB_ID) + lines_of(run.image, run.container, event)
            &&& later.logs_tmp == jobs.logs_tmp
            &&& jobs.same_but_for(JOB_ID, later)
            &&& later.local_infra_cancel_job == (jobs.local_infra_cancel_job && !tells_stopped(
                event,
            ))
        }),
{
    let later = run.next(event, jobs).2;
    assert(later.log(JOB_ID) =~= jobs.log(JOB_ID) + lines_of(run.image, run.container, event));
    assert(jobs.jobs.remove(JOB_ID) =~= later.jobs.remove(JOB_ID));
    assert(jobs.logs.remove(JOB_ID) =~= later.logs.remove(JOB_ID));
}

/// The log of the job tells the run: the lines of its outcomes, in their order, and
/// nothing else. Nothing of another job changes, and the temporary lines stay. The
/// wish to cancel stays until the container was stopped, and is gone from then on.
pub proof fn local_run_logs_its_story(
    image: Seq<char>,
    script: Seq<char>,
    events: Seq<LocalEvent>,
    jobs: ManagerView,
)
    requires
        LocalRunView::initial(image, script).accepts_all(events, jobs),
    ensures
        ({
            let later = LocalRunView::initial(image, script).after(events, jobs).1;
            &&& later.log(JOB_ID) == jobs.log(JOB_ID) + story(
                image,
                launched_container(events),
                events,
            )
            &&& later.logs_tmp == jobs.logs_tmp
            &&& jobs.same_but_for(JOB_ID, later)
            &&& later.local_infra_cancel_job == (jobs.local_infra_cancel_job && !saw_stopped(
                events,
            ))
        }),
    decreases events.len(),
{
    let later = LocalRunView::initial(image, script).after(events, jobs).1;
    if events.len() == 0 {
        assert(later.log(JOB_ID) =~= jobs.log(JOB_ID) + story(
            image,
            launched_container(events),
            events,
        ));
    } else {
        let before = events.drop_last();
        local_run_logs_its_story(image, script, before, jobs);
        lemma_local_state(image, script, before, jobs);
        lemma_local_state(image, script, events, jobs);
        let (run, mid) = LocalRunView::initial(image, script).after(before, jobs);
        lemma_local_step(run, events.last(), mid);
        let container = launched_container(events);
        if before.len() > 0 {
            assert(before[0] == events[0]);
        } else {
            assert(story(image, container, before) == story(
                image,
                launched_container(before),
                before,
            ));
        }
        assert(later.log(JOB_ID) =~= jobs.log(JOB_ID) + story(image, container, events));
        if saw_stopped(before) {
            let i = choose|i: int| 0 <= i < before.len() && #[trigger] tells_stopped(before[i]);
            assert(tells_stopped(events[i]));
        }
        if saw_stopped(events) {
            let i = choose|i: int| 0 <= i < events.len() && #[trigger] tells_stopped(events[i]);
            if i < before.len() {
                assert(tells_stopped(before[i]));
            }
        }
        if tells_stopped(events.last()) {
            assert(tells_stopped(events[events.len() - 1]));
        }
    }
}

/// Once its container is launched, the job is registered, and stays so.
pub proof fn local_run_registers_the_job(
    image: Seq<char>,
    script: Seq<char>,
    events: Seq<LocalEvent>,
    jobs: ManagerView,
)
    requires
        LocalRunView::initial(image, script).accepts_all(events, jobs),
        events.len() > 0,
        events[0] matches LocalEvent::Launched(Ok(_)),
    ensures
        LocalRunView::initial(image, script).after(events, jobs).1.jobs == jobs.jobs.insert(
            JOB_ID,
            JobView { id: JOB_ID, infra: InfraView::Local },
        ),
    decreases events.len(),
{
    let before = events.drop_last();
    lemma_local_state(image, script, before, jobs);
    if before.len() > 0 {
        assert(before[0] == events[0]);
        local_run_registers_the_job(image, script, before, jobs);
    }
}

/// A run is over when it says so, and only then.
pub proof fn local_run_ends_when_it_says(run: LocalRunView, event: LocalEvent, jobs: ManagerView)
    requires
        run.accepts(event),
    ensures
        run.next(event, jobs).1 is Finish <==> run.next(event, jobs).0.phase
            == LocalPhase::Finished,
        run.next(event, jobs).1 is Finish ==> forall|later: LocalEvent|
            !#[trigger] run.next(event, jobs).0.accepts(later),
{
}

} // verus!
