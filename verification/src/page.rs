//! The page that launches a job and shows its log.
use vstd::prelude::*;

use crate::dok::{DokEvent, DokRunView, dok_run_keeps_the_jobs, saw_created};
use crate::job::{Manager, ManagerView, JOB_ID};
use crate::local::{LocalEvent, LocalRunView, LocalSettings, local_run_registers_the_job};
use crate::remote::{RemoteEvent, RemoteRunView};
use crate::remote_laws::remote_run_keeps_the_jobs;
use crate::text::{join2, texts};

verus! {

/// What the page can do.
pub const HELPER: [&'static str; 1] = ["Launch a job"];

/// What kind of pod is selected.
#[derive(Debug, Clone, Copy, PartialEq, Eq, Structural)]
pub enum PodSettings {
    Local,
    SakuraInternetServer,
    SakuraInternetService,
    RustClient,
}

/// The settings of the selected project, as far as launching reads them.
#[derive(Debug)]
pub struct Project {
    /// How it runs on this machine.
    pub infra_local: Option<LocalSettings>,
    /// Whether it has settings for the DOK service.
    pub has_dok: bool,
}

/// What is selected.
#[derive(Debug)]
pub struct Store {
    pub project: Option<Project>,
    pub registry_selected: bool,
    pub pod: Option<PodSettings>,
}

/// What launching asks for next.
#[derive(Debug)]
pub enum PageStep {
    /// Run the job on this machine, in the background.
    SpawnLocal(LocalSettings),
    /// Run the job as a task of the DOK service, in the background.
    SpawnDok { with_build: bool },
    /// Run the job on the computing service, in the background.
    SpawnRustClient,
    /// Work out the parameters of the task: they tell whether an image is to be built.
    ReadParams,
    /// Look for a Dockerfile in the project's directory.
    CheckDockerfile,
    /// Make the client of the DOK service.
    CreateClient { with_build: bool },
}

/// The model of `PageStep`.
pub enum PageStepView {
    SpawnLocal { image: Seq<char>, script: Seq<char> },
    SpawnDok { with_build: bool },
    SpawnRustClient,
    ReadParams,
    CheckDockerfile,
    CreateClient { with_build: bool },
}

impl View for PageStep {
    type V = PageStepView;

    open spec fn view(&self) -> PageStepView {
        match *self {
            PageStep::SpawnLocal(settings) => PageStepView::SpawnLocal {
                image: settings.docker_image@,
                script: settings.script@,
            },
            PageStep::SpawnDok { with_build } => PageStepView::SpawnDok { with_build },
            PageStep::SpawnRustClient => PageStepView::SpawnRustClient,
            PageStep::ReadParams => PageStepView::ReadParams,
            PageStep::CheckDockerfile => PageStepView::CheckDockerfile,
            PageStep::CreateClient { with_build } => PageStepView::CreateClient { with_build },
        }
    }
}

/// The model of a step or a refusal.
pub open spec fn step_view(r: Result<PageStep, String>) -> Result<PageStepView, Seq<char>> {
    match r {
        Ok(step) => Ok(step@),
        Err(e) => Err(e@),
    }
}

/// What the page answers to the wish to launch a job, and what it notes.
pub open spec fn action_of(store: Store, jobs: ManagerView) -> (
    Result<PageStepView, Seq<char>>,
    ManagerView,
) {
    if jobs.jobs.contains_key(JOB_ID) {
        (Err("current job already running"@), jobs)
    } else if store.project is None {
        (Err("no selected project"@), jobs)
    } else if !store.registry_selected {
        (Err("no registry selected"@), jobs)
    } else {
        match store.pod {
            None => (Err("no pod selected"@), jobs),
            Some(PodSettings::Local) => match store.project->0.infra_local {
                None => (Err("no settings for local servers"@), jobs),
                Some(settings) => (
                    Ok(
                        PageStepView::SpawnLocal {
                            image: settings.docker_image@,
                            script: settings.script@,
                        },
                    ),
                    jobs,
                ),
            },
            Some(PodSettings::SakuraInternetServer) => (Err("not DOK service"@), jobs),
            Some(PodSettings::SakuraInternetService) => (
                Ok(PageStepView::ReadParams),
                jobs.add_log(JOB_ID, "send the job Sakura Internet DOK service ..."@),
            ),
            Some(PodSettings::RustClient) => (
                Ok(PageStepView::SpawnRustClient),
                jobs.add_log(JOB_ID, "send the job to Rust Client service ..."@),
            ),
        }
    }
}

/// Launches a job on what is selected, or refuses to.
pub fn action(store: &Store, jobs: &mut Manager) -> (r: Result<PageStep, String>)
    ensures
        (step_view(r), final(jobs)@) == action_of(*store, old(jobs)@),
{
    if jobs.has_job(JOB_ID) {
        return Err("current job already running".to_string());
    }
    let project = match &store.project {
        Some(project) => project,
        None => {
            return Err("no selected project".to_string());
        },
    };
    if !store.registry_selected {
        return Err("no registry selected".to_string());
    }
    match store.pod {
        None => Err("no pod selected".to_string()),
        Some(PodSettings::Local) => match &project.infra_local {
            None => Err("no settings for local servers".to_string()),
            Some(settings) => Ok(
                PageStep::SpawnLocal(
                    LocalSettings {
                        docker_image: settings.docker_image.clone(),
                        script: settings.script.clone(),
                    },
                ),
            ),
        },
        Some(PodSettings::SakuraInternetServer) => Err("not DOK service".to_string()),
        Some(PodSettings::SakuraInternetService) => {
            jobs.add_log(JOB_ID, "send the job Sakura Internet DOK service ...".to_string());
            Ok(PageStep::ReadParams)
        },
        Some(PodSettings::RustClient) => {
            jobs.add_log(JOB_ID, "send the job to Rust Client service ...".to_string());
            Ok(PageStep::SpawnRustClient)
        },
    }
}

/// What follows on the parameters of a task. A project with settings for the service
/// whose image is to be built needs a Dockerfile.
pub open spec fn params_step(has_dok: bool, params: Result<bool, String>) -> Result<
    PageStepView,
    Seq<char>,
> {
    match params {
        Ok(with_build) => if has_dok && with_build {
            Ok(PageStepView::CheckDockerfile)
        } else {
            Ok(PageStepView::CreateClient { with_build })
        },
        Err(e) => Err(e@),
    }
}

/// What follows on the look for a Dockerfile.
pub open spec fn dockerfile_step(found: bool) -> Result<PageStepView, Seq<char>> {
    if found {
        Ok(PageStepView::CreateClient { with_build: true })
    } else {
        Err(
            "using DOK service with self built docker image requires a Dockerfile under the project folder"@,
        )
    }
}

/// What follows on the wish for a client of the service.
pub open spec fn client_step(with_build: bool, client: Result<(), String>) -> Result<
    PageStepView,
    Seq<char>,
> {
    match client {
        Ok(()) => Ok(PageStepView::SpawnDok { with_build }),
        Err(e) => Err(e@),
    }
}

/// Goes on with the parameters of a task.
pub fn after_params(project: &Project, params: Result<bool, String>) -> (r: Result<
    PageStep,
    String,
>)
    ensures
        step_view(r) == params_step(project.has_dok, params),
{
    match params {
        Ok(with_build) => {
            if project.has_dok && with_build {
                Ok(PageStep::CheckDockerfile)
            } else {
                Ok(PageStep::CreateClient { with_build })
            }
        },
        Err(e) => Err(e),
    }
}

/// Goes on with the look for a Dockerfile.
pub fn after_dockerfile(found: bool) -> (r: Result<PageStep, String>)
    ensures
        step_view(r) == dockerfile_step(found),
{
    if found {
        Ok(PageStep::CreateClient { with_build: true })
    } else {
        Err(
            "using DOK service with self built docker image requires a Dockerfile under the project folder".to_string(),
        )
    }
}

/// Goes on with the client of the service.
pub fn after_client(with_build: bool, client: Result<(), String>) -> (r: Result<PageStep, String>)
    ensures
        step_view(r) == client_step(with_build, client),
{
    match client {
        Ok(()) => Ok(PageStep::SpawnDok { with_build }),
        Err(e) => Err(e),
    }
}

/// What ran in the background.
#[derive(Debug, Clone, Copy, PartialEq, Eq, Structural)]
pub enum Background {
    LocalRun,
    DokRun,
    /// Making the client of the computing service.
    ClientMaking,
    RemoteRun,
}

/// The line that tells that it failed.
pub open spec fn failure_line(what: Background, e: Seq<char>) -> Seq<char> {
    match what {
        Background::LocalRun => "run job error: "@ + e,
        Background::DokRun => "[Local infra] job 0 exits with error "@ + e,
        Background::ClientMaking => "Failed to create RustClient: "@ + e,
        Background::RemoteRun => "RustClient job failed: "@ + e,
    }
}

/// Notes how it ended: a failure in the log, success not at all.
pub fn report_end(what: Background, result: Result<(), String>, jobs: &mut Manager)
    ensures
        final(jobs)@ == match result {
            Ok(()) => old(jobs)@,
            Err(e) => old(jobs)@.add_log(JOB_ID, failure_line(what, e@)),
        },
{
    match result {
        Ok(()) => {},
        Err(e) => {
            let line = match what {
                Background::LocalRun => join2("run job error: ", e.as_str()),
                Background::DokRun => join2("[Local infra] job 0 exits with error ", e.as_str()),
                Background::ClientMaking => join2("Failed to create RustClient: ", e.as_str()),
                Background::RemoteRun => join2("RustClient job failed: ", e.as_str()),
            };
            jobs.add_log(JOB_ID, line);
        },
    }
}

/// The lines that the page shows: the log of the job, then the temporary line.
pub fn render(jobs: &Manager) -> (r: Vec<String>)
    ensures
        texts(r@) == jobs@.shown(JOB_ID),
{
    broadcast use vstd::std_specs::hash::group_hash_axioms;

    let mut lines: Vec<String> = Vec::new();
    assert(texts(lines@) =~= Seq::<Seq<char>>::empty());
    if let Some(log) = jobs.logs.get(&JOB_ID) {
        let mut i: usize = 0;
        while i < log.len()
            invariant
                i <= log.len(),
                texts(lines@) == texts(log@).take(i as int),
            decreases log.len() - i,
        {
            let ghost so_far = lines@;
            let line = log[i].clone();
            lines.push(line);
            assert(texts(lines@) =~= texts(so_far).push(line@));
            i = i + 1;
            assert(texts(lines@) =~= texts(log@).take(i as int));
        }
        assert(texts(log@).take(i as int) =~= texts(log@));
    }
    assert(texts(lines@) == jobs@.log(JOB_ID));
    if let Some(line) = jobs.logs_tmp.get(&JOB_ID) {
        let ghost so_far = lines@;
        let line = line.clone();
        lines.push(line);
        assert(texts(lines@) =~= texts(so_far).push(line@));
    }
    lines
}

/// A refusal for what is selected, or for a job that is registered, leaves no trace.
pub proof fn refusal_changes_nothing(store: Store, jobs: ManagerView)
    requires
        action_of(store, jobs).0 is Err,
    ensures
        action_of(store, jobs).1 == jobs,
{
}

/// While a job is registered no other is launched.
pub proof fn one_job_at_a_time(store: Store, jobs: ManagerView)
    requires
        jobs.jobs.contains_key(JOB_ID),
    ensures
        action_of(store, jobs) == (
            Err::<PageStepView, Seq<char>>("current job already running"@),
            jobs,
        ),
{
}

/// The way to a task of the DOK service, given the outcome of each thing it may ask
/// for.
pub open spec fn dok_way(
    has_dok: bool,
    params: Result<bool, String>,
    found: bool,
    client: Result<(), String>,
) -> Result<PageStepView, Seq<char>> {
    let step = match params_step(has_dok, params) {
        Ok(PageStepView::CheckDockerfile) => dockerfile_step(found),
        step => step,
    };
    match step {
        Ok(PageStepView::CreateClient { with_build }) => client_step(with_build, client),
        step => step,
    }
}

/// What the page answers in the end to the wish to launch a job, and what it has
/// noted by then, given the outcome of each thing that the way to the DOK service may
/// ask for.
pub open spec fn launch_of(
    store: Store,
    jobs: ManagerView,
    params: Result<bool, String>,
    found: bool,
    client: Result<(), String>,
) -> (Result<PageStepView, Seq<char>>, ManagerView) {
    let (step, noted) = action_of(store, jobs);
    match step {
        Ok(PageStepView::ReadParams) => (
            dok_way(store.project->0.has_dok, params, found, client),
            noted,
        ),
        step => (step, noted),
    }
}

/// A refusal registers no job. It leaves no trace but on the way to the DOK service,
/// where the log has gained the one line that tells where the job was to be sent.
pub proof fn refusal_registers_no_job(
    store: Store,
    jobs: ManagerView,
    params: Result<bool, String>,
    found: bool,
    client: Result<(), String>,
)
    requires
        launch_of(store, jobs, params, found, client).0 is Err,
    ensures
        ({
            let later = launch_of(store, jobs, params, found, client).1;
            &&& later.jobs == jobs.jobs
            &&& action_of(store, jobs).0 is Err ==> later == jobs
            &&& action_of(store, jobs).0 is Ok ==> {
                &&& store.pod == Some(PodSettings::SakuraInternetService)
                &&& later == jobs.add_log(
                    JOB_ID,
                    "send the job Sakura Internet DOK service ..."@,
                )
                &&& later.log(JOB_ID) == jobs.log(JOB_ID).push(
                    "send the job Sakura Internet DOK service ..."@,
                )
            }
        }),
{
}

/// A task of the DOK service is launched if and only if its parameters could be worked
/// out, a Dockerfile is there where the project has settings for the service and its
/// image is to be built, and the client could be made. It builds an image just where
/// the parameters say so.
pub proof fn built_image_needs_a_dockerfile(
    has_dok: bool,
    params: Result<bool, String>,
    found: bool,
    client: Result<(), String>,
)
    ensures
        match dok_way(has_dok, params, found, client) {
            Ok(step) => {
                &&& params matches Ok(with_build)
                &&& has_dok && with_build ==> found
                &&& client is Ok
                &&& step == PageStepView::SpawnDok { with_build }
            },
            Err(_) => {
                ||| params is Err
                ||| has_dok && params->Ok_0 && !found
                ||| client is Err
            },
        },
{
}

/// From the launch of its container on, also past its end, a local run blocks every
/// other launch.
pub proof fn local_run_blocks_launching(
    image: Seq<char>,
    script: Seq<char>,
    events: Seq<LocalEvent>,
    jobs: ManagerView,
    store: Store,
)
    requires
        LocalRunView::initial(image, script).accepts_all(events, jobs),
        events.len() > 0,
        events[0] matches LocalEvent::Launched(Ok(_)),
    ensures
        action_of(store, LocalRunView::initial(image, script).after(events, jobs).1).0 == Err::<
            PageStepView,
            Seq<char>,
        >("current job already running"@),
{
    local_run_registers_the_job(image, script, events, jobs);
}

/// From the creation of its task on, also past its end, a run on the DOK service
/// blocks every other launch.
pub proof fn dok_run_blocks_launching(
    with_build: bool,
    events: Seq<DokEvent>,
    jobs: ManagerView,
    store: Store,
)
    requires
        DokRunView::initial(with_build).accepts_all(events, jobs),
        saw_created(events),
    ensures
        action_of(store, DokRunView::initial(with_build).after(events, jobs).1).0 == Err::<
            PageStepView,
            Seq<char>,
        >("current job already running"@),
{
    dok_run_keeps_the_jobs(with_build, events, jobs);
}

/// Once the project's name is known, and also past its end, a run on the computing
/// service blocks every other launch.
pub proof fn remote_run_blocks_launching(
    url: Seq<char>,
    base_dir: Seq<char>,
    events: Seq<RemoteEvent>,
    jobs: ManagerView,
    store: Store,
)
    requires
        RemoteRunView::initial(url, base_dir).accepts_all(events, jobs),
        events.len() > 0,
        events[0] matches RemoteEvent::ProjectNamed(Ok(_)),
    ensures
        action_of(store, RemoteRunView::initial(url, base_dir).after(events, jobs).1).0 == Err::<
            PageStepView,
            Seq<char>,
        >("current job already running"@),
{
    remote_run_keeps_the_jobs(url, base_dir, events, jobs);
}

/// What is noted is shown: a new line of the log below the older ones, the temporary
/// line below all of them until it is replaced or taken away.
pub proof fn notes_are_shown(jobs: ManagerView, line: Seq<char>, other: Seq<char>)
    ensures
        jobs.clear_log_tmp(JOB_ID).shown(JOB_ID) == jobs.log(JOB_ID),
        jobs.clear_log_tmp(JOB_ID).add_log(JOB_ID, line).shown(JOB_ID) == jobs.log(JOB_ID).push(
            line,
        ),
        jobs.add_log_tmp(JOB_ID, line).shown(JOB_ID) == jobs.log(JOB_ID).push(line),
        jobs.add_log_tmp(JOB_ID, other).add_log_tmp(JOB_ID, line).shown(JOB_ID) == jobs.log(
            JOB_ID,
        ).push(line),
        jobs.add_log_tmp(JOB_ID, other).add_log(JOB_ID, line).shown(JOB_ID) == jobs.log(
            JOB_ID,
        ).push(line).push(other),
{
}

} // verus!
