//! What the page does, told by what is selected, what it is handed and what it answers.
use vstd::prelude::*;

use crate::job::{Infra, Job, Manager};
use crate::page::{
    action, after_client, after_dockerfile, after_params, render, report_end, Background, PageStep,
    PodSettings, Project, Store,
};

verus! {

/// Launching is refused if and only if a job is registered, or no project, no registry or
/// no pod is selected, or the pod is a server, or the pod is this machine and the project
/// has no settings for it. Nothing else counts, such as what the project has for another
/// pod. The first of these is what the refusal tells, and a refusal changes nothing.
pub proof fn launching_is_refused_for_these_reasons(
    store: &Store,
    jobs: &mut Manager,
    r: Result<PageStep, String>,
)
    requires
        call_ensures(action, (store, jobs), r),
    ensures
        r is Err <==> {
            ||| old(jobs)@.jobs.contains_key(0)
            ||| store.project is None
            ||| !store.registry_selected
            ||| store.pod is None
            ||| store.pod == Some(PodSettings::SakuraInternetServer)
            ||| store.pod == Some(PodSettings::Local) && store.project->0.infra_local is None
        },
        r is Err ==> final(jobs)@ == old(jobs)@,
        r matches Err(e) ==> e@ == if old(jobs)@.jobs.contains_key(0) {
            "current job already running"@
        } else if store.project is None {
            "no selected project"@
        } else if !store.registry_selected {
            "no registry selected"@
        } else if store.pod is None {
            "no pod selected"@
        } else if store.pod == Some(PodSettings::Local) {
            "no settings for local servers"@
        } else {
            "not DOK service"@
        },
{
}

/// What is launched goes to the selected pod: on this machine with just the image and the
/// script of the project's settings, and without a note; on either service with one note
/// of where the job is sent. No job is registered yet.
pub proof fn launching_goes_to_the_selected_pod(
    store: &Store,
    jobs: &mut Manager,
    r: Result<PageStep, String>,
)
    requires
        call_ensures(action, (store, jobs), r),
        r is Ok,
    ensures
        match store.pod {
            Some(PodSettings::Local) => {
                &&& r matches Ok(PageStep::SpawnLocal(settings))
                &&& store.project matches Some(project)
                &&& project.infra_local matches Some(own)
                &&& settings.docker_image@ == own.docker_image@
                &&& settings.script@ == own.script@
                &&& final(jobs)@ == old(jobs)@
            },
            Some(PodSettings::SakuraInternetService) => {
                &&& r matches Ok(PageStep::ReadParams)
                &&& final(jobs)@.log(0) == old(jobs)@.log(0).push(
                    "send the job Sakura Internet DOK service ..."@,
                )
            },
            Some(PodSettings::RustClient) => {
                &&& r matches Ok(PageStep::SpawnRustClient)
                &&& final(jobs)@.log(0) == old(jobs)@.log(0).push(
                    "send the job to Rust Client service ..."@,
                )
            },
            _ => false,
        },
        final(jobs)@.logs.remove(0) == old(jobs)@.logs.remove(0),
        final(jobs)@.jobs == old(jobs)@.jobs,
        final(jobs)@.logs_tmp == old(jobs)@.logs_tmp,
        final(jobs)@.local_infra_cancel_job == old(jobs)@.local_infra_cancel_job,
{
    assert(final(jobs)@.logs.remove(0) =~= old(jobs)@.logs.remove(0));
}

/// On the way to the DOK service: a Dockerfile is looked for if and only if the image is
/// to be built and the project has settings for the service. Whether an image is built
/// stays as the parameters told it. Each failure is told by its own message.
pub proof fn way_to_the_service_is_as_told(
    project: &Project,
    params: Result<bool, String>,
    p: Result<PageStep, String>,
    found: bool,
    d: Result<PageStep, String>,
    with_build: bool,
    client: Result<(), String>,
    c: Result<PageStep, String>,
)
    requires
        call_ensures(after_params, (project, params), p),
        call_ensures(after_dockerfile, (found,), d),
        call_ensures(after_client, (with_build, client), c),
    ensures
        params matches Err(e) ==> p is Err && p->Err_0@ == e@,
        params matches Ok(build) ==> if build && project.has_dok {
            p matches Ok(PageStep::CheckDockerfile)
        } else {
            p matches Ok(PageStep::CreateClient { with_build: b }) && b == build
        },
        found ==> (d matches Ok(PageStep::CreateClient { with_build: b }) && b),
        !found ==> d is Err && d->Err_0@
            == "using DOK service with self built docker image requires a Dockerfile under the project folder"@,
        client matches Err(e) ==> c is Err && c->Err_0@ == e@,
        client is Ok ==> (c matches Ok(PageStep::SpawnDok { with_build: b }) && b == with_build),
{
}

/// What ran in the background and ended well leaves no note; what failed leaves one, which
/// tells what it was and why. Nothing else changes.
pub proof fn failure_in_the_background_is_noted(
    what: Background,
    result: Result<(), String>,
    jobs: &mut Manager,
    r: (),
)
    requires
        call_ensures(report_end, (what, result, jobs), r),
    ensures
        result is Ok ==> final(jobs)@ == old(jobs)@,
        result matches Err(e) ==> final(jobs)@.log(0) == old(jobs)@.log(0).push(
            match what {
                Background::LocalRun => "run job error: "@ + e@,
                Background::DokRun => "[Local infra] job 0 exits with error "@ + e@,
                Background::ClientMaking => "Failed to create RustClient: "@ + e@,
                Background::RemoteRun => "RustClient job failed: "@ + e@,
            },
        ),
        final(jobs)@.logs.remove(0) == old(jobs)@.logs.remove(0),
        final(jobs)@.jobs == old(jobs)@.jobs,
        final(jobs)@.logs_tmp == old(jobs)@.logs_tmp,
        final(jobs)@.local_infra_cancel_job == old(jobs)@.local_infra_cancel_job,
{
    assert(final(jobs)@.logs.remove(0) =~= old(jobs)@.logs.remove(0));
}

/// The page shows each line of the job's log, in their order, and below them the temporary
/// line, where there is one, and nothing else.
pub proof fn page_shows_the_log(jobs: &Manager, r: Vec<String>)
    requires
        call_ensures(render, (jobs,), r),
    ensures
        ({
            let log = if jobs.logs@.contains_key(0) {
                jobs.logs@[0]@
            } else {
                Seq::empty()
            };
            &&& r@.len() == log.len() + if jobs.logs_tmp@.contains_key(0) {
                1nat
            } else {
                0
            }
            &&& forall|i: int| 0 <= i < log.len() ==> (#[trigger] r@[i])@ == log[i]@
            &&& jobs.logs_tmp@.contains_key(0) ==> r@.last()@ == jobs.logs_tmp@[0]@
        }),
{
    let shown = crate::text::texts(r@);
    assert(shown == jobs@.shown(0));
    assert(shown.len() == r@.len());
    assert forall|i: int| 0 <= i < r@.len() implies (#[trigger] r@[i])@ == shown[i] by {}
    if jobs.logs@.contains_key(0) {
        assert(jobs@.logs[0] == crate::text::texts(jobs.logs@[0]@));
    }
    if jobs.logs_tmp@.contains_key(0) {
        assert(jobs@.logs_tmp[0] == jobs.logs_tmp@[0]@);
        assert(r@.last()@ == shown.last());
    }
}

/// The model of the jobs holds what they hold.
pub proof fn jobs_are_what_they_say(m: Manager, id: usize)
    ensures
        m@.jobs.contains_key(id) <==> m.jobs@.contains_key(id),
        m@.logs.contains_key(id) <==> m.logs@.contains_key(id),
        m@.logs_tmp.contains_key(id) <==> m.logs_tmp@.contains_key(id),
        m@.local_infra_cancel_job == m.local_infra_cancel_job,
        m.jobs@.contains_key(id) ==> {
            &&& m@.jobs[id].id == m.jobs@[id].id
            &&& match (m.jobs@[id].infra, m@.jobs[id].infra) {
                (Infra::Local, crate::job::InfraView::Local) => true,
                (
                    Infra::SakuraInternetDOK(task, uri),
                    crate::job::InfraView::SakuraInternetDOK(t, u),
                ) => {
                    &&& t == task@
                    &&& u is Some <==> uri is Some
                    &&& uri matches Some(address) ==> u == Some(address@)
                },
                (Infra::RustClient(job, url), crate::job::InfraView::RustClient(j, u)) => j == job@
                    && u == url@,
                _ => false,
            }
        },
        m.logs@.contains_key(id) ==> {
            &&& m@.log(id).len() == m.logs@[id]@.len()
            &&& forall|i: int|
                0 <= i < m@.log(id).len() ==> #[trigger] m@.log(id)[i] == m.logs@[id]@[i]@
        },
        !m.logs@.contains_key(id) ==> m@.log(id).len() == 0,
        m.logs_tmp@.contains_key(id) ==> m@.logs_tmp[id] == m.logs_tmp@[id]@,
{
    if m.logs@.contains_key(id) {
        assert(m@.logs[id] == crate::text::texts(m.logs@[id]@));
    }
}

/// A new set of jobs holds nothing, and a job is there once it was put there, under its
/// own id.
pub proof fn jobs_are_found_under_their_ids(
    empty: Manager,
    m: &mut Manager,
    job: Job,
    r: (),
    id: usize,
    found: bool,
)
    requires
        call_ensures(Manager::new, (), empty),
        call_ensures(Manager::insert_job, (m, job), r),
        call_ensures(Manager::has_job, (&*final(m), id), found),
    ensures
        !empty@.jobs.contains_key(id),
        empty@.log(id).len() == 0,
        !empty@.logs_tmp.contains_key(id),
        !empty@.local_infra_cancel_job,
        found <==> id == job.id || old(m)@.jobs.contains_key(id),
        final(m)@.jobs[job.id] == job@,
        id != job.id && found ==> final(m)@.jobs[id] == old(m)@.jobs[id],
        final(m)@.logs == old(m)@.logs,
        final(m)@.logs_tmp == old(m)@.logs_tmp,
        final(m)@.local_infra_cancel_job == old(m)@.local_infra_cancel_job,
{
}

/// A line goes to the end of the log of its job, and to no other.
pub proof fn line_goes_to_the_end_of_its_log(
    m: &mut Manager,
    id: usize,
    line: String,
    r: (),
    other: usize,
)
    requires
        call_ensures(Manager::add_log, (m, id, line), r),
    ensures
        final(m)@.log(id) == old(m)@.log(id).push(line@),
        other != id ==> final(m)@.log(other) == old(m)@.log(other),
        final(m)@.logs.contains_key(other) <==> other == id || old(m)@.logs.contains_key(other),
        final(m)@.jobs == old(m)@.jobs,
        final(m)@.logs_tmp == old(m)@.logs_tmp,
        final(m)@.local_infra_cancel_job == old(m)@.local_infra_cancel_job,
{
}

/// A temporary line takes the place of the one before.
pub proof fn temporary_line_is_replaced(
    m: &mut Manager,
    id: usize,
    line: String,
    r: (),
    other: usize,
)
    requires
        call_ensures(Manager::add_log_tmp, (m, id, line), r),
    ensures
        final(m)@.logs_tmp.contains_key(id),
        final(m)@.logs_tmp[id] == line@,
        other != id ==> {
            &&& final(m)@.logs_tmp.contains_key(other) <==> old(m)@.logs_tmp.contains_key(other)
            &&& final(m)@.logs_tmp[other] == old(m)@.logs_tmp[other]
        },
        final(m)@.logs == old(m)@.logs,
        final(m)@.jobs == old(m)@.jobs,
        final(m)@.local_infra_cancel_job == old(m)@.local_infra_cancel_job,
{
}

/// Taking the temporary line of a job away leaves none, and all other lines.
pub proof fn temporary_line_is_taken_away(m: &mut Manager, id: &usize, r: (), other: usize)
    requires
        call_ensures(Manager::clear_log_tmp, (m, id), r),
    ensures
        !final(m)@.logs_tmp.contains_key(*id),
        other != *id ==> {
            &&& final(m)@.logs_tmp.contains_key(other) <==> old(m)@.logs_tmp.contains_key(other)
            &&& old(m)@.logs_tmp.contains_key(other) ==> final(m)@.logs_tmp[other]
                == old(m)@.logs_tmp[other]
        },
        final(m)@.logs == old(m)@.logs,
        final(m)@.jobs == old(m)@.jobs,
        final(m)@.local_infra_cancel_job == old(m)@.local_infra_cancel_job,
{
}

/// Where a job runs can be set of a job that is there, and makes no job.
pub proof fn place_is_set_of_a_job_that_is_there(
    m: &mut Manager,
    id: usize,
    infra: Infra,
    r: (),
    other: usize,
)
    requires
        call_ensures(Manager::set_infra, (m, id, infra), r),
    ensures
        final(m)@.jobs.contains_key(other) <==> old(m)@.jobs.contains_key(other),
        old(m)@.jobs.contains_key(id) ==> {
            &&& final(m)@.jobs[id].infra == infra@
            &&& final(m)@.jobs[id].id == old(m)@.jobs[id].id
        },
        other != id && old(m)@.jobs.contains_key(other) ==> final(m)@.jobs[other]
            == old(m)@.jobs[other],
        final(m)@.logs == old(m)@.logs,
        final(m)@.logs_tmp == old(m)@.logs_tmp,
        final(m)@.local_infra_cancel_job == old(m)@.local_infra_cancel_job,
{
}

} // verus!
