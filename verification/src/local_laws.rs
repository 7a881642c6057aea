//! What holds of every run in a container on this machine, told by the outcomes alone.
use vstd::prelude::*;

use crate::job::{InfraView, JobView, ManagerView};
use crate::local::{
    launch_job_local, launched_container, lemma_local_state, lemma_local_step, LocalAction,
    LocalActionView, LocalEvent, LocalRun, LocalRunView, LocalSettings,
};
use crate::text::texts;

verus! {

/// A run begins with its container: it is started from the image of the settings, with
/// the project's directory bound to the working directory, and nothing but the outcome
/// of that is taken.
pub proof fn local_run_starts_a_container(
    proj_dir: &str,
    settings: LocalSettings,
    r: (LocalRun, LocalAction),
    event: LocalEvent,
)
    requires
        call_ensures(launch_job_local, (proj_dir, settings), r),
    ensures
        ({
            &&& r.1 matches LocalAction::LaunchContainer { image, volume_binds }
            &&& image@ == settings.docker_image@
            &&& volume_binds@.len() == 1
            &&& volume_binds@[0]@ == proj_dir@ + ":"@ + "/workspace"@
        }),
        r.0@ == LocalRunView::initial(settings.docker_image@, settings.script@),
        r.0@.accepts(event) <==> event is Launched,
{
    let binds = seq![proj_dir@ + ":"@ + "/workspace"@];
    if let LocalAction::LaunchContainer { image, volume_binds } = r.1 {
        assert(texts(volume_binds@) == binds);
        assert(texts(volume_binds@).len() == 1);
        assert(texts(volume_binds@)[0] == volume_binds@[0]@);
    }
}

/// The run takes the outcome of the action that it asked for last, and no other.
pub proof fn local_run_takes_what_it_asked_for(
    image: Seq<char>,
    script: Seq<char>,
    events: Seq<LocalEvent>,
    jobs: ManagerView,
    event: LocalEvent,
)
    requires
        events.len() > 0,
        LocalRunView::initial(image, script).accepts_all(events, jobs),
    ensures
        LocalRunView::initial(image, script).after(events, jobs).0.accepts(event)
            <==> match LocalRunView::initial(image, script).asked(events, jobs) {
            LocalAction::LaunchContainer { .. } => event is Launched,
            LocalAction::CreateExec { .. } => event is ExecCreated,
            LocalAction::StartExec { .. } => event is ExecStarted,
            LocalAction::ReadCancel => event is CancelRead,
            LocalAction::StopContainer { .. } => event is Stopped,
            LocalAction::Sleep { .. } => event is Slept,
            LocalAction::ReadOutput => event is OutputRead,
            LocalAction::RemoveContainer { .. } => event is Removed,
            LocalAction::Finish(_) => false,
        },
{
}

/// The script of the settings runs in the container that was launched, by a shell in
/// the working directory, with its output and its errors attached.
pub proof fn local_run_runs_the_script(
    image: Seq<char>,
    script: Seq<char>,
    events: Seq<LocalEvent>,
    jobs: ManagerView,
)
    requires
        events.len() > 0,
        LocalRunView::initial(image, script).accepts_all(events, jobs),
    ensures
        events.last() matches LocalEvent::Launched(Ok(id)) ==> {
            &&& LocalRunView::initial(image, script).asked(
                events,
                jobs,
            ) matches LocalAction::CreateExec {
                container,
                cmd,
                working_dir,
                attach_stdout,
                attach_stderr,
            }
            &&& container == id@
            &&& cmd.len() == 2 && cmd[0] == "sh"@ && cmd[1] == script
            &&& working_dir == "/workspace"@
            &&& attach_stdout && attach_stderr
        },
        events.last() matches LocalEvent::ExecCreated(Ok(id)) ==> LocalRunView::initial(
            image,
            script,
        ).asked(events, jobs) == (LocalActionView::StartExec { exec_id: id@ }),
{
    lemma_local_state(image, script, events.drop_last(), jobs);
}

/// While the script runs, each round looks for the wish to cancel, waits a second and
/// takes one piece of output, whatever came of the last one: the wish is looked for
/// after every look at the output, also where the output is over or cannot be read.
/// The container is stopped if and only if the job to be cancelled is this one.
pub proof fn local_run_watches_for_the_wish(
    image: Seq<char>,
    script: Seq<char>,
    events: Seq<LocalEvent>,
    jobs: ManagerView,
)
    requires
        events.len() > 0,
        LocalRunView::initial(image, script).accepts_all(events, jobs),
    ensures
        ({
            let asked = LocalRunView::initial(image, script).asked(events, jobs);
            &&& asked is ReadCancel <==> (events.last() is OutputRead
                || events.last() matches LocalEvent::ExecStarted(Ok(_)))
            &&& asked is Sleep <==> (events.last() matches LocalEvent::CancelRead(cancel) && cancel
                != Some(0usize))
            &&& asked matches LocalAction::Sleep { secs } ==> secs == 1
            &&& asked is ReadOutput <==> events.last() is Slept
            &&& asked is StopContainer <==> events.last() == LocalEvent::CancelRead(Some(0usize))
            &&& asked matches LocalAction::StopContainer { container, signal, timeout_secs } ==> {
                &&& events[0] matches LocalEvent::Launched(Ok(id))
                &&& container == id@
                &&& signal == "SIGINT"@
                &&& timeout_secs == 3
            }
        }),
{
    lemma_local_state(image, script, events.drop_last(), jobs);
    if events.len() > 1 {
        assert(events.drop_last()[0] == events[0]);
    }
}

/// A stopped container is removed, by force, and the run ends well once it is. Every
/// failure ends the run at once with its message.
pub proof fn local_run_ends_as_told(
    image: Seq<char>,
    script: Seq<char>,
    events: Seq<LocalEvent>,
    jobs: ManagerView,
)
    requires
        events.len() > 0,
        LocalRunView::initial(image, script).accepts_all(events, jobs),
    ensures
        ({
            let asked = LocalRunView::initial(image, script).asked(events, jobs);
            match events.last() {
                LocalEvent::Stopped(Ok(_)) => {
                    &&& asked matches LocalAction::RemoveContainer { container, force }
                    &&& events[0] matches LocalEvent::Launched(Ok(id))
                    &&& container == id@
                    &&& force
                },
                LocalEvent::Removed => asked matches LocalAction::Finish(Ok(_)),
                LocalEvent::Launched(Err(e)) => asked == LocalActionView::Finish(Err(e@)),
                LocalEvent::ExecCreated(Err(e)) => asked == LocalActionView::Finish(Err(e@)),
                LocalEvent::ExecStarted(Err(e)) => asked == LocalActionView::Finish(Err(e@)),
                LocalEvent::Stopped(Err(e)) => asked == LocalActionView::Finish(Err(e@)),
                _ => !(asked is Finish),
            }
        }),
{
    lemma_local_state(image, script, events.drop_last(), jobs);
    if events.len() > 1 {
        assert(events.drop_last()[0] == events[0]);
    }
}

/// What each outcome leaves in the jobs. The log gains a line for the image and the
/// container, for each piece of output, and for the container's stop and removal. The
/// job is registered as a local one with the launch. The wish to cancel is fulfilled by
/// the stop. Nothing else changes.
pub proof fn local_run_notes_each_outcome(
    image: Seq<char>,
    script: Seq<char>,
    events: Seq<LocalEvent>,
    jobs: ManagerView,
)
    requires
        events.len() > 0,
        LocalRunView::initial(image, script).accepts_all(events, jobs),
    ensures
        ({
            let before = LocalRunView::initial(image, script).after(events.drop_last(), jobs).1;
            let later = LocalRunView::initial(image, script).after(events, jobs).1;
            let id = launched_container(events);
            &&& later.log(0) == before.log(0) + match events.last() {
                LocalEvent::Launched(Ok(id)) => seq![
                    "[Local infra] exec job 0, status: using image "@ + image,
                    "[Local infra] exec job 0, status: container "@ + id@ + " created"@,
                ],
                LocalEvent::OutputRead(Some(Ok(message))) => seq![
                    "[Local infra] exec job 0, output: "@ + message@,
                ],
                LocalEvent::Stopped(Ok(_)) => seq![
                    "[Local infra] exec job 0, container "@ + id + " stopped"@,
                ],
                LocalEvent::Removed => seq![
                    "[Local infra] exec job 0, container "@ + id + " removed"@,
                ],
                _ => Seq::empty(),
            }
            &&& later.jobs == if events.last() matches LocalEvent::Launched(Ok(_)) {
                before.jobs.insert(0, JobView { id: 0, infra: InfraView::Local })
            } else {
                before.jobs
            }
            &&& before.logs.remove(0) == later.logs.remove(0)
            &&& later.logs_tmp == before.logs_tmp
            &&& later.local_infra_cancel_job == (before.local_infra_cancel_job && !(
            events.last() matches LocalEvent::Stopped(Ok(_))))
        }),
{
    lemma_local_state(image, script, events.drop_last(), jobs);
    lemma_local_state(image, script, events, jobs);
    let (run, mid) = LocalRunView::initial(image, script).after(events.drop_last(), jobs);
    lemma_local_step(run, events.last(), mid);
    if events.len() > 1 {
        assert(events.drop_last()[0] == events[0]);
    }
}

/// The model of an action holds what the action holds.
pub proof fn local_action_is_what_it_says(action: LocalAction)
    ensures
        match (action, action@) {
            (
                LocalAction::LaunchContainer { image, volume_binds },
                LocalAction::LaunchContainer { image: i, volume_binds: v },
            ) => {
                &&& i == image@
                &&& v.len() == volume_binds@.len()
                &&& forall|k: int| 0 <= k < v.len() ==> #[trigger] v[k] == volume_binds@[k]@
            },
            (
                LocalAction::CreateExec {
                    container,
                    cmd,
                    working_dir,
                    attach_stdout,
                    attach_stderr,
                },
                LocalAction::CreateExec {
                    container: c,
                    cmd: l,
                    working_dir: w,
                    attach_stdout: out,
                    attach_stderr: err,
                },
            ) => {
                &&& c == container@
                &&& w == working_dir@
                &&& out == attach_stdout
                &&& err == attach_stderr
                &&& l.len() == cmd@.len()
                &&& forall|k: int| 0 <= k < l.len() ==> #[trigger] l[k] == cmd@[k]@
            },
            (LocalAction::StartExec { exec_id }, LocalAction::StartExec { exec_id: e }) => e
                == exec_id@,
            (LocalAction::ReadCancel, LocalAction::ReadCancel) => true,
            (
                LocalAction::StopContainer { container, signal, timeout_secs },
                LocalAction::StopContainer { container: c, signal: s, timeout_secs: t },
            ) => c == container@ && s == signal@ && t == timeout_secs,
            (LocalAction::Sleep { secs }, LocalAction::Sleep { secs: s }) => s == secs,
            (LocalAction::ReadOutput, LocalAction::ReadOutput) => true,
            (
                LocalAction::RemoveContainer { container, force },
                LocalAction::RemoveContainer { container: c, force: f },
            ) => c == container@ && f == force,
            (LocalAction::Finish(Ok(_)), LocalAction::Finish(Ok(_))) => true,
            (LocalAction::Finish(Err(e)), LocalAction::Finish(Err(t))) => t == e@,
            _ => false,
        },
{
}

} // verus!
