//! What holds of every run on the DOK service, told by the outcomes alone.
use vstd::prelude::*;

use crate::dok::{
    dok_run_counts_misses, dok_run_keeps_the_jobs, launch_job_dok, misses, tells_created,
    DokAction, DokActionView, DokEvent, DokPhase, DokRun, DokRunView,
};
use crate::job::{InfraView, JobView, Manager, ManagerView};
use crate::text::dots_text;

verus! {

/// Which outcome of a run is that of creating the task: the first, or the third where
/// an image is built and pushed before.
pub open spec fn creation(with_build: bool) -> int {
    if with_build {
        2
    } else {
        0
    }
}

/// Whether `events` tell of the creation of task `id`.
pub open spec fn tells_task(with_build: bool, events: Seq<DokEvent>, id: Seq<char>) -> bool {
    &&& events.len() > creation(with_build)
    &&& events[creation(with_build)] matches DokEvent::Created(Ok(told))
    &&& told@ == id
}

/// The task that `events` tell the creation of.
pub open spec fn told_task(with_build: bool, events: Seq<DokEvent>) -> Seq<char> {
    match events[creation(with_build)] {
        DokEvent::Created(Ok(id)) => id@,
        _ => Seq::empty(),
    }
}

/// Whether `event` is a look at a task that finds it done.
pub open spec fn finds_done(event: DokEvent) -> bool {
    event matches DokEvent::TaskRead(Ok(task)) && task.status@ == "done"@
}

/// Whether none of `events` finds the task done.
pub open spec fn none_done(events: Seq<DokEvent>) -> bool {
    forall|i: int| 0 <= i < events.len() ==> !#[trigger] finds_done(events[i])
}

spec fn knows_done(run: DokRunView, events: Seq<DokEvent>) -> bool {
    forall|i: int|
        0 <= i < events.len() && #[trigger] finds_done(events[i]) ==> {
            &&& events[i] matches DokEvent::TaskRead(Ok(task))
            &&& run.done == task.id@
            &&& run.artifact == task.artifact_id()
        }
}

proof fn lemma_dok_origin(with_build: bool, events: Seq<DokEvent>, jobs: ManagerView)
    requires
        DokRunView::initial(with_build).accepts_all(events, jobs),
    ensures
        ({
            let run = DokRunView::initial(with_build).after(events, jobs).0;
            match run.phase {
                DokPhase::Finished => true,
                DokPhase::Building => with_build && events.len() == 0,
                DokPhase::Pushing => with_build && events.len() == 1,
                DokPhase::Creating => events.len() == creation(with_build),
                _ => {
                    &&& tells_task(with_build, events, run.created)
                    &&& !run.past_task() ==> none_done(events)
                    &&& run.past_task() ==> !none_done(events) && knows_done(run, events)
                },
            }
        }),
        ({
            let run = DokRunView::initial(with_build).after(events, jobs).0;
            events.len() <= creation(with_build) && run.phase != DokPhase::Finished ==> none_done(
                events,
            )
        }),
        forall|i: int|
            0 <= i < events.len() && (#[trigger] events[i]) is Created ==> i == creation(
                with_build,
            ),
    decreases events.len(),
{
    let start = DokRunView::initial(with_build);
    let run = start.after(events, jobs).0;
    if events.len() > 0 {
        let before = events.drop_last();
        lemma_dok_origin(with_build, before, jobs);
        let prior = start.after(before, jobs).0;
        assert forall|i: int| 0 <= i < events.len() && (#[trigger] events[i]) is Created implies i
            == creation(with_build) by {
            if i < before.len() {
                assert(before[i] == events[i]);
            }
        }
        if none_done(before) && !finds_done(events.last()) {
            assert forall|i: int| 0 <= i < events.len() implies !#[trigger] finds_done(
                events[i],
            ) by {
                if i < before.len() {
                    assert(!finds_done(before[i]));
                }
            }
        }
        if prior.past_task() && run.past_task() {
            let i = choose|i: int| 0 <= i < before.len() && #[trigger] finds_done(before[i]);
            assert(finds_done(events[i]));
            assert forall|i: int| 0 <= i < events.len() && #[trigger] finds_done(
                events[i],
            ) implies {
                &&& events[i] matches DokEvent::TaskRead(Ok(task))
                &&& run.done == task.id@
                &&& run.artifact == task.artifact_id()
            } by {
                assert(i < before.len());
                assert(finds_done(before[i]));
            }
        } else if run.past_task() {
            assert(finds_done(events[events.len() - 1]));
            assert forall|i: int| 0 <= i < events.len() && #[trigger] finds_done(
                events[i],
            ) implies {
                &&& events[i] matches DokEvent::TaskRead(Ok(task))
                &&& run.done == task.id@
                &&& run.artifact == task.artifact_id()
            } by {
                if i < before.len() {
                    assert(!finds_done(before[i]));
                }
            }
        }
    }
}

/// A run that is to build begins with the image, and notes nothing. Another begins with
/// the task, and notes first that no image is built and then that what the settings say
/// of building is not heeded.
pub proof fn dok_run_starts_as_told(
    with_build: bool,
    jobs: &mut Manager,
    r: (DokRun, DokAction),
    event: DokEvent,
)
    requires
        call_ensures(launch_job_dok, (with_build, jobs), r),
    ensures
        r.0@ == DokRunView::initial(with_build),
        r.1 is BuildImage <==> with_build,
        r.1 is CreateTask <==> !with_build,
        r.0@.accepts(event) <==> if with_build {
            event is Built
        } else {
            event is Created
        },
        final(jobs)@.log(0) == old(jobs)@.log(0) + if with_build {
            Seq::empty()
        } else {
            seq![
                "Use docker image directly, no image will be built and pushed."@,
                "All docker building parameters in @job.toml will be ignored"@,
            ]
        },
        final(jobs)@.logs.remove(0) == old(jobs)@.logs.remove(0),
        final(jobs)@.jobs == old(jobs)@.jobs,
        final(jobs)@.logs_tmp == old(jobs)@.logs_tmp,
        final(jobs)@.local_infra_cancel_job == old(jobs)@.local_infra_cancel_job,
{
}

/// The run takes the outcome of the action that it asked for last, and no other. That
/// outputs are missing it takes only where the task that was found done has some.
pub proof fn dok_run_takes_what_it_asked_for(
    with_build: bool,
    events: Seq<DokEvent>,
    jobs: ManagerView,
    event: DokEvent,
)
    requires
        events.len() > 0,
        DokRunView::initial(with_build).accepts_all(events, jobs),
    ensures
        DokRunView::initial(with_build).after(events, jobs).0.accepts(event)
            <==> match DokRunView::initial(with_build).asked(events, jobs) {
            DokAction::BuildImage => event is Built,
            DokAction::PushImage => event is Pushed,
            DokAction::CreateTask => event is Created,
            DokAction::Sleep { .. } => event is Slept,
            DokAction::GetTask { .. } => event is TaskRead,
            DokAction::GetArtifactUrl { .. } => event is ArtifactUrlRead && (
            event matches DokEvent::ArtifactUrlRead(Err(_)) ==> exists|i: int|
                {
                    &&& 0 <= i < events.len()
                    &&& #[trigger] finds_done(events[i])
                    &&& events[i]->TaskRead_0->Ok_0.artifact is Some
                }),
            DokAction::Download { .. } => event is Downloaded,
            DokAction::Extract { .. } => event is Extracted,
            DokAction::RemoveFile { .. } => event is Removed,
            DokAction::Finish(_) => false,
        },
{
    lemma_dok_origin(with_build, events, jobs);
    let run = DokRunView::initial(with_build).after(events, jobs).0;
    if run.phase == DokPhase::AskingForOutputs {
        let i = choose|i: int| 0 <= i < events.len() && #[trigger] finds_done(events[i]);
        assert(finds_done(events[i]));
        if run.artifact is Some {
            assert(events[i]->TaskRead_0->Ok_0.artifact is Some);
        }
    }
}

/// The way to the task: an image that was built is pushed, and then the task is created.
/// It is created once, and nothing follows where that fails.
pub proof fn dok_run_creates_one_task(with_build: bool, events: Seq<DokEvent>, jobs: ManagerView)
    requires
        events.len() > 0,
        DokRunView::initial(with_build).accepts_all(events, jobs),
    ensures
        ({
            let asked = DokRunView::initial(with_build).asked(events, jobs);
            &&& !(asked is BuildImage)
            &&& asked is PushImage <==> (events.last() matches DokEvent::Built(Ok(_)))
            &&& asked is CreateTask <==> (events.last() matches DokEvent::Pushed(Ok(_)))
            &&& (events.last() matches DokEvent::Created(Ok(_))) ==> asked
                == (DokActionView::Sleep { secs: 5 })
        }),
        forall|i: int|
            0 <= i < events.len() && (#[trigger] events[i]) is Created ==> i == creation(
                with_build,
            ),
        events.len() > creation(with_build) + 1 ==> tells_task(
            with_build,
            events,
            told_task(with_build, events),
        ),
{
    lemma_dok_origin(with_build, events, jobs);
    lemma_dok_origin(with_build, events.drop_last(), jobs);
    if events.len() > creation(with_build) + 1 {
        assert(events.drop_last()[creation(with_build)] == events[creation(with_build)]);
    }
}

/// However many looks lie between, each look is at the task that was created: five
/// seconds after the creation, or after a look that found it not done.
pub proof fn dok_run_looks_at_its_task(with_build: bool, events: Seq<DokEvent>, jobs: ManagerView)
    requires
        events.len() > 0,
        DokRunView::initial(with_build).accepts_all(events, jobs),
    ensures
        ({
            let asked = DokRunView::initial(with_build).asked(events, jobs);
            &&& asked is GetTask <==> events.last() is Slept && none_done(events)
            &&& asked matches DokAction::GetTask { id } ==> tells_task(with_build, events, id)
            &&& (events.last() matches DokEvent::TaskRead(Ok(_))) && !finds_done(events.last())
                ==> asked == (DokActionView::Sleep { secs: 5 })
        }),
{
    lemma_dok_origin(with_build, events.drop_last(), jobs);
    lemma_none_done(events);
}

proof fn lemma_none_done(events: Seq<DokEvent>)
    requires
        events.len() > 0,
    ensures
        none_done(events) <==> none_done(events.drop_last()) && !finds_done(events.last()),
{
    let before = events.drop_last();
    if none_done(events) {
        assert forall|i: int| 0 <= i < before.len() implies !#[trigger] finds_done(before[i]) by {
            assert(!finds_done(events[i]));
        }
        assert(!finds_done(events[events.len() - 1]));
    }
    if none_done(before) && !finds_done(events.last()) {
        assert forall|i: int| 0 <= i < events.len() implies !#[trigger] finds_done(events[i]) by {
            if i < before.len() {
                assert(!finds_done(before[i]));
            }
        }
    }
}

/// Once the task was found done, the outputs of just that task are asked for every
/// second until it is told where they are.
pub proof fn dok_run_asks_for_the_outputs(
    with_build: bool,
    events: Seq<DokEvent>,
    jobs: ManagerView,
)
    requires
        events.len() > 0,
        DokRunView::initial(with_build).accepts_all(events, jobs),
    ensures
        ({
            let asked = DokRunView::initial(with_build).asked(events, jobs);
            &&& asked is GetArtifactUrl <==> events.last() is Slept && !none_done(events)
            &&& asked matches DokAction::GetArtifactUrl { task } ==> forall|i: int|
                0 <= i < events.len() && #[trigger] finds_done(events[i])
                    ==> events[i]->TaskRead_0->Ok_0.id@ == task
            &&& finds_done(events.last()) || (events.last() matches DokEvent::ArtifactUrlRead(
                Err(_),
            )) ==> asked == (DokActionView::Sleep { secs: 1 })
        }),
{
    lemma_dok_origin(with_build, events.drop_last(), jobs);
    lemma_none_done(events);
    let before = events.drop_last();
    let prior = DokRunView::initial(with_build).after(before, jobs).0;
    if events.last() is Slept && !none_done(events) {
        assert forall|i: int| 0 <= i < events.len() && #[trigger] finds_done(
            events[i],
        ) implies events[i]->TaskRead_0->Ok_0.id@ == prior.done by {
            assert(i < before.len());
            assert(finds_done(before[i]));
        }
    }
}

/// The outputs are fetched from where they were told to be, into one file, which is
/// unpacked and then removed. With that the run ends well. Every failure but that
/// outputs are missing ends the run at once with its message.
pub proof fn dok_run_fetches_and_ends(with_build: bool, events: Seq<DokEvent>, jobs: ManagerView)
    requires
        events.len() > 0,
        DokRunView::initial(with_build).accepts_all(events, jobs),
    ensures
        ({
            let asked = DokRunView::initial(with_build).asked(events, jobs);
            match events.last() {
                DokEvent::ArtifactUrlRead(Ok(url)) => asked == (DokActionView::Download {
                    url: url@,
                    file: "artifact.tar.gz"@,
                }),
                DokEvent::Downloaded(Ok(_)) => asked == (DokActionView::Extract {
                    file: "artifact.tar.gz"@,
                }),
                DokEvent::Extracted(Ok(_)) => asked == (DokActionView::RemoveFile {
                    file: "artifact.tar.gz"@,
                }),
                DokEvent::Removed(Ok(_)) => asked matches DokAction::Finish(Ok(_)),
                DokEvent::Built(Err(e)) => asked == DokActionView::Finish(Err(e@)),
                DokEvent::Pushed(Err(e)) => asked == DokActionView::Finish(Err(e@)),
                DokEvent::Created(Err(e)) => asked == DokActionView::Finish(Err(e@)),
                DokEvent::TaskRead(Err(e)) => asked == DokActionView::Finish(Err(e@)),
                DokEvent::Downloaded(Err(e)) => asked == DokActionView::Finish(Err(e@)),
                DokEvent::Extracted(Err(e)) => asked == DokActionView::Finish(Err(e@)),
                DokEvent::Removed(Err(e)) => asked == DokActionView::Finish(Err(e@)),
                _ => !(asked is Download || asked is Extract || asked is RemoveFile
                    || asked is Finish),
            }
        }),
{
}

/// The log gains a line when the task was created, when its outputs were located and
/// when they were unpacked, each about the created task, and no other line.
pub proof fn dok_run_logs_each_outcome(
    with_build: bool,
    events: Seq<DokEvent>,
    jobs: ManagerView,
)
    requires
        events.len() > 0,
        DokRunView::initial(with_build).accepts_all(events, jobs),
    ensures
        ({
            let before = DokRunView::initial(with_build).after(events.drop_last(), jobs).1;
            let later = DokRunView::initial(with_build).after(events, jobs).1;
            let id = told_task(with_build, events);
            &&& later.log(0) == before.log(0) + match events.last() {
                DokEvent::Created(Ok(_)) => seq![
                    "[sakura internet DOK] task "@ + id + " created"@,
                ],
                DokEvent::ArtifactUrlRead(Ok(_)) => seq![
                    "[sakura internet DOK] downloading output files of task "@ + id,
                ],
                DokEvent::Extracted(Ok(_)) => seq![
                    "[sakura internet DOK] downloaded output files of task "@ + id,
                ],
                _ => Seq::empty(),
            }
            &&& later.logs.remove(0) == before.logs.remove(0)
            &&& later.local_infra_cancel_job == before.local_infra_cancel_job
        }),
{
    lemma_dok_origin(with_build, events.drop_last(), jobs);
    lemma_dok_origin(with_build, events, jobs);
    let (run, mid) = DokRunView::initial(with_build).after(events.drop_last(), jobs);
    let later = run.next(events.last(), mid).2;
    if events.len() - 1 > creation(with_build) {
        assert(events.drop_last()[creation(with_build)] == events[creation(with_build)]);
    }
    assert(mid.logs.remove(0) =~= later.logs.remove(0));
}

/// The temporary line tells what the last look found: the status of the task that was
/// read, or when its first container started or that it did not, or which outputs of
/// the created task are missing, with a row of dots that counts the misses in fives. It
/// goes once the task is done, and once the outputs are located. Nothing else touches
/// it, nor that of another job.
pub proof fn dok_run_shows_the_last_look(
    with_build: bool,
    events: Seq<DokEvent>,
    jobs: ManagerView,
)
    requires
        events.len() > 0,
        DokRunView::initial(with_build).accepts_all(events, jobs),
    ensures
        ({
            let before = DokRunView::initial(with_build).after(events.drop_last(), jobs).1;
            let later = DokRunView::initial(with_build).after(events, jobs).1;
            match events.last() {
                DokEvent::TaskRead(Ok(task)) => if task.status@ == "done"@ {
                    later.logs_tmp == before.logs_tmp.remove(0)
                } else if task.containers@.len() == 0 {
                    later.logs_tmp == before.logs_tmp.insert(
                        0,
                        "[sakura internet DOK] task "@ + task.id@ + " status: "@ + task.status@,
                    )
                } else {
                    match task.containers@[0].start_at {
                        Some(at) => later.logs_tmp == before.logs_tmp.insert(
                            0,
                            "[sakura internet DOK] task "@ + task.id@ + " started at "@ + at@,
                        ),
                        None => later.logs_tmp == before.logs_tmp.insert(
                            0,
                            "[sakura internet DOK] task "@ + task.id@ + " not ready for use"@,
                        ),
                    }
                },
                DokEvent::ArtifactUrlRead(Ok(_)) => later.logs_tmp == before.logs_tmp.remove(0),
                DokEvent::ArtifactUrlRead(Err(_)) => {
                    &&& !none_done(events)
                    &&& tells_task(with_build, events, told_task(with_build, events))
                    &&& forall|i: int|
                        0 <= i < events.len() && #[trigger] finds_done(events[i]) ==> {
                            &&& events[i]->TaskRead_0->Ok_0.artifact matches Some(artifact)
                            &&& later.logs_tmp == before.logs_tmp.insert(
                                0,
                                "[sakura internet DOK] output files (artifact "@ + artifact.id@
                                    + ") of task "@ + told_task(with_build, events)
                                    + " not ready "@ + dots_text(misses(events) % 5),
                            )
                        }
                },
                _ => later.logs_tmp == before.logs_tmp,
            }
        }),
{
    let before = events.drop_last();
    lemma_dok_origin(with_build, before, jobs);
    dok_run_counts_misses(with_build, events, jobs);
    dok_run_counts_misses(with_build, before, jobs);
    let (run, mid) = DokRunView::initial(with_build).after(before, jobs);
    let later = run.next(events.last(), mid).2;
    lemma_none_done(events);
    if events.last() is ArtifactUrlRead {
        assert(before[creation(with_build)] == events[creation(with_build)]);
        assert forall|i: int| 0 <= i < events.len() && #[trigger] finds_done(
            events[i],
        ) implies run.artifact == events[i]->TaskRead_0->Ok_0.artifact_id() by {
            assert(i < before.len());
            assert(finds_done(before[i]));
        }
    }
    if let DokEvent::TaskRead(Ok(task)) = events.last() {
        if task.status@ == "done"@ {
            assert(later.logs_tmp =~= mid.logs_tmp.remove(0));
        } else if task.containers@.len() > 0 {
            match task.containers@[0].start_at {
                Some(at) => {
                    assert(later.logs_tmp =~= mid.logs_tmp.insert(
                        0,
                        "[sakura internet DOK] task "@ + task.id@ + " started at "@ + at@,
                    ));
                },
                None => {
                    assert(later.logs_tmp =~= mid.logs_tmp.insert(
                        0,
                        "[sakura internet DOK] task "@ + task.id@ + " not ready for use"@,
                    ));
                },
            }
        }
    }
}

/// The job is registered under the created task, without an address. A look at a task
/// that is not done and tells an address sets both where the job is registered. Nothing
/// else touches the jobs.
pub proof fn dok_run_registers_the_task(with_build: bool, events: Seq<DokEvent>, jobs: ManagerView)
    requires
        events.len() > 0,
        DokRunView::initial(with_build).accepts_all(events, jobs),
    ensures
        ({
            let before = DokRunView::initial(with_build).after(events.drop_last(), jobs).1;
            let later = DokRunView::initial(with_build).after(events, jobs).1;
            match events.last() {
                DokEvent::Created(Ok(id)) => later.jobs == before.jobs.insert(
                    0,
                    JobView { id: 0, infra: InfraView::SakuraInternetDOK(id@, None) },
                ),
                DokEvent::TaskRead(Ok(task)) => if task.status@ != "done"@ && task.http_uri is Some {
                    &&& before.jobs.contains_key(0)
                    &&& later.jobs.remove(0) == before.jobs.remove(0)
                    &&& later.jobs.contains_key(0)
                    &&& later.jobs[0].id == before.jobs[0].id
                    &&& later.jobs[0].infra == InfraView::SakuraInternetDOK(
                        task.id@,
                        Some(task.http_uri->0@),
                    )
                } else {
                    later.jobs == before.jobs
                },
                _ => later.jobs == before.jobs,
            }
        }),
{
    let before = events.drop_last();
    lemma_dok_origin(with_build, before, jobs);
    dok_run_keeps_the_jobs(with_build, before, jobs);
    let (run, mid) = DokRunView::initial(with_build).after(before, jobs);
    let later = run.next(events.last(), mid).2;
    if events.last() is TaskRead {
        assert(tells_created(before[creation(with_build)]));
        assert(mid.jobs.contains_key(0));
        assert(later.jobs.remove(0) =~= mid.jobs.remove(0));
    }
}

/// The model of an action holds what the action holds.
pub proof fn dok_action_is_what_it_says(action: DokAction)
    ensures
        match (action, action@) {
            (DokAction::BuildImage, DokAction::BuildImage) => true,
            (DokAction::PushImage, DokAction::PushImage) => true,
            (DokAction::CreateTask, DokAction::CreateTask) => true,
            (DokAction::Sleep { secs }, DokAction::Sleep { secs: s }) => s == secs,
            (DokAction::GetTask { id }, DokAction::GetTask { id: i }) => i == id@,
            (DokAction::GetArtifactUrl { task }, DokAction::GetArtifactUrl { task: t }) => t
                == task@,
            (DokAction::Download { url, file }, DokAction::Download { url: u, file: f }) => u
                == url@ && f == file@,
            (DokAction::Extract { file }, DokAction::Extract { file: f }) => f == file@,
            (DokAction::RemoveFile { file }, DokAction::RemoveFile { file: f }) => f == file@,
            (DokAction::Finish(Ok(_)), DokAction::Finish(Ok(_))) => true,
            (DokAction::Finish(Err(e)), DokAction::Finish(Err(t))) => t == e@,
            _ => false,
        },
{
}

} // verus!
