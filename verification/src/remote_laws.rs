//! What holds of every run on the computing service.
use vstd::prelude::*;

use crate::files::{
    all_named, are_final, file_name_of, is_portable, keep_names, names_of,
    portable_files_keep_their_names, remotes_of, stand_for, JobFiles,
};
use crate::job::{InfraView, JobView, ManagerView, JOB_ID};
use crate::json::json_contents;
use crate::remote::{
    tells_existing, RemoteAction, RemoteActionView, RemoteEvent, RemotePhase, RemoteRunView,
};

verus! {

impl RemoteRunView {
    /// The run and the jobs after `events`, one after the other.
    pub open spec fn after(self, events: Seq<RemoteEvent>, jobs: ManagerView) -> (
        RemoteRunView,
        ManagerView,
    )
        decreases events.len(),
    {
        if events.len() == 0 {
            (self, jobs)
        } else {
            let (run, jobs) = self.after(events.drop_last(), jobs);
            let (run, _, jobs) = run.next(events.last(), jobs);
            (run, jobs)
        }
    }

    /// What the run asks for after the last of `events`.
    pub open spec fn asked(self, events: Seq<RemoteEvent>, jobs: ManagerView) -> RemoteActionView {
        let (run, jobs) = self.after(events.drop_last(), jobs);
        run.next(events.last(), jobs).1
    }

    /// Whether each of `events` is an outcome of what the run asked for before it.
    pub open spec fn accepts_all(self, events: Seq<RemoteEvent>, jobs: ManagerView) -> bool
        decreases events.len(),
    {
        events.len() == 0 || {
            &&& self.accepts_all(events.drop_last(), jobs)
            &&& self.after(events.drop_last(), jobs).0.accepts(events.last())
        }
    }

    /// The names under which the run asked for uploads, in their order.
    pub open spec fn uploads(self, events: Seq<RemoteEvent>, jobs: ManagerView) -> Seq<Seq<char>>
        decreases events.len(),
    {
        if events.len() == 0 {
            Seq::empty()
        } else {
            self.uploads(events.drop_last(), jobs) + uploads_of(self.asked(events, jobs))
        }
    }

    /// The names that the run asked to download into the project, in their order.
    pub open spec fn downloads(self, events: Seq<RemoteEvent>, jobs: ManagerView) -> Seq<Seq<char>>
        decreases events.len(),
    {
        if events.len() == 0 {
            Seq::empty()
        } else {
            self.downloads(events.drop_last(), jobs) + downloads_of(self.asked(events, jobs))
        }
    }

    /// How often the run asked to submit the job.
    pub open spec fn submissions(self, events: Seq<RemoteEvent>, jobs: ManagerView) -> nat
        decreases events.len(),
    {
        if events.len() == 0 {
            0
        } else {
            self.submissions(events.drop_last(), jobs) + if self.asked(
                events,
                jobs,
            ) is SubmitJob {
                1nat
            } else {
                0
            }
        }
    }

    /// Whether the run has its files on the server.
    spec fn is_submitted(self) -> bool {
        match self.phase {
            RemotePhase::Submitting => true,
            RemotePhase::Waiting => true,
            RemotePhase::Polling => true,
            RemotePhase::FetchingLog => true,
            _ => self.is_fetching(),
        }
    }

    /// Whether the run has seen its job done.
    spec fn is_fetching(self) -> bool {
        self.phase == RemotePhase::Downloading || self.phase == RemotePhase::Disconnecting
    }

    /// How many uploads the run has asked for.
    spec fn upload_count(self) -> nat {
        if self.is_submitted() {
            self.files.len()
        } else if self.phase == RemotePhase::Resolving {
            self.index
        } else if self.phase == RemotePhase::Uploading {
            self.index + 1
        } else {
            0
        }
    }

    /// Whether the run goes by the project's name and the files that were read.
    spec fn goes_by(self, events: Seq<RemoteEvent>) -> bool {
        match self.phase {
            RemotePhase::Finished => true,
            RemotePhase::Naming => events.len() == 0,
            RemotePhase::Loading => events.len() == 1 && self.has_name_of(events),
            _ => self.has_name_of(events) && self.has_files_of(events),
        }
    }

    /// Whether the first of `events` tells the name of the run's project.
    spec fn has_name_of(self, events: Seq<RemoteEvent>) -> bool {
        &&& events.len() >= 1
        &&& events[0] matches RemoteEvent::ProjectNamed(Ok(name))
        &&& self.project == name@
    }

    /// Whether the second of `events` tells the run's files.
    spec fn has_files_of(self, events: Seq<RemoteEvent>) -> bool {
        &&& events.len() >= 2
        &&& events[1] matches RemoteEvent::SettingsLoaded(Ok(files))
        &&& self.inputs() == names_of(files.staged@)
        &&& self.outputs() == names_of(files.outputs@)
        &&& self.remotes == remotes_of(files.staged@) + remotes_of(files.outputs@)
    }

    /// What holds of the requests up to a phase.
    spec fn history(
        self,
        uploads: Seq<Seq<char>>,
        downloads: Seq<Seq<char>>,
        submissions: nat,
        uploaded: nat,
        downloaded: nat,
    ) -> bool {
        &&& self.staged <= self.files.len()
        &&& self.remotes.len() == self.files.len()
        &&& self.phase != RemotePhase::Finished ==> {
            &&& are_sent(uploads, self.remotes.take(self.upload_count() as int))
            &&& self.phase == RemotePhase::Resolving || self.phase == RemotePhase::Uploading
                ==> self.index < self.files.len()
            &&& submissions == if self.is_submitted() {
                1nat
            } else {
                0
            }
            &&& downloads == if self.phase == RemotePhase::Disconnecting {
                self.outputs()
            } else if self.phase == RemotePhase::Downloading {
                self.files.subrange(self.staged as int, (self.index + 1) as int)
            } else {
                Seq::empty()
            }
            &&& self.phase == RemotePhase::Downloading ==> self.staged <= self.index
                < self.files.len()
            &&& uploaded == if self.is_submitted() {
                self.files.len()
            } else if self.phase == RemotePhase::Resolving || self.phase
                == RemotePhase::Uploading {
                self.index
            } else {
                0
            }
            &&& downloaded == if self.phase == RemotePhase::Disconnecting {
                self.outputs().len()
            } else if self.phase == RemotePhase::Downloading {
                (self.index - self.staged) as nat
            } else {
                0
            }
        }
    }
}

/// Whether `uploads` are just `remotes`, each of them being a name.
pub open spec fn are_sent(uploads: Seq<Seq<char>>, remotes: Seq<Option<Seq<char>>>) -> bool {
    &&& uploads.len() == remotes.len()
    &&& forall|i: int| 0 <= i < uploads.len() ==> remotes[i] == Some(#[trigger] uploads[i])
}

/// The name under which an action asks for an upload.
pub open spec fn uploads_of(action: RemoteActionView) -> Seq<Seq<char>> {
    match action {
        RemoteAction::UploadFile { remote, .. } => seq![remote],
        _ => Seq::empty(),
    }
}

/// The name that an action asks to download into the project.
pub open spec fn downloads_of(action: RemoteActionView) -> Seq<Seq<char>> {
    match action {
        RemoteAction::DownloadFile { remote, .. } => seq![remote],
        _ => Seq::empty(),
    }
}

/// How many of `events` tell that an upload succeeded.
pub open spec fn uploads_done(events: Seq<RemoteEvent>) -> nat
    decreases events.len(),
{
    if events.len() == 0 {
        0
    } else {
        uploads_done(events.drop_last()) + if events.last() matches RemoteEvent::Uploaded(Ok(_)) {
            1nat
        } else {
            0
        }
    }
}

/// How many of `events` tell that a download into the project succeeded.
pub open spec fn downloads_done(events: Seq<RemoteEvent>) -> nat
    decreases events.len(),
{
    if events.len() == 0 {
        0
    } else {
        downloads_done(events.drop_last()) + if events.last() matches RemoteEvent::FileDownloaded(
            Ok(_),
        ) {
            1nat
        } else {
            0
        }
    }
}

/// Whether `event` shows the job done.
pub open spec fn shows_done(event: RemoteEvent) -> bool {
    event matches RemoteEvent::JobRead(Ok(reply)) && json_contents(reply).status() == "done"@
}

/// Whether some of `events` shows the job done.
pub open spec fn saw_done(events: Seq<RemoteEvent>) -> bool {
    exists|i: int| 0 <= i < events.len() && #[trigger] shows_done(events[i])
}

proof fn lemma_history_step(
    run: RemoteRunView,
    event: RemoteEvent,
    jobs: ManagerView,
    uploads: Seq<Seq<char>>,
    downloads: Seq<Seq<char>>,
    submissions: nat,
    uploaded: nat,
    downloaded: nat,
)
    requires
        run.accepts(event),
        run.history(uploads, downloads, submissions, uploaded, downloaded),
    ensures
        ({
            let (later, action, _) = run.next(event, jobs);
            later.history(
                uploads + uploads_of(action),
                downloads + downloads_of(action),
                submissions + if action is SubmitJob {
                    1nat
                } else {
                    0
                },
                uploaded + if event matches RemoteEvent::Uploaded(Ok(_)) {
                    1nat
                } else {
                    0
                },
                downloaded + if event matches RemoteEvent::FileDownloaded(Ok(_)) {
                    1nat
                } else {
                    0
                },
            )
        }),
{
    let (later, action, _) = run.next(event, jobs);
    let downs = downloads + downloads_of(action);
    if !(event is SettingsLoaded) {
        assert(later.files == run.files);
        assert(later.remotes == run.remotes);
        assert(later.staged == run.staged);
    }
    assert(downs =~= if later.phase == RemotePhase::Disconnecting {
        later.outputs()
    } else if later.phase == RemotePhase::Downloading {
        later.files.subrange(later.staged as int, (later.index + 1) as int)
    } else if later.phase == RemotePhase::Finished {
        downs
    } else {
        Seq::empty()
    });
}

proof fn lemma_history(
    url: Seq<char>,
    base_dir: Seq<char>,
    events: Seq<RemoteEvent>,
    jobs: ManagerView,
)
    requires
        RemoteRunView::initial(url, base_dir).accepts_all(events, jobs),
    ensures
        ({
            let start = RemoteRunView::initial(url, base_dir);
            let run = start.after(events, jobs).0;
            &&& run.history(
                start.uploads(events, jobs),
                start.downloads(events, jobs),
                start.submissions(events, jobs),
                uploads_done(events),
                downloads_done(events),
            )
            &&& start.submissions(events, jobs) <= 1
            &&& run.is_fetching() ==> saw_done(events)
        }),
    decreases events.len(),
{
    let start = RemoteRunView::initial(url, base_dir);
    let run = start.after(events, jobs).0;
    if events.len() > 0 {
        let before = events.drop_last();
        lemma_history(url, base_dir, before, jobs);
        let (prior, mid) = start.after(before, jobs);
        lemma_history_step(
            prior,
            events.last(),
            mid,
            start.uploads(before, jobs),
            start.downloads(before, jobs),
            start.submissions(before, jobs),
            uploads_done(before),
            downloads_done(before),
        );
        if prior.is_fetching() {
            let i = choose|i: int| 0 <= i < before.len() && #[trigger] shows_done(before[i]);
            assert(shows_done(events[i]));
        } else if run.is_fetching() {
            assert(shows_done(events[events.len() - 1]));
        }
    }
}

proof fn lemma_origin(
    url: Seq<char>,
    base_dir: Seq<char>,
    events: Seq<RemoteEvent>,
    jobs: ManagerView,
)
    requires
        RemoteRunView::initial(url, base_dir).accepts_all(events, jobs),
    ensures
        RemoteRunView::initial(url, base_dir).after(events, jobs).0.goes_by(events),
    decreases events.len(),
{
    let start = RemoteRunView::initial(url, base_dir);
    let run = start.after(events, jobs).0;
    if events.len() > 0 {
        let before = events.drop_last();
        lemma_origin(url, base_dir, before, jobs);
        let prior = start.after(before, jobs).0;
        if prior.phase == RemotePhase::Loading {
            if let RemoteEvent::SettingsLoaded(Ok(files)) = events.last() {
                assert(run.inputs() =~= names_of(files.staged@));
                assert(run.outputs() =~= names_of(files.outputs@));
            }
        }
    }
}

/// The job is submitted at most once, with the command `job.sh`, the name that was read
/// of the project, and the names of the files that were read from its settings. By then
/// an upload was asked for of each of the files that the job starts from and then of
/// each of its outputs, once and in that order, and every one of them succeeded. Files
/// that keep their names on the file server were uploaded under these.
pub proof fn remote_run_submits_what_it_uploaded(
    url: Seq<char>,
    base_dir: Seq<char>,
    events: Seq<RemoteEvent>,
    jobs: ManagerView,
)
    requires
        events.len() > 0,
        RemoteRunView::initial(url, base_dir).accepts_all(events, jobs),
    ensures
        ({
            let start = RemoteRunView::initial(url, base_dir);
            &&& start.submissions(events, jobs) <= 1
            &&& start.asked(events, jobs) matches RemoteAction::SubmitJob {
                command,
                project,
                inputs,
                outputs,
            } ==> {
                &&& start.submissions(events, jobs) == 1
                &&& start.downloads(events, jobs).len() == 0
                &&& uploads_done(events) == inputs.len() + outputs.len()
                &&& command == "job.sh"@
                &&& events.len() >= 2
                &&& events[0] matches RemoteEvent::ProjectNamed(Ok(name))
                &&& project == name@
                &&& events[1] matches RemoteEvent::SettingsLoaded(Ok(files))
                &&& inputs == names_of(files.staged@)
                &&& outputs == names_of(files.outputs@)
                &&& are_sent(
                    start.uploads(events, jobs),
                    remotes_of(files.staged@) + remotes_of(files.outputs@),
                )
                &&& keep_names(files.staged@) && keep_names(files.outputs@) ==> start.uploads(
                    events,
                    jobs,
                ) == inputs + outputs
            }
        }),
{
    let start = RemoteRunView::initial(url, base_dir);
    let run = start.after(events, jobs).0;
    lemma_history(url, base_dir, events, jobs);
    lemma_origin(url, base_dir, events, jobs);
    if start.asked(events, jobs) is SubmitJob {
        assert(run.phase == RemotePhase::Submitting);
        lemma_kept_names(run, events, start.uploads(events, jobs));
    }
}

proof fn lemma_kept_names(run: RemoteRunView, events: Seq<RemoteEvent>, uploads: Seq<Seq<char>>)
    requires
        run.staged <= run.files.len(),
        run.remotes.len() == run.files.len(),
        run.has_files_of(events),
        are_sent(uploads, run.remotes.take(run.files.len() as int)),
    ensures
        are_sent(uploads, run.remotes),
        ({
            let files = events[1]->SettingsLoaded_0->Ok_0;
            keep_names(files.staged@) && keep_names(files.outputs@) ==> uploads == run.inputs()
                + run.outputs()
        }),
{
    let files = events[1]->SettingsLoaded_0->Ok_0;
    assert(run.remotes.take(run.files.len() as int) =~= run.remotes);
    if keep_names(files.staged@) && keep_names(files.outputs@) {
        let names = run.inputs() + run.outputs();
        assert forall|i: int| 0 <= i < names.len() implies names[i] == uploads[i] by {
            assert(run.remotes[i] == Some(uploads[i]));
            if i < files.staged@.len() {
                assert(names[i] == files.staged@[i].name@);
            } else {
                assert(names[i] == files.outputs@[i - files.staged@.len()].name@);
            }
        }
        assert(uploads =~= names);
    }
}

/// Where every machine reads the listed paths alike, the files that a submission names
/// are the final components of these paths, and they were uploaded under just these
/// names.
pub proof fn remote_run_submits_final_components(
    url: Seq<char>,
    base_dir: Seq<char>,
    events: Seq<RemoteEvent>,
    jobs: ManagerView,
    listed: JobFiles,
)
    requires
        events.len() >= 2,
        RemoteRunView::initial(url, base_dir).accepts_all(events, jobs),
        ({
            &&& events[1] matches RemoteEvent::SettingsLoaded(Ok(files))
            &&& stand_for(files.staged@, listed.inputs@ + listed.scripts@)
            &&& stand_for(files.outputs@, listed.outputs@)
        }),
        all_named(listed.inputs@),
        all_named(listed.outputs@),
        all_named(listed.scripts@),
    ensures
        ({
            let start = RemoteRunView::initial(url, base_dir);
            start.asked(events, jobs) matches RemoteAction::SubmitJob { inputs, outputs, .. } ==> {
                &&& are_final(inputs, listed.inputs@ + listed.scripts@)
                &&& are_final(outputs, listed.outputs@)
                &&& start.uploads(events, jobs) == inputs + outputs
            }
        }),
{
    remote_run_submits_what_it_uploaded(url, base_dir, events, jobs);
    let files = events[1]->SettingsLoaded_0->Ok_0;
    let paths = listed.inputs@ + listed.scripts@;
    assert forall|i: int| 0 <= i < paths.len() implies is_portable(#[trigger] paths[i]@)
        && file_name_of(paths[i]@) is Some by {
        if i < listed.inputs@.len() {
            assert(paths[i] == listed.inputs@[i]);
        } else {
            assert(paths[i] == listed.scripts@[i - listed.inputs@.len()]);
        }
    }
    portable_files_keep_their_names(files.staged@, paths);
    portable_files_keep_their_names(files.outputs@, listed.outputs@);
}

/// A run succeeds in one way only: the files that were read from the settings went up,
/// the job was submitted once and seen done, and then each of its outputs came back,
/// once and in their order.
pub proof fn remote_run_succeeds_with_outputs(
    url: Seq<char>,
    base_dir: Seq<char>,
    events: Seq<RemoteEvent>,
    jobs: ManagerView,
)
    requires
        events.len() > 0,
        RemoteRunView::initial(url, base_dir).accepts_all(events, jobs),
        RemoteRunView::initial(url, base_dir).asked(events, jobs) == RemoteActionView::Finish(
            Ok(()),
        ),
    ensures
        ({
            let start = RemoteRunView::initial(url, base_dir);
            &&& start.submissions(events, jobs) == 1
            &&& saw_done(events)
            &&& events.len() >= 2
            &&& events[1] matches RemoteEvent::SettingsLoaded(Ok(files))
            &&& uploads_done(events) == files.staged@.len() + files.outputs@.len()
            &&& are_sent(
                start.uploads(events, jobs),
                remotes_of(files.staged@) + remotes_of(files.outputs@),
            )
            &&& keep_names(files.staged@) && keep_names(files.outputs@) ==> start.uploads(
                events,
                jobs,
            ) == names_of(files.staged@) + names_of(files.outputs@)
            &&& start.downloads(events, jobs) == names_of(files.outputs@)
            &&& downloads_done(events) == files.outputs@.len()
        }),
{
    let start = RemoteRunView::initial(url, base_dir);
    let before = events.drop_last();
    let prior = start.after(before, jobs).0;
    lemma_history(url, base_dir, before, jobs);
    lemma_origin(url, base_dir, before, jobs);
    assert(events.last() is FtpDisconnected);
    assert(prior.phase == RemotePhase::Disconnecting);
    let i = choose|i: int| 0 <= i < before.len() && #[trigger] shows_done(before[i]);
    assert(shows_done(events[i]));
    lemma_kept_names(prior, before, start.uploads(before, jobs));
    assert(before[1] == events[1]);
    assert(prior.files.len() == prior.inputs().len() + prior.outputs().len());
    assert(start.uploads(events, jobs) =~= start.uploads(before, jobs));
    assert(start.downloads(events, jobs) =~= start.downloads(before, jobs));
}

/// Nothing is downloaded into the project before the job was seen done.
pub proof fn remote_run_downloads_when_done(
    url: Seq<char>,
    base_dir: Seq<char>,
    events: Seq<RemoteEvent>,
    jobs: ManagerView,
)
    requires
        events.len() > 0,
        RemoteRunView::initial(url, base_dir).accepts_all(events, jobs),
        RemoteRunView::initial(url, base_dir).asked(events, jobs) is DownloadFile,
    ensures
        saw_done(events),
{
    lemma_history(url, base_dir, events, jobs);
}

/// A directory that is there already serves as well as a new one.
pub proof fn existing_directory_serves(run: RemoteRunView, e: String, jobs: ManagerView)
    requires
        tells_existing(e@),
    ensures
        run.next(RemoteEvent::DirectoryMade(Err(e)), jobs) == run.next(
            RemoteEvent::DirectoryMade(Ok(())),
            jobs,
        ),
{
}

proof fn lemma_remote_step(run: RemoteRunView, event: RemoteEvent, jobs: ManagerView)
    ensures
        ({
            let later = run.next(event, jobs).2;
            &&& jobs.log(JOB_ID).is_prefix_of(later.log(JOB_ID))
            &&& jobs.same_but_for(JOB_ID, later)
            &&& later.logs_tmp == jobs.logs_tmp
            &&& later.local_infra_cancel_job == jobs.local_infra_cancel_job
            &&& later.jobs == if event matches RemoteEvent::ProjectNamed(Ok(_)) {
                jobs.jobs.insert(
                    JOB_ID,
                    JobView {
                        id: JOB_ID,
                        infra: InfraView::RustClient("pending-0"@, run.url),
                    },
                )
            } else {
                jobs.jobs
            }
        }),
{
    let later = run.next(event, jobs).2;
    assert(jobs.log(JOB_ID).is_prefix_of(later.log(JOB_ID)));
    assert(jobs.jobs.remove(JOB_ID) =~= later.jobs.remove(JOB_ID));
    assert(jobs.logs.remove(JOB_ID) =~= later.logs.remove(JOB_ID));
}

/// A run only adds to the log of its job, leaves the temporary lines, every other job
/// and the wish to cancel alone, and once the project's name is known the job is
/// registered for good.
pub proof fn remote_run_keeps_the_jobs(
    url: Seq<char>,
    base_dir: Seq<char>,
    events: Seq<RemoteEvent>,
    jobs: ManagerView,
)
    requires
        RemoteRunView::initial(url, base_dir).accepts_all(events, jobs),
    ensures
        ({
            let (run, later) = RemoteRunView::initial(url, base_dir).after(events, jobs);
            &&& run.url == url
            &&& events.len() == 0 <==> run.phase == RemotePhase::Naming
            &&& jobs.log(JOB_ID).is_prefix_of(later.log(JOB_ID))
            &&& jobs.same_but_for(JOB_ID, later)
            &&& later.logs_tmp == jobs.logs_tmp
            &&& later.local_infra_cancel_job == jobs.local_infra_cancel_job
            &&& later.jobs == if events.len() > 0
                && events[0] matches RemoteEvent::ProjectNamed(Ok(_)) {
                jobs.jobs.insert(
                    JOB_ID,
                    JobView { id: JOB_ID, infra: InfraView::RustClient("pending-0"@, url) },
                )
            } else {
                jobs.jobs
            }
        }),
    decreases events.len(),
{
    if events.len() > 0 {
        let before = events.drop_last();
        remote_run_keeps_the_jobs(url, base_dir, before, jobs);
        let (run, mid) = RemoteRunView::initial(url, base_dir).after(before, jobs);
        lemma_remote_step(run, events.last(), mid);
        if before.len() > 0 {
            assert(before[0] == events[0]);
        }
    }
}

/// A run is over when it says so, and only then: no failure is followed by another
/// request.
pub proof fn remote_run_ends_when_it_says(
    run: RemoteRunView,
    event: RemoteEvent,
    jobs: ManagerView,
)
    requires
        run.accepts(event),
    ensures
        run.next(event, jobs).1 is Finish <==> run.next(event, jobs).0.phase
            == RemotePhase::Finished,
        run.next(event, jobs).1 is Finish ==> forall|later: RemoteEvent|
            !#[trigger] run.next(event, jobs).0.accepts(later),
{
}

} // verus!
