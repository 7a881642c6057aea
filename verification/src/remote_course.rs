//! The course of every run on the computing service, told by the outcomes alone.
use vstd::prelude::*;

use crate::files::{names_of, remotes_of, NamedFiles};
use crate::job::{InfraView, JobView, Manager, ManagerView};
use crate::json::json_contents;
use crate::remote::{
    describe_failure, is_existing, job_outcome, launch_job_rust_client, FetchedLog, JobOutcome,
    RemoteAction, RemoteActionView, RemoteEvent, RemotePhase, RemoteRun, RemoteRunView, Resolution,
};
use crate::remote_laws::downloads_done;
use crate::text::{can_quote, debug_text, is_white_space, occurs, quoted_log_text};

verus! {

/// The name of the project, as the first outcome tells it.
pub open spec fn told_name(events: Seq<RemoteEvent>) -> Seq<char> {
    match events[0] {
        RemoteEvent::ProjectNamed(Ok(name)) => name@,
        _ => Seq::empty(),
    }
}

/// The files of the job, as the second outcome tells them.
pub open spec fn told_files(events: Seq<RemoteEvent>) -> NamedFiles {
    events[1]->SettingsLoaded_0->Ok_0
}

/// The names of the files that the job starts from.
pub open spec fn input_names(events: Seq<RemoteEvent>) -> Seq<Seq<char>> {
    names_of(told_files(events).staged@)
}

/// The names of the files that the job brings forth.
pub open spec fn output_names(events: Seq<RemoteEvent>) -> Seq<Seq<char>> {
    names_of(told_files(events).outputs@)
}

/// The names of all files of the job.
pub open spec fn file_names(events: Seq<RemoteEvent>) -> Seq<Seq<char>> {
    input_names(events) + output_names(events)
}

/// The names under which the files of the job are uploaded.
pub open spec fn remote_names(events: Seq<RemoteEvent>) -> Seq<Option<Seq<char>>> {
    remotes_of(told_files(events).staged@) + remotes_of(told_files(events).outputs@)
}

/// Which outcome is that of the submission: seven come before the first file, and two of
/// each file.
pub open spec fn submission(events: Seq<RemoteEvent>) -> int {
    7 + 2 * (file_names(events).len() as int)
}

/// The id of the job, as the reply to the submission tells it.
pub open spec fn told_job(events: Seq<RemoteEvent>) -> Option<Seq<char>> {
    match events[submission(events)] {
        RemoteEvent::Submitted(Ok(reply)) => json_contents(reply).task_id(),
        _ => None,
    }
}

/// Whether `dir` is `name` with a dash for each underscore.
pub open spec fn is_dashed(dir: Seq<char>, name: Seq<char>) -> bool {
    &&& dir.len() == name.len()
    &&& forall|i: int|
        0 <= i < name.len() ==> #[trigger] dir[i] == if name[i] == '_' {
            '-'
        } else {
            name[i]
        }
}

/// Whether a failure to make the directory is none: the directory is there already.
pub open spec fn serves(made: Result<(), String>) -> bool {
    match made {
        Ok(_) => true,
        Err(e) => occurs(e@, "550"@) || occurs(e@, "File exists"@),
    }
}

spec fn is_placed(run: RemoteRunView, events: Seq<RemoteEvent>) -> bool {
    let n = file_names(events).len();
    let len = events.len();
    &&& len >= 1 ==> (events[0] matches RemoteEvent::ProjectNamed(Ok(_))) && run.project
        == told_name(events)
    &&& len >= 2 ==> {
        &&& events[1] matches RemoteEvent::SettingsLoaded(Ok(_))
        &&& run.files == file_names(events)
        &&& run.remotes == remote_names(events)
        &&& run.staged == input_names(events).len()
        &&& run.remotes.len() == run.files.len()
    }
    &&& match run.phase {
        RemotePhase::Naming => len == 0,
        RemotePhase::Loading => len == 1,
        RemotePhase::Connecting => len == 2,
        RemotePhase::MakingDirectory => len == 3,
        RemotePhase::ChangingDirectory => len == 4,
        RemotePhase::ReadingDirectory => len == 5,
        RemotePhase::ConfirmingDirectory => len == 6,
        RemotePhase::Resolving => len == 7 + 2 * run.index && run.index < n,
        RemotePhase::Uploading => len == 8 + 2 * run.index && run.index < n,
        RemotePhase::Submitting => len == submission(events),
        _ => len > submission(events) && told_job(events) == Some(run.task),
    }
    &&& downloads_done(events) == match run.phase {
        RemotePhase::Downloading => run.index - run.staged,
        RemotePhase::Disconnecting => output_names(events).len() as int,
        _ => 0,
    }
    &&& run.phase == RemotePhase::Downloading ==> run.staged <= run.index < n
    &&& run.phase == RemotePhase::FetchingLog ==> {
        &&& events.last() matches RemoteEvent::JobRead(Ok(reply))
        &&& run.error == json_contents(reply).error_message()
    }
}

proof fn lemma_place(
    url: Seq<char>,
    base_dir: Seq<char>,
    events: Seq<RemoteEvent>,
    jobs: ManagerView,
)
    requires
        RemoteRunView::initial(url, base_dir).accepts_all(events, jobs),
    ensures
        ({
            let run = RemoteRunView::initial(url, base_dir).after(events, jobs).0;
            &&& run.url == url
            &&& run.base_dir == base_dir
            &&& run.phase != RemotePhase::Finished ==> is_placed(run, events)
        }),
        forall|i: int|
            0 <= i < events.len() && (#[trigger] events[i]) is Submitted ==> events.len() >= 2 && i
                == submission(events),
    decreases events.len(),
{
    let start = RemoteRunView::initial(url, base_dir);
    let run = start.after(events, jobs).0;
    if events.len() > 0 {
        let before = events.drop_last();
        lemma_place(url, base_dir, before, jobs);
        let prior = start.after(before, jobs).0;
        assert(is_placed(prior, before));
        assert(before.len() >= 1 ==> before[0] == events[0]);
        if before.len() >= 2 {
            assert(before[1] == events[1]);
            assert(file_names(before) == file_names(events));
            assert(submission(before) == submission(events));
            if before.len() > submission(before) {
                assert(before[submission(before)] == events[submission(before)]);
            }
        }
        assert forall|i: int| 0 <= i < events.len() && (#[trigger] events[i]) is Submitted implies
            events.len() >= 2 && i == submission(events) by {
            if i < before.len() {
                assert(before[i] == events[i]);
            }
        }
    }
}

/// A run begins with the project's name, and nothing but the outcome of that is taken.
/// Its start is noted.
pub proof fn remote_run_starts_with_the_name(
    url: String,
    base_dir: String,
    jobs: &mut Manager,
    r: (RemoteRun, RemoteAction),
    event: RemoteEvent,
)
    requires
        call_ensures(launch_job_rust_client, (url, base_dir, jobs), r),
    ensures
        r.0@ == RemoteRunView::initial(url@, base_dir@),
        r.1 is GetProjectName,
        r.0@.accepts(event) <==> event is ProjectNamed,
        final(jobs)@.log(0) == old(jobs)@.log(0).push("[RustClient Node] Launch Job started \n"@),
        final(jobs)@.logs.remove(0) == old(jobs)@.logs.remove(0),
        final(jobs)@.jobs == old(jobs)@.jobs,
        final(jobs)@.logs_tmp == old(jobs)@.logs_tmp,
        final(jobs)@.local_infra_cancel_job == old(jobs)@.local_infra_cancel_job,
{
}

/// The run takes the outcome of the action that it asked for last, and no other. A log
/// it takes if what is to be quoted of it can be cut.
pub proof fn remote_run_takes_what_it_asked_for(
    url: Seq<char>,
    base_dir: Seq<char>,
    events: Seq<RemoteEvent>,
    jobs: ManagerView,
    event: RemoteEvent,
)
    requires
        events.len() > 0,
        RemoteRunView::initial(url, base_dir).accepts_all(events, jobs),
    ensures
        RemoteRunView::initial(url, base_dir).after(events, jobs).0.accepts(event)
            <==> match RemoteRunView::initial(url, base_dir).asked(events, jobs) {
            RemoteAction::GetProjectName => event is ProjectNamed,
            RemoteAction::LoadSettings { .. } => event is SettingsLoaded,
            RemoteAction::ConnectFtp => event is FtpConnected,
            RemoteAction::MakeDirectory { .. } => event is DirectoryMade,
            RemoteAction::ChangeDirectory { .. } => event is DirectoryChanged,
            RemoteAction::CurrentDirectory => event is DirectoryRead,
            RemoteAction::ResolvePath { .. } => event is Resolved,
            RemoteAction::UploadFile { .. } => event is Uploaded,
            RemoteAction::SubmitJob { .. } => event is Submitted,
            RemoteAction::Sleep { .. } => event is Slept,
            RemoteAction::GetJob { .. } => event is JobRead,
            RemoteAction::FetchLog { .. } => event matches RemoteEvent::LogFetched(log)
                && can_quote(quoted_part(log)),
            RemoteAction::DownloadFile { .. } => event is FileDownloaded,
            RemoteAction::DisconnectFtp => event is FtpDisconnected,
            RemoteAction::Finish(_) => false,
        },
{
    lemma_place(url, base_dir, events, jobs);
    lemma_place(url, base_dir, events.drop_last(), jobs);
}

/// What a message quotes of a log that was asked for: the log, or that there is nothing
/// in it but white space, or why there is none.
pub open spec fn quoted_part(log: FetchedLog) -> Seq<char> {
    match log {
        FetchedLog::Content(text) => if forall|i: int|
            0 <= i < text@.len() ==> is_white_space(#[trigger] text@[i]) {
            "output.log file is empty"@
        } else {
            text@
        },
        FetchedLog::Unreadable(e) => "Could not read downloaded output.log: "@ + e@,
        FetchedLog::Missing(e) => "Could not download output.log from server: "@ + e@,
    }
}

/// How a job stands is told by its status, word for word: two words tell a failure, one
/// that it is done, one that it completed with an error, and any other that it is still
/// under way.
pub proof fn status_tells_how_the_job_stands(status: &str, r: JobOutcome)
    requires
        call_ensures(job_outcome, (status,), r),
    ensures
        r == JobOutcome::Done <==> status@ == "done"@,
        r == JobOutcome::Failed <==> status@ == "failed"@ || status@ == "error"@,
        r == JobOutcome::CompletedWithError <==> status@ == "CompletedWithError"@,
{
    lemma_status_words();
}

/// A failure to make a directory tells that it is there already by a code or by words,
/// anywhere in it. The message of a job that completed with an error tells the error and
/// quotes the log.
pub proof fn messages_are_read_and_written(
    e: &str,
    existing: bool,
    error: &str,
    log: &str,
    message: String,
    fetched: &FetchedLog,
    content: String,
)
    requires
        call_ensures(is_existing, (e,), existing),
        can_quote(log@),
        call_ensures(describe_failure, (error, log), message),
        call_ensures(FetchedLog::content, (fetched,), content),
    ensures
        existing <==> occurs(e@, "550"@) || occurs(e@, "File exists"@),
        message@ == "Job failed with status: CompletedWithError - "@ + ("Error: "@ + error@
            + "\nLog content: "@ + quoted_log_text(log@)),
        content@ == quoted_part(*fetched),
{
}

/// Before the first file: the settings are read once the project is named. The file
/// server is entered. A directory named after the project, with dashes for underscores,
/// is made and then entered, whether or not connecting or entering succeeds. Where the
/// run stands is read twice.
pub proof fn remote_run_prepares_its_directory(
    url: Seq<char>,
    base_dir: Seq<char>,
    events: Seq<RemoteEvent>,
    jobs: ManagerView,
)
    requires
        events.len() > 0,
        RemoteRunView::initial(url, base_dir).accepts_all(events, jobs),
    ensures
        ({
            let asked = RemoteRunView::initial(url, base_dir).asked(events, jobs);
            &&& !(asked is GetProjectName)
            &&& asked is LoadSettings <==> (events.last() matches RemoteEvent::ProjectNamed(Ok(_)))
            &&& asked matches RemoteAction::LoadSettings { file } ==> file == "@job.toml"@
            &&& asked is ConnectFtp <==> (events.last() matches RemoteEvent::SettingsLoaded(Ok(_)))
            &&& asked is MakeDirectory <==> events.last() is FtpConnected
            &&& asked matches RemoteAction::MakeDirectory { dir } ==> is_dashed(
                dir,
                told_name(events),
            )
            &&& asked is ChangeDirectory <==> (events.last() matches RemoteEvent::DirectoryMade(
                made,
            ) && serves(made))
            &&& asked matches RemoteAction::ChangeDirectory { dir } ==> is_dashed(
                dir,
                told_name(events),
            )
            &&& asked is CurrentDirectory <==> (events.last() is DirectoryChanged || (
            events.last() matches RemoteEvent::DirectoryRead(Ok(_))) && events.len() == 6)
        }),
        events.last() is DirectoryRead ==> events.len() == 6 || events.len() == 7,
{
    lemma_place(url, base_dir, events.drop_last(), jobs);
    if events.len() > 1 {
        assert(events.drop_last()[0] == events[0]);
    }
}

/// Each file is located under its name and uploaded from there, one after the other:
/// file `i` by outcomes `7 + 2 * i` and `8 + 2 * i`. Behind the last one the job is
/// submitted, with what was told of its project and its files.
pub proof fn remote_run_uploads_file_by_file(
    url: Seq<char>,
    base_dir: Seq<char>,
    events: Seq<RemoteEvent>,
    jobs: ManagerView,
    i: int,
)
    requires
        events.len() > 0,
        RemoteRunView::initial(url, base_dir).accepts_all(events, jobs),
    ensures
        ({
            let asked = RemoteRunView::initial(url, base_dir).asked(events, jobs);
            let turns = (events.last() matches RemoteEvent::Uploaded(Ok(_))) || (
            events.last() matches RemoteEvent::DirectoryRead(Ok(_))) && events.len() == 7;
            &&& asked is ResolvePath || asked is SubmitJob <==> turns
            &&& turns && events.len() == 7 + 2 * i ==> 0 <= i <= file_names(events).len()
            &&& turns && events.len() == 7 + 2 * i && i < file_names(events).len() ==> asked == (
            RemoteActionView::ResolvePath { file: file_names(events)[i] })
            &&& turns && events.len() == 7 + 2 * file_names(events).len() ==> asked == (
            RemoteActionView::SubmitJob {
                command: "job.sh"@,
                project: told_name(events),
                inputs: input_names(events),
                outputs: output_names(events),
            })
            &&& turns ==> (events.len() - 7) % 2 == 0
            &&& events.len() == 8 + 2 * i ==> (events.last() matches RemoteEvent::Resolved(
                Resolution::Path(local),
            ) ==> {
                &&& 0 <= i < file_names(events).len()
                &&& asked == match remote_names(events)[i] {
                    Some(remote) => RemoteActionView::UploadFile { local: local@, remote },
                    None => RemoteActionView::Finish(
                        Err("Invalid filename: "@ + file_names(events)[i]),
                    ),
                }
            })
            &&& events.last() is Resolved ==> (events.len() - 8) % 2 == 0
            &&& asked is UploadFile ==> events.last() is Resolved
        }),
{
    let before = events.drop_last();
    lemma_place(url, base_dir, before, jobs);
    lemma_place(url, base_dir, events, jobs);
    if events.len() > 2 {
        assert(before[0] == events[0]);
        assert(before[1] == events[1]);
        let run = RemoteRunView::initial(url, base_dir).after(before, jobs).0;
        assert(run.inputs() =~= input_names(events));
        assert(run.outputs() =~= output_names(events));
    }
}

/// The job is submitted once, and however many looks lie between, each look is at the job
/// whose id the reply to that submission told: five seconds after the submission, or after
/// a look that found it neither done nor failed.
pub proof fn remote_run_looks_at_its_job(
    url: Seq<char>,
    base_dir: Seq<char>,
    events: Seq<RemoteEvent>,
    jobs: ManagerView,
)
    requires
        events.len() > 0,
        RemoteRunView::initial(url, base_dir).accepts_all(events, jobs),
    ensures
        ({
            let asked = RemoteRunView::initial(url, base_dir).asked(events, jobs);
            &&& asked is GetJob <==> events.last() is Slept
            &&& asked matches RemoteAction::GetJob { task } ==> {
                &&& events.len() > submission(events)
                &&& told_job(events) == Some(task)
            }
            &&& asked is Sleep <==> {
                ||| events.last() matches RemoteEvent::Submitted(Ok(reply)) && json_contents(
                    reply,
                ).task_id() is Some
                ||| events.last() matches RemoteEvent::JobRead(Ok(reply)) && {
                    let status = json_contents(reply).status();
                    &&& status != "done"@
                    &&& status != "failed"@
                    &&& status != "error"@
                    &&& status != "CompletedWithError"@
                }
            }
            &&& asked matches RemoteAction::Sleep { secs } ==> secs == 5
        }),
        forall|i: int|
            0 <= i < events.len() && (#[trigger] events[i]) is Submitted ==> i == submission(
                events,
            ),
{
    let before = events.drop_last();
    lemma_place(url, base_dir, before, jobs);
    lemma_place(url, base_dir, events, jobs);
    if events.len() > 2 {
        assert(before[1] == events[1]);
        if before.len() > submission(before) {
            assert(before[submission(before)] == events[submission(before)]);
        }
    }
}

/// A job that is done has its outputs downloaded, each under its own name, one after the
/// other. Behind the last one the file server is left, and with that the run ends well,
/// whatever came of leaving.
pub proof fn remote_run_brings_the_outputs_back(
    url: Seq<char>,
    base_dir: Seq<char>,
    events: Seq<RemoteEvent>,
    jobs: ManagerView,
)
    requires
        events.len() > 0,
        RemoteRunView::initial(url, base_dir).accepts_all(events, jobs),
    ensures
        ({
            let asked = RemoteRunView::initial(url, base_dir).asked(events, jobs);
            let fetched = downloads_done(events);
            let turns = (events.last() matches RemoteEvent::FileDownloaded(Ok(_))) || (
            events.last() matches RemoteEvent::JobRead(Ok(reply)) && json_contents(reply).status()
                == "done"@);
            &&& asked is DownloadFile || asked is DisconnectFtp <==> turns
            &&& turns ==> fetched <= output_names(events).len()
            &&& turns && fetched < output_names(events).len() ==> asked == (
            RemoteActionView::DownloadFile {
                remote: output_names(events)[fetched as int],
                file: output_names(events)[fetched as int],
            })
            &&& turns && fetched == output_names(events).len() ==> asked is DisconnectFtp
            &&& (asked matches RemoteAction::Finish(Ok(_))) <==> events.last() is FtpDisconnected
        }),
{
    let before = events.drop_last();
    lemma_place(url, base_dir, before, jobs);
    if events.len() > 2 {
        assert(before[1] == events[1]);
    }
}

/// Every failure ends the run at once, and its message tells which. Connecting, entering
/// the directory and leaving the file server cannot fail the run.
pub proof fn remote_run_fails_as_told(
    url: Seq<char>,
    base_dir: Seq<char>,
    events: Seq<RemoteEvent>,
    jobs: ManagerView,
    i: int,
    dir: Seq<char>,
)
    requires
        events.len() > 0,
        RemoteRunView::initial(url, base_dir).accepts_all(events, jobs),
        events.last() is Uploaded ==> events.len() == 9 + 2 * i,
        is_dashed(dir, told_name(events)),
    ensures
        ({
            let asked = RemoteRunView::initial(url, base_dir).asked(events, jobs);
            match events.last() {
                RemoteEvent::ProjectNamed(Err(e)) => asked == RemoteActionView::Finish(Err(e@)),
                RemoteEvent::SettingsLoaded(Err(e)) => asked == RemoteActionView::Finish(Err(e@)),
                RemoteEvent::DirectoryMade(Err(e)) => if serves(Err(e)) {
                    !(asked is Finish)
                } else {
                    asked == RemoteActionView::Finish(
                        Err("Failed to create remote directory '"@ + dir + "': "@ + e@),
                    )
                },
                RemoteEvent::DirectoryRead(Err(e)) => asked == RemoteActionView::Finish(
                    Err("Failed to get current directory: "@ + e@),
                ),
                RemoteEvent::Resolved(Resolution::Unresolved { path, error }) => asked
                    == RemoteActionView::Finish(
                    Err("Cannot resolve absolute path for "@ + path@ + ": "@ + error@),
                ),
                RemoteEvent::Resolved(Resolution::NotText { path }) => asked
                    == RemoteActionView::Finish(Err("Invalid file path: "@ + path@)),
                RemoteEvent::Resolved(Resolution::Path(_)) => true,
                RemoteEvent::Uploaded(Err(e)) => {
                    &&& 0 <= i < file_names(events).len()
                    &&& asked == RemoteActionView::Finish(
                        Err("Failed to upload file "@ + file_names(events)[i] + ": "@ + e@),
                    )
                },
                RemoteEvent::Submitted(Err(e)) => asked == RemoteActionView::Finish(
                    Err("submit_job failed: "@ + e@),
                ),
                RemoteEvent::Submitted(Ok(reply)) => if json_contents(reply).task_id() is None {
                    asked == RemoteActionView::Finish(Err("[RustClient] No task ID returned"@))
                } else {
                    !(asked is Finish)
                },
                RemoteEvent::JobRead(Err(e)) => asked == RemoteActionView::Finish(
                    Err("RustClient error: "@ + e@),
                ),
                RemoteEvent::JobRead(Ok(_)) => true,
                RemoteEvent::LogFetched(_) => true,
                RemoteEvent::FileDownloaded(Err(e)) => {
                    &&& downloads_done(events) < output_names(events).len()
                    &&& asked == RemoteActionView::Finish(
                        Err(
                            "Failed to download "@ + output_names(events)[downloads_done(
                                events,
                            ) as int] + ": "@ + e@,
                        ),
                    )
                },
                RemoteEvent::FtpDisconnected(_) => true,
                _ => !(asked is Finish),
            }
        }),
{
    let before = events.drop_last();
    lemma_place(url, base_dir, before, jobs);
    let run = RemoteRunView::initial(url, base_dir).after(before, jobs).0;
    if events.len() > 2 {
        assert(before[0] == events[0]);
        assert(before[1] == events[1]);
    }
    if events.last() is DirectoryMade {
        assert(dir =~= run.job_dir());
    }
}

/// What a look at the job finds decides. A job that failed, or is in error, ends the run
/// with its status. One that completed with an error has its log fetched, into a file
/// named after the job, if the log is one of its outputs; the run ends with what the last
/// look told of the error, and with what is quoted of the log, or that there is none.
pub proof fn remote_run_heeds_the_status(
    url: Seq<char>,
    base_dir: Seq<char>,
    events: Seq<RemoteEvent>,
    jobs: ManagerView,
)
    requires
        events.len() > 0,
        RemoteRunView::initial(url, base_dir).accepts_all(events, jobs),
    ensures
        ({
            let asked = RemoteRunView::initial(url, base_dir).asked(events, jobs);
            match events.last() {
                RemoteEvent::JobRead(Ok(reply)) => {
                    let status = json_contents(reply).status();
                    if status == "failed"@ || status == "error"@ {
                        asked == RemoteActionView::Finish(Err("Job failed with status: "@ + status))
                    } else if status == "CompletedWithError"@ {
                        if output_names(events).contains("output.log"@) {
                            &&& asked matches RemoteAction::FetchLog { remote, temp }
                            &&& remote == "output.log"@
                            &&& told_job(events) matches Some(task)
                            &&& temp == "error_output_"@ + task + ".log"@
                        } else {
                            asked == RemoteActionView::Finish(
                                Err(
                                    "Job failed with status: CompletedWithError - "@ + ("Error: "@
                                        + json_contents(reply).error_message()
                                        + "\nLog content: "@
                                        + "No output.log specified in outputs"@),
                                ),
                            )
                        }
                    } else {
                        !(asked is Finish)
                    }
                },
                RemoteEvent::LogFetched(log) => {
                    &&& events.len() > 1
                    &&& events[events.len() - 2] matches RemoteEvent::JobRead(Ok(reply))
                    &&& asked == RemoteActionView::Finish(
                        Err(
                            "Job failed with status: CompletedWithError - "@ + ("Error: "@
                                + json_contents(reply).error_message() + "\nLog content: "@
                                + quoted_log_text(quoted_part(log))),
                        ),
                    )
                },
                _ => !(asked is FetchLog),
            }
        }),
{
    let before = events.drop_last();
    lemma_place(url, base_dir, before, jobs);
    let run = RemoteRunView::initial(url, base_dir).after(before, jobs).0;
    if events.len() > 2 {
        assert(before[1] == events[1]);
        assert(run.outputs() =~= output_names(events));
        if before.len() > submission(before) {
            assert(before[submission(before)] == events[submission(before)]);
        }
    }
    if events.last() is JobRead || events.last() is LogFetched {
        assert(before.last() == events[events.len() - 2]);
        lemma_short_note();
        lemma_status_words();
    }
}

proof fn lemma_short_note()
    ensures
        quoted_log_text("No output.log specified in outputs"@)
            == "No output.log specified in outputs"@,
{
    reveal_strlit("No output.log specified in outputs");
    vstd::utf8::is_ascii_chars_encode_utf8("No output.log specified in outputs"@);
}

proof fn lemma_status_words()
    ensures
        "done"@ != "failed"@,
        "done"@ != "error"@,
        "done"@ != "CompletedWithError"@,
        "failed"@ != "CompletedWithError"@,
        "error"@ != "CompletedWithError"@,
{
    reveal_strlit("done");
    reveal_strlit("failed");
    reveal_strlit("error");
    reveal_strlit("CompletedWithError");
    assert("done"@.len() == 4);
    assert("failed"@.len() == 6);
    assert("error"@.len() == 5);
    assert("CompletedWithError"@.len() == 18);
}

/// The lines that turning to file `i` adds to the log, of `n` files of which the job
/// starts from `staged`.
pub open spec fn turn_lines(i: int, staged: nat, n: nat) -> Seq<Seq<char>> {
    (if i == staged {
        seq!["[RustClient Node] Upload of Input and Script Files \n"@]
    } else {
        Seq::empty()
    }) + (if i == n {
        seq!["[RustClient Node] Job Submission started \n"@]
    } else {
        Seq::empty()
    })
}

/// What each outcome adds to the log, in the order in which it is added.
pub proof fn remote_run_logs_each_outcome(
    url: Seq<char>,
    base_dir: Seq<char>,
    events: Seq<RemoteEvent>,
    jobs: ManagerView,
    i: int,
    dir: Seq<char>,
)
    requires
        events.len() > 0,
        RemoteRunView::initial(url, base_dir).accepts_all(events, jobs),
        events.last() is Uploaded ==> events.len() == 7 + 2 * i,
        events.last() is Resolved ==> events.len() == 8 + 2 * i,
        is_dashed(dir, told_name(events)),
    ensures
        ({
            let before = RemoteRunView::initial(url, base_dir).after(events.drop_last(), jobs).1;
            let later = RemoteRunView::initial(url, base_dir).after(events, jobs).1;
            let staged = input_names(events).len();
            let n = file_names(events).len();
            let over = downloads_done(events) == output_names(events).len();
            later.log(0) == before.log(0) + match events.last() {
                RemoteEvent::ProjectNamed(Ok(_)) => seq![
                    "[RustClient Node] Job Created \n"@,
                    "[RustClient Node] Base dir: "@ + base_dir + " \n"@,
                ],
                RemoteEvent::SettingsLoaded(Ok(_)) => seq![
                    "[RustClient Node] File Vectors Created \n"@,
                ],
                RemoteEvent::FtpConnected(_) => seq![
                    "[RustClient Node] FTP Connection Started \n"@,
                    "[RustClient Node] Making Job Dir: "@ + debug_text(dir) + " \n"@,
                ],
                RemoteEvent::DirectoryMade(made) => if serves(made) {
                    seq!["[RustClient Node] Dir made\n"@]
                } else {
                    seq!["[RustClient Node] Job Dir already exists "@]
                },
                RemoteEvent::DirectoryRead(Ok(here)) => if events.len() == 6 {
                    seq!["[RustClient Node] Dir Changed to : "@ + debug_text(here@) + " \n"@]
                } else {
                    seq!["[RustClient Node] Upload of Input and Script Files \n"@] + turn_lines(
                        0,
                        staged,
                        n,
                    )
                },
                RemoteEvent::Resolved(Resolution::Path(local)) => match remote_names(events)[i] {
                    Some(remote) => seq![
                        "[RustClient Node] Upload from Local path: "@ + debug_text(local@)
                            + " \n"@,
                        "[RustClient Node] Upload to Remote path: "@ + debug_text(remote)
                            + " \n"@,
                    ],
                    None => Seq::empty(),
                },
                RemoteEvent::Uploaded(Ok(_)) => turn_lines(i, staged, n),
                RemoteEvent::Submitted(Ok(reply)) => seq![
                    "[RustClient Node] Job Submission Done \n"@,
                ] + if json_contents(reply).task_id() is Some {
                    seq!["[RustClient Node] Job Status loop started\n"@]
                } else {
                    Seq::empty()
                },
                RemoteEvent::JobRead(Ok(reply)) => if json_contents(reply).status() == "done"@ {
                    seq![
                        "[RustClient Node] Job Status loop Ended \n"@,
                        "[RustClient Node] Output File Download started \n"@,
                    ] + if over {
                        seq!["[RustClient Node] Output file download complete \n"@]
                    } else {
                        Seq::empty()
                    }
                } else {
                    Seq::empty()
                },
                RemoteEvent::FileDownloaded(Ok(_)) => if over {
                    seq!["[RustClient Node] Output file download complete \n"@]
                } else {
                    Seq::empty()
                },
                RemoteEvent::FtpDisconnected(_) => seq!["[RustClient Node] FTP disconnect \n"@],
                _ => Seq::empty(),
            }
        }),
{
    let before = events.drop_last();
    lemma_place(url, base_dir, before, jobs);
    let run = RemoteRunView::initial(url, base_dir).after(before, jobs).0;
    if events.len() > 2 {
        assert(before[0] == events[0]);
        assert(before[1] == events[1]);
    }
    if events.last() is DirectoryMade || events.last() is FtpConnected {
        assert(dir =~= run.job_dir());
    }
}

/// The job is registered with the project's name, as pending on the service's address.
/// Nothing else touches the jobs, and nothing the temporary lines, the logs of other jobs
/// or the wish to cancel.
pub proof fn remote_run_registers_the_job(
    url: Seq<char>,
    base_dir: Seq<char>,
    events: Seq<RemoteEvent>,
    jobs: ManagerView,
)
    requires
        events.len() > 0,
        RemoteRunView::initial(url, base_dir).accepts_all(events, jobs),
    ensures
        ({
            let before = RemoteRunView::initial(url, base_dir).after(events.drop_last(), jobs).1;
            let later = RemoteRunView::initial(url, base_dir).after(events, jobs).1;
            &&& later.jobs == if events.last() matches RemoteEvent::ProjectNamed(Ok(_)) {
                before.jobs.insert(
                    0,
                    JobView { id: 0, infra: InfraView::RustClient("pending-0"@, url) },
                )
            } else {
                before.jobs
            }
            &&& later.logs.remove(0) == before.logs.remove(0)
            &&& later.logs_tmp == before.logs_tmp
            &&& later.local_infra_cancel_job == before.local_infra_cancel_job
        }),
{
    let before = events.drop_last();
    lemma_place(url, base_dir, before, jobs);
    let (run, mid) = RemoteRunView::initial(url, base_dir).after(before, jobs);
    assert(run.next(events.last(), mid).2.logs.remove(0) =~= mid.logs.remove(0));
}

/// A step on a reply does what is done on what the reply tells: of a submission its job id,
/// of a look at the job its status and its error.
pub proof fn step_goes_by_what_the_reply_tells(
    one: &mut RemoteRun,
    other: &mut RemoteRun,
    jobs: &mut Manager,
    same: &mut Manager,
    reply: serde_json::Value,
    id: Option<String>,
    status: &str,
    error: String,
    a: RemoteAction,
    b: RemoteAction,
)
    requires
        old(one)@ == old(other)@,
        old(jobs)@ == old(same)@,
        match id {
            Some(id) => json_contents(reply).task_id() == Some(id@),
            None => json_contents(reply).task_id() is None,
        },
        status@ == json_contents(reply).status(),
        error@ == json_contents(reply).error_message(),
        ({
            ||| call_ensures(RemoteRun::step, (one, RemoteEvent::Submitted(Ok(reply)), jobs), a)
                && call_ensures(RemoteRun::on_task_id, (other, id, same), b)
            ||| call_ensures(RemoteRun::step, (one, RemoteEvent::JobRead(Ok(reply)), jobs), a)
                && call_ensures(RemoteRun::on_status, (other, status, error, same), b)
        }),
    ensures
        a@ == b@,
        final(one)@ == final(other)@,
        final(jobs)@ == final(same)@,
{
}

/// The model of an action holds what the action holds.
pub proof fn remote_action_is_what_it_says(action: RemoteAction)
    ensures
        match (action, action@) {
            (RemoteAction::GetProjectName, RemoteAction::GetProjectName) => true,
            (RemoteAction::LoadSettings { file }, RemoteAction::LoadSettings { file: f }) => f
                == file@,
            (RemoteAction::ConnectFtp, RemoteAction::ConnectFtp) => true,
            (RemoteAction::MakeDirectory { dir }, RemoteAction::MakeDirectory { dir: d }) => d
                == dir@,
            (RemoteAction::ChangeDirectory { dir }, RemoteAction::ChangeDirectory { dir: d }) => d
                == dir@,
            (RemoteAction::CurrentDirectory, RemoteAction::CurrentDirectory) => true,
            (RemoteAction::ResolvePath { file }, RemoteAction::ResolvePath { file: f }) => f
                == file@,
            (
                RemoteAction::UploadFile { local, remote },
                RemoteAction::UploadFile { local: l, remote: r },
            ) => l == local@ && r == remote@,
            (
                RemoteAction::SubmitJob { command, project, inputs, outputs },
                RemoteAction::SubmitJob { command: c, project: p, inputs: i, outputs: o },
            ) => {
                &&& c == command@
                &&& p == project@
                &&& i.len() == inputs@.len()
                &&& forall|k: int| 0 <= k < i.len() ==> #[trigger] i[k] == inputs@[k]@
                &&& o.len() == outputs@.len()
                &&& forall|k: int| 0 <= k < o.len() ==> #[trigger] o[k] == outputs@[k]@
            },
            (RemoteAction::Sleep { secs }, RemoteAction::Sleep { secs: s }) => s == secs,
            (RemoteAction::GetJob { task }, RemoteAction::GetJob { task: t }) => t == task@,
            (
                RemoteAction::FetchLog { remote, temp },
                RemoteAction::FetchLog { remote: r, temp: t },
            ) => r == remote@ && t == temp@,
            (
                RemoteAction::DownloadFile { remote, file },
                RemoteAction::DownloadFile { remote: r, file: f },
            ) => r == remote@ && f == file@,
            (RemoteAction::DisconnectFtp, RemoteAction::DisconnectFtp) => true,
            (RemoteAction::Finish(Ok(_)), RemoteAction::Finish(Ok(_))) => true,
            (RemoteAction::Finish(Err(e)), RemoteAction::Finish(Err(t))) => t == e@,
            _ => false,
        },
{
}

} // verus!
