//! Running a job on the computing service: the project's files go to the service's
//! file server, the job is submitted and watched, and the outputs come back.
//!
//! [`launch_job_rust_client`] gives the first action. The program performs each
//! action and hands the outcome to [`RemoteRun::step`], which gives the next one.
use vstd::prelude::*;

use crate::files::{names_of, remotes_of, NamedFile, NamedFiles};
use crate::job::{Infra, InfraView, Job, JobView, Manager, ManagerView, JOB_ID};
use crate::json::{error_message, json_contents, status, task_id};
use crate::text::{
    can_quote, contains, dashed, dashed_text, debug, debug_text, is_blank, is_blank_text,
    is_quotable, join2, join3, join4, occurs, opt_text, quoted_log, quoted_log_text, same_text,
    texts,
};

verus! {

/// How a file of the project was located on this machine.
#[derive(Debug)]
pub enum Resolution {
    /// Its absolute path.
    Path(String),
    /// It cannot be resolved: the path as debug output shows it, and why.
    Unresolved { path: String, error: String },
    /// Its absolute path, as debug output shows it, is no text.
    NotText { path: String },
}

/// What became of the log that the service keeps.
#[derive(Debug)]
pub enum FetchedLog {
    Content(String),
    /// It was fetched but cannot be read.
    Unreadable(String),
    /// It cannot be fetched.
    Missing(String),
}

/// What the run asks for. The parameters are the types of texts and of lists of
/// texts.
#[derive(Debug)]
pub enum RemoteAction<S = String, L = Vec<String>> {
    /// Find out the project's name.
    GetProjectName,
    /// Read which files the job has from `file` of the project's directory.
    LoadSettings { file: S },
    ConnectFtp,
    MakeDirectory { dir: S },
    ChangeDirectory { dir: S },
    CurrentDirectory,
    /// Locate `file` of the project's directory.
    ResolvePath { file: S },
    UploadFile { local: S, remote: S },
    SubmitJob { command: S, project: S, inputs: L, outputs: L },
    /// Wait.
    Sleep { secs: u64 },
    /// Read how the submitted job stands.
    GetJob { task: S },
    /// Fetch `remote` into the temporary file `temp`, read that and remove it.
    FetchLog { remote: S, temp: S },
    /// Fetch `remote` into `file` of the project's directory.
    DownloadFile { remote: S, file: S },
    DisconnectFtp,
    /// The run is over.
    Finish(Result<(), S>),
}

/// The model of `RemoteAction`.
pub type RemoteActionView = RemoteAction<Seq<char>, Seq<Seq<char>>>;

impl View for RemoteAction<String, Vec<String>> {
    type V = RemoteActionView;

    open spec fn view(&self) -> RemoteActionView {
        match *self {
            RemoteAction::GetProjectName => RemoteAction::GetProjectName,
            RemoteAction::LoadSettings { file } => RemoteAction::LoadSettings { file: file@ },
            RemoteAction::ConnectFtp => RemoteAction::ConnectFtp,
            RemoteAction::MakeDirectory { dir } => RemoteAction::MakeDirectory { dir: dir@ },
            RemoteAction::ChangeDirectory { dir } => RemoteAction::ChangeDirectory { dir: dir@ },
            RemoteAction::CurrentDirectory => RemoteAction::CurrentDirectory,
            RemoteAction::ResolvePath { file } => RemoteAction::ResolvePath { file: file@ },
            RemoteAction::UploadFile { local, remote } => RemoteAction::UploadFile {
                local: local@,
                remote: remote@,
            },
            RemoteAction::SubmitJob { command, project, inputs, outputs } =>
                RemoteAction::SubmitJob {
                command: command@,
                project: project@,
                inputs: texts(inputs@),
                outputs: texts(outputs@),
            },
            RemoteAction::Sleep { secs } => RemoteAction::Sleep { secs },
            RemoteAction::GetJob { task } => RemoteAction::GetJob { task: task@ },
            RemoteAction::FetchLog { remote, temp } => RemoteAction::FetchLog {
                remote: remote@,
                temp: temp@,
            },
            RemoteAction::DownloadFile { remote, file } => RemoteAction::DownloadFile {
                remote: remote@,
                file: file@,
            },
            RemoteAction::DisconnectFtp => RemoteAction::DisconnectFtp,
            RemoteAction::Finish(Ok(())) => RemoteAction::Finish(Ok(())),
            RemoteAction::Finish(Err(e)) => RemoteAction::Finish(Err(e@)),
        }
    }
}

/// The outcome of an action. Failures come with their message.
#[derive(Debug)]
pub enum RemoteEvent {
    ProjectNamed(Result<String, String>),
    SettingsLoaded(Result<NamedFiles, String>),
    FtpConnected(Result<(), String>),
    DirectoryMade(Result<(), String>),
    DirectoryChanged(Result<(), String>),
    DirectoryRead(Result<String, String>),
    Resolved(Resolution),
    Uploaded(Result<(), String>),
    Submitted(Result<serde_json::Value, String>),
    Slept,
    JobRead(Result<serde_json::Value, String>),
    LogFetched(FetchedLog),
    FileDownloaded(Result<(), String>),
    FtpDisconnected(Result<(), String>),
}

/// What the run waits for.
#[derive(Debug, Clone, Copy, PartialEq, Eq, Structural)]
pub enum RemotePhase {
    Naming,
    Loading,
    Connecting,
    MakingDirectory,
    ChangingDirectory,
    ReadingDirectory,
    /// Reading the directory once more.
    ConfirmingDirectory,
    Resolving,
    Uploading,
    Submitting,
    /// Between two looks at the job.
    Waiting,
    Polling,
    FetchingLog,
    Downloading,
    Disconnecting,
    Finished,
}

/// How a job stands.
#[derive(Debug, Clone, Copy, PartialEq, Eq, Structural)]
pub enum JobOutcome {
    Done,
    Failed,
    CompletedWithError,
    Pending,
}

/// How a job with the given status stands.
pub open spec fn outcome_of(status: Seq<char>) -> JobOutcome {
    if status == "done"@ {
        JobOutcome::Done
    } else if status == "failed"@ || status == "error"@ {
        JobOutcome::Failed
    } else if status == "CompletedWithError"@ {
        JobOutcome::CompletedWithError
    } else {
        JobOutcome::Pending
    }
}

/// How a job with the given status stands.
pub fn job_outcome(status: &str) -> (r: JobOutcome)
    ensures
        r == outcome_of(status@),
{
    if same_text(status, "done") {
        JobOutcome::Done
    } else if same_text(status, "failed") || same_text(status, "error") {
        JobOutcome::Failed
    } else if same_text(status, "CompletedWithError") {
        JobOutcome::CompletedWithError
    } else {
        JobOutcome::Pending
    }
}

/// Whether a failure to make a directory tells that it is there already.
pub open spec fn tells_existing(e: Seq<char>) -> bool {
    occurs(e, "550"@) || occurs(e, "File exists"@)
}

/// What an error message quotes of the log that the service keeps.
pub open spec fn log_content(log: FetchedLog) -> Seq<char> {
    match log {
        FetchedLog::Content(content) => if is_blank_text(content@) {
            "output.log file is empty"@
        } else {
            content@
        },
        FetchedLog::Unreadable(e) => "Could not read downloaded output.log: "@ + e@,
        FetchedLog::Missing(e) => "Could not download output.log from server: "@ + e@,
    }
}

/// The message of a job that completed with an error.
pub open spec fn failure_message(error: Seq<char>, log: Seq<char>) -> Seq<char> {
    "Job failed with status: CompletedWithError - "@ + ("Error: "@ + error + "\nLog content: "@
        + quoted_log_text(log))
}

/// A run on the computing service.
#[derive(Debug)]
pub struct RemoteRun {
    phase: RemotePhase,
    url: String,
    base_dir: String,
    project: String,
    files: Vec<NamedFile>,
    staged: usize,
    index: usize,
    task: String,
    error: String,
}

/// The model of `RemoteRun`.
#[verifier::ext_equal]
pub struct RemoteRunView {
    pub phase: RemotePhase,
    /// The service's address.
    pub url: Seq<char>,
    /// The project's directory as debug output shows it.
    pub base_dir: Seq<char>,
    /// The project's name.
    pub project: Seq<char>,
    /// The names of the files to upload: those that the job starts from, then the
    /// outputs.
    pub files: Seq<Seq<char>>,
    /// The names under which they are uploaded.
    pub remotes: Seq<Option<Seq<char>>>,
    /// How many of the files the job starts from.
    pub staged: nat,
    /// The file that is under way.
    pub index: nat,
    /// The id of the submitted job.
    pub task: Seq<char>,
    /// Why the job completed with an error.
    pub error: Seq<char>,
}

impl View for RemoteRun {
    type V = RemoteRunView;

    closed spec fn view(&self) -> RemoteRunView {
        RemoteRunView {
            phase: self.phase,
            url: self.url@,
            base_dir: self.base_dir@,
            project: self.project@,
            files: names_of(self.files@),
            remotes: remotes_of(self.files@),
            staged: self.staged as nat,
            index: self.index as nat,
            task: self.task@,
            error: self.error@,
        }
    }
}

/// The jobs with one more line in the log.
pub open spec fn noted(jobs: ManagerView, line: Seq<char>) -> ManagerView {
    jobs.add_log(JOB_ID, line)
}

impl RemoteRunView {
    /// The run before anything is done.
    pub open spec fn initial(url: Seq<char>, base_dir: Seq<char>) -> RemoteRunView {
        RemoteRunView {
            phase: RemotePhase::Naming,
            url,
            base_dir,
            project: Seq::empty(),
            files: Seq::empty(),
            remotes: Seq::empty(),
            staged: 0,
            index: 0,
            task: Seq::empty(),
            error: Seq::empty(),
        }
    }

    /// The files that the job starts from.
    pub open spec fn inputs(self) -> Seq<Seq<char>> {
        self.files.take(self.staged as int)
    }

    /// The files that the job brings forth.
    pub open spec fn outputs(self) -> Seq<Seq<char>> {
        self.files.skip(self.staged as int)
    }

    /// The project's directory on the file server.
    pub open spec fn job_dir(self) -> Seq<char> {
        dashed_text(self.project)
    }

    /// The run in another phase.
    pub open spec fn at(self, phase: RemotePhase) -> RemoteRunView {
        RemoteRunView { phase, ..self }
    }

    /// The end of the run with the message of a failure.
    pub open spec fn fail(self, e: Seq<char>, jobs: ManagerView) -> (
        RemoteRunView,
        RemoteActionView,
        ManagerView,
    ) {
        (self.at(RemotePhase::Finished), RemoteAction::Finish(Err(e)), jobs)
    }

    /// Turns to file `i` for uploading: behind the last one the job is submitted.
    pub open spec fn to_upload(self, i: nat, jobs: ManagerView) -> (
        RemoteRunView,
        RemoteActionView,
        ManagerView,
    ) {
        let jobs = if i == self.staged {
            noted(jobs, "[RustClient Node] Upload of Input and Script Files \n"@)
        } else {
            jobs
        };
        if i < self.files.len() {
            (
                RemoteRunView { phase: RemotePhase::Resolving, index: i, ..self },
                RemoteAction::ResolvePath { file: self.files[i as int] },
                jobs,
            )
        } else {
            (
                RemoteRunView { phase: RemotePhase::Submitting, index: i, ..self },
                RemoteAction::SubmitJob {
                    command: "job.sh"@,
                    project: self.project,
                    inputs: self.inputs(),
                    outputs: self.outputs(),
                },
                noted(jobs, "[RustClient Node] Job Submission started \n"@),
            )
        }
    }

    /// Turns to file `i` for downloading: behind the last one the run leaves the file
    /// server.
    pub open spec fn to_download(self, i: nat, jobs: ManagerView) -> (
        RemoteRunView,
        RemoteActionView,
        ManagerView,
    ) {
        if i < self.files.len() {
            (
                RemoteRunView { phase: RemotePhase::Downloading, index: i, ..self },
                RemoteAction::DownloadFile {
                    remote: self.files[i as int],
                    file: self.files[i as int],
                },
                jobs,
            )
        } else {
            (
                RemoteRunView { phase: RemotePhase::Disconnecting, index: i, ..self },
                RemoteAction::DisconnectFtp,
                noted(jobs, "[RustClient Node] Output file download complete \n"@),
            )
        }
    }

    /// Whether `event` is an outcome of what the run asked for. A log can be cut for
    /// quoting.
    pub open spec fn accepts(self, event: RemoteEvent) -> bool {
        match self.phase {
            RemotePhase::Naming => event is ProjectNamed,
            RemotePhase::Loading => event is SettingsLoaded,
            RemotePhase::Connecting => event is FtpConnected,
            RemotePhase::MakingDirectory => event is DirectoryMade,
            RemotePhase::ChangingDirectory => event is DirectoryChanged,
            RemotePhase::ReadingDirectory => event is DirectoryRead,
            RemotePhase::ConfirmingDirectory => event is DirectoryRead,
            RemotePhase::Resolving => event is Resolved,
            RemotePhase::Uploading => event is Uploaded,
            RemotePhase::Submitting => event is Submitted,
            RemotePhase::Waiting => event is Slept,
            RemotePhase::Polling => event is JobRead,
            RemotePhase::FetchingLog => match event {
                RemoteEvent::LogFetched(log) => can_quote(log_content(log)),
                _ => false,
            },
            RemotePhase::Downloading => event is FileDownloaded,
            RemotePhase::Disconnecting => event is FtpDisconnected,
            RemotePhase::Finished => false,
        }
    }

    /// What follows on the submission: the job is known by the id that the reply
    /// tells.
    pub open spec fn on_task_id(self, id: Option<Seq<char>>, jobs: ManagerView) -> (
        RemoteRunView,
        RemoteActionView,
        ManagerView,
    ) {
        let jobs = noted(jobs, "[RustClient Node] Job Submission Done \n"@);
        match id {
            Some(id) => (
                RemoteRunView { phase: RemotePhase::Waiting, task: id, ..self },
                RemoteAction::Sleep { secs: 5 },
                noted(jobs, "[RustClient Node] Job Status loop started\n"@),
            ),
            None => self.fail("[RustClient] No task ID returned"@, jobs),
        }
    }

    /// What follows on a look at the job: its status, and the reason of an error.
    pub open spec fn on_status(self, status: Seq<char>, error: Seq<char>, jobs: ManagerView) -> (
        RemoteRunView,
        RemoteActionView,
        ManagerView,
    ) {
        match outcome_of(status) {
            JobOutcome::Done => self.to_download(
                self.staged,
                noted(
                    noted(jobs, "[RustClient Node] Job Status loop Ended \n"@),
                    "[RustClient Node] Output File Download started \n"@,
                ),
            ),
            JobOutcome::Failed => self.fail("Job failed with status: "@ + status, jobs),
            JobOutcome::CompletedWithError => if self.outputs().contains("output.log"@) {
                (
                    RemoteRunView { phase: RemotePhase::FetchingLog, error, ..self },
                    RemoteAction::FetchLog {
                        remote: "output.log"@,
                        temp: "error_output_"@ + self.task + ".log"@,
                    },
                    jobs,
                )
            } else {
                self.fail(
                    failure_message(error, "No output.log specified in outputs"@),
                    jobs,
                )
            },
            JobOutcome::Pending => (
                self.at(RemotePhase::Waiting),
                RemoteAction::Sleep { secs: 5 },
                jobs,
            ),
        }
    }

    /// The run, the action and the jobs after `event`.
    pub open spec fn next(self, event: RemoteEvent, jobs: ManagerView) -> (
        RemoteRunView,
        RemoteActionView,
        ManagerView,
    ) {
        match event {
            RemoteEvent::ProjectNamed(Err(e)) => self.fail(e@, jobs),
            RemoteEvent::ProjectNamed(Ok(name)) => (
                RemoteRunView { phase: RemotePhase::Loading, project: name@, ..self },
                RemoteAction::LoadSettings { file: "@job.toml"@ },
                noted(
                    noted(
                        jobs.insert_job(
                            JobView {
                                id: JOB_ID,
                                infra: InfraView::RustClient("pending-0"@, self.url),
                            },
                        ),
                        "[RustClient Node] Job Created \n"@,
                    ),
                    "[RustClient Node] Base dir: "@ + self.base_dir + " \n"@,
                ),
            ),
            RemoteEvent::SettingsLoaded(Err(e)) => self.fail(e@, jobs),
            RemoteEvent::SettingsLoaded(Ok(files)) => (
                RemoteRunView {
                    phase: RemotePhase::Connecting,
                    files: names_of(files.staged@) + names_of(files.outputs@),
                    remotes: remotes_of(files.staged@) + remotes_of(files.outputs@),
                    staged: files.staged@.len(),
                    ..self
                },
                RemoteAction::ConnectFtp,
                noted(jobs, "[RustClient Node] File Vectors Created \n"@),
            ),
            RemoteEvent::FtpConnected(_) => (
                self.at(RemotePhase::MakingDirectory),
                RemoteAction::MakeDirectory { dir: self.job_dir() },
                noted(
                    noted(jobs, "[RustClient Node] FTP Connection Started \n"@),
                    "[RustClient Node] Making Job Dir: "@ + debug_text(self.job_dir()) + " \n"@,
                ),
            ),
            RemoteEvent::DirectoryMade(result) => if result is Err && !tells_existing(
                result->Err_0@,
            ) {
                self.fail(
                    "Failed to create remote directory '"@ + self.job_dir() + "': "@
                        + result->Err_0@,
                    noted(jobs, "[RustClient Node] Job Dir already exists "@),
                )
            } else {
                (
                    self.at(RemotePhase::ChangingDirectory),
                    RemoteAction::ChangeDirectory { dir: self.job_dir() },
                    noted(jobs, "[RustClient Node] Dir made\n"@),
                )
            },
            RemoteEvent::DirectoryChanged(_) => (
                self.at(RemotePhase::ReadingDirectory),
                RemoteAction::CurrentDirectory,
                jobs,
            ),
            RemoteEvent::DirectoryRead(Err(e)) => self.fail(
                "Failed to get current directory: "@ + e@,
                jobs,
            ),
            RemoteEvent::DirectoryRead(Ok(dir)) => if self.phase == RemotePhase::ReadingDirectory {
                (
                    self.at(RemotePhase::ConfirmingDirectory),
                    RemoteAction::CurrentDirectory,
                    noted(
                        jobs,
                        "[RustClient Node] Dir Changed to : "@ + debug_text(dir@) + " \n"@,
                    ),
                )
            } else {
                self.to_upload(
                    0,
                    noted(jobs, "[RustClient Node] Upload of Input and Script Files \n"@),
                )
            },
            RemoteEvent::Resolved(Resolution::Path(local)) => match self.remotes[self.index as int] {
                Some(remote) => (
                    self.at(RemotePhase::Uploading),
                    RemoteAction::UploadFile { local: local@, remote },
                    noted(
                        noted(
                            jobs,
                            "[RustClient Node] Upload from Local path: "@ + debug_text(local@)
                                + " \n"@,
                        ),
                        "[RustClient Node] Upload to Remote path: "@ + debug_text(remote)
                            + " \n"@,
                    ),
                ),
                None => self.fail(
                    "Invalid filename: "@ + self.files[self.index as int],
                    jobs,
                ),
            },
            RemoteEvent::Resolved(Resolution::Unresolved { path, error }) => self.fail(
                "Cannot resolve absolute path for "@ + path@ + ": "@ + error@,
                jobs,
            ),
            RemoteEvent::Resolved(Resolution::NotText { path }) => self.fail(
                "Invalid file path: "@ + path@,
                jobs,
            ),
            RemoteEvent::Uploaded(Ok(())) => self.to_upload(self.index + 1, jobs),
            RemoteEvent::Uploaded(Err(e)) => self.fail(
                "Failed to upload file "@ + self.files[self.index as int] + ": "@ + e@,
                jobs,
            ),
            RemoteEvent::Submitted(Err(e)) => self.fail("submit_job failed: "@ + e@, jobs),
            RemoteEvent::Submitted(Ok(reply)) => self.on_task_id(
                json_contents(reply).task_id(),
                jobs,
            ),
            RemoteEvent::Slept => (
                self.at(RemotePhase::Polling),
                RemoteAction::GetJob { task: self.task },
                jobs,
            ),
            RemoteEvent::JobRead(Err(e)) => self.fail("RustClient error: "@ + e@, jobs),
            RemoteEvent::JobRead(Ok(reply)) => self.on_status(
                json_contents(reply).status(),
                json_contents(reply).error_message(),
                jobs,
            ),
            RemoteEvent::LogFetched(log) => self.fail(
                failure_message(self.error, log_content(log)),
                jobs,
            ),
            RemoteEvent::FileDownloaded(Ok(())) => self.to_download(self.index + 1, jobs),
            RemoteEvent::FileDownloaded(Err(e)) => self.fail(
                "Failed to download "@ + self.files[self.index as int] + ": "@ + e@,
                jobs,
            ),
            RemoteEvent::FtpDisconnected(_) => (
                self.at(RemotePhase::Finished),
                RemoteAction::Finish(Ok(())),
                noted(jobs, "[RustClient Node] FTP disconnect \n"@),
            ),
        }
    }
}

/// The names of `files` from `from` up to `to`.
fn copy_names(files: &Vec<NamedFile>, from: usize, to: usize) -> (r: Vec<String>)
    requires
        from <= to <= files.len(),
    ensures
        texts(r@) == names_of(files@).subrange(from as int, to as int),
{
    let mut r: Vec<String> = Vec::new();
    let mut i: usize = from;
    while i < to
        invariant
            from <= i <= to <= files.len(),
            texts(r@) == names_of(files@).subrange(from as int, i as int),
        decreases to - i,
    {
        let ghost so_far = r@;
        let name = files[i].name.clone();
        r.push(name);
        assert(texts(r@) =~= texts(so_far).push(name@));
        i = i + 1;
        assert(texts(r@) =~= names_of(files@).subrange(from as int, i as int));
    }
    r
}

impl FetchedLog {
    /// What an error message quotes of the log.
    pub fn content(&self) -> (r: String)
        ensures
            r@ == log_content(*self),
    {
        match self {
            FetchedLog::Content(content) => {
                if is_blank(content.as_str()) {
                    "output.log file is empty".to_string()
                } else {
                    content.clone()
                }
            },
            FetchedLog::Unreadable(e) => join2(
                "Could not read downloaded output.log: ",
                e.as_str(),
            ),
            FetchedLog::Missing(e) => join2(
                "Could not download output.log from server: ",
                e.as_str(),
            ),
        }
    }
}

/// The message of a job that completed with an error.
pub fn describe_failure(error: &str, log: &str) -> (r: String)
    requires
        can_quote(log@),
    ensures
        r@ == failure_message(error@, log@),
{
    let quoted = quoted_log(log);
    let told = join4("Error: ", error, "\nLog content: ", quoted.as_str());
    join2("Job failed with status: CompletedWithError - ", told.as_str())
}

/// Whether a failure to make a directory tells that it is there already.
pub fn is_existing(e: &str) -> (r: bool)
    ensures
        r == tells_existing(e@),
{
    contains(e, "550") || contains(e, "File exists")
}

fn note(jobs: &mut Manager, line: String)
    ensures
        final(jobs)@ == noted(old(jobs)@, line@),
{
    jobs.add_log(JOB_ID, line);
}

/// Starts a run of the project in the directory that debug output shows as
/// `base_dir`, on the service at `url`.
pub fn launch_job_rust_client(url: String, base_dir: String, jobs: &mut Manager) -> (r: (
    RemoteRun,
    RemoteAction,
))
    ensures
        r.0.wf(),
        r.0@ == RemoteRunView::initial(url@, base_dir@),
        r.1@ == RemoteActionView::GetProjectName,
        final(jobs)@ == noted(old(jobs)@, "[RustClient Node] Launch Job started \n"@),
{
    note(jobs, "[RustClient Node] Launch Job started \n".to_string());
    let run = RemoteRun {
        phase: RemotePhase::Naming,
        url,
        base_dir,
        project: String::new(),
        files: Vec::new(),
        staged: 0,
        index: 0,
        task: String::new(),
        error: String::new(),
    };
    assert(names_of(run.files@) =~= Seq::<Seq<char>>::empty());
    assert(remotes_of(run.files@) =~= Seq::<Option<Seq<char>>>::empty());
    (run, RemoteAction::GetProjectName)
}

impl RemoteRun {
    /// Whether the file under way is one of the run's files.
    pub closed spec fn wf(&self) -> bool {
        &&& self.staged <= self.files.len()
        &&& self.phase == RemotePhase::Resolving || self.phase == RemotePhase::Uploading
            || self.phase == RemotePhase::Downloading ==> self.index < self.files.len()
    }

    /// Whether `event` is an outcome of what the run asked for.
    pub fn accepts(&self, event: &RemoteEvent) -> (r: bool)
        ensures
            r == self@.accepts(*event),
    {
        match (self.phase, event) {
            (RemotePhase::Naming, RemoteEvent::ProjectNamed(_)) => true,
            (RemotePhase::Loading, RemoteEvent::SettingsLoaded(_)) => true,
            (RemotePhase::Connecting, RemoteEvent::FtpConnected(_)) => true,
            (RemotePhase::MakingDirectory, RemoteEvent::DirectoryMade(_)) => true,
            (RemotePhase::ChangingDirectory, RemoteEvent::DirectoryChanged(_)) => true,
            (RemotePhase::ReadingDirectory, RemoteEvent::DirectoryRead(_)) => true,
            (RemotePhase::ConfirmingDirectory, RemoteEvent::DirectoryRead(_)) => true,
            (RemotePhase::Resolving, RemoteEvent::Resolved(_)) => true,
            (RemotePhase::Uploading, RemoteEvent::Uploaded(_)) => true,
            (RemotePhase::Submitting, RemoteEvent::Submitted(_)) => true,
            (RemotePhase::Waiting, RemoteEvent::Slept) => true,
            (RemotePhase::Polling, RemoteEvent::JobRead(_)) => true,
            (RemotePhase::FetchingLog, RemoteEvent::LogFetched(log)) => is_quotable(
                log.content().as_str(),
            ),
            (RemotePhase::Downloading, RemoteEvent::FileDownloaded(_)) => true,
            (RemotePhase::Disconnecting, RemoteEvent::FtpDisconnected(_)) => true,
            _ => false,
        }
    }

    fn fail(&mut self, e: String, jobs: &mut Manager) -> (action: RemoteAction)
        requires
            old(self).wf(),
        ensures
            final(self).wf(),
            (final(self)@, action@, final(jobs)@) == old(self)@.fail(e@, old(jobs)@),
    {
        self.phase = RemotePhase::Finished;
        RemoteAction::Finish(Err(e))
    }

    fn to_upload(&mut self, i: usize, jobs: &mut Manager) -> (action: RemoteAction)
        requires
            old(self).wf(),
            i <= old(self)@.files.len(),
        ensures
            final(self).wf(),
            (final(self)@, action@, final(jobs)@) == old(self)@.to_upload(i as nat, old(jobs)@),
    {
        if i == self.staged {
            note(jobs, "[RustClient Node] Upload of Input and Script Files \n".to_string());
        }
        self.index = i;
        if i < self.files.len() {
            self.phase = RemotePhase::Resolving;
            RemoteAction::ResolvePath { file: self.files[i].name.clone() }
        } else {
            note(jobs, "[RustClient Node] Job Submission started \n".to_string());
            self.phase = RemotePhase::Submitting;
            RemoteAction::SubmitJob {
                command: "job.sh".to_string(),
                project: self.project.clone(),
                inputs: copy_names(&self.files, 0, self.staged),
                outputs: copy_names(&self.files, self.staged, self.files.len()),
            }
        }
    }

    fn to_download(&mut self, i: usize, jobs: &mut Manager) -> (action: RemoteAction)
        requires
            old(self).wf(),
            i <= old(self)@.files.len(),
        ensures
            final(self).wf(),
            (final(self)@, action@, final(jobs)@) == old(self)@.to_download(i as nat, old(jobs)@),
    {
        self.index = i;
        if i < self.files.len() {
            self.phase = RemotePhase::Downloading;
            RemoteAction::DownloadFile {
                remote: self.files[i].name.clone(),
                file: self.files[i].name.clone(),
            }
        } else {
            note(jobs, "[RustClient Node] Output file download complete \n".to_string());
            self.phase = RemotePhase::Disconnecting;
            RemoteAction::DisconnectFtp
        }
    }

    /// Whether the job brings forth a file of that name.
    fn has_output(&self, name: &str) -> (r: bool)
        requires
            self.wf(),
        ensures
            r == self@.outputs().contains(name@),
    {
        let mut i: usize = self.staged;
        while i < self.files.len()
            invariant
                self.staged <= i <= self.files.len(),
                forall|k: int|
                    0 <= k < i - self.staged ==> #[trigger] self@.outputs()[k] != name@,
            decreases self.files.len() - i,
        {
            assert(self@.outputs()[i - self.staged] == self.files@[i as int].name@);
            if same_text(self.files[i].name.as_str(), name) {
                return true;
            }
            i = i + 1;
        }
        false
    }

    fn on_project_name(&mut self, name: String, jobs: &mut Manager) -> (action: RemoteAction)
        requires
            old(self).wf(),
        ensures
            final(self).wf(),
            (final(self)@, action@, final(jobs)@) == old(self)@.next(
                RemoteEvent::ProjectNamed(Ok(name)),
                old(jobs)@,
            ),
    {
        let infra = Infra::RustClient("pending-0".to_string(), self.url.clone());
        jobs.insert_job(Job { id: JOB_ID, infra });
        note(jobs, "[RustClient Node] Job Created \n".to_string());
        note(jobs, join3("[RustClient Node] Base dir: ", self.base_dir.as_str(), " \n"));
        self.project = name;
        self.phase = RemotePhase::Loading;
        RemoteAction::LoadSettings { file: "@job.toml".to_string() }
    }

    fn on_settings(&mut self, files: NamedFiles, jobs: &mut Manager) -> (action: RemoteAction)
        ensures
            final(self).wf(),
            (final(self)@, action@, final(jobs)@) == old(self)@.next(
                RemoteEvent::SettingsLoaded(Ok(files)),
                old(jobs)@,
            ),
    {
        let staged: usize = files.staged.len();
        let mut all = files.staged;
        let mut outputs = files.outputs;
        all.append(&mut outputs);
        assert(names_of(all@) =~= names_of(files.staged@) + names_of(files.outputs@));
        assert(remotes_of(all@) =~= remotes_of(files.staged@) + remotes_of(files.outputs@));
        self.files = all;
        self.staged = staged;
        note(jobs, "[RustClient Node] File Vectors Created \n".to_string());
        self.phase = RemotePhase::Connecting;
        RemoteAction::ConnectFtp
    }

    fn on_connected(&mut self, jobs: &mut Manager) -> (action: RemoteAction)
        requires
            old(self).wf(),
        ensures
            final(self).wf(),
            (final(self)@, action@, final(jobs)@) == old(self)@.next(
                RemoteEvent::FtpConnected(Ok(())),
                old(jobs)@,
            ),
    {
        note(jobs, "[RustClient Node] FTP Connection Started \n".to_string());
        let dir = dashed(self.project.as_str());
        let shown = debug(dir.as_str());
        note(jobs, join3("[RustClient Node] Making Job Dir: ", shown.as_str(), " \n"));
        self.phase = RemotePhase::MakingDirectory;
        RemoteAction::MakeDirectory { dir }
    }

    fn on_directory(&mut self, result: Result<(), String>, jobs: &mut Manager) -> (action:
        RemoteAction)
        requires
            old(self).wf(),
        ensures
            final(self).wf(),
            (final(self)@, action@, final(jobs)@) == old(self)@.next(
                RemoteEvent::DirectoryMade(result),
                old(jobs)@,
            ),
    {
        let dir = dashed(self.project.as_str());
        match result {
            Err(e) => {
                if !is_existing(e.as_str()) {
                    note(jobs, "[RustClient Node] Job Dir already exists ".to_string());
                    let message = join4(
                        "Failed to create remote directory '",
                        dir.as_str(),
                        "': ",
                        e.as_str(),
                    );
                    return self.fail(message, jobs);
                }
            },
            Ok(()) => {},
        }
        note(jobs, "[RustClient Node] Dir made\n".to_string());
        self.phase = RemotePhase::ChangingDirectory;
        RemoteAction::ChangeDirectory { dir }
    }

    fn on_current_directory(&mut self, dir: String, jobs: &mut Manager) -> (action: RemoteAction)
        requires
            old(self).wf(),
        ensures
            final(self).wf(),
            (final(self)@, action@, final(jobs)@) == old(self)@.next(
                RemoteEvent::DirectoryRead(Ok(dir)),
                old(jobs)@,
            ),
    {
        if self.phase == RemotePhase::ReadingDirectory {
            let shown = debug(dir.as_str());
            note(jobs, join3("[RustClient Node] Dir Changed to : ", shown.as_str(), " \n"));
            self.phase = RemotePhase::ConfirmingDirectory;
            RemoteAction::CurrentDirectory
        } else {
            note(jobs, "[RustClient Node] Upload of Input and Script Files \n".to_string());
            self.to_upload(0, jobs)
        }
    }

    fn on_resolved(&mut self, resolution: Resolution, jobs: &mut Manager) -> (action: RemoteAction)
        requires
            old(self).wf(),
            old(self)@.phase == RemotePhase::Resolving,
        ensures
            final(self).wf(),
            (final(self)@, action@, final(jobs)@) == old(self)@.next(
                RemoteEvent::Resolved(resolution),
                old(jobs)@,
            ),
    {
        match resolution {
            Resolution::Path(local) => {
                let remote = match &self.files[self.index].remote {
                    Some(remote) => remote.clone(),
                    None => {
                        let name = self.files[self.index].name.as_str();
                        let message = join2("Invalid filename: ", name);
                        return self.fail(message, jobs);
                    },
                };
                let shown = debug(local.as_str());
                note(
                    jobs,
                    join3("[RustClient Node] Upload from Local path: ", shown.as_str(), " \n"),
                );
                let shown = debug(remote.as_str());
                note(
                    jobs,
                    join3("[RustClient Node] Upload to Remote path: ", shown.as_str(), " \n"),
                );
                self.phase = RemotePhase::Uploading;
                RemoteAction::UploadFile { local, remote }
            },
            Resolution::Unresolved { path, error } => {
                let message = join4(
                    "Cannot resolve absolute path for ",
                    path.as_str(),
                    ": ",
                    error.as_str(),
                );
                self.fail(message, jobs)
            },
            Resolution::NotText { path } => {
                let message = join2("Invalid file path: ", path.as_str());
                self.fail(message, jobs)
            },
        }
    }

    /// Goes on with the id that the reply to the submission tells.
    pub fn on_task_id(&mut self, id: Option<String>, jobs: &mut Manager) -> (action: RemoteAction)
        requires
            old(self).wf(),
            old(self)@.phase == RemotePhase::Submitting,
        ensures
            final(self).wf(),
            (final(self)@, action@, final(jobs)@) == old(self)@.on_task_id(
                opt_text(id),
                old(jobs)@,
            ),
    {
        note(jobs, "[RustClient Node] Job Submission Done \n".to_string());
        match id {
            Some(id) => {
                note(jobs, "[RustClient Node] Job Status loop started\n".to_string());
                self.task = id;
                self.phase = RemotePhase::Waiting;
                RemoteAction::Sleep { secs: 5 }
            },
            None => self.fail("[RustClient] No task ID returned".to_string(), jobs),
        }
    }

    /// Goes on with the status of the job, and with the reason of an error.
    pub fn on_status(&mut self, status: &str, error: String, jobs: &mut Manager) -> (action:
        RemoteAction)
        requires
            old(self).wf(),
            old(self)@.phase == RemotePhase::Polling,
        ensures
            final(self).wf(),
            (final(self)@, action@, final(jobs)@) == old(self)@.on_status(
                status@,
                error@,
                old(jobs)@,
            ),
    {
        match job_outcome(status) {
            JobOutcome::Done => {
                note(jobs, "[RustClient Node] Job Status loop Ended \n".to_string());
                note(jobs, "[RustClient Node] Output File Download started \n".to_string());
                let first: usize = self.staged;
                self.to_download(first, jobs)
            },
            JobOutcome::Failed => {
                let message = join2("Job failed with status: ", status);
                self.fail(message, jobs)
            },
            JobOutcome::CompletedWithError => {
                if self.has_output("output.log") {
                    self.error = error;
                    self.phase = RemotePhase::FetchingLog;
                    RemoteAction::FetchLog {
                        remote: "output.log".to_string(),
                        temp: join3("error_output_", self.task.as_str(), ".log"),
                    }
                } else {
                    proof {
                        lemma_short_log();
                    }
                    let message = describe_failure(
                        error.as_str(),
                        "No output.log specified in outputs",
                    );
                    self.fail(message, jobs)
                }
            },
            JobOutcome::Pending => {
                self.phase = RemotePhase::Waiting;
                RemoteAction::Sleep { secs: 5 }
            },
        }
    }

    /// Takes the outcome of the last action and gives the next one.
    pub fn step(&mut self, event: RemoteEvent, jobs: &mut Manager) -> (action: RemoteAction)
        requires
            old(self).wf(),
            old(self)@.accepts(event),
        ensures
            final(self).wf(),
            (final(self)@, action@, final(jobs)@) == old(self)@.next(event, old(jobs)@),
    {
        match event {
            RemoteEvent::ProjectNamed(Err(e)) => self.fail(e, jobs),
            RemoteEvent::ProjectNamed(Ok(name)) => self.on_project_name(name, jobs),
            RemoteEvent::SettingsLoaded(Err(e)) => self.fail(e, jobs),
            RemoteEvent::SettingsLoaded(Ok(files)) => self.on_settings(files, jobs),
            RemoteEvent::FtpConnected(_) => self.on_connected(jobs),
            RemoteEvent::DirectoryMade(result) => self.on_directory(result, jobs),
            RemoteEvent::DirectoryChanged(_) => {
                self.phase = RemotePhase::ReadingDirectory;
                RemoteAction::CurrentDirectory
            },
            RemoteEvent::DirectoryRead(Err(e)) => {
                let message = join2("Failed to get current directory: ", e.as_str());
                self.fail(message, jobs)
            },
            RemoteEvent::DirectoryRead(Ok(dir)) => self.on_current_directory(dir, jobs),
            RemoteEvent::Resolved(resolution) => self.on_resolved(resolution, jobs),
            RemoteEvent::Uploaded(Ok(())) => {
                let i: usize = self.index + 1;
                self.to_upload(i, jobs)
            },
            RemoteEvent::Uploaded(Err(e)) => {
                let message = join4(
                    "Failed to upload file ",
                    self.files[self.index].name.as_str(),
                    ": ",
                    e.as_str(),
                );
                self.fail(message, jobs)
            },
            RemoteEvent::Submitted(Err(e)) => {
                let message = join2("submit_job failed: ", e.as_str());
                self.fail(message, jobs)
            },
            RemoteEvent::Submitted(Ok(reply)) => self.on_task_id(task_id(&reply), jobs),
            RemoteEvent::Slept => {
                self.phase = RemotePhase::Polling;
                RemoteAction::GetJob { task: self.task.clone() }
            },
            RemoteEvent::JobRead(Err(e)) => {
                let message = join2("RustClient error: ", e.as_str());
                self.fail(message, jobs)
            },
            RemoteEvent::JobRead(Ok(reply)) => {
                let told = status(&reply);
                self.on_status(told.as_str(), error_message(&reply), jobs)
            },
            RemoteEvent::LogFetched(log) => {
                let content = log.content();
                let message = describe_failure(self.error.as_str(), content.as_str());
                self.fail(message, jobs)
            },
            RemoteEvent::FileDownloaded(Ok(())) => {
                let i: usize = self.index + 1;
                self.to_download(i, jobs)
            },
            RemoteEvent::FileDownloaded(Err(e)) => {
                let message = join4(
                    "Failed to download ",
                    self.files[self.index].name.as_str(),
                    ": ",
                    e.as_str(),
                );
                self.fail(message, jobs)
            },
            RemoteEvent::FtpDisconnected(_) => {
                note(jobs, "[RustClient Node] FTP disconnect \n".to_string());
                self.phase = RemotePhase::Finished;
                RemoteAction::Finish(Ok(()))
            },
        }
    }
}

proof fn lemma_short_log()
    ensures
        can_quote("No output.log specified in outputs"@),
{
    reveal_strlit("No output.log specified in outputs");
    let s = "No output.log specified in outputs"@;
    vstd::utf8::is_ascii_chars_encode_utf8(s);
}

} // verus!
