use job_runner::files::{JobFiles, NamedFile, NamedFiles};
use job_runner::job::{Infra, Manager};
use job_runner::remote::{
    describe_failure, is_existing, job_outcome, launch_job_rust_client, FetchedLog, JobOutcome,
    RemoteEvent, RemoteRun, Resolution,
};
use serde_json::Value;

fn value(text: &str) -> Value {
    serde_json::from_str(text).unwrap()
}

fn strings(list: &[&str]) -> Vec<String> {
    list.iter().map(|s| s.to_string()).collect()
}

fn files(inputs: &[&str], scripts: &[&str], outputs: &[&str]) -> NamedFiles {
    let listed = JobFiles {
        inputs: strings(inputs),
        outputs: strings(outputs),
        scripts: strings(scripts),
    };
    listed.named().unwrap()
}

fn step(run: &mut RemoteRun, event: RemoteEvent, jobs: &mut Manager) -> String {
    assert!(run.accepts(&event));
    format!("{:?}", run.step(event, jobs))
}

fn start(jobs: &mut Manager) -> RemoteRun {
    let (run, action) =
        launch_job_rust_client("https://s".to_string(), "\"/home/p\"".to_string(), jobs);
    assert_eq!(format!("{:?}", action), "GetProjectName");
    run
}

fn named(jobs: &mut Manager) -> RemoteRun {
    let mut run = start(jobs);
    step(&mut run, RemoteEvent::ProjectNamed(Ok("my_proj".to_string())), jobs);
    run
}

fn confirming(jobs: &mut Manager, list: NamedFiles) -> RemoteRun {
    let mut run = named(jobs);
    step(&mut run, RemoteEvent::SettingsLoaded(Ok(list)), jobs);
    step(&mut run, RemoteEvent::FtpConnected(Ok(())), jobs);
    step(&mut run, RemoteEvent::DirectoryMade(Ok(())), jobs);
    step(&mut run, RemoteEvent::DirectoryChanged(Ok(())), jobs);
    step(&mut run, RemoteEvent::DirectoryRead(Ok("/u/my-proj".to_string())), jobs);
    run
}

/// A run without files, up to the look at the job.
fn polling(jobs: &mut Manager, outputs: &[&str]) -> RemoteRun {
    let mut run = confirming(jobs, files(&[], &[], outputs));
    step(&mut run, RemoteEvent::DirectoryRead(Ok("/u/my-proj".to_string())), jobs);
    for _ in outputs {
        step(&mut run, RemoteEvent::Resolved(Resolution::Path("/l".to_string())), jobs);
        step(&mut run, RemoteEvent::Uploaded(Ok(())), jobs);
    }
    step(&mut run, RemoteEvent::Submitted(Ok(value("\"t1\""))), jobs);
    step(&mut run, RemoteEvent::Slept, jobs);
    run
}

#[test]
fn remote_run_goes_its_whole_way() {
    let mut jobs = Manager::new();
    let mut run = start(&mut jobs);
    assert_eq!(
        step(&mut run, RemoteEvent::ProjectNamed(Ok("my_proj".to_string())), &mut jobs),
        "LoadSettings { file: \"@job.toml\" }"
    );
    match &jobs.jobs.get(&0).unwrap().infra {
        Infra::RustClient(id, url) => {
            assert_eq!(id, "pending-0");
            assert_eq!(url, "https://s");
        }
        other => panic!("{:?}", other),
    }
    let list = files(&["data/in.gro"], &["scripts/job.sh"], &["out/output.log", "res.xtc"]);
    assert_eq!(step(&mut run, RemoteEvent::SettingsLoaded(Ok(list)), &mut jobs), "ConnectFtp");
    assert_eq!(
        step(&mut run, RemoteEvent::FtpConnected(Err("ignored".to_string())), &mut jobs),
        "MakeDirectory { dir: \"my-proj\" }"
    );
    assert_eq!(
        step(&mut run, RemoteEvent::DirectoryMade(Err("550 there".to_string())), &mut jobs),
        "ChangeDirectory { dir: \"my-proj\" }"
    );
    assert_eq!(
        step(&mut run, RemoteEvent::DirectoryChanged(Err("ignored".to_string())), &mut jobs),
        "CurrentDirectory"
    );
    assert_eq!(
        step(&mut run, RemoteEvent::DirectoryRead(Ok("/u/my-proj".to_string())), &mut jobs),
        "CurrentDirectory"
    );
    let mut asked = step(
        &mut run,
        RemoteEvent::DirectoryRead(Ok("/u/my-proj".to_string())),
        &mut jobs,
    );
    for name in ["in.gro", "job.sh", "output.log", "res.xtc"] {
        assert_eq!(asked, format!("ResolvePath {{ file: {:?} }}", name));
        let local = format!("/home/p/{}", name);
        assert_eq!(
            step(&mut run, RemoteEvent::Resolved(Resolution::Path(local.clone())), &mut jobs),
            format!("UploadFile {{ local: {:?}, remote: {:?} }}", local, name)
        );
        asked = step(&mut run, RemoteEvent::Uploaded(Ok(())), &mut jobs);
    }
    assert_eq!(
        asked,
        "SubmitJob { command: \"job.sh\", project: \"my_proj\", inputs: [\"in.gro\", \"job.sh\"], \
         outputs: [\"output.log\", \"res.xtc\"] }"
    );
    assert_eq!(
        step(
            &mut run,
            RemoteEvent::Submitted(Ok(value(r#"{"SubmitJob": "t9"}"#))),
            &mut jobs
        ),
        "Sleep { secs: 5 }"
    );
    assert_eq!(step(&mut run, RemoteEvent::Slept, &mut jobs), "GetJob { task: \"t9\" }");
    assert_eq!(
        step(&mut run, RemoteEvent::JobRead(Ok(value(r#"{"status": "running"}"#))), &mut jobs),
        "Sleep { secs: 5 }"
    );
    step(&mut run, RemoteEvent::Slept, &mut jobs);
    assert_eq!(
        step(&mut run, RemoteEvent::JobRead(Ok(value(r#"{"status": "done"}"#))), &mut jobs),
        "DownloadFile { remote: \"output.log\", file: \"output.log\" }"
    );
    assert_eq!(
        step(&mut run, RemoteEvent::FileDownloaded(Ok(())), &mut jobs),
        "DownloadFile { remote: \"res.xtc\", file: \"res.xtc\" }"
    );
    assert_eq!(step(&mut run, RemoteEvent::FileDownloaded(Ok(())), &mut jobs), "DisconnectFtp");
    assert_eq!(
        step(&mut run, RemoteEvent::FtpDisconnected(Err("ignored".to_string())), &mut jobs),
        "Finish(Ok(()))"
    );
    assert!(!run.accepts(&RemoteEvent::Slept));

    let node = |line: &str| format!("[RustClient Node] {}", line);
    let mut expected = vec![
        node("Launch Job started \n"),
        node("Job Created \n"),
        node("Base dir: \"/home/p\" \n"),
        node("File Vectors Created \n"),
        node("FTP Connection Started \n"),
        node("Making Job Dir: \"my-proj\" \n"),
        node("Dir made\n"),
        node("Dir Changed to : \"/u/my-proj\" \n"),
        node("Upload of Input and Script Files \n"),
    ];
    for name in ["in.gro", "job.sh"] {
        expected.push(node(&format!("Upload from Local path: \"/home/p/{}\" \n", name)));
        expected.push(node(&format!("Upload to Remote path: {:?} \n", name)));
    }
    expected.push(node("Upload of Input and Script Files \n"));
    for name in ["output.log", "res.xtc"] {
        expected.push(node(&format!("Upload from Local path: \"/home/p/{}\" \n", name)));
        expected.push(node(&format!("Upload to Remote path: {:?} \n", name)));
    }
    expected.push(node("Job Submission started \n"));
    expected.push(node("Job Submission Done \n"));
    expected.push(node("Job Status loop started\n"));
    expected.push(node("Job Status loop Ended \n"));
    expected.push(node("Output File Download started \n"));
    expected.push(node("Output file download complete \n"));
    expected.push(node("FTP disconnect \n"));
    assert_eq!(jobs.logs[&0], expected);
}

#[test]
fn debug_output_is_escaped() {
    let mut jobs = Manager::new();
    let mut run = confirming(&mut jobs, files(&["a"], &[], &[]));
    step(&mut run, RemoteEvent::DirectoryRead(Ok("d".to_string())), &mut jobs);
    let local = "/x/\"q\"\t\u{e9}";
    step(&mut run, RemoteEvent::Resolved(Resolution::Path(local.to_string())), &mut jobs);
    let lines = &jobs.logs[&0];
    assert_eq!(
        lines[lines.len() - 2],
        format!("[RustClient Node] Upload from Local path: {:?} \n", local)
    );
    assert!(lines[lines.len() - 2].contains("\\\"q\\\"\\t"));
}

#[test]
fn run_without_files_submits_at_once() {
    let mut jobs = Manager::new();
    let mut run = confirming(&mut jobs, files(&[], &[], &[]));
    assert_eq!(
        step(&mut run, RemoteEvent::DirectoryRead(Ok("d".to_string())), &mut jobs),
        "SubmitJob { command: \"job.sh\", project: \"my_proj\", inputs: [], outputs: [] }"
    );
    let uploads = jobs.logs[&0]
        .iter()
        .filter(|l| l.as_str() == "[RustClient Node] Upload of Input and Script Files \n")
        .count();
    assert_eq!(uploads, 2);
    step(&mut run, RemoteEvent::Submitted(Ok(value("\"t\""))), &mut jobs);
    step(&mut run, RemoteEvent::Slept, &mut jobs);
    assert_eq!(
        step(&mut run, RemoteEvent::JobRead(Ok(value(r#"{"status": "done"}"#))), &mut jobs),
        "DisconnectFtp"
    );
}

#[test]
fn file_without_a_remote_name_ends_the_run() {
    let mut jobs = Manager::new();
    let list = NamedFiles {
        staged: vec![
            NamedFile { name: "a".to_string(), remote: Some("b".to_string()) },
            NamedFile { name: "c".to_string(), remote: None },
        ],
        outputs: vec![],
    };
    let mut run = confirming(&mut jobs, list);
    assert_eq!(
        step(&mut run, RemoteEvent::DirectoryRead(Ok("d".to_string())), &mut jobs),
        "ResolvePath { file: \"a\" }"
    );
    assert_eq!(
        step(&mut run, RemoteEvent::Resolved(Resolution::Path("/p/a".to_string())), &mut jobs),
        "UploadFile { local: \"/p/a\", remote: \"b\" }"
    );
    assert_eq!(
        step(&mut run, RemoteEvent::Uploaded(Ok(())), &mut jobs),
        "ResolvePath { file: \"c\" }"
    );
    let log = jobs.logs[&0].clone();
    assert_eq!(
        step(&mut run, RemoteEvent::Resolved(Resolution::Path("/p/c".to_string())), &mut jobs),
        "Finish(Err(\"Invalid filename: c\"))"
    );
    assert_eq!(jobs.logs[&0], log);
}

#[test]
fn remote_run_leaves_the_wish_to_cancel() {
    for wish in [false, true] {
        let mut jobs = Manager::new();
        jobs.local_infra_cancel_job = wish;
        let mut run = polling(&mut jobs, &[]);
        step(&mut run, RemoteEvent::JobRead(Ok(value(r#"{"status": "done"}"#))), &mut jobs);
        step(&mut run, RemoteEvent::FtpDisconnected(Ok(())), &mut jobs);
        assert_eq!(jobs.local_infra_cancel_job, wish);
        assert!(jobs.has_job(0));
    }
}

#[test]
fn existing_directory_is_told_by_its_failure() {
    assert!(is_existing("550"));
    assert!(is_existing("x File exists y"));
    assert!(!is_existing("530 not logged in"));
    let mut jobs = Manager::new();
    let mut run = named(&mut jobs);
    step(&mut run, RemoteEvent::SettingsLoaded(Ok(files(&[], &[], &[]))), &mut jobs);
    step(&mut run, RemoteEvent::FtpConnected(Ok(())), &mut jobs);
    assert_eq!(
        step(&mut run, RemoteEvent::DirectoryMade(Err("530 denied".to_string())), &mut jobs),
        format!(
            "Finish(Err({:?}))",
            "Failed to create remote directory 'my-proj': 530 denied"
        )
    );
    assert_eq!(jobs.logs[&0].last().unwrap(), "[RustClient Node] Job Dir already exists ");
}

#[test]
fn remote_failures_before_the_submission() {
    let bad = || "bad".to_string();
    let mut jobs = Manager::new();

    let mut run = start(&mut jobs);
    assert_eq!(
        step(&mut run, RemoteEvent::ProjectNamed(Err(bad())), &mut jobs),
        "Finish(Err(\"bad\"))"
    );
    assert!(!jobs.has_job(0));

    let mut run = named(&mut jobs);
    assert_eq!(
        step(&mut run, RemoteEvent::SettingsLoaded(Err(bad())), &mut jobs),
        "Finish(Err(\"bad\"))"
    );

    let mut run = confirming(&mut jobs, files(&[], &[], &[]));
    assert_eq!(
        step(&mut run, RemoteEvent::DirectoryRead(Err(bad())), &mut jobs),
        "Finish(Err(\"Failed to get current directory: bad\"))"
    );

    let one = || files(&["d/f"], &[], &[]);
    let mut run = confirming(&mut jobs, one());
    step(&mut run, RemoteEvent::DirectoryRead(Ok("d".to_string())), &mut jobs);
    let unresolved = Resolution::Unresolved { path: "\"/p/f\"".to_string(), error: bad() };
    assert_eq!(
        step(&mut run, RemoteEvent::Resolved(unresolved), &mut jobs),
        format!("Finish(Err({:?}))", "Cannot resolve absolute path for \"/p/f\": bad")
    );

    let mut run = confirming(&mut jobs, one());
    step(&mut run, RemoteEvent::DirectoryRead(Ok("d".to_string())), &mut jobs);
    let not_text = Resolution::NotText { path: "\"/p/f\"".to_string() };
    assert_eq!(
        step(&mut run, RemoteEvent::Resolved(not_text), &mut jobs),
        format!("Finish(Err({:?}))", "Invalid file path: \"/p/f\"")
    );

    let mut run = confirming(&mut jobs, one());
    step(&mut run, RemoteEvent::DirectoryRead(Ok("d".to_string())), &mut jobs);
    step(&mut run, RemoteEvent::Resolved(Resolution::Path("/p/f".to_string())), &mut jobs);
    assert_eq!(
        step(&mut run, RemoteEvent::Uploaded(Err(bad())), &mut jobs),
        "Finish(Err(\"Failed to upload file f: bad\"))"
    );

    let mut run = confirming(&mut jobs, files(&[], &[], &[]));
    step(&mut run, RemoteEvent::DirectoryRead(Ok("d".to_string())), &mut jobs);
    assert_eq!(
        step(&mut run, RemoteEvent::Submitted(Err(bad())), &mut jobs),
        "Finish(Err(\"submit_job failed: bad\"))"
    );
}

#[test]
fn reply_without_a_task_id_ends_the_run() {
    let mut jobs = Manager::new();
    let mut run = confirming(&mut jobs, files(&[], &[], &[]));
    step(&mut run, RemoteEvent::DirectoryRead(Ok("d".to_string())), &mut jobs);
    assert_eq!(
        step(&mut run, RemoteEvent::Submitted(Ok(value("{}"))), &mut jobs),
        "Finish(Err(\"[RustClient] No task ID returned\"))"
    );
    assert_eq!(
        jobs.logs[&0].last().unwrap(),
        "[RustClient Node] Job Submission Done \n"
    );
}

#[test]
fn statuses_tell_how_a_job_stands() {
    assert_eq!(job_outcome("done"), JobOutcome::Done);
    assert_eq!(job_outcome("failed"), JobOutcome::Failed);
    assert_eq!(job_outcome("error"), JobOutcome::Failed);
    assert_eq!(job_outcome("CompletedWithError"), JobOutcome::CompletedWithError);
    assert_eq!(job_outcome("unknown"), JobOutcome::Pending);
    assert_eq!(job_outcome("Done"), JobOutcome::Pending);
    assert_eq!(job_outcome(""), JobOutcome::Pending);
}

#[test]
fn remote_failures_after_the_submission() {
    let mut jobs = Manager::new();
    let mut run = polling(&mut jobs, &[]);
    assert_eq!(
        step(&mut run, RemoteEvent::JobRead(Err("down".to_string())), &mut jobs),
        "Finish(Err(\"RustClient error: down\"))"
    );
    for told in ["failed", "error"] {
        let mut run = polling(&mut jobs, &[]);
        let reply = value(&format!("{{\"status\": \"{}\"}}", told));
        assert_eq!(
            step(&mut run, RemoteEvent::JobRead(Ok(reply)), &mut jobs),
            format!("Finish(Err(\"Job failed with status: {}\"))", told)
        );
    }
    let mut run = polling(&mut jobs, &["o"]);
    step(&mut run, RemoteEvent::JobRead(Ok(value(r#"{"status": "done"}"#))), &mut jobs);
    assert_eq!(
        step(&mut run, RemoteEvent::FileDownloaded(Err("gone".to_string())), &mut jobs),
        "Finish(Err(\"Failed to download o: gone\"))"
    );
}

#[test]
fn completed_with_error_without_a_log() {
    let mut jobs = Manager::new();
    let mut run = polling(&mut jobs, &["other.log"]);
    let reply = value(r#"{"status": "CompletedWithError", "error": {"reason": "oom"}}"#);
    assert_eq!(
        step(&mut run, RemoteEvent::JobRead(Ok(reply)), &mut jobs),
        format!(
            "Finish(Err({:?}))",
            "Job failed with status: CompletedWithError - Error: oom\n\
             Log content: No output.log specified in outputs"
        )
    );
}

fn fetching(jobs: &mut Manager) -> RemoteRun {
    let mut run = polling(jobs, &["output.log"]);
    let reply = value(r#"{"status": "CompletedWithError", "stderr": "boom"}"#);
    assert_eq!(
        step(&mut run, RemoteEvent::JobRead(Ok(reply)), jobs),
        "FetchLog { remote: \"output.log\", temp: \"error_output_t1.log\" }"
    );
    run
}

#[test]
fn completed_with_error_quotes_the_log() {
    let cases = [
        (FetchedLog::Content("line\n".to_string()), "line\n".to_string()),
        (FetchedLog::Content(" \n".to_string()), "output.log file is empty".to_string()),
        (
            FetchedLog::Unreadable("not text".to_string()),
            "Could not read downloaded output.log: not text".to_string(),
        ),
        (
            FetchedLog::Missing("gone".to_string()),
            "Could not download output.log from server: gone".to_string(),
        ),
        (
            FetchedLog::Content("q".repeat(1500)),
            format!("{}... (truncated)", "q".repeat(1000)),
        ),
    ];
    for (log, quoted) in cases {
        let mut jobs = Manager::new();
        let mut run = fetching(&mut jobs);
        let message = format!(
            "Job failed with status: CompletedWithError - Error: boom\nLog content: {}",
            quoted
        );
        assert_eq!(
            step(&mut run, RemoteEvent::LogFetched(log), &mut jobs),
            format!("Finish(Err({:?}))", message)
        );
    }
}

#[test]
fn log_that_cannot_be_cut_is_not_taken() {
    let mut jobs = Manager::new();
    let run = fetching(&mut jobs);
    let log = format!("{}{}", "z".repeat(999), "\u{e9}");
    assert!(!run.accepts(&RemoteEvent::LogFetched(FetchedLog::Content(log))));
}

#[test]
fn plain_values_drive_the_run_as_replies_do() {
    let mut jobs = Manager::new();
    let mut run = confirming(&mut jobs, files(&[], &[], &[]));
    step(&mut run, RemoteEvent::DirectoryRead(Ok("d".to_string())), &mut jobs);
    let asked = run.on_task_id(Some("t5".to_string()), &mut jobs);
    assert_eq!(format!("{:?}", asked), "Sleep { secs: 5 }");
    assert_eq!(step(&mut run, RemoteEvent::Slept, &mut jobs), "GetJob { task: \"t5\" }");
    let asked = run.on_status("failed", "why".to_string(), &mut jobs);
    assert_eq!(format!("{:?}", asked), "Finish(Err(\"Job failed with status: failed\"))");
}

#[test]
fn failure_message_has_its_parts() {
    assert_eq!(
        describe_failure("e", "l"),
        "Job failed with status: CompletedWithError - Error: e\nLog content: l"
    );
}
