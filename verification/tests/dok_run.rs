use job_runner::dok::{launch_job_dok, Artifact, DokEvent, DokRun, Task, TaskContainer};
use job_runner::job::{Infra, Manager};
use job_runner::page::{action, PodSettings, Project, Store};

fn step(run: &mut DokRun, event: DokEvent, jobs: &mut Manager) -> String {
    assert!(run.accepts(&event));
    format!("{:?}", run.step(event, jobs))
}

fn task(status: &str) -> Task {
    Task {
        id: "t1".to_string(),
        status: status.to_string(),
        http_uri: None,
        containers: Vec::new(),
        artifact: Some(Artifact { id: "a1".to_string() }),
    }
}

fn tmp(jobs: &Manager) -> Option<String> {
    jobs.logs_tmp.get(&0).cloned()
}

fn infra(jobs: &Manager) -> String {
    format!("{:?}", jobs.jobs.get(&0).unwrap().infra)
}

fn created(jobs: &mut Manager) -> DokRun {
    let (mut run, _) = launch_job_dok(true, jobs);
    step(&mut run, DokEvent::Built(Ok(())), jobs);
    step(&mut run, DokEvent::Pushed(Ok(())), jobs);
    step(&mut run, DokEvent::Created(Ok("t1".to_string())), jobs);
    run
}

fn asking(jobs: &mut Manager, done: Task) -> DokRun {
    let mut run = created(jobs);
    step(&mut run, DokEvent::Slept, jobs);
    step(&mut run, DokEvent::TaskRead(Ok(done)), jobs);
    step(&mut run, DokEvent::Slept, jobs);
    run
}

#[test]
fn dok_run_builds_and_pushes_when_told() {
    let mut jobs = Manager::new();
    let (mut run, action) = launch_job_dok(true, &mut jobs);
    assert_eq!(format!("{:?}", action), "BuildImage");
    assert!(jobs.logs.get(&0).is_none());
    assert_eq!(step(&mut run, DokEvent::Built(Ok(())), &mut jobs), "PushImage");
    assert_eq!(step(&mut run, DokEvent::Pushed(Ok(())), &mut jobs), "CreateTask");
    assert_eq!(
        step(&mut run, DokEvent::Created(Ok("t1".to_string())), &mut jobs),
        "Sleep { secs: 5 }"
    );
    assert!(matches!(&jobs.jobs.get(&0).unwrap().infra, Infra::SakuraInternetDOK(id, None) if id == "t1"));
    assert_eq!(jobs.logs[&0], vec!["[sakura internet DOK] task t1 created"]);
}

#[test]
fn dok_run_without_building_says_so() {
    let mut jobs = Manager::new();
    let (_, action) = launch_job_dok(false, &mut jobs);
    assert_eq!(format!("{:?}", action), "CreateTask");
    assert_eq!(
        jobs.logs[&0],
        vec![
            "Use docker image directly, no image will be built and pushed.",
            "All docker building parameters in @job.toml will be ignored",
        ]
    );
}

#[test]
fn dok_run_follows_its_task() {
    let mut jobs = Manager::new();
    let mut run = created(&mut jobs);
    assert_eq!(step(&mut run, DokEvent::Slept, &mut jobs), "GetTask { id: \"t1\" }");
    assert_eq!(
        step(&mut run, DokEvent::TaskRead(Ok(task("waiting"))), &mut jobs),
        "Sleep { secs: 5 }"
    );
    assert_eq!(tmp(&jobs), Some("[sakura internet DOK] task t1 status: waiting".to_string()));

    step(&mut run, DokEvent::Slept, &mut jobs);
    let mut t = task("running");
    t.containers.push(TaskContainer { start_at: None });
    step(&mut run, DokEvent::TaskRead(Ok(t)), &mut jobs);
    assert_eq!(tmp(&jobs), Some("[sakura internet DOK] task t1 not ready for use".to_string()));
    assert_eq!(infra(&jobs), "SakuraInternetDOK(\"t1\", None)");

    step(&mut run, DokEvent::Slept, &mut jobs);
    let mut t = task("running");
    t.http_uri = Some("https://t1.example".to_string());
    t.containers.push(TaskContainer { start_at: Some("noon".to_string()) });
    t.containers.push(TaskContainer { start_at: None });
    step(&mut run, DokEvent::TaskRead(Ok(t)), &mut jobs);
    assert_eq!(tmp(&jobs), Some("[sakura internet DOK] task t1 started at noon".to_string()));
    assert_eq!(infra(&jobs), "SakuraInternetDOK(\"t1\", Some(\"https://t1.example\"))");

    step(&mut run, DokEvent::Slept, &mut jobs);
    assert_eq!(
        step(&mut run, DokEvent::TaskRead(Ok(task("done"))), &mut jobs),
        "Sleep { secs: 1 }"
    );
    assert_eq!(tmp(&jobs), None);
    assert_eq!(
        step(&mut run, DokEvent::Slept, &mut jobs),
        "GetArtifactUrl { task: \"t1\" }"
    );
}

#[test]
fn dok_run_fetches_the_outputs() {
    let mut jobs = Manager::new();
    let mut run = asking(&mut jobs, task("done"));
    assert_eq!(
        step(&mut run, DokEvent::ArtifactUrlRead(Ok("https://files/a1".to_string())), &mut jobs),
        "Download { url: \"https://files/a1\", file: \"artifact.tar.gz\" }"
    );
    assert_eq!(
        step(&mut run, DokEvent::Downloaded(Ok(())), &mut jobs),
        "Extract { file: \"artifact.tar.gz\" }"
    );
    assert_eq!(
        step(&mut run, DokEvent::Extracted(Ok(())), &mut jobs),
        "RemoveFile { file: \"artifact.tar.gz\" }"
    );
    assert_eq!(step(&mut run, DokEvent::Removed(Ok(())), &mut jobs), "Finish(Ok(()))");
    assert_eq!(
        jobs.logs[&0],
        vec![
            "[sakura internet DOK] task t1 created",
            "[sakura internet DOK] downloading output files of task t1",
            "[sakura internet DOK] downloaded output files of task t1",
        ]
    );
    assert_eq!(tmp(&jobs), None);
    assert!(!run.accepts(&DokEvent::Slept));
}

#[test]
fn misses_are_counted_in_fives() {
    let mut jobs = Manager::new();
    let mut run = asking(&mut jobs, task("done"));
    for dots in [".", "..", "...", "....", "", ".", ".."] {
        assert_eq!(
            step(&mut run, DokEvent::ArtifactUrlRead(Err("404".to_string())), &mut jobs),
            "Sleep { secs: 1 }"
        );
        assert_eq!(
            tmp(&jobs),
            Some(format!(
                "[sakura internet DOK] output files (artifact a1) of task t1 not ready {}",
                dots
            ))
        );
        step(&mut run, DokEvent::Slept, &mut jobs);
    }
    step(&mut run, DokEvent::ArtifactUrlRead(Ok("u".to_string())), &mut jobs);
    assert_eq!(tmp(&jobs), None);
}

#[test]
fn missing_outputs_need_an_artifact() {
    let mut jobs = Manager::new();
    let mut done = task("done");
    done.artifact = None;
    let run = asking(&mut jobs, done);
    assert!(!run.accepts(&DokEvent::ArtifactUrlRead(Err("e".to_string()))));
    assert!(run.accepts(&DokEvent::ArtifactUrlRead(Ok("u".to_string()))));
}

#[test]
fn dok_failures_end_the_run() {
    let finish = "Finish(Err(\"bad\"))";
    let bad = || "bad".to_string();
    let mut jobs = Manager::new();

    let (mut run, _) = launch_job_dok(true, &mut jobs);
    assert_eq!(step(&mut run, DokEvent::Built(Err(bad())), &mut jobs), finish);

    let (mut run, _) = launch_job_dok(true, &mut jobs);
    step(&mut run, DokEvent::Built(Ok(())), &mut jobs);
    assert_eq!(step(&mut run, DokEvent::Pushed(Err(bad())), &mut jobs), finish);

    let (mut run, _) = launch_job_dok(false, &mut jobs);
    assert_eq!(step(&mut run, DokEvent::Created(Err(bad())), &mut jobs), finish);
    assert!(!jobs.has_job(0));

    let mut run = created(&mut jobs);
    step(&mut run, DokEvent::Slept, &mut jobs);
    assert_eq!(step(&mut run, DokEvent::TaskRead(Err(bad())), &mut jobs), finish);

    let mut run = asking(&mut jobs, task("done"));
    step(&mut run, DokEvent::ArtifactUrlRead(Ok("u".to_string())), &mut jobs);
    assert_eq!(step(&mut run, DokEvent::Downloaded(Err(bad())), &mut jobs), finish);

    let mut run = asking(&mut jobs, task("done"));
    step(&mut run, DokEvent::ArtifactUrlRead(Ok("u".to_string())), &mut jobs);
    step(&mut run, DokEvent::Downloaded(Ok(())), &mut jobs);
    assert_eq!(step(&mut run, DokEvent::Extracted(Err(bad())), &mut jobs), finish);

    let mut run = asking(&mut jobs, task("done"));
    step(&mut run, DokEvent::ArtifactUrlRead(Ok("u".to_string())), &mut jobs);
    step(&mut run, DokEvent::Downloaded(Ok(())), &mut jobs);
    step(&mut run, DokEvent::Extracted(Ok(())), &mut jobs);
    assert_eq!(step(&mut run, DokEvent::Removed(Err(bad())), &mut jobs), finish);
}

#[test]
fn ended_dok_run_still_blocks_launching() {
    let store = Store {
        project: Some(Project { infra_local: None, has_dok: true }),
        registry_selected: true,
        pod: Some(PodSettings::SakuraInternetService),
    };
    for failing in [false, true] {
        let mut jobs = Manager::new();
        let mut run = created(&mut jobs);
        step(&mut run, DokEvent::Slept, &mut jobs);
        if failing {
            let end = step(&mut run, DokEvent::TaskRead(Err("gone".to_string())), &mut jobs);
            assert_eq!(end, "Finish(Err(\"gone\"))");
        } else {
            step(&mut run, DokEvent::TaskRead(Ok(task("done"))), &mut jobs);
            step(&mut run, DokEvent::Slept, &mut jobs);
            step(&mut run, DokEvent::ArtifactUrlRead(Ok("u".to_string())), &mut jobs);
            step(&mut run, DokEvent::Downloaded(Ok(())), &mut jobs);
            step(&mut run, DokEvent::Extracted(Ok(())), &mut jobs);
            assert_eq!(step(&mut run, DokEvent::Removed(Ok(())), &mut jobs), "Finish(Ok(()))");
        }
        let log = jobs.logs[&0].clone();
        assert_eq!(action(&store, &mut jobs).unwrap_err(), "current job already running");
        assert_eq!(jobs.logs[&0], log);
    }
}

#[test]
fn dok_run_leaves_the_wish_to_cancel() {
    for wish in [false, true] {
        let mut jobs = Manager::new();
        jobs.local_infra_cancel_job = wish;
        let mut run = asking(&mut jobs, task("done"));
        step(&mut run, DokEvent::ArtifactUrlRead(Ok("u".to_string())), &mut jobs);
        step(&mut run, DokEvent::Downloaded(Err("lost".to_string())), &mut jobs);
        assert_eq!(jobs.local_infra_cancel_job, wish);
    }
}
