use job_runner::job::{Infra, Manager};
use job_runner::local::{launch_job_local, LocalAction, LocalEvent, LocalRun, LocalSettings};

fn start() -> (LocalRun, LocalAction) {
    launch_job_local(
        "/home/me/proj",
        LocalSettings { docker_image: "gromacs:1".to_string(), script: "run.sh".to_string() },
    )
}

fn step(run: &mut LocalRun, event: LocalEvent, jobs: &mut Manager) -> String {
    assert!(run.accepts(&event));
    format!("{:?}", run.step(event, jobs))
}

fn log(jobs: &Manager) -> Vec<String> {
    jobs.logs.get(&0).cloned().unwrap_or_default()
}

fn watching() -> (LocalRun, Manager) {
    let mut jobs = Manager::new();
    let (mut run, _) = start();
    step(&mut run, LocalEvent::Launched(Ok("c1".to_string())), &mut jobs);
    step(&mut run, LocalEvent::ExecCreated(Ok("x1".to_string())), &mut jobs);
    step(&mut run, LocalEvent::ExecStarted(Ok(())), &mut jobs);
    (run, jobs)
}

#[test]
fn project_is_bound_to_the_workspace() {
    let (_, action) = start();
    assert_eq!(
        format!("{:?}", action),
        "LaunchContainer { image: \"gromacs:1\", volume_binds: [\"/home/me/proj:/workspace\"] }"
    );
}

#[test]
fn local_run_goes_its_way_until_cancelled() {
    let mut jobs = Manager::new();
    jobs.local_infra_cancel_job = true;
    let (mut run, _) = start();
    assert_eq!(
        step(&mut run, LocalEvent::Launched(Ok("c1".to_string())), &mut jobs),
        "CreateExec { container: \"c1\", cmd: [\"sh\", \"run.sh\"], working_dir: \"/workspace\", \
         attach_stdout: true, attach_stderr: true }"
    );
    assert!(matches!(jobs.jobs.get(&0).unwrap().infra, Infra::Local));
    assert_eq!(jobs.jobs.get(&0).unwrap().id, 0);
    assert_eq!(
        step(&mut run, LocalEvent::ExecCreated(Ok("x1".to_string())), &mut jobs),
        "StartExec { exec_id: \"x1\" }"
    );
    assert_eq!(step(&mut run, LocalEvent::ExecStarted(Ok(())), &mut jobs), "ReadCancel");
    assert_eq!(step(&mut run, LocalEvent::CancelRead(None), &mut jobs), "Sleep { secs: 1 }");
    assert_eq!(step(&mut run, LocalEvent::Slept, &mut jobs), "ReadOutput");
    assert_eq!(
        step(&mut run, LocalEvent::OutputRead(Some(Ok("step 1".to_string()))), &mut jobs),
        "ReadCancel"
    );
    assert_eq!(
        step(&mut run, LocalEvent::CancelRead(Some(3)), &mut jobs),
        "Sleep { secs: 1 }"
    );
    step(&mut run, LocalEvent::Slept, &mut jobs);
    step(&mut run, LocalEvent::OutputRead(None), &mut jobs);
    step(&mut run, LocalEvent::CancelRead(None), &mut jobs);
    step(&mut run, LocalEvent::Slept, &mut jobs);
    step(&mut run, LocalEvent::OutputRead(Some(Err("broken".to_string()))), &mut jobs);
    assert_eq!(
        step(&mut run, LocalEvent::CancelRead(Some(0)), &mut jobs),
        "StopContainer { container: \"c1\", signal: \"SIGINT\", timeout_secs: 3 }"
    );
    assert!(jobs.local_infra_cancel_job);
    assert_eq!(
        step(&mut run, LocalEvent::Stopped(Ok(())), &mut jobs),
        "RemoveContainer { container: \"c1\", force: true }"
    );
    assert!(!jobs.local_infra_cancel_job);
    assert_eq!(step(&mut run, LocalEvent::Removed, &mut jobs), "Finish(Ok(()))");
    assert!(!run.accepts(&LocalEvent::Slept));
    assert_eq!(
        log(&jobs),
        vec![
            "[Local infra] exec job 0, status: using image gromacs:1",
            "[Local infra] exec job 0, status: container c1 created",
            "[Local infra] exec job 0, output: step 1",
            "[Local infra] exec job 0, container c1 stopped",
            "[Local infra] exec job 0, container c1 removed",
        ]
    );
}

#[test]
fn local_failures_end_the_run() {
    let mut jobs = Manager::new();
    let (mut run, _) = start();
    assert_eq!(
        step(&mut run, LocalEvent::Launched(Err("no image".to_string())), &mut jobs),
        "Finish(Err(\"no image\"))"
    );
    assert!(!jobs.has_job(0));
    assert!(log(&jobs).is_empty());

    let (mut run, _) = start();
    step(&mut run, LocalEvent::Launched(Ok("c".to_string())), &mut jobs);
    assert_eq!(
        step(&mut run, LocalEvent::ExecCreated(Err("e1".to_string())), &mut jobs),
        "Finish(Err(\"e1\"))"
    );

    let (mut run, _) = start();
    step(&mut run, LocalEvent::Launched(Ok("c".to_string())), &mut jobs);
    step(&mut run, LocalEvent::ExecCreated(Ok("x".to_string())), &mut jobs);
    assert_eq!(
        step(&mut run, LocalEvent::ExecStarted(Err("e2".to_string())), &mut jobs),
        "Finish(Err(\"e2\"))"
    );

    let (mut run, mut jobs) = watching();
    step(&mut run, LocalEvent::CancelRead(Some(0)), &mut jobs);
    assert_eq!(
        step(&mut run, LocalEvent::Stopped(Err("e3".to_string())), &mut jobs),
        "Finish(Err(\"e3\"))"
    );
    assert_eq!(log(&jobs).len(), 2);
}

#[test]
fn local_run_takes_only_the_outcome_it_waits_for() {
    let (run, _) = watching();
    assert!(run.accepts(&LocalEvent::CancelRead(None)));
    assert!(!run.accepts(&LocalEvent::Slept));
    assert!(!run.accepts(&LocalEvent::Removed));
    assert!(!run.accepts(&LocalEvent::OutputRead(None)));
}
