use job_runner::job::{Infra, Job, Manager};
use job_runner::local::LocalSettings;
use job_runner::page::{
    action, after_client, after_dockerfile, after_params, render, report_end, Background,
    PageStep, PodSettings, Project, Store, HELPER,
};

fn project() -> Project {
    Project {
        infra_local: Some(LocalSettings {
            docker_image: "img".to_string(),
            script: "s.sh".to_string(),
        }),
        has_dok: true,
    }
}

fn store(pod: Option<PodSettings>) -> Store {
    Store { project: Some(project()), registry_selected: true, pod }
}

fn refused(r: Result<PageStep, String>) -> String {
    match r {
        Err(e) => e,
        Ok(step) => panic!("{:?}", step),
    }
}

#[test]
fn page_offers_to_launch() {
    assert_eq!(HELPER, ["Launch a job"]);
}

#[test]
fn running_job_blocks_launching() {
    let mut jobs = Manager::new();
    jobs.insert_job(Job { id: 0, infra: Infra::Local });
    for pod in [PodSettings::Local, PodSettings::RustClient, PodSettings::SakuraInternetService] {
        assert_eq!(refused(action(&store(Some(pod)), &mut jobs)), "current job already running");
    }
    let nothing = Store { project: None, registry_selected: false, pod: None };
    assert_eq!(refused(action(&nothing, &mut jobs)), "current job already running");
    assert!(render(&jobs).is_empty());
}

#[test]
fn another_job_does_not_block_launching() {
    let mut jobs = Manager::new();
    jobs.insert_job(Job { id: 1, infra: Infra::Local });
    assert!(action(&store(Some(PodSettings::Local)), &mut jobs).is_ok());
}

#[test]
fn selection_must_be_complete() {
    let mut jobs = Manager::new();
    let s = Store { project: None, registry_selected: false, pod: None };
    assert_eq!(refused(action(&s, &mut jobs)), "no selected project");
    let s = Store { project: Some(project()), registry_selected: false, pod: None };
    assert_eq!(refused(action(&s, &mut jobs)), "no registry selected");
    assert_eq!(refused(action(&store(None), &mut jobs)), "no pod selected");
    let s = Store {
        project: Some(Project { infra_local: None, has_dok: false }),
        registry_selected: true,
        pod: Some(PodSettings::Local),
    };
    assert_eq!(refused(action(&s, &mut jobs)), "no settings for local servers");
    let s = store(Some(PodSettings::SakuraInternetServer));
    assert_eq!(refused(action(&s, &mut jobs)), "not DOK service");
    assert!(render(&jobs).is_empty());
}

#[test]
fn each_pod_launches_its_way() {
    let mut jobs = Manager::new();
    match action(&store(Some(PodSettings::Local)), &mut jobs) {
        Ok(PageStep::SpawnLocal(settings)) => {
            assert_eq!(settings.docker_image, "img");
            assert_eq!(settings.script, "s.sh");
        }
        other => panic!("{:?}", other),
    }
    assert!(render(&jobs).is_empty());
    assert!(matches!(
        action(&store(Some(PodSettings::SakuraInternetService)), &mut jobs),
        Ok(PageStep::ReadParams)
    ));
    assert!(matches!(
        action(&store(Some(PodSettings::RustClient)), &mut jobs),
        Ok(PageStep::SpawnRustClient)
    ));
    assert_eq!(
        render(&jobs),
        vec![
            "send the job Sakura Internet DOK service ...",
            "send the job to Rust Client service ...",
        ]
    );
}

#[test]
fn dockerfile_is_looked_for_when_an_image_is_built() {
    let p = project();
    assert!(matches!(after_params(&p, Ok(true)), Ok(PageStep::CheckDockerfile)));
    assert!(matches!(
        after_params(&p, Ok(false)),
        Ok(PageStep::CreateClient { with_build: false })
    ));
    let plain = Project { infra_local: None, has_dok: false };
    assert!(matches!(
        after_params(&plain, Ok(true)),
        Ok(PageStep::CreateClient { with_build: true })
    ));
    assert_eq!(refused(after_params(&p, Err("no params".to_string()))), "no params");
    assert!(matches!(after_dockerfile(true), Ok(PageStep::CreateClient { with_build: true })));
    assert_eq!(
        refused(after_dockerfile(false)),
        "using DOK service with self built docker image requires a Dockerfile under the project folder"
    );
    assert!(matches!(after_client(true, Ok(())), Ok(PageStep::SpawnDok { with_build: true })));
    assert!(matches!(after_client(false, Ok(())), Ok(PageStep::SpawnDok { with_build: false })));
    assert_eq!(refused(after_client(true, Err("no account".to_string()))), "no account");
}

#[test]
fn failures_in_the_background_are_logged() {
    let mut jobs = Manager::new();
    report_end(Background::LocalRun, Ok(()), &mut jobs);
    assert!(render(&jobs).is_empty());
    for what in [
        Background::LocalRun,
        Background::DokRun,
        Background::ClientMaking,
        Background::RemoteRun,
    ] {
        report_end(what, Err("x".to_string()), &mut jobs);
    }
    assert_eq!(
        render(&jobs),
        vec![
            "run job error: x",
            "[Local infra] job 0 exits with error x",
            "Failed to create RustClient: x",
            "RustClient job failed: x",
        ]
    );
}

#[test]
fn temporary_line_stands_below_the_log() {
    let mut jobs = Manager::new();
    assert!(render(&jobs).is_empty());
    jobs.add_log_tmp(0, "t1".to_string());
    assert_eq!(render(&jobs), vec!["t1"]);
    jobs.add_log(0, "a".to_string());
    jobs.add_log(1, "elsewhere".to_string());
    jobs.add_log(0, "b".to_string());
    assert_eq!(render(&jobs), vec!["a", "b", "t1"]);
    jobs.add_log_tmp(0, "t2".to_string());
    assert_eq!(render(&jobs), vec!["a", "b", "t2"]);
    jobs.clear_log_tmp(&1);
    assert_eq!(render(&jobs), vec!["a", "b", "t2"]);
    jobs.clear_log_tmp(&0);
    assert_eq!(render(&jobs), vec!["a", "b"]);
}

#[test]
fn infra_is_set_only_of_a_job_that_is_there() {
    let mut jobs = Manager::new();
    jobs.set_infra(0, Infra::Local);
    assert!(!jobs.has_job(0));
    jobs.insert_job(Job { id: 0, infra: Infra::Local });
    jobs.set_infra(0, Infra::RustClient("i".to_string(), "u".to_string()));
    assert!(jobs.has_job(0));
    assert_eq!(format!("{:?}", jobs.jobs[&0].infra), "RustClient(\"i\", \"u\")");
    assert_eq!(jobs.jobs[&0].id, 0);
}

#[test]
fn refusal_on_the_way_to_the_service_leaves_one_line() {
    let selected = store(Some(PodSettings::SakuraInternetService));
    let project = project();
    let refusals = [
        after_params(&project, Err("no parameters".to_string())),
        after_dockerfile(false),
        after_client(false, Err("no account".to_string())),
    ];
    for refusal in refusals {
        let mut jobs = Manager::new();
        assert!(matches!(action(&selected, &mut jobs), Ok(PageStep::ReadParams)));
        assert!(refusal.is_err());
        assert_eq!(jobs.logs[&0], vec!["send the job Sakura Internet DOK service ..."]);
        assert!(!jobs.has_job(0));
    }
    let mut jobs = Manager::new();
    assert!(action(&store(Some(PodSettings::SakuraInternetServer)), &mut jobs).is_err());
    assert!(jobs.logs.get(&0).is_none());
}
