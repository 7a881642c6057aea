use job_runner::client::{connection_report, ApiCall, RustClient};
use job_runner::env::{EnvAction, EnvEvent, EnvLoad};
use job_runner::ftp::{FtpAction, FtpOp, FtpSession};
use serde_json::Value;

fn client() -> RustClient {
    RustClient::new(
        "https://service".to_string(),
        "user@mail".to_string(),
        "user-7".to_string(),
        "auth".to_string(),
        "api".to_string(),
        "ftp.host".to_string(),
        2121,
    )
}

fn parts(call: ApiCall) -> (String, String, String, String) {
    (call.url, call.user_email, call.token, format!("{:?}", call.method))
}

fn expected(token: &str, method: &str) -> (String, String, String, String) {
    (
        "https://service".to_string(),
        "user@mail".to_string(),
        token.to_string(),
        method.to_string(),
    )
}

#[test]
fn new_client_holds_what_it_is_given() {
    let c = client();
    assert_eq!(c.url, "https://service");
    assert_eq!(c.user_email, "user@mail");
    assert_eq!(c.user_id, "user-7");
    assert_eq!(c.token_auth, "auth");
    assert_eq!(c.token_api, "api");
    assert_eq!(c.ftp_addr, "ftp.host");
    assert_eq!(c.ftp_port, 2121);
    assert_eq!(format!("{:?}", c.clone()), format!("{:?}", c));
}

#[test]
fn calls_go_with_the_login_token() {
    let c = client();
    assert_eq!(parts(c.get_credits()), expected("auth", "GetCreditPoints"));
    assert_eq!(parts(c.get_job("j")), expected("auth", "GetJob { job_id: \"j\" }"));
    assert_eq!(parts(c.list_projects()), expected("auth", "ListOfProjects"));
    assert_eq!(parts(c.list_example_projects()), expected("auth", "ListOfExampleProjects"));
    assert_eq!(
        parts(c.get_project_files("p", "f")),
        expected("auth", "GetProjectFiles { project: \"p\", file: \"f\" }")
    );
    assert_eq!(
        parts(c.list_project_files("p")),
        expected("auth", "ListOfProjectFiles { project: \"p\" }")
    );
    assert_eq!(
        parts(c.import_example_project("p")),
        expected("auth", "ImportExampleProject { project: \"p\" }")
    );
    assert_eq!(parts(c.get_api_token()), expected("auth", "GetTokenApi"));
    assert_eq!(parts(c.test_connection()), expected("auth", "GetCreditPoints"));
    assert_eq!(
        parts(c.submit_job("job.sh", "p", &["a", "b"], &["o"])),
        expected(
            "auth",
            "SubmitJob { command: \"job.sh\", project: \"p\", inputs: [\"a\", \"b\"], outputs: [\"o\"] }"
        )
    );
}

#[test]
fn refreshing_goes_with_the_api_token() {
    assert_eq!(parts(client().refresh_api_token()), expected("api", "RefreshTokenApi"));
}

#[test]
fn connection_test_reports_success_and_failure() {
    assert_eq!(connection_report(Ok(Value::Null)), Ok("Connection test successful!"));
    assert_eq!(connection_report(Err("down".to_string())), Err("down".to_string()));
}

fn check_login(action: FtpAction) {
    match action {
        FtpAction::Connect(account) => {
            assert_eq!(account.addr, "ftp.host");
            assert_eq!(account.port, 2121);
            assert_eq!(account.user_email, "user@mail");
            assert_eq!(account.token, "api");
            assert_eq!(account.user_id, "user-7");
        }
        other => panic!("{:?}", other),
    }
}

fn run_session(start: (FtpSession, FtpAction)) -> String {
    let (mut session, action) = start;
    check_login(action);
    let op = match session.step(Ok(())) {
        FtpAction::Perform(op) => match op {
            FtpOp::MakeDirectory { dir_name } => format!("mkdir {}", dir_name),
            FtpOp::UploadFile { local_path, remote_path } => {
                format!("put {} {}", local_path, remote_path)
            }
            FtpOp::DownloadFile { remote_path, local_path } => {
                format!("get {} {}", remote_path, local_path)
            }
        },
        other => panic!("{:?}", other),
    };
    assert!(matches!(session.step(Ok(())), FtpAction::Disconnect));
    assert!(!session.is_finished());
    assert!(matches!(session.step(Ok(())), FtpAction::Finish(Ok(()))));
    assert!(session.is_finished());
    op
}

#[test]
fn session_connects_performs_and_disconnects() {
    let c = client();
    assert_eq!(run_session(c.make_directory("d")), "mkdir d");
    assert_eq!(run_session(c.upload_file("/tmp/l", "r")), "put /tmp/l r");
    assert_eq!(run_session(c.download_file("r", "/tmp/l")), "get r /tmp/l");
}

#[test]
fn session_ends_with_its_first_failure() {
    let (mut session, _) = client().make_directory("d");
    match session.step(Err("refused".to_string())) {
        FtpAction::Finish(Err(e)) => assert_eq!(e, "refused"),
        other => panic!("{:?}", other),
    }
    assert!(session.is_finished());

    let (mut session, _) = client().make_directory("d");
    assert!(matches!(session.step(Ok(())), FtpAction::Perform(_)));
    match session.step(Err("550 File exists".to_string())) {
        FtpAction::Finish(Err(e)) => assert_eq!(e, "550 File exists"),
        other => panic!("{:?}", other),
    }
    assert!(session.is_finished());
}

fn step(load: &mut EnvLoad, event: EnvEvent) -> EnvAction {
    assert!(load.accepts(&event));
    load.step(event)
}

fn var(text: &str) -> EnvEvent {
    EnvEvent::VarRead(Ok(text.to_string()))
}

fn until_token() -> EnvLoad {
    let (mut load, first) = RustClient::from_env();
    assert_eq!(format!("{:?}", first), "LoadDotenv { file: \".env\" }");
    assert!(!load.accepts(&var("x")));
    let mut asked = Vec::new();
    asked.push(step(&mut load, EnvEvent::DotenvLoaded(Err("no file".to_string()))));
    for value in ["https://service", "user@mail", "user-7", "auth"] {
        asked.push(step(&mut load, var(value)));
    }
    asked.push(step(&mut load, EnvEvent::ClientCreated(Ok(()))));
    let asked: Vec<String> = asked.iter().map(|a| format!("{:?}", a)).collect();
    assert_eq!(
        asked,
        vec![
            "ReadVar { name: \"URL\" }",
            "ReadVar { name: \"USER_EMAIL\" }",
            "ReadVar { name: \"USER_ID\" }",
            "ReadVar { name: \"TOKEN_AUTH\" }",
            "CreateClient { url: \"https://service\" }",
            "GetTokenApi { user_email: \"user@mail\", token_auth: \"auth\" }",
        ]
    );
    load
}

#[test]
fn client_is_made_of_the_environment() {
    let mut load = until_token();
    let token = Value::String("api".to_string());
    let asked = step(&mut load, EnvEvent::TokenRead(Ok(token)));
    assert_eq!(format!("{:?}", asked), "ReadVar { name: \"FTP_ADDR\" }");
    let asked = step(&mut load, var("ftp.host"));
    assert_eq!(format!("{:?}", asked), "ReadVar { name: \"FTP_PORT\" }");
    match step(&mut load, var("2121")) {
        EnvAction::Finish(Ok(made)) => {
            assert_eq!(format!("{:?}", made), format!("{:?}", client()))
        }
        other => panic!("{:?}", other),
    }
    assert!(!load.accepts(&var("x")));
}

#[test]
fn token_that_is_no_string_is_refused() {
    let mut load = until_token();
    match step(&mut load, EnvEvent::TokenRead(Ok(Value::Null))) {
        EnvAction::Finish(Err(e)) => assert_eq!(e, "Expected a string in token API response"),
        other => panic!("{:?}", other),
    }
    let mut load = until_token();
    match load.on_token(None) {
        EnvAction::Finish(Err(e)) => assert_eq!(e, "Expected a string in token API response"),
        other => panic!("{:?}", other),
    }
}

#[test]
fn failures_of_the_environment_are_passed_on() {
    let (mut load, _) = RustClient::from_env();
    step(&mut load, EnvEvent::DotenvLoaded(Ok(())));
    match step(&mut load, EnvEvent::VarRead(Err("not set".to_string()))) {
        EnvAction::Finish(Err(e)) => assert_eq!(e, "not set"),
        other => panic!("{:?}", other),
    }

    let mut load = until_token();
    match step(&mut load, EnvEvent::TokenRead(Err("denied".to_string()))) {
        EnvAction::Finish(Err(e)) => assert_eq!(e, "denied"),
        other => panic!("{:?}", other),
    }

    let mut load = until_token();
    load.on_token(Some("api".to_string()));
    step(&mut load, var("ftp.host"));
    match step(&mut load, var("ftp")) {
        EnvAction::Finish(Err(e)) => assert_eq!(e, "invalid digit found in string"),
        other => panic!("{:?}", other),
    }
}

#[test]
fn unreachable_service_ends_the_making() {
    let (mut load, _) = RustClient::from_env();
    step(&mut load, EnvEvent::DotenvLoaded(Ok(())));
    for value in ["u", "e", "i", "t"] {
        step(&mut load, var(value));
    }
    match step(&mut load, EnvEvent::ClientCreated(Err("unreachable".to_string()))) {
        EnvAction::Finish(Err(e)) => assert_eq!(e, "unreachable"),
        other => panic!("{:?}", other),
    }
}
