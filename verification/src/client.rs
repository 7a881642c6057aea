//! The client of the computing service: whom it speaks as, and what it asks.
use vstd::prelude::*;

use crate::env::{start_env_load, EnvAction, EnvActionView, EnvLoad, EnvLoadView};
use crate::ftp::{
    open_session, FtpAccount, FtpAccountView, FtpAction, FtpActionView, FtpOp, FtpSession,
    FtpSessionView,
};
use crate::text::texts;

verus! {

/// An account on the computing service and on its file server.
#[derive(Debug)]
pub struct RustClient {
    pub url: String,
    pub user_email: String,
    pub user_id: String,
    pub token_auth: String,
    pub token_api: String,
    pub ftp_addr: String,
    pub ftp_port: u16,
}

/// The model of `RustClient`.
pub struct RustClientView {
    pub url: Seq<char>,
    pub user_email: Seq<char>,
    pub user_id: Seq<char>,
    pub token_auth: Seq<char>,
    pub token_api: Seq<char>,
    pub ftp_addr: Seq<char>,
    pub ftp_port: u16,
}

impl View for RustClient {
    type V = RustClientView;

    open spec fn view(&self) -> RustClientView {
        RustClientView {
            url: self.url@,
            user_email: self.user_email@,
            user_id: self.user_id@,
            token_auth: self.token_auth@,
            token_api: self.token_api@,
            ftp_addr: self.ftp_addr@,
            ftp_port: self.ftp_port,
        }
    }
}

impl Clone for RustClient {
    fn clone(&self) -> (r: Self)
        ensures
            r == *self,
    {
        RustClient {
            url: self.url.clone(),
            user_email: self.user_email.clone(),
            user_id: self.user_id.clone(),
            token_auth: self.token_auth.clone(),
            token_api: self.token_api.clone(),
            ftp_addr: self.ftp_addr.clone(),
            ftp_port: self.ftp_port,
        }
    }
}

/// What the service can be asked. The parameters are the types of texts and of lists
/// of texts.
#[derive(Debug)]
pub enum ApiMethod<S = String, L = Vec<String>> {
    GetCreditPoints,
    SubmitJob { command: S, project: S, inputs: L, outputs: L },
    GetJob { job_id: S },
    ListOfProjects,
    ListOfExampleProjects,
    GetProjectFiles { project: S, file: S },
    ListOfProjectFiles { project: S },
    ImportExampleProject { project: S },
    GetTokenApi,
    RefreshTokenApi,
}

/// The model of `ApiMethod`.
pub type ApiMethodView = ApiMethod<Seq<char>, Seq<Seq<char>>>;

impl View for ApiMethod<String, Vec<String>> {
    type V = ApiMethodView;

    open spec fn view(&self) -> ApiMethodView {
        match *self {
            ApiMethod::GetCreditPoints => ApiMethod::GetCreditPoints,
            ApiMethod::SubmitJob { command, project, inputs, outputs } => ApiMethod::SubmitJob {
                command: command@,
                project: project@,
                inputs: texts(inputs@),
                outputs: texts(outputs@),
            },
            ApiMethod::GetJob { job_id } => ApiMethod::GetJob { job_id: job_id@ },
            ApiMethod::ListOfProjects => ApiMethod::ListOfProjects,
            ApiMethod::ListOfExampleProjects => ApiMethod::ListOfExampleProjects,
            ApiMethod::GetProjectFiles { project, file } => ApiMethod::GetProjectFiles {
                project: project@,
                file: file@,
            },
            ApiMethod::ListOfProjectFiles { project } => ApiMethod::ListOfProjectFiles {
                project: project@,
            },
            ApiMethod::ImportExampleProject { project } => ApiMethod::ImportExampleProject {
                project: project@,
            },
            ApiMethod::GetTokenApi => ApiMethod::GetTokenApi,
            ApiMethod::RefreshTokenApi => ApiMethod::RefreshTokenApi,
        }
    }
}

/// A call of the service: connect to `url`, then ask for `method` in the name of
/// `user_email` with `token`.
#[derive(Debug)]
pub struct ApiCall {
    pub url: String,
    pub user_email: String,
    pub token: String,
    pub method: ApiMethod,
}

/// The model of `ApiCall`.
pub struct ApiCallView {
    pub url: Seq<char>,
    pub user_email: Seq<char>,
    pub token: Seq<char>,
    pub method: ApiMethodView,
}

impl View for ApiCall {
    type V = ApiCallView;

    open spec fn view(&self) -> ApiCallView {
        ApiCallView {
            url: self.url@,
            user_email: self.user_email@,
            token: self.token@,
            method: self.method@,
        }
    }
}

impl RustClientView {
    /// The call that asks for `method`: it goes to the service's address in the name
    /// of the user. Refreshing the API token takes that token, everything else the
    /// token of the login.
    pub open spec fn call(self, method: ApiMethodView) -> ApiCallView {
        ApiCallView {
            url: self.url,
            user_email: self.user_email,
            token: if method is RefreshTokenApi {
                self.token_api
            } else {
                self.token_auth
            },
            method,
        }
    }

    /// The login on the file server: the user's name with the API token.
    pub open spec fn ftp_account(self) -> FtpAccountView {
        FtpAccountView {
            addr: self.ftp_addr,
            port: self.ftp_port,
            user_email: self.user_email,
            token: self.token_api,
            user_id: self.user_id,
        }
    }
}

/// The texts of a list of string slices.
pub open spec fn str_texts(list: Seq<&str>) -> Seq<Seq<char>> {
    Seq::new(list.len(), |i: int| list[i]@)
}

fn owned(list: &[&str]) -> (r: Vec<String>)
    ensures
        texts(r@) == str_texts(list@),
{
    let mut r: Vec<String> = Vec::new();
    let mut i: usize = 0;
    while i < list.len()
        invariant
            i <= list.len(),
            texts(r@) == str_texts(list@).take(i as int),
        decreases list.len() - i,
    {
        let ghost so_far = r@;
        let item = list[i].to_string();
        r.push(item);
        assert(texts(r@) =~= texts(so_far).push(item@));
        i = i + 1;
        assert(texts(r@) =~= str_texts(list@).take(i as int));
    }
    assert(str_texts(list@).take(i as int) =~= str_texts(list@));
    r
}

impl RustClient {
    /// The client with the given account.
    pub fn new(
        url: String,
        user_email: String,
        user_id: String,
        token_auth: String,
        token_api: String,
        ftp_addr: String,
        ftp_port: u16,
    ) -> (r: Self)
        ensures
            r == (RustClient {
                url,
                user_email,
                user_id,
                token_auth,
                token_api,
                ftp_addr,
                ftp_port,
            }),
    {
        Self { url, user_email, user_id, token_auth, token_api, ftp_addr, ftp_port }
    }

    fn call(&self, method: ApiMethod) -> (r: ApiCall)
        requires
            !(method is RefreshTokenApi),
        ensures
            r@ == self@.call(method@),
    {
        ApiCall {
            url: self.url.clone(),
            user_email: self.user_email.clone(),
            token: self.token_auth.clone(),
            method,
        }
    }

    /// Asks for the credit points.
    pub fn get_credits(&self) -> (r: ApiCall)
        ensures
            r@ == self@.call(ApiMethod::GetCreditPoints),
    {
        self.call(ApiMethod::GetCreditPoints)
    }

    /// Submits a job.
    pub fn submit_job(
        &self,
        command_string: &str,
        project_name: &str,
        input_files: &[&str],
        output_files: &[&str],
    ) -> (r: ApiCall)
        ensures
            r@ == self@.call(
                ApiMethod::SubmitJob {
                    command: command_string@,
                    project: project_name@,
                    inputs: str_texts(input_files@),
                    outputs: str_texts(output_files@),
                },
            ),
    {
        self.call(
            ApiMethod::SubmitJob {
                command: command_string.to_string(),
                project: project_name.to_string(),
                inputs: owned(input_files),
                outputs: owned(output_files),
            },
        )
    }

    /// Asks how a job stands.
    pub fn get_job(&self, job_id: &str) -> (r: ApiCall)
        ensures
            r@ == self@.call(ApiMethod::GetJob { job_id: job_id@ }),
    {
        self.call(ApiMethod::GetJob { job_id: job_id.to_string() })
    }

    /// Lists the user's projects.
    pub fn list_projects(&self) -> (r: ApiCall)
        ensures
            r@ == self@.call(ApiMethod::ListOfProjects),
    {
        self.call(ApiMethod::ListOfProjects)
    }

    /// Lists the example projects.
    pub fn list_example_projects(&self) -> (r: ApiCall)
        ensures
            r@ == self@.call(ApiMethod::ListOfExampleProjects),
    {
        self.call(ApiMethod::ListOfExampleProjects)
    }

    /// Asks for a file of a project.
    pub fn get_project_files(&self, project_name: &str, file_name: &str) -> (r: ApiCall)
        ensures
            r@ == self@.call(
                ApiMethod::GetProjectFiles { project: project_name@, file: file_name@ },
            ),
    {
        self.call(
            ApiMethod::GetProjectFiles {
                project: project_name.to_string(),
                file: file_name.to_string(),
            },
        )
    }

    /// Lists the files of a project.
    pub fn list_project_files(&self, project_id: &str) -> (r: ApiCall)
        ensures
            r@ == self@.call(ApiMethod::ListOfProjectFiles { project: project_id@ }),
    {
        self.call(ApiMethod::ListOfProjectFiles { project: project_id.to_string() })
    }

    /// Copies an example project to the user's projects.
    pub fn import_example_project(&self, project_name: &str) -> (r: ApiCall)
        ensures
            r@ == self@.call(ApiMethod::ImportExampleProject { project: project_name@ }),
    {
        self.call(ApiMethod::ImportExampleProject { project: project_name.to_string() })
    }

    /// Asks for the API token.
    pub fn get_api_token(&self) -> (r: ApiCall)
        ensures
            r@ == self@.call(ApiMethod::GetTokenApi),
    {
        self.call(ApiMethod::GetTokenApi)
    }

    /// Asks for a new API token, with the present one.
    pub fn refresh_api_token(&self) -> (r: ApiCall)
        ensures
            r@ == self@.call(ApiMethod::RefreshTokenApi),
    {
        ApiCall {
            url: self.url.clone(),
            user_email: self.user_email.clone(),
            token: self.token_api.clone(),
            method: ApiMethod::RefreshTokenApi,
        }
    }

    /// Tests the connection: by asking for the credit points.
    pub fn test_connection(&self) -> (r: ApiCall)
        ensures
            r@ == self@.call(ApiMethod::GetCreditPoints),
    {
        self.get_credits()
    }
}

/// What a test of the connection prints: a line where the credit points came, and
/// else the failure.
pub fn connection_report(credits: Result<serde_json::Value, String>) -> (r: Result<
    &'static str,
    String,
>)
    ensures
        match credits {
            Ok(_) => r is Ok && r->Ok_0@ == "Connection test successful!"@,
            Err(e) => r == Err::<&'static str, String>(e),
        },
{
    match credits {
        Ok(_) => Ok("Connection test successful!"),
        Err(e) => Err(e),
    }
}

impl RustClient {
    /// The login on the file server.
    pub fn ftp_account(&self) -> (r: FtpAccount)
        ensures
            r@ == self@.ftp_account(),
    {
        FtpAccount {
            addr: self.ftp_addr.clone(),
            port: self.ftp_port,
            user_email: self.user_email.clone(),
            token: self.token_api.clone(),
            user_id: self.user_id.clone(),
        }
    }

    /// Makes a directory on the file server.
    pub fn make_directory(&self, dir_name: &str) -> (r: (FtpSession, FtpAction))
        ensures
            r.0@ == FtpSessionView::initial(FtpOp::MakeDirectory { dir_name: dir_name@ }),
            r.1@ == FtpActionView::Connect(self@.ftp_account()),
    {
        open_session(self.ftp_account(), FtpOp::MakeDirectory { dir_name: dir_name.to_string() })
    }

    /// Uploads a file to the file server.
    pub fn upload_file(&self, local_path: &str, remote_path: &str) -> (r: (FtpSession, FtpAction))
        ensures
            r.0@ == FtpSessionView::initial(
                FtpOp::UploadFile { local_path: local_path@, remote_path: remote_path@ },
            ),
            r.1@ == FtpActionView::Connect(self@.ftp_account()),
    {
        open_session(
            self.ftp_account(),
            FtpOp::UploadFile {
                local_path: local_path.to_string(),
                remote_path: remote_path.to_string(),
            },
        )
    }

    /// Downloads a file from the file server.
    pub fn download_file(&self, remote_path: &str, local_path: &str) -> (r: (
        FtpSession,
        FtpAction,
    ))
        ensures
            r.0@ == FtpSessionView::initial(
                FtpOp::DownloadFile { remote_path: remote_path@, local_path: local_path@ },
            ),
            r.1@ == FtpActionView::Connect(self@.ftp_account()),
    {
        open_session(
            self.ftp_account(),
            FtpOp::DownloadFile {
                remote_path: remote_path.to_string(),
                local_path: local_path.to_string(),
            },
        )
    }

    /// Starts to make a client from the environment.
    pub fn from_env() -> (r: (EnvLoad, EnvAction))
        ensures
            r.0@ == EnvLoadView::initial(),
            r.1@ == (EnvActionView::LoadDotenv { file: ".env"@ }),
    {
        start_env_load()
    }
}

/// The API token serves the file server and its own refreshing; every other call of
/// the service goes with the token of the login.
pub proof fn tokens_keep_their_place(client: RustClientView, method: ApiMethodView)
    ensures
        client.ftp_account().token == client.token_api,
        client.call(method).token == if method is RefreshTokenApi {
            client.token_api
        } else {
            client.token_auth
        },
        client.call(method).url == client.url,
        client.call(method).user_email == client.user_email,
        client.ftp_account().user_email == client.user_email,
{
}

} // verus!
