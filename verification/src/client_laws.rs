//! What the client asks of the computing service and of its file server, told by the
//! account it holds and the words it is given.
use vstd::prelude::*;

use crate::client::{connection_report, ApiCall, ApiMethod, RustClient};
use crate::ftp::{open_session, FtpAccount, FtpAction, FtpOp, FtpPhase, FtpSession, FtpSessionView};

verus! {

/// Whether a call goes to the client's service, in the name of its user and with `token`.
pub open spec fn is_sent_as(r: ApiCall, c: RustClient, token: String) -> bool {
    &&& r.url@ == c.url@
    &&& r.user_email@ == c.user_email@
    &&& r.token@ == token@
}

/// A client holds each part of the account in its place, and so does its copy.
pub proof fn client_holds_its_account(
    url: String,
    user_email: String,
    user_id: String,
    token_auth: String,
    token_api: String,
    ftp_addr: String,
    ftp_port: u16,
    c: RustClient,
    copy: RustClient,
)
    requires
        call_ensures(
            RustClient::new,
            (url, user_email, user_id, token_auth, token_api, ftp_addr, ftp_port),
            c,
        ),
        call_ensures(RustClient::clone, (&c,), copy),
    ensures
        copy == c,
        c.url@ == url@,
        c.user_email@ == user_email@,
        c.user_id@ == user_id@,
        c.token_auth@ == token_auth@,
        c.token_api@ == token_api@,
        c.ftp_addr@ == ftp_addr@,
        c.ftp_port == ftp_port,
        c@.url == c.url@,
        c@.user_email == c.user_email@,
        c@.user_id == c.user_id@,
        c@.token_auth == c.token_auth@,
        c@.token_api == c.token_api@,
        c@.ftp_addr == c.ftp_addr@,
        c@.ftp_port == c.ftp_port,
{
}

/// A submission names the command, the project and each file as they were given, in their
/// order, and goes with the token of the login.
pub proof fn submission_says_what_it_was_given(
    c: &RustClient,
    command_string: &str,
    project_name: &str,
    input_files: &[&str],
    output_files: &[&str],
    r: ApiCall,
)
    requires
        call_ensures(
            RustClient::submit_job,
            (c, command_string, project_name, input_files, output_files),
            r,
        ),
    ensures
        is_sent_as(r, *c, c.token_auth),
        r.method matches ApiMethod::SubmitJob { command, project, inputs, outputs } && {
            &&& command@ == command_string@
            &&& project@ == project_name@
            &&& inputs@.len() == input_files@.len()
            &&& forall|i: int|
                0 <= i < inputs@.len() ==> (#[trigger] inputs@[i])@ == input_files@[i]@
            &&& outputs@.len() == output_files@.len()
            &&& forall|i: int|
                0 <= i < outputs@.len() ==> (#[trigger] outputs@[i])@ == output_files@[i]@
        },
{
    if let ApiMethod::SubmitJob { command, project, inputs, outputs } = r.method {
        let ins = crate::text::texts(inputs@);
        let outs = crate::text::texts(outputs@);
        assert(ins == crate::client::str_texts(input_files@));
        assert(outs == crate::client::str_texts(output_files@));
        assert(ins.len() == inputs@.len());
        assert(outs.len() == outputs@.len());
        assert forall|i: int| 0 <= i < inputs@.len() implies (#[trigger] inputs@[i])@
            == input_files@[i]@ by {
            assert(ins[i] == inputs@[i]@);
        }
        assert forall|i: int| 0 <= i < outputs@.len() implies (#[trigger] outputs@[i])@
            == output_files@[i]@ by {
            assert(outs[i] == outputs@[i]@);
        }
    }
}

/// Every other request asks for what it is named after, of what it was given, with the
/// token of the login; only the API token is refreshed with itself. The connection is
/// tested by asking for the credit points.
pub proof fn requests_ask_for_what_they_are_named_after(
    c: &RustClient,
    a: &str,
    b: &str,
    r: ApiCall,
)
    ensures
        call_ensures(RustClient::get_credits, (c,), r) || call_ensures(
            RustClient::test_connection,
            (c,),
            r,
        ) ==> is_sent_as(r, *c, c.token_auth) && r.method is GetCreditPoints,
        call_ensures(RustClient::get_job, (c, a), r) ==> is_sent_as(r, *c, c.token_auth) && (
        r.method matches ApiMethod::GetJob { job_id } && job_id@ == a@),
        call_ensures(RustClient::list_projects, (c,), r) ==> is_sent_as(r, *c, c.token_auth)
            && r.method is ListOfProjects,
        call_ensures(RustClient::list_example_projects, (c,), r) ==> is_sent_as(
            r,
            *c,
            c.token_auth,
        ) && r.method is ListOfExampleProjects,
        call_ensures(RustClient::get_project_files, (c, a, b), r) ==> is_sent_as(
            r,
            *c,
            c.token_auth,
        ) && (r.method matches ApiMethod::GetProjectFiles { project, file } && project@ == a@
            && file@ == b@),
        call_ensures(RustClient::list_project_files, (c, a), r) ==> is_sent_as(
            r,
            *c,
            c.token_auth,
        ) && (r.method matches ApiMethod::ListOfProjectFiles { project } && project@ == a@),
        call_ensures(RustClient::import_example_project, (c, a), r) ==> is_sent_as(
            r,
            *c,
            c.token_auth,
        ) && (r.method matches ApiMethod::ImportExampleProject { project } && project@ == a@),
        call_ensures(RustClient::get_api_token, (c,), r) ==> is_sent_as(r, *c, c.token_auth)
            && r.method is GetTokenApi,
        call_ensures(RustClient::refresh_api_token, (c,), r) ==> is_sent_as(r, *c, c.token_api)
            && r.method is RefreshTokenApi,
{
}

/// A test of the connection succeeds just where the credit points came, and else tells
/// the failure.
pub proof fn connection_test_tells_what_came(
    credits: Result<serde_json::Value, String>,
    r: Result<&'static str, String>,
)
    requires
        call_ensures(connection_report, (credits,), r),
    ensures
        credits is Ok <==> r is Ok,
        r matches Ok(line) ==> line@ == "Connection test successful!"@,
        credits matches Err(e) ==> r is Err && r->Err_0@ == e@,
{
}

/// Whether an account is the client's on the file server: the user with the API token.
pub open spec fn is_login_of(account: FtpAccount, c: RustClient) -> bool {
    &&& account.addr@ == c.ftp_addr@
    &&& account.port == c.ftp_port
    &&& account.user_email@ == c.user_email@
    &&& account.token@ == c.token_api@
    &&& account.user_id@ == c.user_id@
}

/// Each session on the file server begins by logging in as the client, and is for just
/// what it was opened for: the named directory, or the named files, from the one to the
/// other.
pub proof fn sessions_are_for_what_they_were_opened_for(
    c: &RustClient,
    a: &str,
    b: &str,
    account: FtpAccount,
    r: (FtpSession, FtpAction),
)
    ensures
        call_ensures(RustClient::ftp_account, (c,), account) ==> is_login_of(account, *c),
        call_ensures(RustClient::make_directory, (c, a), r) ==> {
            &&& r.1 matches FtpAction::Connect(login)
            &&& is_login_of(login, *c)
            &&& r.0@.phase == FtpPhase::Connecting
            &&& r.0@.op matches FtpOp::MakeDirectory { dir_name }
            &&& dir_name == a@
        },
        call_ensures(RustClient::upload_file, (c, a, b), r) ==> {
            &&& r.1 matches FtpAction::Connect(login)
            &&& is_login_of(login, *c)
            &&& r.0@.phase == FtpPhase::Connecting
            &&& r.0@.op matches FtpOp::UploadFile { local_path, remote_path }
            &&& local_path == a@
            &&& remote_path == b@
        },
        call_ensures(RustClient::download_file, (c, a, b), r) ==> {
            &&& r.1 matches FtpAction::Connect(login)
            &&& is_login_of(login, *c)
            &&& r.0@.phase == FtpPhase::Connecting
            &&& r.0@.op matches FtpOp::DownloadFile { remote_path, local_path }
            &&& remote_path == a@
            &&& local_path == b@
        },
{
}

/// A session connects first, and is not over before it has failed or left the file
/// server. What it performs is what it is for.
pub proof fn session_is_over_when_it_says(
    account: FtpAccount,
    op: FtpOp,
    opened: (FtpSession, FtpAction),
    session: &mut FtpSession,
    outcome: Result<(), String>,
    r: FtpAction,
    over: bool,
)
    requires
        call_ensures(open_session, (account, op), opened),
        call_ensures(FtpSession::step, (session, outcome), r),
        old(session)@.phase != FtpPhase::Finished,
        call_ensures(FtpSession::is_finished, (&*final(session),), over),
    ensures
        opened.0@ == FtpSessionView::initial(op@),
        opened.1 matches FtpAction::Connect(login) && {
            &&& login.addr@ == account.addr@
            &&& login.port == account.port
            &&& login.user_email@ == account.user_email@
            &&& login.token@ == account.token@
            &&& login.user_id@ == account.user_id@
        },
        over <==> r is Finish,
        r matches FtpAction::Perform(does) ==> does@ == old(session)@.op,
        final(session)@.op == old(session)@.op,
{
}

/// The model of what a session is for holds what that holds.
pub proof fn session_purpose_is_what_it_says(op: FtpOp)
    ensures
        match (op, op@) {
            (FtpOp::MakeDirectory { dir_name }, FtpOp::MakeDirectory { dir_name: d }) => d
                == dir_name@,
            (
                FtpOp::UploadFile { local_path, remote_path },
                FtpOp::UploadFile { local_path: l, remote_path: r },
            ) => l == local_path@ && r == remote_path@,
            (
                FtpOp::DownloadFile { remote_path, local_path },
                FtpOp::DownloadFile { remote_path: r, local_path: l },
            ) => r == remote_path@ && l == local_path@,
            _ => false,
        },
{
}

} // verus!
