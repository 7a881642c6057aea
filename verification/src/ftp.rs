//! A session on the file server: connect, do one thing, disconnect.
use vstd::prelude::*;

verus! {

/// The login on the file server.
#[derive(Debug)]
pub struct FtpAccount {
    pub addr: String,
    pub port: u16,
    pub user_email: String,
    pub token: String,
    pub user_id: String,
}

/// The model of `FtpAccount`.
pub struct FtpAccountView {
    pub addr: Seq<char>,
    pub port: u16,
    pub user_email: Seq<char>,
    pub token: Seq<char>,
    pub user_id: Seq<char>,
}

impl View for FtpAccount {
    type V = FtpAccountView;

    open spec fn view(&self) -> FtpAccountView {
        FtpAccountView {
            addr: self.addr@,
            port: self.port,
            user_email: self.user_email@,
            token: self.token@,
            user_id: self.user_id@,
        }
    }
}

/// What a session on the file server is for. The parameter is the type of texts.
#[derive(Debug)]
pub enum FtpOp<S = String> {
    MakeDirectory { dir_name: S },
    UploadFile { local_path: S, remote_path: S },
    DownloadFile { remote_path: S, local_path: S },
}

/// The model of `FtpOp`.
pub type FtpOpView = FtpOp<Seq<char>>;

impl View for FtpOp<String> {
    type V = FtpOpView;

    open spec fn view(&self) -> FtpOpView {
        match *self {
            FtpOp::MakeDirectory { dir_name } => FtpOp::MakeDirectory { dir_name: dir_name@ },
            FtpOp::UploadFile { local_path, remote_path } => FtpOp::UploadFile {
                local_path: local_path@,
                remote_path: remote_path@,
            },
            FtpOp::DownloadFile { remote_path, local_path } => FtpOp::DownloadFile {
                remote_path: remote_path@,
                local_path: local_path@,
            },
        }
    }
}

/// What a session asks for. The parameters are the types of accounts, of operations
/// and of texts.
#[derive(Debug)]
pub enum FtpAction<A = FtpAccount, O = FtpOp, S = String> {
    /// Connect to the file server and log in.
    Connect(A),
    /// Do what the session is for.
    Perform(O),
    Disconnect,
    /// The session is over.
    Finish(Result<(), S>),
}

/// The model of `FtpAction`.
pub type FtpActionView = FtpAction<FtpAccountView, FtpOpView, Seq<char>>;

impl View for FtpAction<FtpAccount, FtpOp, String> {
    type V = FtpActionView;

    open spec fn view(&self) -> FtpActionView {
        match *self {
            FtpAction::Connect(account) => FtpAction::Connect(account@),
            FtpAction::Perform(op) => FtpAction::Perform(op@),
            FtpAction::Disconnect => FtpAction::Disconnect,
            FtpAction::Finish(Ok(())) => FtpAction::Finish(Ok(())),
            FtpAction::Finish(Err(e)) => FtpAction::Finish(Err(e@)),
        }
    }
}

/// What a session waits for.
#[derive(Debug, Clone, Copy, PartialEq, Eq, Structural)]
pub enum FtpPhase {
    Connecting,
    Performing,
    Disconnecting,
    Finished,
}

/// A session on the file server.
#[derive(Debug)]
pub struct FtpSession {
    phase: FtpPhase,
    op: FtpOp,
}

/// The model of `FtpSession`.
pub struct FtpSessionView {
    pub phase: FtpPhase,
    pub op: FtpOpView,
}

impl View for FtpSession {
    type V = FtpSessionView;

    closed spec fn view(&self) -> FtpSessionView {
        FtpSessionView { phase: self.phase, op: self.op@ }
    }
}

impl FtpSessionView {
    /// The session before it is connected.
    pub open spec fn initial(op: FtpOpView) -> FtpSessionView {
        FtpSessionView { phase: FtpPhase::Connecting, op }
    }

    /// The session and the action after the outcome of the last one. A failure ends
    /// the session at once; of disconnecting no failure is told.
    pub open spec fn next(self, outcome: Result<(), String>) -> (FtpSessionView, FtpActionView) {
        match (self.phase, outcome) {
            (FtpPhase::Connecting, Ok(())) => (
                FtpSessionView { phase: FtpPhase::Performing, ..self },
                FtpAction::Perform(self.op),
            ),
            (FtpPhase::Performing, Ok(())) => (
                FtpSessionView { phase: FtpPhase::Disconnecting, ..self },
                FtpAction::Disconnect,
            ),
            (FtpPhase::Connecting, Err(e)) | (FtpPhase::Performing, Err(e)) => (
                FtpSessionView { phase: FtpPhase::Finished, ..self },
                FtpAction::Finish(Err(e@)),
            ),
            _ => (
                FtpSessionView { phase: FtpPhase::Finished, ..self },
                FtpAction::Finish(Ok(())),
            ),
        }
    }
}

/// Opens a session for `op`.
pub fn open_session(account: FtpAccount, op: FtpOp) -> (r: (FtpSession, FtpAction))
    ensures
        r.0@ == FtpSessionView::initial(op@),
        r.1@ == FtpActionView::Connect(account@),
{
    (FtpSession { phase: FtpPhase::Connecting, op }, FtpAction::Connect(account))
}

impl FtpOp {
    fn copied(&self) -> (r: FtpOp)
        ensures
            r@ == self@,
    {
        match self {
            FtpOp::MakeDirectory { dir_name } => FtpOp::MakeDirectory {
                dir_name: dir_name.clone(),
            },
            FtpOp::UploadFile { local_path, remote_path } => FtpOp::UploadFile {
                local_path: local_path.clone(),
                remote_path: remote_path.clone(),
            },
            FtpOp::DownloadFile { remote_path, local_path } => FtpOp::DownloadFile {
                remote_path: remote_path.clone(),
                local_path: local_path.clone(),
            },
        }
    }
}

impl FtpSession {
    /// Whether the session is over.
    pub fn is_finished(&self) -> (r: bool)
        ensures
            r == (self@.phase == FtpPhase::Finished),
    {
        self.phase == FtpPhase::Finished
    }

    /// Takes the outcome of the last action and gives the next one.
    pub fn step(&mut self, outcome: Result<(), String>) -> (action: FtpAction)
        requires
            old(self)@.phase != FtpPhase::Finished,
        ensures
            (final(self)@, action@) == old(self)@.next(outcome),
    {
        match (self.phase, outcome) {
            (FtpPhase::Connecting, Ok(())) => {
                self.phase = FtpPhase::Performing;
                FtpAction::Perform(self.op.copied())
            },
            (FtpPhase::Performing, Ok(())) => {
                self.phase = FtpPhase::Disconnecting;
                FtpAction::Disconnect
            },
            (FtpPhase::Connecting, Err(e)) | (FtpPhase::Performing, Err(e)) => {
                self.phase = FtpPhase::Finished;
                FtpAction::Finish(Err(e))
            },
            _ => {
                self.phase = FtpPhase::Finished;
                FtpAction::Finish(Ok(()))
            },
        }
    }
}

/// The course of a session, by the outcomes of connecting and of what it is for: both
/// must succeed for it to disconnect and to end well, and the first failure is what it
/// ends with.
pub proof fn ftp_session_course(
    op: FtpOpView,
    connected: Result<(), String>,
    performed: Result<(), String>,
    disconnected: Result<(), String>,
)
    ensures
        ({
            let (s1, a1) = FtpSessionView::initial(op).next(connected);
            let (s2, a2) = s1.next(performed);
            let (s3, a3) = s2.next(disconnected);
            match (connected, performed) {
                (Ok(_), Ok(_)) => {
                    &&& a1 == FtpActionView::Perform(op)
                    &&& a2 == FtpActionView::Disconnect
                    &&& a3 == FtpActionView::Finish(Ok(()))
                    &&& s3.phase == FtpPhase::Finished
                },
                (Ok(_), Err(e)) => {
                    &&& a1 == FtpActionView::Perform(op)
                    &&& a2 == FtpActionView::Finish(Err(e@))
                    &&& s2.phase == FtpPhase::Finished
                },
                (Err(e), _) => {
                    &&& a1 == FtpActionView::Finish(Err(e@))
                    &&& s1.phase == FtpPhase::Finished
                },
            }
        }),
{
}

} // verus!
