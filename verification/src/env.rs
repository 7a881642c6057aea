//! Making a client from the environment.
//!
//! The program performs each action and hands the outcome to [`EnvLoad::step`], which
//! gives the next one.
use vstd::prelude::*;

use crate::client::{RustClient, RustClientView};
use crate::json::{json_contents, string_reply};
use crate::port::{parse_port, port_of, PortError};
use crate::text::opt_text;

verus! {

/// What making the client asks for. The parameters are the types of texts and of
/// clients.
#[derive(Debug)]
pub enum EnvAction<S = String, C = RustClient> {
    /// Take the variables of `file` into the environment, where there is such a file.
    LoadDotenv { file: S },
    /// Read a variable.
    ReadVar { name: S },
    /// Connect to the service.
    CreateClient { url: S },
    /// Ask the service for the API token.
    GetTokenApi { user_email: S, token_auth: S },
    /// The client, or why there is none.
    Finish(Result<C, S>),
}

/// The model of `EnvAction`.
pub type EnvActionView = EnvAction<Seq<char>, RustClientView>;

impl View for EnvAction<String, RustClient> {
    type V = EnvActionView;

    open spec fn view(&self) -> EnvActionView {
        match *self {
            EnvAction::LoadDotenv { file } => EnvAction::LoadDotenv { file: file@ },
            EnvAction::ReadVar { name } => EnvAction::ReadVar { name: name@ },
            EnvAction::CreateClient { url } => EnvAction::CreateClient { url: url@ },
            EnvAction::GetTokenApi { user_email, token_auth } => EnvAction::GetTokenApi {
                user_email: user_email@,
                token_auth: token_auth@,
            },
            EnvAction::Finish(Ok(client)) => EnvAction::Finish(Ok(client@)),
            EnvAction::Finish(Err(e)) => EnvAction::Finish(Err(e@)),
        }
    }
}

/// The outcome of an action. Failures come with their message.
#[derive(Debug)]
pub enum EnvEvent {
    DotenvLoaded(Result<(), String>),
    VarRead(Result<String, String>),
    ClientCreated(Result<(), String>),
    TokenRead(Result<serde_json::Value, String>),
}

/// What making the client waits for.
#[derive(Debug, Clone, Copy, PartialEq, Eq, Structural)]
pub enum EnvPhase {
    Dotenv,
    Url,
    UserEmail,
    UserId,
    TokenAuth,
    Connecting,
    TokenApi,
    FtpAddr,
    FtpPort,
    Finished,
}

/// A client in the making.
#[derive(Debug)]
pub struct EnvLoad {
    phase: EnvPhase,
    url: String,
    user_email: String,
    user_id: String,
    token_auth: String,
    token_api: String,
    ftp_addr: String,
}

/// The model of `EnvLoad`.
pub struct EnvLoadView {
    pub phase: EnvPhase,
    pub url: Seq<char>,
    pub user_email: Seq<char>,
    pub user_id: Seq<char>,
    pub token_auth: Seq<char>,
    pub token_api: Seq<char>,
    pub ftp_addr: Seq<char>,
}

impl View for EnvLoad {
    type V = EnvLoadView;

    closed spec fn view(&self) -> EnvLoadView {
        EnvLoadView {
            phase: self.phase,
            url: self.url@,
            user_email: self.user_email@,
            user_id: self.user_id@,
            token_auth: self.token_auth@,
            token_api: self.token_api@,
            ftp_addr: self.ftp_addr@,
        }
    }
}

impl EnvLoadView {
    /// Before anything is read.
    pub open spec fn initial() -> EnvLoadView {
        EnvLoadView {
            phase: EnvPhase::Dotenv,
            url: Seq::empty(),
            user_email: Seq::empty(),
            user_id: Seq::empty(),
            token_auth: Seq::empty(),
            token_api: Seq::empty(),
            ftp_addr: Seq::empty(),
        }
    }

    /// Without a client, for the given reason.
    pub open spec fn fail(self, e: Seq<char>) -> (EnvLoadView, EnvActionView) {
        (EnvLoadView { phase: EnvPhase::Finished, ..self }, EnvAction::Finish(Err(e)))
    }

    /// The client on the file server's port that `port` writes.
    pub open spec fn finish(self, port: Seq<char>) -> (EnvLoadView, EnvActionView) {
        match port_of(port) {
            Ok(ftp_port) => (
                EnvLoadView { phase: EnvPhase::Finished, ..self },
                EnvAction::Finish(
                    Ok(
                        RustClientView {
                            url: self.url,
                            user_email: self.user_email,
                            user_id: self.user_id,
                            token_auth: self.token_auth,
                            token_api: self.token_api,
                            ftp_addr: self.ftp_addr,
                            ftp_port,
                        },
                    ),
                ),
            ),
            Err(e) => self.fail(e.message_text()),
        }
    }

    /// Whether `event` is an outcome of what was asked for.
    pub open spec fn accepts(self, event: EnvEvent) -> bool {
        match self.phase {
            EnvPhase::Dotenv => event is DotenvLoaded,
            EnvPhase::Connecting => event is ClientCreated,
            EnvPhase::TokenApi => event is TokenRead,
            EnvPhase::Finished => false,
            _ => event is VarRead,
        }
    }

    /// The client in the making and the action after the value of a variable.
    pub open spec fn next_var(self, value: Seq<char>) -> (EnvLoadView, EnvActionView) {
        match self.phase {
            EnvPhase::Url => (
                EnvLoadView { phase: EnvPhase::UserEmail, url: value, ..self },
                EnvAction::ReadVar { name: "USER_EMAIL"@ },
            ),
            EnvPhase::UserEmail => (
                EnvLoadView { phase: EnvPhase::UserId, user_email: value, ..self },
                EnvAction::ReadVar { name: "USER_ID"@ },
            ),
            EnvPhase::UserId => (
                EnvLoadView { phase: EnvPhase::TokenAuth, user_id: value, ..self },
                EnvAction::ReadVar { name: "TOKEN_AUTH"@ },
            ),
            EnvPhase::TokenAuth => (
                EnvLoadView { phase: EnvPhase::Connecting, token_auth: value, ..self },
                EnvAction::CreateClient { url: self.url },
            ),
            EnvPhase::FtpAddr => (
                EnvLoadView { phase: EnvPhase::FtpPort, ftp_addr: value, ..self },
                EnvAction::ReadVar { name: "FTP_PORT"@ },
            ),
            _ => self.finish(value),
        }
    }

    /// The client in the making and the action after the reply to the wish for the
    /// API token, which is a string or not.
    pub open spec fn next_token(self, token: Option<Seq<char>>) -> (EnvLoadView, EnvActionView) {
        match token {
            Some(token) => (
                EnvLoadView { phase: EnvPhase::FtpAddr, token_api: token, ..self },
                EnvAction::ReadVar { name: "FTP_ADDR"@ },
            ),
            None => self.fail("Expected a string in token API response"@),
        }
    }

    /// The client in the making and the action after `event`. The file of variables
    /// may be missing; every other failure ends the making.
    pub open spec fn next(self, event: EnvEvent) -> (EnvLoadView, EnvActionView) {
        match event {
            EnvEvent::DotenvLoaded(_) => (
                EnvLoadView { phase: EnvPhase::Url, ..self },
                EnvAction::ReadVar { name: "URL"@ },
            ),
            EnvEvent::VarRead(Ok(value)) => self.next_var(value@),
            EnvEvent::VarRead(Err(e)) => self.fail(e@),
            EnvEvent::ClientCreated(Ok(())) => (
                EnvLoadView { phase: EnvPhase::TokenApi, ..self },
                EnvAction::GetTokenApi { user_email: self.user_email, token_auth: self.token_auth },
            ),
            EnvEvent::ClientCreated(Err(e)) => self.fail(e@),
            EnvEvent::TokenRead(Ok(reply)) => self.next_token(json_contents(reply).text()),
            EnvEvent::TokenRead(Err(e)) => self.fail(e@),
        }
    }
}

/// Starts to make a client.
pub fn start_env_load() -> (r: (EnvLoad, EnvAction))
    ensures
        r.0@ == EnvLoadView::initial(),
        r.1@ == (EnvActionView::LoadDotenv { file: ".env"@ }),
{
    let load = EnvLoad {
        phase: EnvPhase::Dotenv,
        url: String::new(),
        user_email: String::new(),
        user_id: String::new(),
        token_auth: String::new(),
        token_api: String::new(),
        ftp_addr: String::new(),
    };
    (load, EnvAction::LoadDotenv { file: ".env".to_string() })
}

impl EnvLoad {
    /// Whether `event` is an outcome of what was asked for.
    pub fn accepts(&self, event: &EnvEvent) -> (r: bool)
        ensures
            r == self@.accepts(*event),
    {
        match (self.phase, event) {
            (EnvPhase::Dotenv, EnvEvent::DotenvLoaded(_)) => true,
            (EnvPhase::Connecting, EnvEvent::ClientCreated(_)) => true,
            (EnvPhase::TokenApi, EnvEvent::TokenRead(_)) => true,
            (EnvPhase::Url, EnvEvent::VarRead(_)) => true,
            (EnvPhase::UserEmail, EnvEvent::VarRead(_)) => true,
            (EnvPhase::UserId, EnvEvent::VarRead(_)) => true,
            (EnvPhase::TokenAuth, EnvEvent::VarRead(_)) => true,
            (EnvPhase::FtpAddr, EnvEvent::VarRead(_)) => true,
            (EnvPhase::FtpPort, EnvEvent::VarRead(_)) => true,
            _ => false,
        }
    }

    fn fail(&mut self, e: String) -> (action: EnvAction)
        ensures
            (final(self)@, action@) == old(self)@.fail(e@),
    {
        self.phase = EnvPhase::Finished;
        EnvAction::Finish(Err(e))
    }

    fn finish(&mut self, port: String) -> (action: EnvAction)
        ensures
            (final(self)@, action@) == old(self)@.finish(port@),
    {
        match parse_port(port.as_str()) {
            Ok(ftp_port) => {
                self.phase = EnvPhase::Finished;
                EnvAction::Finish(
                    Ok(
                        RustClient::new(
                            self.url.clone(),
                            self.user_email.clone(),
                            self.user_id.clone(),
                            self.token_auth.clone(),
                            self.token_api.clone(),
                            self.ftp_addr.clone(),
                            ftp_port,
                        ),
                    ),
                )
            },
            Err(e) => self.fail(e.message()),
        }
    }

    fn on_var(&mut self, value: String) -> (action: EnvAction)
        ensures
            (final(self)@, action@) == old(self)@.next_var(value@),
    {
        match self.phase {
            EnvPhase::Url => {
                self.url = value;
                self.phase = EnvPhase::UserEmail;
                EnvAction::ReadVar { name: "USER_EMAIL".to_string() }
            },
            EnvPhase::UserEmail => {
                self.user_email = value;
                self.phase = EnvPhase::UserId;
                EnvAction::ReadVar { name: "USER_ID".to_string() }
            },
            EnvPhase::UserId => {
                self.user_id = value;
                self.phase = EnvPhase::TokenAuth;
                EnvAction::ReadVar { name: "TOKEN_AUTH".to_string() }
            },
            EnvPhase::TokenAuth => {
                self.token_auth = value;
                self.phase = EnvPhase::Connecting;
                EnvAction::CreateClient { url: self.url.clone() }
            },
            EnvPhase::FtpAddr => {
                self.ftp_addr = value;
                self.phase = EnvPhase::FtpPort;
                EnvAction::ReadVar { name: "FTP_PORT".to_string() }
            },
            _ => self.finish(value),
        }
    }

    /// Goes on with the reply to the wish for the API token: a string or not.
    pub fn on_token(&mut self, token: Option<String>) -> (action: EnvAction)
        requires
            old(self)@.phase == EnvPhase::TokenApi,
        ensures
            (final(self)@, action@) == old(self)@.next_token(opt_text(token)),
    {
        match token {
            Some(token) => {
                self.token_api = token;
                self.phase = EnvPhase::FtpAddr;
                EnvAction::ReadVar { name: "FTP_ADDR".to_string() }
            },
            None => self.fail("Expected a string in token API response".to_string()),
        }
    }

    /// Takes the outcome of the last action and gives the next one.
    pub fn step(&mut self, event: EnvEvent) -> (action: EnvAction)
        requires
            old(self)@.accepts(event),
        ensures
            (final(self)@, action@) == old(self)@.next(event),
    {
        match event {
            EnvEvent::DotenvLoaded(_) => {
                self.phase = EnvPhase::Url;
                EnvAction::ReadVar { name: "URL".to_string() }
            },
            EnvEvent::VarRead(Ok(value)) => self.on_var(value),
            EnvEvent::VarRead(Err(e)) => self.fail(e),
            EnvEvent::ClientCreated(Ok(())) => {
                self.phase = EnvPhase::TokenApi;
                EnvAction::GetTokenApi {
                    user_email: self.user_email.clone(),
                    token_auth: self.token_auth.clone(),
                }
            },
            EnvEvent::ClientCreated(Err(e)) => self.fail(e),
            EnvEvent::TokenRead(Ok(reply)) => self.on_token(string_reply(&reply)),
            EnvEvent::TokenRead(Err(e)) => self.fail(e),
        }
    }
}

impl EnvLoadView {
    /// The client in the making after `events`, one after the other.
    pub open spec fn after(self, events: Seq<EnvEvent>) -> EnvLoadView
        decreases events.len(),
    {
        if events.len() == 0 {
            self
        } else {
            self.after(events.drop_last()).next(events.last()).0
        }
    }

    /// What is asked for after the last of `events`.
    pub open spec fn asked(self, events: Seq<EnvEvent>) -> EnvActionView {
        self.after(events.drop_last()).next(events.last()).1
    }

    /// Whether each of `events` is an outcome of what was asked for before it.
    pub open spec fn accepts_all(self, events: Seq<EnvEvent>) -> bool
        decreases events.len(),
    {
        events.len() == 0 || {
            &&& self.accepts_all(events.drop_last())
            &&& self.after(events.drop_last()).accepts(events.last())
        }
    }

    /// How many outcomes lie behind the phase.
    spec fn rank(self) -> nat {
        match self.phase {
            EnvPhase::Dotenv => 0,
            EnvPhase::Url => 1,
            EnvPhase::UserEmail => 2,
            EnvPhase::UserId => 3,
            EnvPhase::TokenAuth => 4,
            EnvPhase::Connecting => 5,
            EnvPhase::TokenApi => 6,
            EnvPhase::FtpAddr => 7,
            EnvPhase::FtpPort => 8,
            EnvPhase::Finished => 9,
        }
    }
}

/// The value of a variable that an outcome tells.
pub open spec fn value_of(event: EnvEvent) -> Option<Seq<char>> {
    match event {
        EnvEvent::VarRead(Ok(value)) => Some(value@),
        _ => None,
    }
}

/// The API token that an outcome tells.
pub open spec fn token_of(event: EnvEvent) -> Option<Seq<char>> {
    match event {
        EnvEvent::TokenRead(Ok(reply)) => json_contents(reply).text(),
        _ => None,
    }
}

proof fn lemma_env_fields(events: Seq<EnvEvent>)
    requires
        EnvLoadView::initial().accepts_all(events),
    ensures
        ({
            let load = EnvLoadView::initial().after(events);
            load.phase != EnvPhase::Finished ==> {
                &&& events.len() == load.rank()
                &&& load.rank() > 1 ==> value_of(events[1]) == Some(load.url)
                &&& load.rank() > 2 ==> value_of(events[2]) == Some(load.user_email)
                &&& load.rank() > 3 ==> value_of(events[3]) == Some(load.user_id)
                &&& load.rank() > 4 ==> value_of(events[4]) == Some(load.token_auth)
                &&& load.rank() > 6 ==> token_of(events[6]) == Some(load.token_api)
                &&& load.rank() > 7 ==> value_of(events[7]) == Some(load.ftp_addr)
            }
        }),
    decreases events.len(),
{
    if events.len() > 0 {
        lemma_env_fields(events.drop_last());
    }
}

/// A client is made of what was read, each value in its place: five variables, the
/// API token that the service gave, and the number that the sixth variable writes.
pub proof fn env_client_is_what_was_read(events: Seq<EnvEvent>, client: RustClientView)
    requires
        events.len() > 0,
        EnvLoadView::initial().accepts_all(events),
        EnvLoadView::initial().asked(events) == EnvActionView::Finish(Ok(client)),
    ensures
        events.len() == 9,
        value_of(events[1]) == Some(client.url),
        value_of(events[2]) == Some(client.user_email),
        value_of(events[3]) == Some(client.user_id),
        value_of(events[4]) == Some(client.token_auth),
        token_of(events[6]) == Some(client.token_api),
        value_of(events[7]) == Some(client.ftp_addr),
        value_of(events[8]) matches Some(port) && port_of(port) == Ok::<u16, PortError>(
            client.ftp_port,
        ),
{
    let before = events.drop_last();
    lemma_env_fields(before);
    let load = EnvLoadView::initial().after(before);
    assert(load.phase == EnvPhase::FtpPort);
    assert forall|i: int| 0 <= i < 8 implies before[i] == events[i] by {}
}

/// The outcomes of a making in which nothing fails.
pub open spec fn full_course(
    dotenv: Result<(), String>,
    values: Seq<String>,
    reply: serde_json::Value,
) -> Seq<EnvEvent> {
    seq![
        EnvEvent::DotenvLoaded(dotenv),
        EnvEvent::VarRead(Ok(values[0])),
        EnvEvent::VarRead(Ok(values[1])),
        EnvEvent::VarRead(Ok(values[2])),
        EnvEvent::VarRead(Ok(values[3])),
        EnvEvent::ClientCreated(Ok(())),
        EnvEvent::TokenRead(Ok(reply)),
        EnvEvent::VarRead(Ok(values[4])),
        EnvEvent::VarRead(Ok(values[5])),
    ]
}

/// A client comes of it whenever every variable is set, the service can be reached
/// and gives a string for the API token, and the last variable writes a port. A
/// missing file of variables does no harm.
pub proof fn env_gives_a_client(
    dotenv: Result<(), String>,
    values: Seq<String>,
    reply: serde_json::Value,
)
    requires
        values.len() == 6,
        json_contents(reply).text() is Some,
        port_of(values[5]@) is Ok,
    ensures
        EnvLoadView::initial().accepts_all(full_course(dotenv, values, reply)),
        EnvLoadView::initial().asked(full_course(dotenv, values, reply)) matches EnvAction::Finish(
            Ok(_),
        ),
{
    let start = EnvLoadView::initial();
    let e1 = Seq::<EnvEvent>::empty().push(EnvEvent::DotenvLoaded(dotenv));
    let e2 = e1.push(EnvEvent::VarRead(Ok(values[0])));
    let e3 = e2.push(EnvEvent::VarRead(Ok(values[1])));
    let e4 = e3.push(EnvEvent::VarRead(Ok(values[2])));
    let e5 = e4.push(EnvEvent::VarRead(Ok(values[3])));
    let e6 = e5.push(EnvEvent::ClientCreated(Ok(())));
    let e7 = e6.push(EnvEvent::TokenRead(Ok(reply)));
    let e8 = e7.push(EnvEvent::VarRead(Ok(values[4])));
    let e9 = e8.push(EnvEvent::VarRead(Ok(values[5])));
    reveal_with_fuel(EnvLoadView::after, 2);
    reveal_with_fuel(EnvLoadView::accepts_all, 2);
    assert(e1.drop_last() =~= Seq::empty());
    assert(start.accepts_all(e1) && start.after(e1).phase == EnvPhase::Url);
    assert(e2.drop_last() =~= e1);
    assert(start.accepts_all(e2) && start.after(e2).phase == EnvPhase::UserEmail);
    assert(e3.drop_last() =~= e2);
    assert(start.accepts_all(e3) && start.after(e3).phase == EnvPhase::UserId);
    assert(e4.drop_last() =~= e3);
    assert(start.accepts_all(e4) && start.after(e4).phase == EnvPhase::TokenAuth);
    assert(e5.drop_last() =~= e4);
    assert(start.accepts_all(e5) && start.after(e5).phase == EnvPhase::Connecting);
    assert(e6.drop_last() =~= e5);
    assert(start.accepts_all(e6) && start.after(e6).phase == EnvPhase::TokenApi);
    assert(e7.drop_last() =~= e6);
    assert(start.accepts_all(e7) && start.after(e7).phase == EnvPhase::FtpAddr);
    assert(e8.drop_last() =~= e7);
    assert(start.accepts_all(e8) && start.after(e8).phase == EnvPhase::FtpPort);
    assert(e9.drop_last() =~= e8);
    assert(start.accepts_all(e9));
    assert(start.asked(e9) matches EnvAction::Finish(Ok(_)));
    assert(full_course(dotenv, values, reply) =~= e9);
}

} // verus!
