//! What holds of every client that is made from the environment, told by the outcomes
//! alone.
use vstd::prelude::*;

use crate::client::RustClient;
use crate::env::{
    env_client_is_what_was_read, start_env_load, token_of, value_of, EnvAction, EnvActionView, EnvEvent, EnvLoad, EnvLoadView,
    EnvPhase,
};
use crate::json::json_contents;
use crate::port::{port_of, PortError};

verus! {

/// Making a client begins with the file of variables, however it is started, and nothing
/// but the outcome of that is taken.
pub proof fn env_starts_with_the_file(r: (EnvLoad, EnvAction), event: EnvEvent)
    requires
        call_ensures(start_env_load, (), r) || call_ensures(RustClient::from_env, (), r),
    ensures
        r.0@ == EnvLoadView::initial(),
        r.1 matches EnvAction::LoadDotenv { file } && file@ == ".env"@,
        r.0@.accepts(event) <==> event is DotenvLoaded,
{
}

/// The outcome of the action that was asked for last is taken, and no other.
pub proof fn env_takes_what_it_asked_for(events: Seq<EnvEvent>, event: EnvEvent)
    requires
        events.len() > 0,
        EnvLoadView::initial().accepts_all(events),
    ensures
        EnvLoadView::initial().after(events).accepts(event) <==> match EnvLoadView::initial().asked(
            events,
        ) {
            EnvAction::LoadDotenv { .. } => event is DotenvLoaded,
            EnvAction::ReadVar { .. } => event is VarRead,
            EnvAction::CreateClient { .. } => event is ClientCreated,
            EnvAction::GetTokenApi { .. } => event is TokenRead,
            EnvAction::Finish(_) => false,
        },
{
}

spec fn has_read(load: EnvLoadView, events: Seq<EnvEvent>) -> bool {
    &&& events.len() > 1 ==> value_of(events[1]) == Some(load.url)
    &&& events.len() > 2 ==> value_of(events[2]) == Some(load.user_email)
    &&& events.len() > 3 ==> value_of(events[3]) == Some(load.user_id)
    &&& events.len() > 4 ==> value_of(events[4]) == Some(load.token_auth)
    &&& events.len() > 5 ==> (events[5] matches EnvEvent::ClientCreated(Ok(_)))
    &&& events.len() > 6 ==> token_of(events[6]) == Some(load.token_api)
    &&& events.len() > 7 ==> value_of(events[7]) == Some(load.ftp_addr)
    &&& events.len() == match load.phase {
        EnvPhase::Dotenv => 0nat,
        EnvPhase::Url => 1,
        EnvPhase::UserEmail => 2,
        EnvPhase::UserId => 3,
        EnvPhase::TokenAuth => 4,
        EnvPhase::Connecting => 5,
        EnvPhase::TokenApi => 6,
        EnvPhase::FtpAddr => 7,
        _ => 8,
    }
}

proof fn lemma_env_origin(events: Seq<EnvEvent>)
    requires
        EnvLoadView::initial().accepts_all(events),
    ensures
        ({
            let load = EnvLoadView::initial().after(events);
            load.phase != EnvPhase::Finished ==> has_read(load, events)
        }),
    decreases events.len(),
{
    if events.len() > 0 {
        let before = events.drop_last();
        lemma_env_origin(before);
        let prior = EnvLoadView::initial().after(before);
        assert(has_read(prior, before));
        assert forall|i: int| 0 <= i < before.len() implies before[i] == events[i] by {}
    }
}

/// Whether `event` tells what was asked for: a failure does not, but that the file of
/// variables is missing does no harm.
pub open spec fn goes_on(event: EnvEvent) -> bool {
    match event {
        EnvEvent::DotenvLoaded(_) => true,
        EnvEvent::VarRead(value) => value is Ok,
        EnvEvent::ClientCreated(created) => created is Ok,
        EnvEvent::TokenRead(reply) => reply is Ok && json_contents(reply->Ok_0).text() is Some,
    }
}

/// Each variable is asked for by its own name, in one order, whether or not there is a
/// file of variables: the address of the service, the user's name and id and the token
/// of the login. With these the service is reached at just that address and asked for the
/// API token in just that name with just that token. Then come the address and the port
/// of the file server.
pub proof fn env_asks_for_each_by_name(events: Seq<EnvEvent>)
    requires
        events.len() > 0,
        EnvLoadView::initial().accepts_all(events),
        goes_on(events.last()),
    ensures
        1 <= events.len() <= 9,
        ({
            let asked = EnvLoadView::initial().asked(events);
            &&& events.len() == 1 ==> asked == (EnvActionView::ReadVar { name: "URL"@ })
            &&& events.len() == 2 ==> asked == (EnvActionView::ReadVar { name: "USER_EMAIL"@ })
            &&& events.len() == 3 ==> asked == (EnvActionView::ReadVar { name: "USER_ID"@ })
            &&& events.len() == 4 ==> asked == (EnvActionView::ReadVar { name: "TOKEN_AUTH"@ })
            &&& events.len() == 5 ==> {
                &&& asked matches EnvAction::CreateClient { url }
                &&& value_of(events[1]) == Some(url)
            }
            &&& events.len() == 6 ==> {
                &&& asked matches EnvAction::GetTokenApi { user_email, token_auth }
                &&& value_of(events[2]) == Some(user_email)
                &&& value_of(events[4]) == Some(token_auth)
            }
            &&& events.len() == 7 ==> asked == (EnvActionView::ReadVar { name: "FTP_ADDR"@ })
            &&& events.len() == 8 ==> asked == (EnvActionView::ReadVar { name: "FTP_PORT"@ })
            &&& events.len() == 9 ==> asked is Finish
        }),
{
    let before = events.drop_last();
    lemma_env_origin(before);
    assert(has_read(EnvLoadView::initial().after(before), before));
    assert forall|i: int| 0 <= i < before.len() implies before[i] == events[i] by {}
}

/// The first failure ends the making with its message; so does a token that is no
/// string, and a port that is none. Before the ninth outcome nothing else ends it.
pub proof fn env_fails_as_told(events: Seq<EnvEvent>)
    requires
        events.len() > 0,
        EnvLoadView::initial().accepts_all(events),
    ensures
        ({
            let asked = EnvLoadView::initial().asked(events);
            match events.last() {
                EnvEvent::DotenvLoaded(_) => !(asked is Finish),
                EnvEvent::VarRead(Err(e)) => asked == EnvActionView::Finish(Err(e@)),
                EnvEvent::ClientCreated(Err(e)) => asked == EnvActionView::Finish(Err(e@)),
                EnvEvent::TokenRead(Err(e)) => asked == EnvActionView::Finish(Err(e@)),
                EnvEvent::TokenRead(Ok(reply)) => if json_contents(reply).text() is None {
                    asked == EnvActionView::Finish(
                        Err("Expected a string in token API response"@),
                    )
                } else {
                    !(asked is Finish)
                },
                EnvEvent::ClientCreated(Ok(_)) => !(asked is Finish),
                EnvEvent::VarRead(Ok(value)) => if events.len() < 9 {
                    !(asked is Finish)
                } else {
                    match port_of(value@) {
                        Ok(_) => asked matches EnvAction::Finish(Ok(_)),
                        Err(PortError::Empty) => asked == EnvActionView::Finish(
                            Err("cannot parse integer from empty string"@),
                        ),
                        Err(PortError::InvalidDigit) => asked == EnvActionView::Finish(
                            Err("invalid digit found in string"@),
                        ),
                        Err(PortError::TooLarge) => asked == EnvActionView::Finish(
                            Err("number too large to fit in target type"@),
                        ),
                    }
                },
            }
        }),
{
    let before = events.drop_last();
    lemma_env_origin(before);
    assert(has_read(EnvLoadView::initial().after(before), before));
}

/// What the environment says goes where it belongs: the value that is told when "URL"
/// was asked for is the client's address, and so on for each variable; the API token is
/// the string that the service replied.
pub proof fn env_client_holds_each_in_its_place(events: Seq<EnvEvent>, k: int)
    requires
        0 < k < events.len(),
        EnvLoadView::initial().accepts_all(events),
        EnvLoadView::initial().asked(events) matches EnvAction::Finish(Ok(_)),
    ensures
        ({
            let start = EnvLoadView::initial();
            let client = start.asked(events)->Finish_0->Ok_0;
            match start.asked(events.take(k)) {
                EnvAction::ReadVar { name } => {
                    &&& value_of(events[k]) matches Some(value)
                    &&& name == "URL"@ ==> client.url == value
                    &&& name == "USER_EMAIL"@ ==> client.user_email == value
                    &&& name == "USER_ID"@ ==> client.user_id == value
                    &&& name == "TOKEN_AUTH"@ ==> client.token_auth == value
                    &&& name == "FTP_ADDR"@ ==> client.ftp_addr == value
                    &&& name == "FTP_PORT"@ ==> port_of(value) == Ok::<u16, PortError>(
                        client.ftp_port,
                    )
                    &&& ({
                        ||| name == "URL"@
                        ||| name == "USER_EMAIL"@
                        ||| name == "USER_ID"@
                        ||| name == "TOKEN_AUTH"@
                        ||| name == "FTP_ADDR"@
                        ||| name == "FTP_PORT"@
                    })
                },
                EnvAction::GetTokenApi { .. } => token_of(events[k]) == Some(client.token_api),
                EnvAction::CreateClient { url } => url == client.url,
                _ => false,
            }
        }),
{
    lemma_names_differ();
    let start = EnvLoadView::initial();
    let before = events.drop_last();
    lemma_env_origin(before);
    assert(has_read(start.after(before), before));
    assert forall|i: int| 0 <= i < before.len() implies before[i] == events[i] by {}
    let client = start.asked(events)->Finish_0->Ok_0;
    env_client_is_what_was_read(events, client);
    lemma_prefix(events, k);
    let head = events.take(k);
    assert forall|i: int| 0 <= i < k implies head[i] == events[i] by {}
    assert(head.last() == events[k - 1]);
    assert(goes_on(head.last()));
    env_asks_for_each_by_name(head);
}

proof fn lemma_names_differ()
    ensures
        "URL"@.len() == 3,
        "USER_EMAIL"@.len() == 10,
        "USER_ID"@.len() == 7,
        "TOKEN_AUTH"@.len() == 10,
        "FTP_ADDR"@.len() == 8,
        "FTP_PORT"@.len() == 8,
        "USER_EMAIL"@ != "TOKEN_AUTH"@,
        "FTP_ADDR"@ != "FTP_PORT"@,
{
    reveal_strlit("URL");
    reveal_strlit("USER_EMAIL");
    reveal_strlit("USER_ID");
    reveal_strlit("TOKEN_AUTH");
    reveal_strlit("FTP_ADDR");
    reveal_strlit("FTP_PORT");
    assert("USER_EMAIL"@[0] != "TOKEN_AUTH"@[0]);
    assert("FTP_ADDR"@[4] != "FTP_PORT"@[4]);
}

proof fn lemma_prefix(events: Seq<EnvEvent>, k: int)
    requires
        0 <= k <= events.len(),
        EnvLoadView::initial().accepts_all(events),
    ensures
        EnvLoadView::initial().accepts_all(events.take(k)),
    decreases events.len(),
{
    if k == events.len() {
        assert(events.take(k) =~= events);
    } else {
        lemma_prefix(events.drop_last(), k);
        assert(events.drop_last().take(k) =~= events.take(k));
    }
}

/// A step on the reply to the wish for the API token does what is done on the string that
/// the reply is, or on none.
pub proof fn env_step_goes_by_what_the_reply_is(
    one: &mut EnvLoad,
    other: &mut EnvLoad,
    reply: serde_json::Value,
    token: Option<String>,
    a: EnvAction,
    b: EnvAction,
)
    requires
        old(one)@ == old(other)@,
        match token {
            Some(token) => json_contents(reply).text() == Some(token@),
            None => json_contents(reply).text() is None,
        },
        call_ensures(EnvLoad::step, (one, EnvEvent::TokenRead(Ok(reply))), a),
        call_ensures(EnvLoad::on_token, (other, token), b),
    ensures
        a@ == b@,
        final(one)@ == final(other)@,
{
}

/// The model of an action holds what the action holds.
pub proof fn env_action_is_what_it_says(action: EnvAction)
    ensures
        match (action, action@) {
            (EnvAction::LoadDotenv { file }, EnvAction::LoadDotenv { file: f }) => f == file@,
            (EnvAction::ReadVar { name }, EnvAction::ReadVar { name: n }) => n == name@,
            (EnvAction::CreateClient { url }, EnvAction::CreateClient { url: u }) => u == url@,
            (
                EnvAction::GetTokenApi { user_email, token_auth },
                EnvAction::GetTokenApi { user_email: u, token_auth: t },
            ) => u == user_email@ && t == token_auth@,
            (EnvAction::Finish(Ok(client)), EnvAction::Finish(Ok(c))) => {
                &&& c.url == client.url@
                &&& c.user_email == client.user_email@
                &&& c.user_id == client.user_id@
                &&& c.token_auth == client.token_auth@
                &&& c.token_api == client.token_api@
                &&& c.ftp_addr == client.ftp_addr@
                &&& c.ftp_port == client.ftp_port
            },
            (EnvAction::Finish(Err(e)), EnvAction::Finish(Err(t))) => t == e@,
            _ => false,
        },
{
}

} // verus!
