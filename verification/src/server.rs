use vstd::prelude::*;
use vstd::string::*;
use crate::auth::ServerError;
use crate::models::{ActionMqtt, ParamsJson};
use crate::text::same_text;

verus! {

/// The text answered to a reboot-hour request that is not logged in.
pub open spec fn no_login_text() -> Seq<char> {
    "could not get login info"@
}

/// The answer to a request for the hour of the last reboot.
pub open spec fn reboot_hour_answer(logged_in: bool, hour: Option<Seq<char>>) -> Result<Seq<char>, ServerError> {
    if !logged_in {
        Ok(no_login_text())
    } else {
        match hour {
            Some(h) => Ok(h),
            None => Err(ServerError::RebootHourMissing),
        }
    }
}

/// A text answer of a server function, as text.
pub open spec fn text_result_view(r: Result<String, ServerError>) -> Result<Seq<char>, ServerError> {
    match r {
        Ok(t) => Ok(t@),
        Err(e) => Err(e),
    }
}

/// The answer to a request for the hour of the last reboot, given whether the
/// request is logged in and the hour that the server keeps, if any.
pub fn get_reboothour(logged_in: bool, hour: Option<String>) -> (r: Result<String, ServerError>)
    ensures
        text_result_view(r) == reboot_hour_answer(logged_in, match hour {
            Some(h) => Some(h@),
            None => None,
        }),
{
    if logged_in {
        match hour {
            Some(h) => Ok(h),
            None => Err(ServerError::RebootHourMissing),
        }
    } else {
        Ok(String::from_str("could not get login info"))
    }
}

/// The command to hand to the controller for a pool request: the requested
/// one when the request is logged in, none otherwise.
pub fn set_pool(logged_in: bool, action: ActionMqtt) -> (r: Option<ActionMqtt>)
    ensures
        r == (if logged_in { Some(action) } else { None::<ActionMqtt> }),
{
    if logged_in { Some(action) } else { None }
}

/// The settings to hand to the controller for a settings request: the given
/// fields when the request is logged in, none otherwise.
pub fn set_params(
    logged_in: bool,
    mininterval: Option<i32>,
    mintimeon: Option<i32>,
    minpw: Option<i32>,
) -> (r: Option<ParamsJson>)
    ensures
        r == (if logged_in {
            Some(ParamsJson { mininterval, mintimeon, minpw })
        } else {
            None::<ParamsJson>
        }),
{
    if logged_in {
        Some(ParamsJson { mininterval, mintimeon, minpw })
    } else {
        None
    }
}

/// The line shown above the login form.
pub open spec fn login_message_text(login_status: bool, result: Option<Result<(), Seq<char>>>) -> Seq<char> {
    if login_status {
        "Login success!"@
    } else {
        match result {
            None => Seq::empty(),
            Some(Ok(())) => "loged out"@,
            Some(Err(e)) => "login error: "@ + e,
        }
    }
}

/// The line shown above the login form, given whether the session is logged in
/// and the outcome of the last login, if any (its error as text).
pub fn login_message(login_status: bool, result: Option<Result<(), String>>) -> (r: String)
    ensures
        r@ == login_message_text(login_status, match result {
            None => None,
            Some(Ok(())) => Some(Ok(())),
            Some(Err(e)) => Some(Err(e@)),
        }),
{
    if login_status {
        String::from_str("Login success!")
    } else {
        match result {
            None => String::new(),
            Some(Ok(())) => String::from_str("loged out"),
            Some(Err(e)) => {
                let mut r = String::from_str("login error: ");
                r.append(e.as_str());
                r
            },
        }
    }
}

/// The address of the signal websocket of a page served with `protocol`
/// (`"https:"` or `"http:"`) from `host`.
pub open spec fn websocket_url_text(protocol: Seq<char>, host: Seq<char>) -> Seq<char> {
    (if protocol == "https:"@ { "wss://"@ } else { "ws://"@ }) + host + "/ws"@
}

/// The address of the signal websocket of a page served with `protocol` from `host`.
pub fn websocket_url(protocol: &str, host: &str) -> (r: String)
    ensures
        r@ == websocket_url_text(protocol@, host@),
{
    let mut r = if same_text(protocol, "https:") {
        String::from_str("wss://")
    } else {
        String::from_str("ws://")
    };
    r.append(host);
    r.append("/ws");
    r
}

/// Whether the dashboard shows the relay state as switched on.
pub fn relay_shown_on(value: &str) -> (r: bool)
    ensures
        r == (value@ == "true"@),
{
    same_text(value, "true")
}

/// The reboot hour is only handed to logged-in requests: others are told that
/// no login info was found, whatever the server keeps; a logged-in request gets
/// the kept hour, or the refusal when none is kept.
pub proof fn law_reboot_hour_needs_login(hour: Option<Seq<char>>, t: Seq<char>)
    ensures
        reboot_hour_answer(false, hour) == Ok::<Seq<char>, ServerError>("could not get login info"@),
        reboot_hour_answer(true, Some(t)) == Ok::<Seq<char>, ServerError>(t),
        reboot_hour_answer(true, None) == Err::<Seq<char>, ServerError>(ServerError::RebootHourMissing),
{
}

/// The login form reads `Login success!` while logged in, whatever the last
/// login gave; otherwise nothing before any login, `loged out` after a
/// successful one, and `login error: ` followed by the error after a failed one.
pub proof fn law_login_form_text(result: Option<Result<(), Seq<char>>>, e: Seq<char>)
    ensures
        login_message_text(true, result) == "Login success!"@,
        login_message_text(false, None) == Seq::<char>::empty(),
        login_message_text(false, Some(Ok(()))) == "loged out"@,
        login_message_text(false, Some(Err(e))) == "login error: "@ + e,
{
}

/// The signal websocket is the encrypted one exactly for pages served over
/// `https:`, and always on the page's host at `/ws`.
pub proof fn law_websocket_url(protocol: Seq<char>, host: Seq<char>)
    ensures
        protocol == "https:"@ ==> websocket_url_text(protocol, host) == "wss://"@ + host + "/ws"@,
        protocol != "https:"@ ==> websocket_url_text(protocol, host) == "ws://"@ + host + "/ws"@,
{
}

} // verus!
