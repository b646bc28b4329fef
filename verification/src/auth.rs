use vstd::prelude::*;
use crate::models::{User, UserView};
use crate::text::same_text;

verus! {

/// The only account of the front end.
pub open spec fn valid_credentials(name: Seq<char>, pass: Seq<char>) -> bool {
    name == "admin"@ && pass == "1234"@
}

/// Why a server function refused a request.
#[derive(Clone, Copy, Debug, PartialEq, Eq, Structural)]
pub enum ServerError {
    /// A login with a wrong name or password.
    IncorrectCredentials,
    /// No session cookie came with the request.
    NotLoggedIn,
    /// The session cookie holds credentials that are not valid.
    CookieCredentialsIncorrect,
    /// The hour of the last reboot is not known to the server.
    RebootHourMissing,
}

/// The text that the client is shown for each refusal.
pub open spec fn server_error_text(e: ServerError) -> Seq<char> {
    match e {
        ServerError::IncorrectCredentials => "Incorrect username or password!"@,
        ServerError::NotLoggedIn => "you must be logged in"@,
        ServerError::CookieCredentialsIncorrect => "cookie Login credentials are incorrect"@,
        ServerError::RebootHourMissing => "could not get lasthour"@,
    }
}

impl ServerError {
    /// The text that the client is shown for this refusal.
    pub fn message(&self) -> (r: String)
        ensures
            r@ == server_error_text(*self),
    {
        match self {
            ServerError::IncorrectCredentials => String::from_str("Incorrect username or password!"),
            ServerError::NotLoggedIn => String::from_str("you must be logged in"),
            ServerError::CookieCredentialsIncorrect => String::from_str(
                "cookie Login credentials are incorrect",
            ),
            ServerError::RebootHourMissing => String::from_str("could not get lasthour"),
        }
    }
}

/// A result of a server function that hands out a user, as text.
pub open spec fn user_result_view(r: Result<User, ServerError>) -> Result<UserView, ServerError> {
    match r {
        Ok(u) => Ok(u@),
        Err(e) => Err(e),
    }
}

/// What a login with `name` and `pass` answers: the user to keep in the session
/// cookie, or the refusal.
pub open spec fn login_answer(name: Seq<char>, pass: Seq<char>) -> Result<UserView, ServerError> {
    if valid_credentials(name, pass) {
        Ok(UserView { name, pass })
    } else {
        Err(ServerError::IncorrectCredentials)
    }
}

/// The user of a session, given the user that its cookie holds, if any.
pub open spec fn session_answer(cookie_user: Option<UserView>) -> Result<UserView, ServerError> {
    match cookie_user {
        None => Err(ServerError::NotLoggedIn),
        Some(u) => if valid_credentials(u.name, u.pass) {
            Ok(u)
        } else {
            Err(ServerError::CookieCredentialsIncorrect)
        },
    }
}

/// Whether `user` holds the credentials of the account.
pub fn checkcredentials(user: &User) -> (r: bool)
    ensures
        r == valid_credentials(user.name@, user.pass@),
{
    same_text(user.name.as_str(), "admin") && same_text(user.pass.as_str(), "1234")
}

/// A login: with the account's credentials, the user to keep in the session
/// cookie; otherwise the refusal.
pub fn login_fn(username: String, password: String) -> (r: Result<User, ServerError>)
    ensures
        user_result_view(r) == login_answer(username@, password@),
{
    let user = User { name: username, pass: password };
    if checkcredentials(&user) {
        Ok(user)
    } else {
        Err(ServerError::IncorrectCredentials)
    }
}

/// The user of the session, given the user read from the session cookie, if any.
pub fn current_user(cookie_user: Option<User>) -> (r: Result<User, ServerError>)
    ensures
        user_result_view(r) == session_answer(match cookie_user {
            Some(u) => Some(u@),
            None => None,
        }),
{
    match cookie_user {
        None => Err(ServerError::NotLoggedIn),
        Some(user) => {
            if !checkcredentials(&user) {
                Err(ServerError::CookieCredentialsIncorrect)
            } else {
                Ok(user)
            }
        },
    }
}

/// Whether the request is logged in, given the user read from its session cookie.
pub fn isloged_fn(cookie_user: &Option<User>) -> (r: bool)
    ensures
        r == (match cookie_user {
            Some(u) => valid_credentials(u.name@, u.pass@),
            None => false,
        }),
{
    match cookie_user {
        None => false,
        Some(user) => checkcredentials(user),
    }
}

/// A login opens a session: the user that a successful login keeps in the
/// cookie is the current user of the session that carries that cookie, and
/// a login is refused exactly when the session would be refused too.
pub proof fn law_login_opens_session(name: Seq<char>, pass: Seq<char>)
    ensures
        login_answer(name, pass) matches Ok(u) ==> session_answer(Some(u)) == Ok::<UserView, ServerError>(u),
        login_answer(name, pass) is Ok <==> session_answer(Some(UserView { name, pass })) is Ok,
{
}

/// Only the account `admin` with password `1234` logs in, and a login gives
/// back exactly the name and password it was given; any other pair is refused
/// as incorrect. A session without a cookie user is not logged in, and one whose
/// cookie holds any other pair is refused for its cookie credentials.
pub proof fn law_only_the_account_logs_in(name: Seq<char>, pass: Seq<char>, cookie: Option<UserView>)
    ensures
        login_answer(name, pass) is Ok <==> (name == "admin"@ && pass == "1234"@),
        login_answer(name, pass) is Ok ==> login_answer(name, pass) == Ok::<UserView, ServerError>(
            UserView { name, pass },
        ),
        !(name == "admin"@ && pass == "1234"@) ==> login_answer(name, pass) == Err::<UserView, ServerError>(
            ServerError::IncorrectCredentials,
        ),
        session_answer(None) == Err::<UserView, ServerError>(ServerError::NotLoggedIn),
        cookie matches Some(u) ==> (if u.name == "admin"@ && u.pass == "1234"@ {
            session_answer(cookie) == Ok::<UserView, ServerError>(u)
        } else {
            session_answer(cookie) == Err::<UserView, ServerError>(ServerError::CookieCredentialsIncorrect)
        }),
{
}

/// Each refusal is shown with its own text.
pub proof fn law_refusal_texts()
    ensures
        server_error_text(ServerError::IncorrectCredentials) == "Incorrect username or password!"@,
        server_error_text(ServerError::NotLoggedIn) == "you must be logged in"@,
        server_error_text(ServerError::CookieCredentialsIncorrect) == "cookie Login credentials are incorrect"@,
        server_error_text(ServerError::RebootHourMissing) == "could not get lasthour"@,
{
}

} // verus!
