//! The access gate in front of the client page and the channel, and the
//! routing decision for each request.
use vstd::prelude::*;
use crate::codec::text_is;

verus! {

/// A login and password pair.
#[derive(Debug)]
pub struct Credentials {
    pub login: String,
    pub password: String,
}

impl Credentials {
    pub fn new(login: String, password: String) -> (r: Self)
        ensures
            r.login@ == login@,
            r.password@ == password@,
    {
        Credentials { login, password }
    }
}

/// Whether `supplied` is exactly the configured pair.
pub open spec fn authorized(configured: Credentials, supplied: Credentials) -> bool {
    supplied.login@ == configured.login@ && supplied.password@ == configured.password@
}

/// Admits `supplied` exactly when both its login and its password equal the
/// configured ones.
pub fn authorize(configured: &Credentials, supplied: &Credentials) -> (r: bool)
    ensures
        r == authorized(*configured, *supplied),
{
    supplied.login == configured.login && supplied.password == configured.password
}

/// Where a request goes, by method and path.
#[derive(Clone, Copy, Debug, PartialEq, Eq, Structural)]
pub enum Route {
    ClientPage,
    Channel,
    NotFound,
}

/// What the server answers to a request.
#[derive(Clone, Copy, Debug, PartialEq, Eq, Structural)]
pub enum Reply {
    /// Serve the client page.
    ClientPage,
    /// Upgrade to a channel and start a session.
    OpenChannel,
    /// Answer with a challenge that asks the browser for credentials.
    LoginRequired,
    NotFound,
}

pub open spec fn route_spec(method: Seq<char>, path: Seq<char>) -> Route {
    if method == "GET"@ && path == "/"@ {
        Route::ClientPage
    } else if method == "GET"@ && path == "/ws"@ {
        Route::Channel
    } else {
        Route::NotFound
    }
}

/// Routes a request: `GET /` to the client page, `GET /ws` to the channel.
pub fn route(method: &String, path: &String) -> (r: Route)
    ensures
        r == route_spec(method@, path@),
{
    if text_is(method, "GET") && text_is(path, "/") {
        Route::ClientPage
    } else if text_is(method, "GET") && text_is(path, "/ws") {
        Route::Channel
    } else {
        Route::NotFound
    }
}

pub open spec fn respond_spec(
    route: Route,
    supplied: Option<Credentials>,
    configured: Credentials,
) -> Reply {
    match route {
        Route::NotFound => Reply::NotFound,
        _ => match supplied {
            Some(c) if authorized(configured, c) => if route == Route::ClientPage {
                Reply::ClientPage
            } else {
                Reply::OpenChannel
            },
            _ => Reply::LoginRequired,
        },
    }
}

/// Decides the answer to a routed request. Both endpoints are gated: without
/// the configured credentials the answer is a login challenge, and no session
/// is opened.
pub fn respond(route: Route, supplied: &Option<Credentials>, configured: &Credentials) -> (r: Reply)
    ensures
        r == respond_spec(route, *supplied, *configured),
        r == Reply::OpenChannel ==> supplied is Some && authorized(*configured, supplied->Some_0),
        r == Reply::ClientPage ==> supplied is Some && authorized(*configured, supplied->Some_0),
{
    match route {
        Route::NotFound => Reply::NotFound,
        _ => match supplied {
            Some(c) => if authorize(configured, c) {
                if route == Route::ClientPage {
                    Reply::ClientPage
                } else {
                    Reply::OpenChannel
                }
            } else {
                Reply::LoginRequired
            },
            None => Reply::LoginRequired,
        },
    }
}

} // verus!
