//! The HTTP surface as data: the route table that the services fill in, and
//! the replies of the endpoints. A server registers each route of the table
//! and answers each request with the reply that the endpoint computes.

use vstd::prelude::*;
use vstd::string::StringExecFns;
use crate::error::{message_of, FilmError};

verus! {

/// An HTTP method.
#[derive(Clone, Copy, Debug, PartialEq, Eq, Structural)]
pub enum Method {
    Get,
    Post,
    Put,
    Delete,
}

/// What a route leads to.
#[derive(Clone, Copy, Debug, PartialEq, Eq, Structural)]
pub enum Endpoint {
    /// The liveness probe.
    HealthCheck,
    /// All films.
    ListFilms,
    /// The film whose id is the last path segment.
    GetFilm,
    /// Creation from the payload in the body.
    CreateFilm,
    /// Update with the film in the body.
    UpdateFilm,
    /// Deletion of the film whose id is the last path segment.
    DeleteFilm,
}

/// A route: a method and a path (`{name}` marks a path parameter), and its endpoint.
#[derive(Debug, PartialEq, Eq)]
pub struct Route {
    pub method: Method,
    pub path: String,
    pub endpoint: Endpoint,
}

impl View for Route {
    type V = (Method, Seq<char>, Endpoint);

    open spec fn view(&self) -> (Method, Seq<char>, Endpoint) {
        (self.method, self.path@, self.endpoint)
    }
}

/// The route `r` moved under `prefix`.
pub open spec fn scoped(prefix: Seq<char>, r: (Method, Seq<char>, Endpoint)) -> (
    Method,
    Seq<char>,
    Endpoint,
) {
    (r.0, prefix + r.1, r.2)
}

/// A route table, in the order of registration.
pub struct ServiceConfig {
    routes: Vec<Route>,
}

impl View for ServiceConfig {
    type V = Seq<(Method, Seq<char>, Endpoint)>;

    closed spec fn view(&self) -> Seq<(Method, Seq<char>, Endpoint)> {
        self.routes@.map_values(|r: Route| r@)
    }
}

impl ServiceConfig {
    /// An empty table.
    pub fn new() -> (r: ServiceConfig)
        ensures
            r@ == Seq::<(Method, Seq<char>, Endpoint)>::empty(),
    {
        let r = ServiceConfig { routes: Vec::new() };
        assert(r@ =~= Seq::<(Method, Seq<char>, Endpoint)>::empty());
        r
    }

    /// The routes, in the order of registration.
    pub fn routes(&self) -> (r: &Vec<Route>)
        ensures
            r@.map_values(|x: Route| x@) == self@,
    {
        &self.routes
    }

    /// Adds a route.
    pub fn route(&mut self, path: &str, method: Method, endpoint: Endpoint)
        ensures
            final(self)@ == old(self)@.push((method, path@, endpoint)),
    {
        self.routes.push(Route { method, path: String::from_str(path), endpoint });
        assert(self@ =~= old(self)@.push((method, path@, endpoint)));
    }

    /// Adds the routes of `inner`, in their order, each under `prefix`.
    pub fn scope(&mut self, prefix: &str, inner: ServiceConfig)
        ensures
            final(self)@ == old(self)@ + inner@.map_values(
                |r: (Method, Seq<char>, Endpoint)| scoped(prefix@, r),
            ),
    {
        let ghost start = self@;
        let mut i: usize = 0;
        while i < inner.routes.len()
            invariant
                i <= inner.routes@.len(),
                self@ == start + inner@.subrange(0, i as int).map_values(
                    |r: (Method, Seq<char>, Endpoint)| scoped(prefix@, r),
                ),
            decreases inner.routes@.len() - i,
        {
            let r = &inner.routes[i];
            let mut path = String::from_str(prefix);
            path.append(r.path.as_str());
            let ghost before = self@;
            self.routes.push(Route { method: r.method, path, endpoint: r.endpoint });
            assert(self@ =~= before.push(scoped(prefix@, inner@[i as int])));
            i = i + 1;
            assert(inner@.subrange(0, i as int) =~= inner@.subrange(0, i - 1).push(inner@[i - 1]));
            assert(start + inner@.subrange(0, i as int).map_values(
                |r: (Method, Seq<char>, Endpoint)| scoped(prefix@, r),
            ) =~= before.push(scoped(prefix@, inner@[i - 1])));
        }
        assert(inner@.subrange(0, i as int) =~= inner@);
    }
}

/// The reply of an endpoint: a value to send as JSON with status 200, or an
/// error status with a text body.
#[derive(Debug, PartialEq, Eq)]
pub enum Reply<T> {
    Json(T),
    NotFound(String),
    InternalServerError(String),
}

/// The status code of a reply.
pub open spec fn status_of<T>(r: Reply<T>) -> u16 {
    match r {
        Reply::Json(_) => 200,
        Reply::NotFound(_) => 404,
        Reply::InternalServerError(_) => 500,
    }
}

impl<T> Reply<T> {
    /// The status code of this reply.
    pub fn status(&self) -> (r: u16)
        ensures
            r == status_of(*self),
    {
        match self {
            Reply::Json(_) => 200,
            Reply::NotFound(_) => 404,
            Reply::InternalServerError(_) => 500,
        }
    }
}

/// The text of a 500 reply for an error.
pub open spec fn server_error_text(e: FilmError) -> Seq<char> {
    "Internal server error: "@ + message_of(e)
}

/// `r` is the 500 reply to `e`.
pub open spec fn is_server_error<T>(r: Reply<T>, e: FilmError) -> bool {
    r matches Reply::InternalServerError(m) && m@ == server_error_text(e)
}

/// `r` is the reply to an error about one film: 404 with the message when the
/// film does not exist, else the 500 reply.
pub open spec fn is_film_error<T>(r: Reply<T>, e: FilmError) -> bool {
    if e is NotFound {
        r matches Reply::NotFound(m) && m@ == message_of(e)
    } else {
        is_server_error(r, e)
    }
}

/// The reply to an error that ends a request: 500 with the error's message.
pub fn server_error<T>(e: &FilmError) -> (r: Reply<T>)
    ensures
        is_server_error(r, *e),
{
    let mut text = String::from_str("Internal server error: ");
    text.append(e.message().as_str());
    Reply::InternalServerError(text)
}

/// The reply to an error about one film: 404 with the error's message when the
/// film does not exist, else as `server_error`.
pub fn film_error<T>(e: &FilmError) -> (r: Reply<T>)
    ensures
        is_film_error(r, *e),
{
    match e {
        FilmError::NotFound(_) => Reply::NotFound(e.message()),
        _ => server_error(e),
    }
}

} // verus!
