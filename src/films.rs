//! The film endpoints: their routes, and the reply of each to the outcome of
//! its repository operation.

use vstd::prelude::*;
use crate::error::FilmError;
use crate::models::{Film, FilmId};
use crate::routes::{
    film_error, is_film_error, is_server_error, scoped, server_error, Endpoint, Method, Reply,
    ServiceConfig,
};

verus! {

/// The film routes, under `prefix`.
pub open spec fn film_routes(prefix: Seq<char>) -> Seq<(Method, Seq<char>, Endpoint)> {
    seq![
        (Method::Get, prefix, Endpoint::ListFilms),
        (Method::Get, prefix + "/{film_id}"@, Endpoint::GetFilm),
        (Method::Post, prefix, Endpoint::CreateFilm),
        (Method::Put, prefix, Endpoint::UpdateFilm),
        (Method::Delete, prefix + "/{film_id}"@, Endpoint::DeleteFilm),
    ]
}

/// Registers the five film routes under `/films`.
pub fn service(cfg: &mut ServiceConfig)
    ensures
        final(cfg)@ == old(cfg)@ + film_routes("/films"@),
{
    let mut films = ServiceConfig::new();
    films.route("", Method::Get, Endpoint::ListFilms);
    films.route("/{film_id}", Method::Get, Endpoint::GetFilm);
    films.route("", Method::Post, Endpoint::CreateFilm);
    films.route("", Method::Put, Endpoint::UpdateFilm);
    films.route("/{film_id}", Method::Delete, Endpoint::DeleteFilm);
    let ghost inner = films@;
    cfg.scope("/films", films);
    proof {
        reveal_strlit("");
    }
    assert(inner.map_values(
        |r: (Method, Seq<char>, Endpoint)| scoped("/films"@, r),
    ) =~= film_routes("/films"@));
}

/// `GET /films`: the films; 500 on an error.
pub fn get_all(result: Result<Vec<Film>, FilmError>) -> (r: Reply<Vec<Film>>)
    ensures
        result matches Ok(v) ==> r == Reply::Json(v),
        result matches Err(e) ==> is_server_error(r, e),
{
    match result {
        Ok(films) => Reply::Json(films),
        Err(e) => server_error(&e),
    }
}

/// `GET /films/{film_id}`: the film; 404 when it does not exist, else 500 on an error.
pub fn get(result: Result<Film, FilmError>) -> (r: Reply<Film>)
    ensures
        result matches Ok(f) ==> r == Reply::Json(f),
        result matches Err(e) ==> is_film_error(r, e),
{
    match result {
        Ok(film) => Reply::Json(film),
        Err(e) => film_error(&e),
    }
}

/// `POST /films`: the created film; 500 on an error.
pub fn post(result: Result<Film, FilmError>) -> (r: Reply<Film>)
    ensures
        result matches Ok(f) ==> r == Reply::Json(f),
        result matches Err(e) ==> is_server_error(r, e),
{
    match result {
        Ok(film) => Reply::Json(film),
        Err(e) => server_error(&e),
    }
}

/// `PUT /films`: the updated film; 404 when it does not exist, else 500 on an error.
pub fn put(result: Result<Film, FilmError>) -> (r: Reply<Film>)
    ensures
        result matches Ok(f) ==> r == Reply::Json(f),
        result matches Err(e) ==> is_film_error(r, e),
{
    match result {
        Ok(film) => Reply::Json(film),
        Err(e) => film_error(&e),
    }
}

/// `DELETE /films/{film_id}`: the id; 500 on an error.
pub fn delete(result: Result<FilmId, FilmError>) -> (r: Reply<FilmId>)
    ensures
        result matches Ok(id) ==> r == Reply::Json(id),
        result matches Err(e) ==> is_server_error(r, e),
{
    match result {
        Ok(id) => Reply::Json(id),
        Err(e) => server_error(&e),
    }
}

} // verus!
