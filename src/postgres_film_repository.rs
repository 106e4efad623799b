//! The relational backend's logic: the parameterized statement of each
//! operation on the `films` table, and what each operation returns from the
//! outcome of running its statement. The connection pool that runs them is
//! held by the caller.
//!
//! The `year` column is a signed 16-bit integer: a year above 32767 is refused
//! before it reaches the store, and a negative year read back is refused too.

use vstd::prelude::*;
use vstd::string::StringExecFns;
use crate::error::FilmError;
use crate::models::{CreateFilm, Film, FilmId, Timestamp};

verus! {

/// Lists every film.
pub const SELECT_FILMS: &'static str = "SELECT id, title, director, year, poster, created_at, updated_at FROM films";

/// Fetches the film with id `$1`.
pub const SELECT_FILM: &'static str = "SELECT id, title, director, year, poster, created_at, updated_at FROM films WHERE id = $1";

/// Inserts a film; the store mints its id and creation time.
pub const INSERT_FILM: &'static str = "INSERT INTO films (title, director, year, poster) VALUES ($1, $2, $3, $4) RETURNING id, title, director, year, poster, created_at, updated_at";

/// Replaces the fields of film `$1` and stamps its update time.
pub const UPDATE_FILM: &'static str = "UPDATE films SET title = $2, director = $3, year = $4, poster = $5, updated_at = now() WHERE id = $1 RETURNING id, title, director, year, poster, created_at, updated_at";

/// Removes film `$1`, if there is one.
pub const DELETE_FILM: &'static str = "DELETE FROM films WHERE id = $1";

/// What a `ValidationFailure` says of a year that the year column cannot hold.
pub const YEAR_OUT_OF_RANGE: &'static str = "the year does not fit in the range 0 to 32767";

/// The largest year that the year column holds.
pub const MAX_YEAR: u16 = 32767;

/// A value bound to a placeholder of a statement.
#[derive(Debug, PartialEq, Eq)]
pub enum SqlParam {
    Id(FilmId),
    Text(String),
    SmallInt(i16),
}

/// A statement: its text, and the values of `$1`, `$2`, ... in order.
#[derive(Debug, PartialEq, Eq)]
pub struct Statement {
    pub sql: &'static str,
    pub params: Vec<SqlParam>,
}

/// A row of the `films` table, as the store hands it back.
#[derive(Debug, PartialEq, Eq)]
pub struct FilmRow {
    pub id: FilmId,
    pub title: String,
    pub director: String,
    pub year: i16,
    pub poster: String,
    pub created_at: Option<Timestamp>,
    pub updated_at: Option<Timestamp>,
}

/// The validation failure of a year out of the column's range.
pub open spec fn is_year_error(e: FilmError) -> bool {
    e matches FilmError::ValidationFailure(m) && m@ == YEAR_OUT_OF_RANGE@
}

/// The film that a row holds, when its year is not negative.
pub open spec fn film_of_row(row: FilmRow) -> Film {
    Film {
        id: row.id,
        title: row.title,
        director: row.director,
        year: row.year as u16,
        poster: row.poster,
        created_at: row.created_at,
        updated_at: row.updated_at,
    }
}

/// What decoding a row gives: its film, or a validation failure for a negative year.
pub open spec fn decoded(row: FilmRow, r: Result<Film, FilmError>) -> bool {
    if row.year >= 0 {
        r == Ok::<Film, FilmError>(film_of_row(row))
    } else {
        r matches Err(e) && is_year_error(e)
    }
}

/// The rows hold no negative year.
pub open spec fn years_valid(rows: Seq<FilmRow>) -> bool {
    forall|i: int| 0 <= i < rows.len() ==> #[trigger] rows[i].year >= 0
}

fn year_error() -> (e: FilmError)
    ensures
        is_year_error(e),
{
    FilmError::ValidationFailure(String::from_str(YEAR_OUT_OF_RANGE))
}

/// The value of the year column for a year; a validation failure above 32767.
pub fn year_column(year: u16) -> (r: Result<i16, FilmError>)
    ensures
        year <= MAX_YEAR ==> r == Ok::<i16, FilmError>(year as i16),
        year > MAX_YEAR ==> (r matches Err(e) && is_year_error(e)),
{
    if year <= MAX_YEAR {
        Ok(year as i16)
    } else {
        Err(year_error())
    }
}

/// The statement that lists every film.
pub fn list_statement() -> (r: Statement)
    ensures
        r.sql == SELECT_FILMS,
        r.params@ == Seq::<SqlParam>::empty(),
{
    Statement { sql: SELECT_FILMS, params: Vec::new() }
}

/// The statement that fetches the film with this id.
pub fn get_statement(id: &FilmId) -> (r: Statement)
    ensures
        r.sql == SELECT_FILM,
        r.params@ == seq![SqlParam::Id(*id)],
{
    Statement { sql: SELECT_FILM, params: vec![SqlParam::Id(*id)] }
}

/// The statement that inserts a film made of the payload; a validation failure
/// when its year does not fit the year column.
pub fn create_statement(payload: &CreateFilm) -> (r: Result<Statement, FilmError>)
    ensures
        payload.year <= MAX_YEAR ==> (r matches Ok(s) && s.sql == INSERT_FILM && s.params@ == seq![
            SqlParam::Text(payload.title),
            SqlParam::Text(payload.director),
            SqlParam::SmallInt(payload.year as i16),
            SqlParam::Text(payload.poster),
        ]),
        payload.year > MAX_YEAR ==> (r matches Err(e) && is_year_error(e)),
{
    let year = match year_column(payload.year) {
        Ok(y) => y,
        Err(e) => {
            return Err(e);
        },
    };
    Ok(
        Statement {
            sql: INSERT_FILM,
            params: vec![
                SqlParam::Text(payload.title.clone()),
                SqlParam::Text(payload.director.clone()),
                SqlParam::SmallInt(year),
                SqlParam::Text(payload.poster.clone()),
            ],
        },
    )
}

/// The statement that replaces the fields of the film with `film.id`; a
/// validation failure when the year does not fit the year column.
pub fn update_statement(film: &Film) -> (r: Result<Statement, FilmError>)
    ensures
        film.year <= MAX_YEAR ==> (r matches Ok(s) && s.sql == UPDATE_FILM && s.params@ == seq![
            SqlParam::Id(film.id),
            SqlParam::Text(film.title),
            SqlParam::Text(film.director),
            SqlParam::SmallInt(film.year as i16),
            SqlParam::Text(film.poster),
        ]),
        film.year > MAX_YEAR ==> (r matches Err(e) && is_year_error(e)),
{
    let year = match year_column(film.year) {
        Ok(y) => y,
        Err(e) => {
            return Err(e);
        },
    };
    Ok(
        Statement {
            sql: UPDATE_FILM,
            params: vec![
                SqlParam::Id(film.id),
                SqlParam::Text(film.title.clone()),
                SqlParam::Text(film.director.clone()),
                SqlParam::SmallInt(year),
                SqlParam::Text(film.poster.clone()),
            ],
        },
    )
}

/// The statement that removes the film with this id.
pub fn delete_statement(id: &FilmId) -> (r: Statement)
    ensures
        r.sql == DELETE_FILM,
        r.params@ == seq![SqlParam::Id(*id)],
{
    Statement { sql: DELETE_FILM, params: vec![SqlParam::Id(*id)] }
}

/// The film that a row holds; a validation failure when its year is negative.
pub fn film_from_row(row: &FilmRow) -> (r: Result<Film, FilmError>)
    ensures
        decoded(*row, r),
{
    if row.year < 0 {
        return Err(year_error());
    }
    Ok(
        Film {
            id: row.id,
            title: row.title.clone(),
            director: row.director.clone(),
            year: row.year as u16,
            poster: row.poster.clone(),
            created_at: row.created_at,
            updated_at: row.updated_at,
        },
    )
}

/// What listing returns from the outcome of its statement: the films of the
/// rows, in their order; a validation failure when a row holds a negative
/// year; the store's message when the statement failed.
pub fn list_outcome(outcome: Result<Vec<FilmRow>, String>) -> (r: Result<Vec<Film>, FilmError>)
    ensures
        outcome matches Err(m) ==> r == Err::<Vec<Film>, FilmError>(FilmError::StorageUnavailable(m)),
        outcome matches Ok(rows) ==> {
            &&& years_valid(rows@) ==> (r matches Ok(v) && v@ == rows@.map_values(
                |row: FilmRow| film_of_row(row),
            ))
            &&& !years_valid(rows@) ==> (r matches Err(e) && is_year_error(e))
        },
{
    let rows = match outcome {
        Ok(rows) => rows,
        Err(m) => {
            return Err(FilmError::StorageUnavailable(m));
        },
    };
    let mut films: Vec<Film> = Vec::new();
    let mut i: usize = 0;
    while i < rows.len()
        invariant
            outcome == Ok::<Vec<FilmRow>, String>(rows),
            i <= rows@.len(),
            years_valid(rows@.subrange(0, i as int)),
            films@ == rows@.subrange(0, i as int).map_values(|row: FilmRow| film_of_row(row)),
        decreases rows@.len() - i,
    {
        match film_from_row(&rows[i]) {
            Ok(film) => films.push(film),
            Err(e) => {
                assert(!years_valid(rows@)) by {
                    assert(rows@[i as int].year < 0);
                };
                return Err(e);
            },
        }
        i = i + 1;
        assert(rows@.subrange(0, i as int).map_values(|row: FilmRow| film_of_row(row))
            =~= films@);
        assert forall|k: int| 0 <= k < i implies #[trigger] rows@.subrange(0, i as int)[k].year
            >= 0 by {
            if k < i - 1 {
                assert(rows@.subrange(0, i - 1)[k] == rows@.subrange(0, i as int)[k]);
            }
        };
    }
    assert(rows@.subrange(0, i as int) =~= rows@);
    Ok(films)
}

/// What fetching one film returns from the outcome of its statement: the
/// film of the row; `NotFound` when no row came back; a validation failure
/// when its year is negative; the store's message when the statement failed.
pub fn get_outcome(id: &FilmId, outcome: Result<Option<FilmRow>, String>) -> (r: Result<
    Film,
    FilmError,
>)
    ensures
        outcome matches Err(m) ==> r == Err::<Film, FilmError>(FilmError::StorageUnavailable(m)),
        outcome matches Ok(None) ==> r == Err::<Film, FilmError>(FilmError::NotFound(*id)),
        outcome matches Ok(Some(row)) ==> decoded(row, r),
{
    match outcome {
        Ok(Some(row)) => film_from_row(&row),
        Ok(None) => Err(FilmError::NotFound(*id)),
        Err(m) => Err(FilmError::StorageUnavailable(m)),
    }
}

/// What creating returns from the outcome of its statement: the film of the
/// row that the store inserted; the store's message when the statement failed.
pub fn create_outcome(outcome: Result<FilmRow, String>) -> (r: Result<Film, FilmError>)
    ensures
        outcome matches Err(m) ==> r == Err::<Film, FilmError>(FilmError::StorageUnavailable(m)),
        outcome matches Ok(row) ==> decoded(row, r),
{
    match outcome {
        Ok(row) => film_from_row(&row),
        Err(m) => Err(FilmError::StorageUnavailable(m)),
    }
}

/// What updating returns from the outcome of its statement: as for fetching,
/// with `NotFound` when no row has the film's id.
pub fn update_outcome(film: &Film, outcome: Result<Option<FilmRow>, String>) -> (r: Result<
    Film,
    FilmError,
>)
    ensures
        outcome matches Err(m) ==> r == Err::<Film, FilmError>(FilmError::StorageUnavailable(m)),
        outcome matches Ok(None) ==> r == Err::<Film, FilmError>(FilmError::NotFound(film.id)),
        outcome matches Ok(Some(row)) ==> decoded(row, r),
{
    get_outcome(&film.id, outcome)
}

/// What deleting returns from the outcome of its statement, given the number
/// of rows removed: the id, whether or not a row had it; the store's message
/// when the statement failed.
pub fn delete_outcome(id: &FilmId, outcome: Result<u64, String>) -> (r: Result<FilmId, FilmError>)
    ensures
        outcome is Ok ==> r == Ok::<FilmId, FilmError>(*id),
        outcome matches Err(m) ==> r == Err::<FilmId, FilmError>(FilmError::StorageUnavailable(m)),
{
    match outcome {
        Ok(_) => Ok(*id),
        Err(m) => Err(FilmError::StorageUnavailable(m)),
    }
}

} // verus!
