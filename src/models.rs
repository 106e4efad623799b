//! The film record, its creation payload and the repository's timestamps.

use vstd::prelude::*;

verus! {

/// Identifier of a film: the 128-bit value of a UUID, most significant byte first.
pub type FilmId = u128;

/// A point in time, in microseconds since the Unix epoch (UTC).
#[derive(Clone, Copy, Debug, PartialEq, Eq, Structural, PartialOrd, Ord, Hash)]
pub struct Timestamp {
    pub micros: i64,
}

/// The later of two timestamps.
pub open spec fn later(a: Timestamp, b: Timestamp) -> Timestamp {
    if a.micros >= b.micros { a } else { b }
}

/// The canonical catalog record.
#[derive(Debug, PartialEq, Eq)]
pub struct Film {
    pub id: FilmId,
    pub title: String,
    pub director: String,
    pub year: u16,
    pub poster: String,
    pub created_at: Option<Timestamp>,
    pub updated_at: Option<Timestamp>,
}

impl Clone for Film {
    fn clone(&self) -> (r: Film)
        ensures
            r == *self,
    {
        Film {
            id: self.id,
            title: self.title.clone(),
            director: self.director.clone(),
            year: self.year,
            poster: self.poster.clone(),
            created_at: self.created_at,
            updated_at: self.updated_at,
        }
    }
}

/// The payload of a creation: the caller's fields, without id or timestamps.
#[derive(Debug, PartialEq, Eq)]
pub struct CreateFilm {
    pub title: String,
    pub director: String,
    pub year: u16,
    pub poster: String,
}

impl Clone for CreateFilm {
    fn clone(&self) -> (r: CreateFilm)
        ensures
            r == *self,
    {
        CreateFilm {
            title: self.title.clone(),
            director: self.director.clone(),
            year: self.year,
            poster: self.poster.clone(),
        }
    }
}

/// The film that a creation of `payload` stores under `id`, stamped at `stamp`.
pub open spec fn film_of(payload: CreateFilm, id: FilmId, stamp: Timestamp) -> Film {
    Film {
        id: id,
        title: payload.title,
        director: payload.director,
        year: payload.year,
        poster: payload.poster,
        created_at: Some(stamp),
        updated_at: None,
    }
}

/// The film that an update with `input` leaves in place of `stored`, stamped at `stamp`:
/// every field of `input`, the creation time of `stored`.
pub open spec fn film_updated(stored: Film, input: Film, stamp: Timestamp) -> Film {
    Film { created_at: stored.created_at, updated_at: Some(stamp), ..input }
}

} // verus!
