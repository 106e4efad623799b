//! The in-memory repository: a map from id to film, with timestamps that it
//! takes from the system clock and never lets run backwards.
//!
//! Its operations take `&self` to read and `&mut self` to write, so that a
//! holder that shares it between tasks (behind a read/write lock) serialises
//! every write against all other operations.

use vstd::prelude::*;
use std::collections::HashMap;
use vstd::std_specs::iter::IteratorSpec;
use crate::error::FilmError;
use crate::film_repository::{is_listing, lookup, FilmRepository};
use crate::generated::{current_time, is_v4, lemma_v4_not_nil, random_id};
use crate::models::{film_of, film_updated, later, CreateFilm, Film, FilmId, Timestamp};

verus! {

broadcast use vstd::std_specs::hash::group_hash_axioms;

/// The films of a store are valid when each stands under its own id, carries a
/// creation time no later than `clock`, and an update time, if any, between the two.
pub open spec fn stored_films_valid(films: Map<FilmId, Film>, clock: Timestamp) -> bool {
    forall|id: FilmId| #[trigger]
        films.contains_key(id) ==> {
            let f = films[id];
            &&& f.id == id
            &&& f.created_at matches Some(c) && c.micros <= clock.micros
            &&& f.updated_at matches Some(u) ==> f.created_at->Some_0.micros <= u.micros
                <= clock.micros
        }
}

/// What a creation of `payload` under `id`, stamped at `stamp`, returns from a
/// store that holds `films`: a `Conflict` when the id is taken, else the new film.
pub open spec fn creation_result(
    films: Map<FilmId, Film>,
    payload: CreateFilm,
    id: FilmId,
    stamp: Timestamp,
) -> Result<Film, FilmError> {
    if films.contains_key(id) {
        Err(FilmError::Conflict(id))
    } else {
        Ok(film_of(payload, id, stamp))
    }
}

/// What an update with `input`, stamped at `stamp`, returns from a store that
/// holds `films`: `NotFound` when no film has its id, else the updated film.
pub open spec fn update_result(films: Map<FilmId, Film>, input: Film, stamp: Timestamp) -> Result<
    Film,
    FilmError,
> {
    if films.contains_key(input.id) {
        Ok(film_updated(films[input.id], input, stamp))
    } else {
        Err(FilmError::NotFound(input.id))
    }
}

/// A catalog held in memory.
pub struct MemoryFilmRepository {
    films: HashMap<FilmId, Film>,
    clock: Timestamp,
}

impl MemoryFilmRepository {
    /// The latest timestamp that this store has handed out (the epoch at first).
    pub closed spec fn clock(&self) -> Timestamp {
        self.clock
    }

    /// The timestamp that an operation at time `now` stamps: `now`, unless the
    /// store has already handed out a later one.
    pub open spec fn stamp(&self, now: Timestamp) -> Timestamp {
        later(now, self.clock())
    }

    /// An empty store.
    pub fn new() -> (r: MemoryFilmRepository)
        ensures
            r.well_formed(),
            r.catalog() == Map::<FilmId, Film>::empty(),
            r.clock().micros == 0,
    {
        MemoryFilmRepository { films: HashMap::new(), clock: Timestamp { micros: 0 } }
    }

    fn next_stamp(&mut self, now: Timestamp) -> (r: Timestamp)
        requires
            old(self).well_formed(),
        ensures
            r == old(self).stamp(now),
            final(self).clock() == r,
            final(self).catalog() == old(self).catalog(),
            final(self).well_formed(),
    {
        if now.micros > self.clock.micros {
            self.clock = now;
        }
        self.clock
    }

    /// Stores the payload under `id`, stamped at `now` (or at the store's latest
    /// timestamp, if that is later); a `Conflict` when `id` is taken.
    pub fn create_film_at(&mut self, payload: &CreateFilm, id: FilmId, now: Timestamp) -> (r: Result<
        Film,
        FilmError,
    >)
        requires
            old(self).well_formed(),
        ensures
            final(self).well_formed(),
            r == creation_result(old(self).catalog(), *payload, id, old(self).stamp(now)),
            r matches Ok(f) ==> {
                &&& final(self).catalog() == old(self).catalog().insert(id, f)
                &&& final(self).clock() == old(self).stamp(now)
            },
            r is Err ==> *final(self) == *old(self),
    {
        if self.films.contains_key(&id) {
            return Err(FilmError::Conflict(id));
        }
        let stamp = self.next_stamp(now);
        let film = Film {
            id,
            title: payload.title.clone(),
            director: payload.director.clone(),
            year: payload.year,
            poster: payload.poster.clone(),
            created_at: Some(stamp),
            updated_at: None,
        };
        self.films.insert(id, film.clone());
        Ok(film)
    }

    /// Replaces the stored film of `film.id` with `film`, keeping its creation
    /// time and stamping its update time at `now` (or at the store's latest
    /// timestamp, if that is later); `NotFound` when there is none.
    pub fn update_film_at(&mut self, film: &Film, now: Timestamp) -> (r: Result<Film, FilmError>)
        requires
            old(self).well_formed(),
        ensures
            final(self).well_formed(),
            r == update_result(old(self).catalog(), *film, old(self).stamp(now)),
            r matches Ok(f) ==> {
                &&& final(self).catalog() == old(self).catalog().insert(film.id, f)
                &&& final(self).clock() == old(self).stamp(now)
            },
            r is Err ==> *final(self) == *old(self),
    {
        let created_at = match self.films.get(&film.id) {
            Some(stored) => stored.created_at,
            None => {
                return Err(FilmError::NotFound(film.id));
            },
        };
        let stamp = self.next_stamp(now);
        let mut updated = film.clone();
        updated.created_at = created_at;
        updated.updated_at = Some(stamp);
        self.films.insert(film.id, updated.clone());
        Ok(updated)
    }
}

/// A new store lists no film.
pub proof fn new_repository_lists_nothing(repo: MemoryFilmRepository, listed: Seq<Film>)
    requires
        repo.catalog() == Map::<FilmId, Film>::empty(),
        is_listing(listed, repo.catalog()),
    ensures
        listed.len() == 0,
{
}

/// In every well-formed store each film stands under its own id and has a
/// creation time, no later than the store's clock, and an update time, once
/// set, lies between the two.
pub proof fn stored_films_are_stamped(repo: MemoryFilmRepository)
    requires
        repo.well_formed(),
    ensures
        stored_films_valid(repo.catalog(), repo.clock()),
{
}

/// A film created now is stamped no earlier than any film already stored:
/// creation times follow the order of insertion.
pub proof fn creation_times_follow_insertion(repo: MemoryFilmRepository, now: Timestamp)
    requires
        repo.well_formed(),
    ensures
        forall|id: FilmId| #[trigger]
            repo.catalog().contains_key(id) ==> repo.catalog()[id].created_at->Some_0.micros
                <= repo.stamp(now).micros,
{
}

/// Two creations under two distinct ids that the store does not hold both succeed.
pub proof fn distinct_fresh_ids_are_both_created(
    films: Map<FilmId, Film>,
    first_payload: CreateFilm,
    second_payload: CreateFilm,
    first_id: FilmId,
    second_id: FilmId,
    first_stamp: Timestamp,
    second_stamp: Timestamp,
)
    requires
        !films.contains_key(first_id),
        !films.contains_key(second_id),
        first_id != second_id,
    ensures
        creation_result(films, first_payload, first_id, first_stamp) is Ok,
        creation_result(
            films.insert(first_id, film_of(first_payload, first_id, first_stamp)),
            second_payload,
            second_id,
            second_stamp,
        ) is Ok,
{
}

/// An update stamps a time no earlier than the creation time of the film it replaces.
pub proof fn update_follows_creation(repo: MemoryFilmRepository, input: Film, now: Timestamp)
    requires
        repo.well_formed(),
        repo.catalog().contains_key(input.id),
    ensures
        update_result(repo.catalog(), input, repo.stamp(now)) matches Ok(f) && f.created_at
            matches Some(c) && c.micros <= f.updated_at->Some_0.micros,
{
}

impl Default for MemoryFilmRepository {
    fn default() -> (r: MemoryFilmRepository)
        ensures
            r.well_formed(),
            r.catalog() == Map::<FilmId, Film>::empty(),
            r.clock().micros == 0,
    {
        MemoryFilmRepository::new()
    }
}

impl FilmRepository for MemoryFilmRepository {
    closed spec fn catalog(&self) -> Map<FilmId, Film> {
        self.films@
    }

    closed spec fn well_formed(&self) -> bool {
        &&& self.clock.micros >= 0
        &&& stored_films_valid(self.films@, self.clock)
    }

    fn get_films(&self) -> (r: Result<Vec<Film>, FilmError>)
        ensures
            r is Ok,
    {
        let mut listed: Vec<Film> = Vec::new();
        let ghost s = self.films.iter().remaining();
        for entry in it: self.films.iter()
            invariant
                it.seq() == s,
                listed@.len() == it.index(),
                forall|i: int| 0 <= i < it.index() ==> listed@[i] == *it.seq()[i].1,
        {
            listed.push(entry.1.clone());
        }
        proof {
            let m = self.films@;
            assert forall|i: int| 0 <= i < listed@.len() implies m.contains_key(
                #[trigger] listed@[i].id,
            ) && m[listed@[i].id] == listed@[i] by {
                assert(m.contains_key(*s[i].0) && m[*s[i].0] == *s[i].1);
            };
            assert forall|id: FilmId| #[trigger] m.contains_key(id) implies exists|i: int|
                0 <= i < listed@.len() && listed@[i].id == id by {
                assert(s.contains((&id, &m[id])));
                let i = choose|i: int| 0 <= i < s.len() && s[i] == (&id, &m[id]);
                assert(listed@[i] == m[id]);
            };
        }
        Ok(listed)
    }

    fn get_film(&self, id: &FilmId) -> (r: Result<Film, FilmError>)
        ensures
            r == lookup(self.catalog(), *id),
    {
        match self.films.get(id) {
            Some(film) => Ok(film.clone()),
            None => Err(FilmError::NotFound(*id)),
        }
    }

    fn create_film(&mut self, payload: &CreateFilm) -> (r: Result<Film, FilmError>)
        ensures
            r matches Ok(f) ==> is_v4(f.id) && f.id != 0 && f.created_at->Some_0.micros >= old(
                self,
            ).clock().micros,
            r matches Err(e) ==> (e matches FilmError::Conflict(id) && old(
                self,
            ).catalog().contains_key(id)),
            old(self).catalog().len() == 0 ==> r is Ok,
    {
        let id = random_id();
        proof {
            lemma_v4_not_nil(id);
        }
        let now = current_time();
        self.create_film_at(payload, id, now)
    }

    fn update_film(&mut self, film: &Film) -> (r: Result<Film, FilmError>)
        ensures
            !old(self).catalog().contains_key(film.id) ==> r == Err::<Film, FilmError>(
                FilmError::NotFound(film.id),
            ),
            old(self).catalog().contains_key(film.id) ==> r is Ok,
            r matches Ok(f) ==> f.updated_at->Some_0.micros >= old(self).clock().micros,
            r matches Ok(f) ==> f.created_at matches Some(c) && c.micros
                <= f.updated_at->Some_0.micros,
    {
        let now = current_time();
        self.update_film_at(film, now)
    }

    fn delete_film(&mut self, id: &FilmId) -> (r: Result<FilmId, FilmError>)
        ensures
            r == Ok::<FilmId, FilmError>(*id),
    {
        self.films.remove(id);
        Ok(*id)
    }
}

} // verus!
