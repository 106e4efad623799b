//! The repository contract: the five operations that every storage backend offers.

use vstd::prelude::*;
use crate::error::FilmError;
use crate::models::{film_of, film_updated, CreateFilm, Film, FilmId};

verus! {

/// `listed` holds each film of `films` once, in some order.
pub open spec fn is_listing(listed: Seq<Film>, films: Map<FilmId, Film>) -> bool {
    &&& listed.len() == films.len()
    &&& forall|i: int|
        0 <= i < listed.len() ==> films.contains_key(#[trigger] listed[i].id) && films[listed[i].id]
            == listed[i]
    &&& forall|id: FilmId| #[trigger]
        films.contains_key(id) ==> exists|i: int| 0 <= i < listed.len() && listed[i].id == id
}

/// A listing of a finite catalog holds each film exactly once: the ids of its
/// films are pairwise distinct.
pub proof fn listing_ids_are_distinct(listed: Seq<Film>, films: Map<FilmId, Film>)
    requires
        films.dom().finite(),
        is_listing(listed, films),
    ensures
        forall|i: int, j: int|
            0 <= i < listed.len() && 0 <= j < listed.len() && i != j ==> #[trigger] listed[i].id
                != #[trigger] listed[j].id,
{
    let ids = listed.map_values(|f: Film| f.id);
    assert forall|id: FilmId| #[trigger] ids.to_set().contains(id) implies films.dom().contains(
        id,
    ) by {
        assert(ids.contains(id));
        let k = choose|k: int| 0 <= k < ids.len() && ids[k] == id;
        assert(listed[k].id == id);
    };
    assert forall|id: FilmId| #[trigger] films.dom().contains(id) implies ids.to_set().contains(
        id,
    ) by {
        assert(films.contains_key(id));
        let k = choose|k: int| 0 <= k < listed.len() && listed[k].id == id;
        assert(ids[k] == id);
        assert(ids.contains(id));
    };
    assert(ids.to_set() =~= films.dom());
    ids.lemma_no_dup_set_cardinality();
    assert forall|i: int, j: int|
        0 <= i < listed.len() && 0 <= j < listed.len() && i != j implies #[trigger] listed[i].id
        != #[trigger] listed[j].id by {
        assert(ids[i] == listed[i].id && ids[j] == listed[j].id);
    };
}

/// What a lookup of `id` in `films` gives: the film, or `NotFound`.
pub open spec fn lookup(films: Map<FilmId, Film>, id: FilmId) -> Result<Film, FilmError> {
    if films.contains_key(id) {
        Ok(films[id])
    } else {
        Err(FilmError::NotFound(id))
    }
}

/// `created` is what a creation of `payload` returned, and it took `before` to `after`:
/// a fresh id, the payload's fields, a creation time and no update time.
pub open spec fn is_creation(
    before: Map<FilmId, Film>,
    after: Map<FilmId, Film>,
    payload: CreateFilm,
    created: Film,
) -> bool {
    &&& !before.contains_key(created.id)
    &&& created.created_at is Some
    &&& created == film_of(payload, created.id, created.created_at->Some_0)
    &&& after == before.insert(created.id, created)
}

/// `updated` is what an update with `input` returned, and it took `before` to `after`:
/// the stored film's creation time, every other field from `input`, an update time.
pub open spec fn is_update(
    before: Map<FilmId, Film>,
    after: Map<FilmId, Film>,
    input: Film,
    updated: Film,
) -> bool {
    &&& before.contains_key(input.id)
    &&& updated.updated_at is Some
    &&& updated == film_updated(before[input.id], input, updated.updated_at->Some_0)
    &&& after == before.insert(input.id, updated)
}

/// A store of films. Each backend keeps a catalog, a map from id to film, and
/// offers these operations on it.
pub trait FilmRepository: Sized {
    /// The films held, by id.
    spec fn catalog(&self) -> Map<FilmId, Film>;

    /// The backend's own invariant.
    spec fn well_formed(&self) -> bool;

    /// All films, in no particular order.
    fn get_films(&self) -> (r: Result<Vec<Film>, FilmError>)
        requires
            self.well_formed(),
        ensures
            r matches Ok(v) ==> is_listing(v@, self.catalog()),
    ;

    /// The film with this id; an error when there is none.
    fn get_film(&self, id: &FilmId) -> (r: Result<Film, FilmError>)
        requires
            self.well_formed(),
        ensures
            r is Ok ==> r == lookup(self.catalog(), *id),
            !self.catalog().contains_key(*id) ==> r is Err,
    ;

    /// Stores a new film made of the payload, under an id that the backend mints.
    fn create_film(&mut self, payload: &CreateFilm) -> (r: Result<Film, FilmError>)
        requires
            old(self).well_formed(),
        ensures
            final(self).well_formed(),
            r matches Ok(f) ==> is_creation(old(self).catalog(), final(self).catalog(), *payload, f),
            r is Err ==> final(self).catalog() == old(self).catalog(),
    ;

    /// Replaces the stored film of the same id; an error when there is none.
    fn update_film(&mut self, film: &Film) -> (r: Result<Film, FilmError>)
        requires
            old(self).well_formed(),
        ensures
            final(self).well_formed(),
            r matches Ok(f) ==> is_update(old(self).catalog(), final(self).catalog(), *film, f),
            r is Err ==> final(self).catalog() == old(self).catalog(),
            !old(self).catalog().contains_key(film.id) ==> r is Err,
    ;

    /// Removes the film with this id, if any, and returns the id.
    fn delete_film(&mut self, id: &FilmId) -> (r: Result<FilmId, FilmError>)
        requires
            old(self).well_formed(),
        ensures
            final(self).well_formed(),
            r matches Ok(d) ==> d == *id && final(self).catalog() == old(self).catalog().remove(*id),
            r is Err ==> final(self).catalog() == old(self).catalog(),
    ;
}

/// A film that a creation returned is what a lookup of its id then gives.
pub proof fn created_film_is_fetched(
    before: Map<FilmId, Film>,
    after: Map<FilmId, Film>,
    payload: CreateFilm,
    created: Film,
)
    requires
        is_creation(before, after, payload, created),
    ensures
        lookup(after, created.id) == Ok::<Film, FilmError>(created),
{
}

/// After the film of `id` is removed, a lookup of `id` fails with `NotFound`;
/// removing an id that is not there leaves the catalog as it was.
pub proof fn deleted_film_is_not_found(before: Map<FilmId, Film>, id: FilmId)
    ensures
        lookup(before.remove(id), id) == Err::<Film, FilmError>(FilmError::NotFound(id)),
        !before.contains_key(id) ==> before.remove(id) == before,
{
    if !before.contains_key(id) {
        assert(before.remove(id) =~= before);
    }
}

/// Two creations in a row, whatever their order, give two distinct ids, and a
/// listing taken afterwards holds both films.
pub proof fn two_creations_are_both_listed(
    first_before: Map<FilmId, Film>,
    between: Map<FilmId, Film>,
    after: Map<FilmId, Film>,
    first_payload: CreateFilm,
    second_payload: CreateFilm,
    first: Film,
    second: Film,
    listed: Seq<Film>,
)
    requires
        is_creation(first_before, between, first_payload, first),
        is_creation(between, after, second_payload, second),
        is_listing(listed, after),
    ensures
        first.id != second.id,
        exists|i: int| 0 <= i < listed.len() && listed[i] == first,
        exists|i: int| 0 <= i < listed.len() && listed[i] == second,
{
    assert(after.contains_key(first.id) && after[first.id] == first);
    assert(after.contains_key(second.id) && after[second.id] == second);
    let i = choose|i: int| 0 <= i < listed.len() && listed[i].id == first.id;
    assert(listed[i] == first);
    let j = choose|j: int| 0 <= j < listed.len() && listed[j].id == second.id;
    assert(listed[j] == second);
}

} // verus!
