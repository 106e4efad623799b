use api_lib::error::FilmError;
use api_lib::film_repository::FilmRepository;
use api_lib::memory_film_repository::MemoryFilmRepository;
use api_lib::models::{CreateFilm, Film, Timestamp};

fn now() -> Timestamp {
    Timestamp { micros: chrono::Utc::now().timestamp_micros() }
}

fn create_test_film(id: &'static str) -> Film {
    Film {
        id: uuid::Uuid::new_v4().as_u128(),
        title: format!("title-{}", id),
        director: format!("director-{}", id),
        poster: format!("poster-{}", id),
        year: 2001,
        created_at: Some(now()),
        updated_at: None,
    }
}

fn create_test_create_film(id: &'static str) -> CreateFilm {
    CreateFilm {
        title: format!("title-{}", id),
        director: format!("director-{}", id),
        poster: format!("poster-{}", id),
        year: 2001,
    }
}

fn payload_of(film: &Film) -> CreateFilm {
    CreateFilm {
        title: film.title.clone(),
        director: film.director.clone(),
        year: film.year,
        poster: film.poster.clone(),
    }
}

// A store that holds `films`, each stored as it is.
fn store_with(films: &[Film]) -> MemoryFilmRepository {
    let mut repo = MemoryFilmRepository::new();
    for film in films {
        let stored = repo
            .create_film_at(&payload_of(film), film.id, film.created_at.unwrap())
            .unwrap();
        assert_eq!(&stored, film);
    }
    repo
}

#[test]
fn repo_must_be_empty_on_new() {
    let repo = MemoryFilmRepository::new();
    let result = repo.get_films();

    assert!(result.is_ok());
    let result = result.unwrap();
    assert_eq!(result.len(), 0);
}

#[test]
fn repo_must_be_empty_on_default() {
    let repo = MemoryFilmRepository::default();
    let result = repo.get_films();

    assert!(result.is_ok());
    let result = result.unwrap();
    assert_eq!(result.len(), 0);
}

#[test]
fn memory_film_repository_get_films_works() {
    let film1 = create_test_film("1");
    let film2 = create_test_film("2");
    let repo = store_with(&[film1.clone(), film2.clone()]);

    let result = repo.get_films();

    assert!(result.is_ok());
    let result = result.unwrap();
    assert_eq!(result.len(), 2);
    assert!(result.iter().any(|f| f.id == film1.id));
    assert!(result.iter().any(|f| f.id == film2.id));
}

#[test]
fn memory_film_repository_get_film_works() {
    let film = create_test_film("1");
    let repo = store_with(&[film.clone()]);

    let result = repo.get_film(&film.id);

    assert!(result.is_ok());
    assert_eq!(result.unwrap(), film);
}

#[test]
fn memory_film_repository_get_film_fails_if_file_is_not_present() {
    let film_update = create_test_film("2");

    let mut repo = MemoryFilmRepository::default();
    let result = repo.update_film(&film_update);

    assert!(result.is_err());
    let err = result.unwrap_err();
    assert!(err.message().contains("does not exist"));
}

#[test]
fn memory_film_repository_create_film_works() {
    let create_film = create_test_create_film("1");

    let mut repo = MemoryFilmRepository::new();
    let result = repo.create_film(&create_film);

    assert!(result.is_ok());
    let created_file = result.unwrap();
    assert_eq!(created_file.title, create_film.title);
    assert_eq!(created_file.director, create_film.director);
    assert_eq!(created_file.poster, create_film.poster);
    assert_eq!(created_file.year, create_film.year);
    assert!(created_file.created_at.is_some());
}

#[test]
fn memory_film_repository_update_film_works() {
    let film = create_test_film("1");
    let mut repo = store_with(&[film.clone()]);

    let mut film_update = film.clone();
    film_update.title = "new-title".to_string();
    film_update.year = 2002;

    let result = repo.update_film(&film_update);

    assert!(result.is_ok());
    let updated_file = result.unwrap();
    assert_eq!(updated_file.id, film.id);
    assert_ne!(updated_file.title, film.title);
    assert_eq!(updated_file.title, film_update.title);
    assert_eq!(updated_file.director, film.director);
    assert_eq!(updated_file.poster, film.poster);
    assert_ne!(updated_file.year, film.year);
    assert_eq!(updated_file.year, film_update.year);
    assert_eq!(updated_file.created_at, film.created_at);
    assert!(updated_file.updated_at.is_some());
    assert!(film.updated_at.is_none());
}

#[test]
fn memory_film_repository_update_film_fails_if_file_is_not_present() {
    let film = create_test_film("1");
    let mut repo = store_with(&[film]);

    let film_update = create_test_film("2");

    let result = repo.update_film(&film_update);

    assert!(result.is_err());
    let err = result.unwrap_err();
    assert!(err.message().contains("does not exist"));
}

#[test]
fn memory_film_repository_delete_film_works() {
    let film = create_test_film("1");
    let mut repo = store_with(&[film.clone()]);

    let result = repo.delete_film(&film.id);

    assert!(result.is_ok());
    assert_eq!(result.unwrap(), film.id);
}

#[test]
fn memory_film_repository_delete_film_does_not_fail_if_film_is_not_present() {
    let mut repo = MemoryFilmRepository::default();
    let id = uuid::Uuid::new_v4().as_u128();
    let result = repo.delete_film(&id);

    assert!(result.is_ok());
    assert_eq!(result.unwrap(), id);
}

#[test]
fn create_copies_the_payload_under_a_fresh_version_4_id() {
    let mut repo = MemoryFilmRepository::new();
    let first = repo.create_film(&create_test_create_film("1")).unwrap();
    let second = repo.create_film(&create_test_create_film("1")).unwrap();

    for film in [&first, &second] {
        assert_ne!(film.id, 0);
        assert_eq!(uuid::Uuid::from_u128(film.id).get_version_num(), 4);
        assert_eq!(film.title, "title-1");
        assert_eq!(film.director, "director-1");
        assert_eq!(film.poster, "poster-1");
        assert_eq!(film.year, 2001);
        assert!(film.created_at.unwrap().micros > 0);
        assert!(film.updated_at.is_none());
    }
    assert_ne!(first.id, second.id);
}

#[test]
fn created_film_is_fetched_unchanged() {
    let mut repo = MemoryFilmRepository::new();
    let created = repo.create_film(&create_test_create_film("7")).unwrap();
    assert_eq!(repo.get_film(&created.id), Ok(created));
}

#[test]
fn create_at_stamps_the_given_time_and_refuses_a_taken_id() {
    let mut repo = MemoryFilmRepository::new();
    let payload = create_test_create_film("1");
    let created = repo.create_film_at(&payload, 42, Timestamp { micros: 1000 }).unwrap();
    assert_eq!(
        created,
        Film {
            id: 42,
            title: "title-1".to_string(),
            director: "director-1".to_string(),
            year: 2001,
            poster: "poster-1".to_string(),
            created_at: Some(Timestamp { micros: 1000 }),
            updated_at: None,
        }
    );
    let again = repo.create_film_at(&create_test_create_film("2"), 42, Timestamp { micros: 2000 });
    assert_eq!(again, Err(FilmError::Conflict(42)));
    assert_eq!(repo.get_film(&42), Ok(created));
    assert_eq!(repo.get_films().unwrap().len(), 1);
}

#[test]
fn timestamps_never_run_backwards() {
    let mut repo = MemoryFilmRepository::new();
    let payload = create_test_create_film("1");
    let first = repo.create_film_at(&payload, 1, Timestamp { micros: 5000 }).unwrap();
    let second = repo.create_film_at(&payload, 2, Timestamp { micros: 3000 }).unwrap();
    assert_eq!(first.created_at, Some(Timestamp { micros: 5000 }));
    assert_eq!(second.created_at, Some(Timestamp { micros: 5000 }));

    let updated = repo.update_film_at(&second, Timestamp { micros: 4000 }).unwrap();
    assert_eq!(updated.created_at, Some(Timestamp { micros: 5000 }));
    assert_eq!(updated.updated_at, Some(Timestamp { micros: 5000 }));

    let later = repo.update_film_at(&first, Timestamp { micros: 9000 }).unwrap();
    assert_eq!(later.updated_at, Some(Timestamp { micros: 9000 }));
}

#[test]
fn update_of_a_missing_id_leaves_the_store_unchanged() {
    let mut repo = MemoryFilmRepository::new();
    let kept = repo.create_film_at(&create_test_create_film("1"), 1, Timestamp { micros: 10 }).unwrap();
    let mut missing = kept.clone();
    missing.id = 2;
    missing.title = "other".to_string();

    assert_eq!(repo.update_film_at(&missing, Timestamp { micros: 20 }), Err(FilmError::NotFound(2)));
    assert_eq!(repo.get_films().unwrap(), vec![kept.clone()]);
    assert_eq!(repo.get_film(&2), Err(FilmError::NotFound(2)));
}

#[test]
fn update_keeps_creation_time_and_replaces_every_other_field() {
    let mut repo = MemoryFilmRepository::new();
    let created = repo.create_film_at(&create_test_create_film("1"), 9, Timestamp { micros: 100 }).unwrap();
    let input = Film {
        id: 9,
        title: "t".to_string(),
        director: "d".to_string(),
        year: 1950,
        poster: "p".to_string(),
        created_at: Some(Timestamp { micros: 1 }),
        updated_at: None,
    };
    let updated = repo.update_film_at(&input, Timestamp { micros: 300 }).unwrap();
    assert_eq!(
        updated,
        Film {
            id: 9,
            title: "t".to_string(),
            director: "d".to_string(),
            year: 1950,
            poster: "p".to_string(),
            created_at: created.created_at,
            updated_at: Some(Timestamp { micros: 300 }),
        }
    );
    assert_eq!(repo.get_film(&9), Ok(updated));
}

#[test]
fn update_through_the_clock_is_stamped_after_creation() {
    let mut repo = MemoryFilmRepository::new();
    let created = repo.create_film(&create_test_create_film("1")).unwrap();
    let updated = repo.update_film(&created).unwrap();
    assert_eq!(updated.created_at, created.created_at);
    assert!(updated.updated_at.unwrap() >= created.created_at.unwrap());
}

#[test]
fn deleted_film_is_not_found_and_delete_is_idempotent() {
    let mut repo = MemoryFilmRepository::new();
    let created = repo.create_film(&create_test_create_film("1")).unwrap();
    assert_eq!(repo.delete_film(&created.id), Ok(created.id));
    assert_eq!(repo.get_film(&created.id), Err(FilmError::NotFound(created.id)));
    assert_eq!(repo.delete_film(&created.id), Ok(created.id));
    assert_eq!(repo.get_films().unwrap().len(), 0);
}

#[test]
fn create_update_delete_scenario() {
    let mut repo = MemoryFilmRepository::new();
    let created = repo.create_film(&create_test_create_film("1")).unwrap();
    assert_ne!(created.id, 0);
    assert!(created.created_at.is_some());
    assert_eq!(created.year, 2001);

    let mut change = created.clone();
    change.title = "new-title".to_string();
    change.year = 2002;
    let updated = repo.update_film(&change).unwrap();
    assert_eq!(updated.id, created.id);
    assert_eq!(updated.title, "new-title");
    assert_eq!(updated.year, 2002);
    assert_eq!(updated.created_at, created.created_at);
    assert!(updated.updated_at.is_some());

    assert_eq!(repo.delete_film(&created.id), Ok(created.id));
    assert!(repo.get_film(&created.id).is_err());
}

#[test]
fn two_creations_are_distinct_and_both_listed() {
    let mut repo = MemoryFilmRepository::new();
    let first = repo.create_film(&create_test_create_film("1")).unwrap();
    let second = repo.create_film(&create_test_create_film("2")).unwrap();
    assert_ne!(first.id, second.id);
    let listed = repo.get_films().unwrap();
    assert_eq!(listed.len(), 2);
    assert!(listed.contains(&first));
    assert!(listed.contains(&second));
}
