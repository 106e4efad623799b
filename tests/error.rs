use api_lib::button::ButtonType;
use api_lib::error::FilmError;

#[test]
fn messages_name_the_film_by_its_hyphenated_id() {
    let id = 0x67e5504410b1426f9247bb680e5fe0c8u128;
    assert_eq!(
        FilmError::NotFound(id).message(),
        "Film with id 67e55044-10b1-426f-9247-bb680e5fe0c8 does not exist"
    );
    assert_eq!(
        FilmError::Conflict(1).message(),
        "Film with id 00000000-0000-0000-0000-000000000001 already exists"
    );
    assert_eq!(
        FilmError::StorageUnavailable("lock poisoned".to_string()).message(),
        "An error happened while accessing films: lock poisoned"
    );
    assert_eq!(
        FilmError::ValidationFailure("bad year".to_string()).message(),
        "Invalid film: bad year"
    );
}

#[test]
fn button_types_have_their_classes() {
    assert_eq!(
        ButtonType::Primary.to_string(),
        "text-slate-200 inline-flex items-center bg-cyan-700 border-0 py-1 px-3 focus:outline-none hover:bg-cyan-500 hover:text-teal-900 rounded mt-4 md:mt-0"
    );
    assert_eq!(
        ButtonType::Secondary.to_string(),
        "text-slate-200 inline-flex items-center bg-rose-700 border-0 py-1 px-3 focus:outline-none hover:bg-rose-800 rounded mt-4 md:mt-0"
    );
}
