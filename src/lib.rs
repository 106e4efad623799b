//! A film catalog: the film record, a repository contract with an in-memory
//! implementation, the statements and row decoding of the relational backend,
//! and the HTTP route table with the replies of each endpoint.

pub mod models;
pub mod error;
pub mod generated;
pub mod film_repository;
pub mod memory_film_repository;
pub mod postgres_film_repository;
pub mod routes;
pub mod health;
pub mod films;
pub mod v1;
pub mod button;
