//! An in-memory collection of person records, guarded by a reader-writer
//! lock, and the request handlers that serve it over HTTP.

pub mod laws;
pub mod person;
pub mod routes;
pub mod state;
pub mod store;

pub use person::{create_person_collection, Person};
pub use routes::{
    add_person, delete_person, get_routes, health, landing_page, landing_text, persons,
    single_person, status_of, update_person, Method, Operation, Route, Status,
};
pub use state::AppState;
pub use store::{
    find_index, find_person, has_unique_ids, insert_person, list_persons, remove_person,
    update_person_fields, StoreError,
};
