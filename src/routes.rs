use vstd::prelude::*;

use crate::laws::{
    lemma_create_keeps_ids_unique, lemma_delete_keeps_ids_unique, lemma_update_keeps_ids_unique,
};
use crate::person::{ids_unique, Person};
use crate::state::AppState;
use crate::store::{
    contains_id, find_person, insert_person, lemma_contains_has_first, list_persons, remove_person, update_person_fields, StoreError,
};

verus! {

/// The HTTP statuses the handlers answer with, besides a plain 200 with a body.
#[derive(Clone, Copy, Debug, PartialEq, Eq, Structural)]
pub enum Status {
    Created,
    NoContent,
    NotFound,
    Conflict,
}

pub open spec fn status_code(s: Status) -> u16 {
    match s {
        Status::Created => 201,
        Status::NoContent => 204,
        Status::NotFound => 404,
        Status::Conflict => 409,
    }
}

impl Status {
    /// The numeric HTTP status code.
    pub fn code(&self) -> (r: u16)
        ensures
            r == status_code(*self),
    {
        match self {
            Status::Created => 201,
            Status::NoContent => 204,
            Status::NotFound => 404,
            Status::Conflict => 409,
        }
    }
}

pub open spec fn status_of_spec(e: StoreError) -> Status {
    match e {
        StoreError::NotFound => Status::NotFound,
        StoreError::Conflict => Status::Conflict,
    }
}

/// The status that reports a store error.
pub fn status_of(e: StoreError) -> (r: Status)
    ensures
        r == status_of_spec(e),
{
    match e {
        StoreError::NotFound => Status::NotFound,
        StoreError::Conflict => Status::Conflict,
    }
}

/// The HTTP methods the service answers.
#[derive(Clone, Copy, Debug, PartialEq, Eq, Structural)]
pub enum Method {
    Get,
    Post,
    Put,
    Delete,
}

/// The operation a route dispatches to.
#[derive(Clone, Copy, Debug, PartialEq, Eq, Structural)]
pub enum Operation {
    Landing,
    Health,
    List,
    Get,
    Create,
    Update,
    Delete,
}

/// One entry of the route table. `<id>` in a path is an unsigned integer.
#[derive(Clone, Debug)]
pub struct Route {
    pub method: Method,
    pub path: String,
    pub operation: Operation,
}

pub open spec fn route_table() -> Seq<(Method, Seq<char>, Operation)> {
    seq![
        (Method::Get, "/"@, Operation::Landing),
        (Method::Get, "/health"@, Operation::Health),
        (Method::Get, "/api/persons"@, Operation::List),
        (Method::Get, "/api/person/<id>"@, Operation::Get),
        (Method::Post, "/api/person"@, Operation::Create),
        (Method::Put, "/api/person"@, Operation::Update),
        (Method::Delete, "/api/person/<id>"@, Operation::Delete),
    ]
}

fn route(method: Method, path: &str, operation: Operation) -> (r: Route)
    ensures
        r.method == method,
        r.path@ == path@,
        r.operation == operation,
{
    Route { method, path: String::from_str(path), operation }
}

/// The route table of the service.
pub fn get_routes() -> (r: Vec<Route>)
    ensures
        r@.len() == route_table().len(),
        forall|k: int|
            0 <= k < r@.len() ==> (#[trigger] r@[k].method, r@[k].path@, r@[k].operation)
                == route_table()[k],
{
    let mut v: Vec<Route> = Vec::new();
    v.push(route(Method::Get, "/", Operation::Landing));
    v.push(route(Method::Get, "/health", Operation::Health));
    v.push(route(Method::Get, "/api/persons", Operation::List));
    v.push(route(Method::Get, "/api/person/<id>", Operation::Get));
    v.push(route(Method::Post, "/api/person", Operation::Create));
    v.push(route(Method::Put, "/api/person", Operation::Update));
    v.push(route(Method::Delete, "/api/person/<id>", Operation::Delete));
    v
}

/// The body of the landing page for a greeting and a UTC time stamp.
pub open spec fn landing_text_spec(greeting: Seq<char>, now: Seq<char>) -> Seq<char> {
    "Rust-Rocket "@ + greeting + " <br> Current UTC time: "@ + now
}

pub fn landing_text(greeting: &str, now: &str) -> (r: String)
    ensures
        r@ == landing_text_spec(greeting@, now@),
{
    let mut r = String::from_str("Rust-Rocket ");
    r.append(greeting);
    r.append(" <br> Current UTC time: ");
    r.append(now);
    r
}

/// Relies on chrono's `From<SystemTime> for DateTime<Utc>` and
/// `DateTime::to_rfc3339`: the current UTC time as RFC 3339 text. It depends
/// on the clock, so nothing is stated of it. A clock before the Unix epoch
/// gives a negative time stamp rather than a panic; the conversion fails only
/// for a clock about 262,000 years away from 1970.
#[verifier::external_body]
fn current_utc_rfc3339() -> (r: String) {
    chrono::DateTime::<chrono::Utc>::from(std::time::SystemTime::now()).to_rfc3339()
}

/// GET /: the greeting and the current UTC time.
pub fn landing_page(state: &AppState) -> (r: String)
    ensures
        exists|now: Seq<char>| r@ == landing_text_spec(state.greeting_text@, now),
{
    let now = current_utc_rfc3339();
    let r = landing_text(state.greeting_text.as_str(), now.as_str());
    assert(r@ == landing_text_spec(state.greeting_text@, now@));
    r
}

/// GET /health.
pub fn health() -> (r: &'static str)
    ensures
        r@ == "OK"@,
{
    "OK"
}

/// GET /api/persons: a copy of the collection as it stood under the read lock.
pub fn persons(state: &AppState) -> (r: Vec<Person>)
    ensures
        ids_unique(r@),
{
    let handle = state.person_collection.acquire_read();
    let r = list_persons(handle.borrow());
    handle.release_read();
    r
}

/// GET /api/person/<id>: a copy of the record with this `id`, or `NotFound`.
pub fn single_person(id: u32, state: &AppState) -> (r: Result<Person, Status>)
    ensures
        match r {
            Ok(p) => p.id == id,
            Err(s) => s == Status::NotFound,
        },
{
    let handle = state.person_collection.acquire_read();
    let persons = handle.borrow();
    let found = find_person(persons, id);
    proof {
        if contains_id(persons@, id) {
            lemma_contains_has_first(persons@, id);
        }
    }
    handle.release_read();
    match found {
        Some(p) => Ok(p),
        None => Err(Status::NotFound),
    }
}

/// POST /api/person: `Created`, or `Conflict` where the `id` is taken.
pub fn add_person(person: Person, state: &AppState) -> (r: Result<Status, Status>)
    ensures
        match r {
            Ok(s) => s == Status::Created,
            Err(s) => s == Status::Conflict,
        },
{
    let (mut persons, handle) = state.person_collection.acquire_write();
    let ghost before = persons@;
    let r = insert_person(&mut persons, person);
    proof {
        lemma_create_keeps_ids_unique(before, person);
    }
    handle.release_write(persons);
    match r {
        Ok(()) => Ok(Status::Created),
        Err(e) => Err(status_of(e)),
    }
}

/// PUT /api/person: `NoContent` once `name`, `age` and `date` of the record
/// with `person.id` are overwritten, or `NotFound`.
pub fn update_person(person: Person, state: &AppState) -> (r: Result<Status, Status>)
    ensures
        match r {
            Ok(s) => s == Status::NoContent,
            Err(s) => s == Status::NotFound,
        },
{
    let (mut persons, handle) = state.person_collection.acquire_write();
    let ghost before = persons@;
    let ghost incoming = person;
    let r = update_person_fields(&mut persons, person);
    proof {
        lemma_update_keeps_ids_unique(before, incoming);
    }
    handle.release_write(persons);
    match r {
        Ok(()) => Ok(Status::NoContent),
        Err(e) => Err(status_of(e)),
    }
}

/// DELETE /api/person/<id>: `NoContent` once the record is removed, or
/// `NotFound`.
pub fn delete_person(id: u32, state: &AppState) -> (r: Result<Status, Status>)
    ensures
        match r {
            Ok(s) => s == Status::NoContent,
            Err(s) => s == Status::NotFound,
        },
{
    let (mut persons, handle) = state.person_collection.acquire_write();
    let ghost before = persons@;
    let r = remove_person(&mut persons, id);
    proof {
        lemma_delete_keeps_ids_unique(before, id);
    }
    handle.release_write(persons);
    match r {
        Ok(()) => Ok(Status::NoContent),
        Err(e) => Err(status_of(e)),
    }
}

} // verus!
