use person_api::{
    add_person, delete_person, get_routes, health, landing_page, landing_text, persons,
    single_person, update_person, AppState, Method, Operation, Person, Status,
};

fn seeded() -> AppState {
    AppState::with_seed("Hi!".to_string())
}

#[test]
fn get_existing_and_missing_person() {
    let state = seeded();
    let p = single_person(1, &state).unwrap();
    assert_eq!(p.id, 1);
    assert_eq!(p.name, "Alice");
    assert_eq!(p.age, 30);
    assert_eq!(p.date, "2023-01-15T10:00:00Z");
    let missing = single_person(999, &state);
    assert_eq!(missing, Err(Status::NotFound));
    assert_eq!(Status::NotFound.code(), 404);
}

#[test]
fn create_with_taken_id_conflicts() {
    let state = seeded();
    let before = persons(&state).len();
    let r = add_person(Person::new(1, "Dup", 99, "2020-01-01T00:00:00Z"), &state);
    assert_eq!(r, Err(Status::Conflict));
    assert_eq!(Status::Conflict.code(), 409);
    assert_eq!(persons(&state).len(), before);
    assert_eq!(single_person(1, &state).unwrap().name, "Alice");
}

#[test]
fn create_then_get_returns_same_record() {
    let state = seeded();
    let p = Person::new(42, "X", 30, "2024-01-01T00:00:00Z");
    let r = add_person(p.clone(), &state);
    assert_eq!(r, Ok(Status::Created));
    assert_eq!(Status::Created.code(), 201);
    assert_eq!(single_person(42, &state), Ok(p));
}

#[test]
fn update_changes_fields_but_not_id() {
    let state = seeded();
    add_person(Person::new(42, "X", 30, "2024-01-01T00:00:00Z"), &state).unwrap();
    let r = update_person(Person::new(42, "Y", 31, "2024-02-02T00:00:00Z"), &state);
    assert_eq!(r, Ok(Status::NoContent));
    assert_eq!(Status::NoContent.code(), 204);
    let p = single_person(42, &state).unwrap();
    assert_eq!(p.id, 42);
    assert_eq!(p.name, "Y");
    assert_eq!(p.age, 31);
    assert_eq!(p.date, "2024-02-02T00:00:00Z");
}

#[test]
fn update_of_missing_id_is_not_found() {
    let state = seeded();
    let r = update_person(Person::new(7, "Z", 1, "2024-02-02T00:00:00Z"), &state);
    assert_eq!(r, Err(Status::NotFound));
    assert_eq!(persons(&state).len(), 3);
}

#[test]
fn delete_then_get_is_not_found() {
    let state = seeded();
    add_person(Person::new(42, "X", 30, "2024-01-01T00:00:00Z"), &state).unwrap();
    assert_eq!(delete_person(42, &state), Ok(Status::NoContent));
    assert_eq!(single_person(42, &state), Err(Status::NotFound));
    let all = persons(&state);
    assert!(all.iter().all(|p| p.id != 42));
    let ids: Vec<u32> = all.iter().map(|p| p.id).collect();
    assert_eq!(ids, vec![1, 2, 3]);
    assert_eq!(delete_person(42, &state), Err(Status::NotFound));
}

#[test]
fn list_returns_seed_in_order() {
    let state = seeded();
    let ids: Vec<u32> = persons(&state).iter().map(|p| p.id).collect();
    assert_eq!(ids, vec![1, 2, 3]);
}

#[test]
fn state_with_duplicate_ids_is_refused() {
    let dup = vec![
        Person::new(5, "A", 1, "d"),
        Person::new(5, "B", 2, "e"),
    ];
    assert!(AppState::new(dup, "Hi!".to_string()).is_none());
    let ok = vec![Person::new(5, "A", 1, "d"), Person::new(6, "B", 2, "e")];
    let state = AppState::new(ok, "Hello".to_string()).unwrap();
    assert_eq!(state.greeting_text, "Hello");
    assert_eq!(persons(&state).len(), 2);
}

#[test]
fn health_says_ok() {
    assert_eq!(health(), "OK");
}

#[test]
fn landing_text_is_exact() {
    assert_eq!(
        landing_text("Hi!", "2024-01-01T00:00:00+00:00"),
        "Rust-Rocket Hi! <br> Current UTC time: 2024-01-01T00:00:00+00:00"
    );
}

#[test]
fn landing_page_holds_greeting_and_a_time() {
    let state = seeded();
    let body = landing_page(&state);
    let prefix = "Rust-Rocket Hi! <br> Current UTC time: ";
    assert!(body.starts_with(prefix));
    let stamp = &body[prefix.len()..];
    assert!(stamp.len() >= 20);
    assert!(stamp.contains('T'));
}

#[test]
fn route_table_lists_seven_routes() {
    let routes = get_routes();
    assert_eq!(routes.len(), 7);
    assert_eq!(routes[0].method, Method::Get);
    assert_eq!(routes[0].path, "/");
    assert_eq!(routes[0].operation, Operation::Landing);
    assert_eq!(routes[3].path, "/api/person/<id>");
    assert_eq!(routes[4].method, Method::Post);
    assert_eq!(routes[5].method, Method::Put);
    assert_eq!(routes[6].method, Method::Delete);
    assert_eq!(routes[6].operation, Operation::Delete);
}
