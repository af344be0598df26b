use vstd::prelude::*;
use vstd::rwlock::{RwLock, RwLockPredicate};

use crate::person::{create_person_collection, ids_unique, Person};
use crate::store::has_unique_ids;

verus! {

/// What every value held by the lock satisfies: no two records share an `id`.
pub struct UniqueIds;

impl RwLockPredicate<Vec<Person>> for UniqueIds {
    open spec fn inv(self, v: Vec<Person>) -> bool {
        ids_unique(v@)
    }
}

/// The state shared by all handlers: the collection behind a reader-writer
/// lock, and the greeting shown on the landing page.
///
/// Any number of readers hold the lock together; a writer holds it alone. The
/// lock hands out its value only together with a proof of `UniqueIds`, and
/// takes a value back only with such a proof, so every state of the
/// collection that any request observes has unique `id`s. A critical section
/// here never panics, so the lock never ends up in a degraded state.
pub struct AppState {
    pub person_collection: RwLock<Vec<Person>, UniqueIds>,
    pub greeting_text: String,
}

impl AppState {
    /// A state holding `persons`, or `None` where two of them share an `id`.
    pub fn new(persons: Vec<Person>, greeting_text: String) -> (r: Option<AppState>)
        ensures
            r.is_some() == ids_unique(persons@),
            r matches Some(st) ==> st.greeting_text == greeting_text,
    {
        if has_unique_ids(&persons) {
            Some(
                AppState {
                    person_collection: RwLock::new(persons, Ghost(UniqueIds)),
                    greeting_text,
                },
            )
        } else {
            None
        }
    }

    /// A state holding the seed records.
    pub fn with_seed(greeting_text: String) -> (r: AppState)
        ensures
            r.greeting_text == greeting_text,
    {
        AppState {
            person_collection: RwLock::new(create_person_collection(), Ghost(UniqueIds)),
            greeting_text,
        }
    }
}

} // verus!
