use vstd::prelude::*;

use crate::person::{ids_unique, Person};

verus! {

/// Why a store operation did not apply.
#[derive(Clone, Copy, Debug, PartialEq, Eq, Structural)]
pub enum StoreError {
    /// No record has the requested `id`.
    NotFound,
    /// A record with the `id` of the new record is already present.
    Conflict,
}

/// Some record of `s` has this `id`.
pub open spec fn contains_id(s: Seq<Person>, id: u32) -> bool {
    exists|i: int| 0 <= i < s.len() && #[trigger] s[i].id == id
}

/// `i` is the position of the first record of `s` with this `id`.
pub open spec fn first_match(s: Seq<Person>, id: u32, i: int) -> bool {
    &&& 0 <= i < s.len()
    &&& s[i].id == id
    &&& forall|j: int| 0 <= j < i ==> #[trigger] s[j].id != id
}

/// The position of the first record of `s` with this `id` (meaningful when
/// `contains_id(s, id)`).
pub open spec fn index_of(s: Seq<Person>, id: u32) -> int {
    choose|i: int| first_match(s, id, i)
}

/// What Get returns on the collection `s`.
pub open spec fn lookup(s: Seq<Person>, id: u32) -> Option<Person> {
    if contains_id(s, id) {
        Some(s[index_of(s, id)])
    } else {
        None
    }
}

/// The collection after Create of `p`.
pub open spec fn after_create(s: Seq<Person>, p: Person) -> Seq<Person> {
    if contains_id(s, p.id) {
        s
    } else {
        s.push(p)
    }
}

/// `old` with `name`, `age` and `date` taken from `new`; the `id` stays.
pub open spec fn with_fields(old: Person, new: Person) -> Person {
    Person { id: old.id, name: new.name, age: new.age, date: new.date }
}

/// The collection after Update with `p`.
pub open spec fn after_update(s: Seq<Person>, p: Person) -> Seq<Person> {
    if contains_id(s, p.id) {
        s.update(index_of(s, p.id), with_fields(s[index_of(s, p.id)], p))
    } else {
        s
    }
}

/// The collection after Delete of `id`.
pub open spec fn after_delete(s: Seq<Person>, id: u32) -> Seq<Person> {
    if contains_id(s, id) {
        s.remove(index_of(s, id))
    } else {
        s
    }
}

/// The collection after Create of each record of `ps`, in order.
pub open spec fn after_creates(s: Seq<Person>, ps: Seq<Person>) -> Seq<Person>
    decreases ps.len(),
{
    if ps.len() == 0 {
        s
    } else {
        after_creates(after_create(s, ps[0]), ps.drop_first())
    }
}

/// A first match is the one `index_of` names.
pub proof fn lemma_index_of(s: Seq<Person>, id: u32, i: int)
    requires
        first_match(s, id, i),
    ensures
        index_of(s, id) == i,
        contains_id(s, id),
{
    let k = index_of(s, id);
    assert(first_match(s, id, k));
    if k < i {
        assert(s[k].id != id);
    } else if i < k {
        assert(s[i].id != id);
    }
}

/// Where `id` occurs in `s`, it has a first position.
pub proof fn lemma_contains_has_first(s: Seq<Person>, id: u32)
    requires
        contains_id(s, id),
    ensures
        first_match(s, id, index_of(s, id)),
    decreases s.len(),
{
    let i = choose|i: int| 0 <= i < s.len() && #[trigger] s[i].id == id;
    if exists|j: int| 0 <= j < i && #[trigger] s[j].id == id {
        let t = s.subrange(0, i);
        let j = choose|j: int| 0 <= j < i && #[trigger] s[j].id == id;
        assert(t[j].id == id);
        lemma_contains_has_first(t, id);
        let f = index_of(t, id);
        assert forall|m: int| 0 <= m < f implies #[trigger] s[m].id != id by {
            assert(t[m].id != id);
        }
        assert(first_match(s, id, f));
        lemma_index_of(s, id, f);
    } else {
        assert(first_match(s, id, i));
        lemma_index_of(s, id, i);
    }
}

/// The position of the first record with this `id`, if any.
pub fn find_index(persons: &Vec<Person>, id: u32) -> (r: Option<usize>)
    ensures
        match r {
            Some(i) => first_match(persons@, id, i as int) && i == index_of(persons@, id),
            None => !contains_id(persons@, id),
        },
{
    let mut i: usize = 0;
    while i < persons.len()
        invariant
            i <= persons@.len(),
            forall|j: int| 0 <= j < i ==> #[trigger] persons@[j].id != id,
        decreases persons@.len() - i,
    {
        if persons[i].id == id {
            proof {
                lemma_index_of(persons@, id, i as int);
            }
            return Some(i);
        }
        i = i + 1;
    }
    None
}

/// Get: a copy of the record with this `id`.
pub fn find_person(persons: &Vec<Person>, id: u32) -> (r: Option<Person>)
    ensures
        r == lookup(persons@, id),
{
    match find_index(persons, id) {
        Some(i) => Some(persons[i].duplicate()),
        None => None,
    }
}

/// List: a copy of the whole collection, in order.
pub fn list_persons(persons: &Vec<Person>) -> (r: Vec<Person>)
    ensures
        r@ == persons@,
{
    let mut out: Vec<Person> = Vec::new();
    let mut i: usize = 0;
    while i < persons.len()
        invariant
            i <= persons@.len(),
            out@ == persons@.subrange(0, i as int),
        decreases persons@.len() - i,
    {
        out.push(persons[i].duplicate());
        i = i + 1;
        assert(out@ =~= persons@.subrange(0, i as int));
    }
    assert(out@ =~= persons@);
    out
}

/// Create: append `p` unless its `id` is already present.
pub fn insert_person(persons: &mut Vec<Person>, p: Person) -> (r: Result<(), StoreError>)
    ensures
        final(persons)@ == after_create(old(persons)@, p),
        r == (if contains_id(old(persons)@, p.id) {
            Err(StoreError::Conflict)
        } else {
            Ok(())
        }),
{
    match find_index(persons, p.id) {
        Some(_) => Err(StoreError::Conflict),
        None => {
            persons.push(p);
            Ok(())
        },
    }
}

/// Update: overwrite `name`, `age` and `date` of the record whose `id` is
/// `p.id`.
pub fn update_person_fields(persons: &mut Vec<Person>, p: Person) -> (r: Result<(), StoreError>)
    ensures
        final(persons)@ == after_update(old(persons)@, p),
        r == (if contains_id(old(persons)@, p.id) {
            Ok(())
        } else {
            Err(StoreError::NotFound)
        }),
{
    match find_index(persons, p.id) {
        Some(i) => {
            let id = persons[i].id;
            persons.set(i, Person { id, name: p.name, age: p.age, date: p.date });
            Ok(())
        },
        None => Err(StoreError::NotFound),
    }
}

/// Delete: remove the record with this `id`, keeping the order of the rest.
pub fn remove_person(persons: &mut Vec<Person>, id: u32) -> (r: Result<(), StoreError>)
    ensures
        final(persons)@ == after_delete(old(persons)@, id),
        r == (if contains_id(old(persons)@, id) {
            Ok(())
        } else {
            Err(StoreError::NotFound)
        }),
{
    match find_index(persons, id) {
        Some(i) => {
            persons.remove(i);
            Ok(())
        },
        None => Err(StoreError::NotFound),
    }
}

/// Whether no two records share an `id`.
pub fn has_unique_ids(persons: &Vec<Person>) -> (r: bool)
    ensures
        r == ids_unique(persons@),
{
    let mut i: usize = 0;
    while i < persons.len()
        invariant
            i <= persons@.len(),
            forall|a: int, b: int|
                0 <= a < i && 0 <= b < persons@.len() && a != b ==> #[trigger] persons@[a].id
                    != #[trigger] persons@[b].id,
        decreases persons@.len() - i,
    {
        let mut j: usize = 0;
        while j < persons.len()
            invariant
                i < persons@.len(),
                j <= persons@.len(),
                forall|a: int, b: int|
                    0 <= a < i && 0 <= b < persons@.len() && a != b ==> #[trigger] persons@[a].id
                        != #[trigger] persons@[b].id,
                forall|b: int| 0 <= b < j && b != i ==> persons@[i as int].id != #[trigger] persons@[b].id,
            decreases persons@.len() - j,
        {
            if j != i && persons[i].id == persons[j].id {
                return false;
            }
            j = j + 1;
        }
        i = i + 1;
    }
    true
}

} // verus!
