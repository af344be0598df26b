use vstd::prelude::*;

use crate::person::{ids_unique, Person};
use crate::store::{
    after_create, after_creates, after_delete, after_update, contains_id, first_match, index_of,
    lemma_contains_has_first, lemma_index_of, lookup,
};

verus! {

/// Create never makes two records share an `id`, and a Create whose `id` is
/// already present leaves the collection exactly as it was.
pub proof fn lemma_create_keeps_ids_unique(s: Seq<Person>, p: Person)
    requires
        ids_unique(s),
    ensures
        ids_unique(after_create(s, p)),
        contains_id(s, p.id) ==> after_create(s, p) == s,
{
    if !contains_id(s, p.id) {
        let t = s.push(p);
        assert forall|i: int, j: int|
            0 <= i < t.len() && 0 <= j < t.len() && #[trigger] t[i].id == #[trigger] t[j].id
            implies i == j by {
            if i < s.len() && j < s.len() {
                assert(s[i].id == s[j].id);
            } else if i < s.len() {
                assert(s[i].id == p.id);
            } else if j < s.len() {
                assert(s[j].id == p.id);
            }
        }
    }
}

/// Over any sequence of Create operations, the collection never holds two
/// records with the same `id`.
pub proof fn lemma_creates_keep_ids_unique(s: Seq<Person>, ps: Seq<Person>)
    requires
        ids_unique(s),
    ensures
        ids_unique(after_creates(s, ps)),
    decreases ps.len(),
{
    if ps.len() > 0 {
        lemma_create_keeps_ids_unique(s, ps[0]);
        lemma_creates_keep_ids_unique(after_create(s, ps[0]), ps.drop_first());
    }
}

/// After an Update that found its record, the record at that position keeps
/// its `id` and carries the incoming `name`, `age` and `date`; a Get by that
/// `id` returns the incoming record.
pub proof fn lemma_update_preserves_identity(s: Seq<Person>, p: Person)
    requires
        contains_id(s, p.id),
    ensures
        ({
            let i = index_of(s, p.id);
            let t = after_update(s, p);
            &&& t.len() == s.len()
            &&& t[i].id == s[i].id
            &&& t[i].id == p.id
            &&& t[i].name == p.name
            &&& t[i].age == p.age
            &&& t[i].date == p.date
            &&& lookup(t, p.id) == Some(p)
        }),
{
    lemma_contains_has_first(s, p.id);
    let i = index_of(s, p.id);
    let t = after_update(s, p);
    assert forall|j: int| 0 <= j < i implies #[trigger] t[j].id != p.id by {
        assert(s[j].id != p.id);
    }
    assert(first_match(t, p.id, i));
    lemma_index_of(t, p.id, i);
}

/// Update keeps the `id`s of the collection unique.
pub proof fn lemma_update_keeps_ids_unique(s: Seq<Person>, p: Person)
    requires
        ids_unique(s),
    ensures
        ids_unique(after_update(s, p)),
{
    if contains_id(s, p.id) {
        lemma_contains_has_first(s, p.id);
        let t = after_update(s, p);
        assert forall|i: int, j: int|
            0 <= i < t.len() && 0 <= j < t.len() && #[trigger] t[i].id == #[trigger] t[j].id
            implies i == j by {
            assert(t[i].id == s[i].id);
            assert(t[j].id == s[j].id);
        }
    }
}

/// After a Delete that found its record, no record with that `id` remains,
/// one record fewer is left, and the others keep their relative order.
pub proof fn lemma_delete_is_exact(s: Seq<Person>, id: u32)
    requires
        ids_unique(s),
        contains_id(s, id),
    ensures
        ({
            let i = index_of(s, id);
            let t = after_delete(s, id);
            &&& !contains_id(t, id)
            &&& t.len() == s.len() - 1
            &&& forall|j: int| 0 <= j < i ==> #[trigger] t[j] == s[j]
            &&& forall|j: int| i <= j < t.len() ==> #[trigger] t[j] == s[j + 1]
        }),
{
    lemma_contains_has_first(s, id);
    let i = index_of(s, id);
    let t = after_delete(s, id);
    assert(t == s.remove(i));
    assert forall|j: int| 0 <= j < t.len() implies #[trigger] t[j].id != id by {
        if j < i {
            assert(t[j] == s[j]);
            assert(s[j].id != id);
        } else {
            assert(t[j] == s[j + 1]);
            assert(s[j + 1].id == s[i].id ==> j + 1 == i);
        }
    }
}

/// Delete keeps the `id`s of the collection unique.
pub proof fn lemma_delete_keeps_ids_unique(s: Seq<Person>, id: u32)
    requires
        ids_unique(s),
    ensures
        ids_unique(after_delete(s, id)),
{
    if contains_id(s, id) {
        lemma_contains_has_first(s, id);
        let k = index_of(s, id);
        let t = after_delete(s, id);
        assert forall|i: int, j: int|
            0 <= i < t.len() && 0 <= j < t.len() && #[trigger] t[i].id == #[trigger] t[j].id
            implies i == j by {
            let a = if i < k { i } else { i + 1 };
            let b = if j < k { j } else { j + 1 };
            assert(t[i] == s[a]);
            assert(t[j] == s[b]);
        }
    }
}

/// A record created and then read back by its `id` comes back field for
/// field as it was given.
pub proof fn lemma_create_then_get(s: Seq<Person>, p: Person)
    requires
        !contains_id(s, p.id),
    ensures
        lookup(after_create(s, p), p.id) == Some(p),
{
    let t = after_create(s, p);
    assert(t == s.push(p));
    assert forall|j: int| 0 <= j < s.len() implies #[trigger] t[j].id != p.id by {
        assert(t[j] == s[j]);
    }
    assert(first_match(t, p.id, s.len() as int));
    lemma_index_of(t, p.id, s.len() as int);
}

} // verus!
