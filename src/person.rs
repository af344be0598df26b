use vstd::prelude::*;

verus! {

/// One entity record. `id` is the identity key of the collection; `date` is
/// kept exactly as it was received.
#[derive(Clone, Debug, PartialEq, Eq)]
pub struct Person {
    pub id: u32,
    pub name: String,
    pub age: i32,
    pub date: String,
}

impl Person {
    pub fn new(id: u32, name: &str, age: i32, date: &str) -> (r: Person)
        ensures
            r.id == id,
            r.name@ == name@,
            r.age == age,
            r.date@ == date@,
    {
        Person { id, name: String::from_str(name), age, date: String::from_str(date) }
    }

    /// A field-for-field copy of the record.
    pub fn duplicate(&self) -> (r: Person)
        ensures
            r == *self,
    {
        Person { id: self.id, name: self.name.clone(), age: self.age, date: self.date.clone() }
    }
}

/// No two records of `s` share an `id`.
pub open spec fn ids_unique(s: Seq<Person>) -> bool {
    forall|i: int, j: int|
        0 <= i < s.len() && 0 <= j < s.len() && #[trigger] s[i].id == #[trigger] s[j].id ==> i
            == j
}

/// The records the service starts with.
pub fn create_person_collection() -> (r: Vec<Person>)
    ensures
        r@.len() == 3,
        r@[0].id == 1 && r@[0].name@ == "Alice"@ && r@[0].age == 30
            && r@[0].date@ == "2023-01-15T10:00:00Z"@,
        r@[1].id == 2 && r@[1].name@ == "Bob"@ && r@[1].age == 25
            && r@[1].date@ == "2023-03-22T14:30:00Z"@,
        r@[2].id == 3 && r@[2].name@ == "Carol"@ && r@[2].age == 41
            && r@[2].date@ == "2023-07-04T08:15:00Z"@,
        ids_unique(r@),
{
    let mut v: Vec<Person> = Vec::new();
    v.push(Person::new(1, "Alice", 30, "2023-01-15T10:00:00Z"));
    v.push(Person::new(2, "Bob", 25, "2023-03-22T14:30:00Z"));
    v.push(Person::new(3, "Carol", 41, "2023-07-04T08:15:00Z"));
    v
}

} // verus!
