use crate::person::Person;
use crate::traits::{HasError, PersonContext, PersonQuerier};
use vstd::prelude::*;

verus! {

/// Why a lookup in a directory failed.
#[derive(Debug, PartialEq, Eq)]
pub enum LookupError {
    /// No entry has this identifier.
    UnknownId(String),
}

/// The name under the first entry whose identifier is `id`, if any.
pub open spec fn lookup(entries: Seq<(Seq<char>, Seq<char>)>, id: Seq<char>) -> Option<Seq<char>>
    decreases entries.len(),
{
    if entries.len() == 0 {
        None
    } else if entries[0].0 == id {
        Some(entries[0].1)
    } else {
        lookup(entries.drop_first(), id)
    }
}

/// A context backed by a list of (identifier, name) entries; the first entry
/// with a matching identifier wins, and an identifier without one fails.
pub struct DirectoryContext {
    pub entries: Vec<(String, String)>,
}

impl DirectoryContext {
    /// The entries as identifier and name character sequences.
    pub open spec fn entries_view(&self) -> Seq<(Seq<char>, Seq<char>)> {
        self.entries@.map_values(|e: (String, String)| (e.0@, e.1@))
    }
}

impl HasError for DirectoryContext {
    type Error = LookupError;
}

impl PersonContext for DirectoryContext {
    type PersonId = String;

    type Person = Person;
}

impl PersonQuerier for DirectoryContext {
    open spec fn resolves(&self, person_id: &String, r: Result<Person, LookupError>) -> bool {
        match lookup(self.entries_view(), person_id@) {
            Some(name) => r is Ok && r->Ok_0.name@ == name,
            None => match r {
                Err(LookupError::UnknownId(s)) => s@ == person_id@,
                Ok(_) => false,
            },
        }
    }

    fn query_person(&self, person_id: &String) -> (r: Result<Person, LookupError>) {
        let n = self.entries.len();
        let mut i: usize = 0;
        assert(self.entries_view().subrange(0, n as int) =~= self.entries_view());
        while i < n
            invariant
                0 <= i <= n,
                n == self.entries@.len(),
                lookup(self.entries_view(), person_id@) == lookup(
                    self.entries_view().subrange(i as int, n as int),
                    person_id@,
                ),
            decreases n - i,
        {
            let ghost rest = self.entries_view().subrange(i as int, n as int);
            assert(rest.drop_first() =~= self.entries_view().subrange(i + 1, n as int));
            let entry = &self.entries[i];
            if entry.0 == *person_id {
                return Ok(Person { name: entry.1.clone() });
            }
            i = i + 1;
        }
        assert(self.entries_view().subrange(n as int, n as int).len() == 0);
        Err(LookupError::UnknownId(person_id.clone()))
    }
}

} // verus!
