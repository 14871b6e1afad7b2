use crate::traits::NamedPerson;
use vstd::prelude::*;

verus! {

/// An identifier that names a person.
#[derive(Debug)]
pub struct PersonId(pub String);

/// A person, known by a display name.
pub struct Person {
    pub name: String,
}

impl NamedPerson for Person {
    open spec fn name_view(&self) -> Seq<char> {
        self.name@
    }

    fn name(&self) -> (r: &str) {
        self.name.as_str()
    }
}

} // verus!
