use crate::person::Person;
use crate::traits::{HasError, PersonContext, PersonQuerier};
use vstd::prelude::*;

verus! {

/// anyhow's catch-all error, carried through as an opaque value.
#[verifier::external_type_specification]
#[verifier::external_body]
pub struct ExAnyhowError(anyhow::Error);

/// The text that `Debug` formatting gives for a string with these characters.
pub uninterp spec fn debug_text_of(s: Seq<char>) -> Seq<char>;

/// Relies on std's `Debug` impl for `String` (through `format!("{:?}", ..)`):
/// its output depends on the string's characters alone.
#[verifier::external_body]
fn debug_text(s: &String) -> (r: String)
    ensures
        r@ == debug_text_of(s@),
{
    format!("{:?}", s)
}

/// A context that knows no one in advance: it resolves every identifier to a
/// person named by the identifier's debug text, and never fails.
pub struct AppContext;

impl HasError for AppContext {
    type Error = anyhow::Error;
}

impl PersonContext for AppContext {
    type PersonId = String;

    type Person = Person;
}

impl PersonQuerier for AppContext {
    open spec fn resolves(&self, person_id: &String, r: Result<Person, anyhow::Error>) -> bool {
        r is Ok && r->Ok_0.name@ == debug_text_of(person_id@)
    }

    fn query_person(&self, person_id: &String) -> (r: Result<Person, anyhow::Error>) {
        Ok(Person { name: debug_text(person_id) })
    }
}

} // verus!
