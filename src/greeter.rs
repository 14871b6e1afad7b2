use crate::traits::{Greeter, NamedPerson, PersonQuerier};
use vstd::prelude::*;

verus! {

/// The greeting line for a person with display name `name`.
pub open spec fn greeting_text(name: Seq<char>) -> Seq<char> {
    seq!['H', 'e', 'l', 'l', 'o', ',', ' '] + name
}

/// The greeting outcome `r` that follows from the resolution outcome `q`: the
/// greeting line for the resolved person, or the very same error.
pub open spec fn greeting_follows<P: NamedPerson, E>(q: Result<P, E>, r: Result<String, E>) -> bool {
    match q {
        Ok(p) => r is Ok && r->Ok_0@ == greeting_text(p.name_view()),
        Err(e) => r == Err::<String, E>(e),
    }
}

/// Builds the greeting line for a person named `name`.
pub fn greeting_line(name: &str) -> (r: String)
    ensures
        r@ == greeting_text(name@),
{
    let prefix = String::from_str("Hello, ");
    proof {
        reveal_strlit("Hello, ");
    }
    let r = prefix.concat(name);
    assert(r@ == greeting_text(name@));
    r
}

/// Turns the outcome of a resolution into the outcome of a greeting.
pub fn greeting_for<P: NamedPerson, E>(resolved: Result<P, E>) -> (r: Result<String, E>)
    ensures
        greeting_follows(resolved, r),
{
    match resolved {
        Ok(person) => Ok(greeting_line(person.name())),
        Err(e) => Err(e),
    }
}

/// A greeter that resolves the identifier once and greets the person found.
pub struct SimpleGreeter;

impl<Context> Greeter<Context> for SimpleGreeter where Context: PersonQuerier {
    open spec fn greets(
        &self,
        context: &Context,
        person_id: &Context::PersonId,
        r: Result<String, Context::Error>,
    ) -> bool {
        exists|q: Result<Context::Person, Context::Error>|
            context.resolves(person_id, q) && greeting_follows(q, r)
    }

    fn greet(&self, context: &Context, person_id: &Context::PersonId) -> (r: Result<
        String,
        Context::Error,
    >) {
        let resolved = context.query_person(person_id);
        let ghost q = resolved;
        let r = greeting_for(resolved);
        assert(context.resolves(person_id, q) && greeting_follows(q, r));
        r
    }
}

} // verus!
