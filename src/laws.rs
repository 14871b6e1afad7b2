use crate::app_context::{debug_text_of, AppContext};
use crate::directory::{lookup, DirectoryContext, LookupError};
use crate::greeter::{greeting_text, SimpleGreeter};
use crate::traits::{Greeter, PersonQuerier};
use vstd::prelude::*;

verus! {

/// Under any querier, a greeting whose resolution can only fail shows
/// nothing: it fails, and with an error that the resolution itself gave.
pub proof fn lemma_failed_resolution_is_returned<C: PersonQuerier>(
    g: SimpleGreeter,
    context: &C,
    person_id: &C::PersonId,
    r: Result<String, C::Error>,
)
    requires
        g.greets(context, person_id, r),
        forall|q: Result<C::Person, C::Error>| #[trigger] context.resolves(person_id, q) ==> q is Err,
    ensures
        r is Err,
        context.resolves(person_id, Err::<C::Person, C::Error>(r->Err_0)),
{
    let q = choose|q: Result<C::Person, C::Error>|
        context.resolves(person_id, q) && crate::greeter::greeting_follows(q, r);
    assert(q is Err);
}

/// With the application context, greeting an identifier always succeeds with
/// the greeting line for its debug text, so two greetings of the same
/// identifier show the same line.
pub proof fn lemma_app_greeting_repeatable(
    g: SimpleGreeter,
    context: &AppContext,
    person_id: &String,
    r1: Result<String, anyhow::Error>,
    r2: Result<String, anyhow::Error>,
)
    requires
        g.greets(context, person_id, r1),
        g.greets(context, person_id, r2),
    ensures
        r1 is Ok,
        r2 is Ok,
        r1->Ok_0@ == greeting_text(debug_text_of(person_id@)),
        r1->Ok_0@ == r2->Ok_0@,
{
}

/// The same greeter, given a directory in place of the application context,
/// greets the person named by the first matching entry, and fails with
/// `UnknownId` when no entry matches.
pub proof fn lemma_directory_greeting(
    g: SimpleGreeter,
    context: &DirectoryContext,
    person_id: &String,
    r: Result<String, LookupError>,
)
    requires
        g.greets(context, person_id, r),
    ensures
        match lookup(context.entries_view(), person_id@) {
            Some(name) => r is Ok && r->Ok_0@ == greeting_text(name),
            None => match r {
                Err(LookupError::UnknownId(s)) => s@ == person_id@,
                Ok(_) => false,
            },
        },
{
}

} // verus!
