use vstd::prelude::*;

verus! {

/// An entity that carries a display name.
pub trait NamedPerson {
    /// The display name, as a sequence of characters.
    spec fn name_view(&self) -> Seq<char>;

    fn name(&self) -> (r: &str)
        ensures
            r@ == self.name_view(),
    ;
}

/// Binds the identifier and entity types that a context works with.
pub trait PersonContext {
    type PersonId;

    type Person: NamedPerson;
}

/// Binds the error type that operations under a context fail with.
pub trait HasError {
    type Error;
}

/// The capability to resolve an identifier into an entity.
pub trait PersonQuerier: PersonContext + HasError {
    /// The outcomes that `query_person` may give for `person_id`.
    spec fn resolves(
        &self,
        person_id: &Self::PersonId,
        r: Result<Self::Person, Self::Error>,
    ) -> bool;

    fn query_person(&self, person_id: &Self::PersonId) -> (r: Result<Self::Person, Self::Error>)
        ensures
            self.resolves(person_id, r),
    ;
}

/// The capability to greet the entity that an identifier names in a context.
///
/// On success the result holds the greeting line to be shown; on failure it
/// holds the error, and nothing is to be shown.
pub trait Greeter<Context> where Context: PersonContext + HasError {
    /// The outcomes that `greet` may give for `person_id` in `context`.
    spec fn greets(
        &self,
        context: &Context,
        person_id: &Context::PersonId,
        r: Result<String, Context::Error>,
    ) -> bool;

    fn greet(&self, context: &Context, person_id: &Context::PersonId) -> (r: Result<
        String,
        Context::Error,
    >)
        ensures
            self.greets(context, person_id, r),
    ;
}

} // verus!
