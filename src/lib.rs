pub mod app_context;
pub mod directory;
pub mod greeter;
pub mod laws;
pub mod person;
pub mod traits;

pub use app_context::AppContext;
pub use directory::{DirectoryContext, LookupError};
pub use greeter::{greeting_for, greeting_line, SimpleGreeter};
pub use person::{Person, PersonId};
pub use traits::{Greeter, HasError, NamedPerson, PersonContext, PersonQuerier};
