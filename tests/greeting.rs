use ctx_greeter::{
    greeting_for, greeting_line, AppContext, DirectoryContext, Greeter, LookupError, NamedPerson,
    Person, PersonId, PersonQuerier, SimpleGreeter,
};

fn directory() -> DirectoryContext {
    DirectoryContext {
        entries: vec![
            ("u1".to_string(), "Alice".to_string()),
            ("u2".to_string(), "Bob".to_string()),
            ("u1".to_string(), "Shadowed".to_string()),
        ],
    }
}

#[test]
fn app_context_resolves_to_debug_text() {
    let person = AppContext.query_person(&"davirain".to_string()).unwrap();
    assert_eq!(person.name(), "\"davirain\"");
}

#[test]
fn app_context_escapes_quotes_and_newlines() {
    let person = AppContext.query_person(&"a\"b\nc".to_string()).unwrap();
    assert_eq!(person.name, "\"a\\\"b\\nc\"");
}

#[test]
fn app_context_resolves_empty_identifier() {
    let person = AppContext.query_person(&String::new()).unwrap();
    assert_eq!(person.name(), "\"\"");
}

#[test]
fn greet_davirain_gives_quoted_line() {
    let line = SimpleGreeter.greet(&AppContext, &"davirain".to_string()).unwrap();
    assert_eq!(line, "Hello, \"davirain\"");
}

#[test]
fn greet_twice_gives_same_line() {
    let ctx = AppContext;
    let id = "davirain".to_string();
    let first = SimpleGreeter.greet(&ctx, &id).unwrap();
    let second = SimpleGreeter.greet(&ctx, &id).unwrap();
    assert_eq!(first, second);
}

#[test]
fn directory_greet_known_id() {
    let line = SimpleGreeter.greet(&directory(), &"u2".to_string()).unwrap();
    assert_eq!(line, "Hello, Bob");
}

#[test]
fn directory_first_entry_wins() {
    let person = directory().query_person(&"u1".to_string()).unwrap();
    assert_eq!(person.name(), "Alice");
}

#[test]
fn directory_greet_unknown_id_returns_error() {
    let err = SimpleGreeter.greet(&directory(), &"u9".to_string()).unwrap_err();
    assert_eq!(err, LookupError::UnknownId("u9".to_string()));
}

#[test]
fn empty_directory_always_fails() {
    let ctx = DirectoryContext { entries: Vec::new() };
    let err = SimpleGreeter.greet(&ctx, &"davirain".to_string()).unwrap_err();
    assert_eq!(err, LookupError::UnknownId("davirain".to_string()));
}

#[test]
fn greeting_line_prefixes_name() {
    assert_eq!(greeting_line("Ann"), "Hello, Ann");
    assert_eq!(greeting_line(""), "Hello, ");
}

#[test]
fn greeting_for_passes_error_through() {
    let r: Result<String, LookupError> =
        greeting_for::<Person, LookupError>(Err(LookupError::UnknownId("x".to_string())));
    assert_eq!(r, Err(LookupError::UnknownId("x".to_string())));
}

#[test]
fn greeting_for_greets_resolved_person() {
    let p = Person { name: "Zoe".to_string() };
    let r: Result<String, LookupError> = greeting_for(Ok(p));
    assert_eq!(r, Ok("Hello, Zoe".to_string()));
}

#[test]
fn person_name_returns_field() {
    let p = Person { name: "Eve".to_string() };
    assert_eq!(p.name(), "Eve");
}

#[test]
fn person_id_holds_text() {
    let id = PersonId("davirain".to_string());
    assert_eq!(id.0, "davirain");
}
