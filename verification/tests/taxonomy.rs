use note_error::decimal::{i64_to_decimal, u64_to_decimal};
use note_error::{validate_title, NoteError};

#[test]
fn renders_database_exactly() {
    let e = NoteError::Database(String::from("connection reset"));
    assert_eq!(e.render(), "database error: connection reset");
}

#[test]
fn renders_not_found_exactly() {
    let e = NoteError::NotFound(42);
    assert_eq!(e.render(), "note not found: id=42");
}

#[test]
fn renders_empty_title_exactly() {
    let e = NoteError::EmptyTitle;
    assert_eq!(e.render(), "title must not be empty");
}

#[test]
fn renders_invalid_pagination_exactly() {
    let e = NoteError::InvalidPagination(String::from("size must be >=1"));
    assert_eq!(e.render(), "invalid pagination parameter: size must be >=1");
}

#[test]
fn renders_search_error_exactly() {
    let e = NoteError::SearchError(String::from("unbalanced quote"));
    assert_eq!(e.render(), "search query error: unbalanced quote");
}

#[test]
fn renders_system_exactly() {
    let e = NoteError::System(String::from("serialization failed"));
    assert_eq!(e.render(), "system error: serialization failed");
}

#[test]
fn every_payload_appears_verbatim() {
    let cases = vec![
        (
            NoteError::Database(String::from("disk I/O error")),
            "disk I/O error",
        ),
        (NoteError::NotFound(42), "42"),
        (
            NoteError::InvalidPagination(String::from("size must be >=1")),
            "size must be >=1",
        ),
        (
            NoteError::SearchError(String::from("empty query")),
            "empty query",
        ),
        (
            NoteError::System(String::from("unexpected state")),
            "unexpected state",
        ),
    ];
    for (e, payload) in cases {
        assert!(e.render().contains(payload));
    }
}

#[test]
fn rendering_twice_is_identical() {
    let e = NoteError::NotFound(7);
    assert_eq!(e.render(), e.render());
}

#[test]
fn rendered_strings_classify_back_to_their_kind() {
    let rendered = vec![
        NoteError::Database(String::from("x")).render(),
        NoteError::NotFound(1).render(),
        NoteError::EmptyTitle.render(),
        NoteError::InvalidPagination(String::from("x")).render(),
        NoteError::SearchError(String::from("x")).render(),
        NoteError::System(String::from("x")).render(),
    ];
    let prefixes = vec![
        "database error:",
        "note not found:",
        "title must not be empty",
        "invalid pagination parameter:",
        "search query error:",
        "system error:",
    ];
    for (i, s) in rendered.iter().enumerate() {
        for (j, p) in prefixes.iter().enumerate() {
            assert_eq!(s.starts_with(p), i == j);
        }
    }
}

#[test]
fn empty_title_is_rejected() {
    let r = validate_title("");
    assert!(matches!(r, Err(NoteError::EmptyTitle)));
    assert_eq!(r.unwrap_err().render(), "title must not be empty");
}

#[test]
fn whitespace_only_title_is_rejected() {
    let r = validate_title(" \t\r\n ");
    assert!(matches!(r, Err(NoteError::EmptyTitle)));
}

#[test]
fn plain_title_is_accepted() {
    assert!(matches!(validate_title("groceries"), Ok(())));
    assert!(matches!(validate_title("  padded  "), Ok(())));
}

#[test]
fn absent_note_id_appears_in_message() {
    let e = NoteError::NotFound(999);
    assert!(e.render().contains("999"));
}

#[test]
fn pagination_failure_names_pagination() {
    let e = NoteError::InvalidPagination(String::from("size must be >=1"));
    assert!(e.render().contains("pagination"));
}

#[test]
fn wrapping_preserves_the_engine_message() {
    let engine = "UNIQUE constraint failed: notes.id";
    let e = NoteError::from_storage(String::from(engine));
    assert!(matches!(e, NoteError::Database(_)));
    assert!(e.render().contains(engine));
}

#[test]
fn decimal_edges() {
    assert_eq!(u64_to_decimal(0), "0");
    assert_eq!(u64_to_decimal(10), "10");
    assert_eq!(u64_to_decimal(u64::MAX), "18446744073709551615");
    assert_eq!(i64_to_decimal(-7), "-7");
    assert_eq!(i64_to_decimal(0), "0");
    assert_eq!(i64_to_decimal(i64::MIN), "-9223372036854775808");
    assert_eq!(i64_to_decimal(i64::MAX), "9223372036854775807");
}

#[test]
fn negative_id_renders_with_sign() {
    let e = NoteError::NotFound(-3);
    assert_eq!(e.render(), "note not found: id=-3");
}
