use vstd::prelude::*;

use crate::decimal::decimal_int;
use crate::NoteError;

verus! {

/// Whether `needle` occurs contiguously somewhere inside `hay`.
pub open spec fn contains_seq(hay: Seq<char>, needle: Seq<char>) -> bool {
    exists|k: int|
        0 <= k && k + needle.len() <= hay.len() && #[trigger] hay.subrange(k, k + needle.len())
            == needle
}

/// A sequence made by putting `payload` after `prefix` contains `payload`.
proof fn lemma_suffix_contained(prefix: Seq<char>, payload: Seq<char>)
    ensures
        contains_seq(prefix + payload, payload),
{
    let hay = prefix + payload;
    let k = prefix.len() as int;
    assert(hay.subrange(k, k + payload.len()) =~= payload);
    assert(0 <= k && k + payload.len() <= hay.len());
}

/// Law: the rendered message of every variant that carries a payload
/// contains that payload verbatim — the wrapped cause, the note id in
/// decimal, or the free-form detail appear unchanged in the text.
pub proof fn lemma_message_embeds_payload(e: NoteError)
    ensures
        e matches NoteError::Database(cause) ==> contains_seq(e.message(), cause@),
        e matches NoteError::NotFound(id) ==> contains_seq(e.message(), decimal_int(id as int)),
        e matches NoteError::InvalidPagination(detail) ==> contains_seq(e.message(), detail@),
        e matches NoteError::SearchError(detail) ==> contains_seq(e.message(), detail@),
        e matches NoteError::System(detail) ==> contains_seq(e.message(), detail@),
{
    match e {
        NoteError::Database(cause) => lemma_suffix_contained("database error: "@, cause@),
        NoteError::NotFound(id) => lemma_suffix_contained(
            "note not found: id="@,
            decimal_int(id as int),
        ),
        NoteError::EmptyTitle => (),
        NoteError::InvalidPagination(detail) => lemma_suffix_contained(
            "invalid pagination parameter: "@,
            detail@,
        ),
        NoteError::SearchError(detail) => lemma_suffix_contained("search query error: "@, detail@),
        NoteError::System(detail) => lemma_suffix_contained("system error: "@, detail@),
    }
}

/// Law: rendering is pure — the message is a function of the failure value
/// alone, so rendering one value any number of times gives identical text.
pub proof fn lemma_render_deterministic(e: NoteError, first: Seq<char>, second: Seq<char>)
    requires
        first == e.message(),
        second == e.message(),
    ensures
        first == second,
{
}

/// Whether two failures are of the same kind, payloads aside.
pub open spec fn same_kind(a: NoteError, b: NoteError) -> bool {
    match (a, b) {
        (NoteError::Database(_), NoteError::Database(_)) => true,
        (NoteError::NotFound(_), NoteError::NotFound(_)) => true,
        (NoteError::EmptyTitle, NoteError::EmptyTitle) => true,
        (NoteError::InvalidPagination(_), NoteError::InvalidPagination(_)) => true,
        (NoteError::SearchError(_), NoteError::SearchError(_)) => true,
        (NoteError::System(_), NoteError::System(_)) => true,
        _ => false,
    }
}

/// Each kind's message starts with that kind's fixed prefix, and the six
/// prefixes already differ within their first two characters.
proof fn lemma_message_head(e: NoteError)
    ensures
        e.message().len() >= 2,
        e matches NoteError::Database(_) ==> e.message()[0] == 'd',
        e matches NoteError::NotFound(_) ==> e.message()[0] == 'n',
        e matches NoteError::EmptyTitle ==> e.message()[0] == 't',
        e matches NoteError::InvalidPagination(_) ==> e.message()[0] == 'i',
        e matches NoteError::SearchError(_) ==> e.message()[0] == 's' && e.message()[1] == 'e',
        e matches NoteError::System(_) ==> e.message()[0] == 's' && e.message()[1] == 'y',
{
    reveal_strlit("database error: ");
    reveal_strlit("note not found: id=");
    reveal_strlit("title must not be empty");
    reveal_strlit("invalid pagination parameter: ");
    reveal_strlit("search query error: ");
    reveal_strlit("system error: ");
}

/// Law: failures of different kinds never render to the same text — a
/// rendered message identifies the kind it came from by its prefix alone.
pub proof fn lemma_kinds_render_distinct(a: NoteError, b: NoteError)
    requires
        !same_kind(a, b),
    ensures
        a.message() != b.message(),
{
    lemma_message_head(a);
    lemma_message_head(b);
    if a.message() == b.message() {
        assert(a.message()[0] == b.message()[0]);
        assert(a.message()[1] == b.message()[1]);
        assert(false);
    }
}

} // verus!
