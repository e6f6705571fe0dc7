use vstd::prelude::*;

pub mod decimal;
pub mod laws;

verus! {

/// The closed set of failure kinds for a notes backend: every fallible
/// operation in the surrounding system reports its failure as exactly one
/// of these variants.
pub enum NoteError {
    /// An underlying storage-layer failure; the payload preserves the
    /// storage engine's own message for diagnostics.
    Database(String),
    /// The requested note identifier does not exist.
    NotFound(i64),
    /// A write operation supplied a blank or whitespace-only title.
    EmptyTitle,
    /// Page or size parameters violate range or type constraints.
    InvalidPagination(String),
    /// A search query could not be parsed or executed.
    SearchError(String),
    /// A failure outside the other classifications.
    System(String),
}

impl NoteError {
    /// The human-readable message for this failure: a fixed prefix naming
    /// the kind, followed by the variant's payload where it carries one.
    pub open spec fn message(self) -> Seq<char> {
        match self {
            NoteError::Database(cause) => "database error: "@ + cause@,
            NoteError::NotFound(id) => "note not found: id="@ + crate::decimal::decimal_int(
                id as int,
            ),
            NoteError::EmptyTitle => "title must not be empty"@,
            NoteError::InvalidPagination(detail) => "invalid pagination parameter: "@ + detail@,
            NoteError::SearchError(detail) => "search query error: "@ + detail@,
            NoteError::System(detail) => "system error: "@ + detail@,
        }
    }

    /// Renders this failure as the plain text that a boundary which cannot
    /// carry structured errors receives. Total: every variant has a message.
    pub fn render(&self) -> (s: String)
        ensures
            s@ == self.message(),
    {
        match self {
            NoteError::Database(cause) => {
                let mut s = String::from_str("database error: ");
                s.append(cause.as_str());
                s
            },
            NoteError::NotFound(id) => {
                let mut s = String::from_str("note not found: id=");
                let digits = crate::decimal::i64_to_decimal(*id);
                s.append(digits.as_str());
                s
            },
            NoteError::EmptyTitle => String::from_str("title must not be empty"),
            NoteError::InvalidPagination(detail) => {
                let mut s = String::from_str("invalid pagination parameter: ");
                s.append(detail.as_str());
                s
            },
            NoteError::SearchError(detail) => {
                let mut s = String::from_str("search query error: ");
                s.append(detail.as_str());
                s
            },
            NoteError::System(detail) => {
                let mut s = String::from_str("system error: ");
                s.append(detail.as_str());
                s
            },
        }
    }

    /// Wraps a storage-layer failure. The storage engine's error reaches
    /// this layer as its diagnostic message, which is preserved verbatim in
    /// the `Database` payload; every such message maps to a `Database`
    /// value and to nothing else.
    pub fn from_storage(cause: String) -> (e: NoteError)
        ensures
            e == NoteError::Database(cause),
    {
        NoteError::Database(cause)
    }
}

/// Whether a character counts as spacing when a title is judged blank.
pub open spec fn is_space(c: char) -> bool {
    c == ' ' || c == '\t' || c == '\n' || c == '\r'
}

/// Whether a title is blank: empty, or made of spacing characters only.
pub open spec fn is_blank(s: Seq<char>) -> bool {
    forall|i: int| 0 <= i < s.len() ==> is_space(#[trigger] s[i])
}

/// Checks the title rule for a write operation: a blank title is rejected
/// as `EmptyTitle`, and no other failure can come from here.
pub fn validate_title(title: &str) -> (r: Result<(), NoteError>)
    ensures
        r is Ok <==> !is_blank(title@),
        r is Err ==> r->Err_0 == NoteError::EmptyTitle,
{
    let len = title.unicode_len();
    let mut i: usize = 0;
    while i < len
        invariant
            i <= len,
            len == title@.len(),
            forall|j: int| 0 <= j < i ==> is_space(#[trigger] title@[j]),
        decreases len - i,
    {
        let c = title.get_char(i);
        if !(c == ' ' || c == '\t' || c == '\n' || c == '\r') {
            proof {
                assert(!is_space(title@[i as int]));
            }
            return Ok(());
        }
        i += 1;
    }
    Err(NoteError::EmptyTitle)
}

} // verus!
