//! Splitting a raw document into its metadata block and its body.
//!
//! A document opens with a delimiter line `---`; the text up to the next
//! delimiter line is the metadata block, and everything after that line is
//! the body, unmodified.

use vstd::prelude::*;
use crate::text::{find_spec, find, chars_of, sub_chars, string_of, lemma_find_spec_characterization};

verus! {

/// Why a document could not be converted.
#[derive(Debug, Clone)]
pub enum ConvertError {
    /// No delimiter line opens the metadata block.
    MissingOpeningDelimiter,
    /// No delimiter line closes the metadata block.
    MissingClosingDelimiter,
    /// A required metadata field is missing, mistyped or empty.
    InvalidMetadata { field: String, reason: String },
}

/// The delimiter that opens the metadata block: a `---` line.
pub open spec fn open_delim() -> Seq<char> {
    seq!['-', '-', '-', '\n']
}

/// The delimiter that closes the metadata block: a `---` line of its own.
pub open spec fn close_delim() -> Seq<char> {
    seq!['\n', '-', '-', '-', '\n']
}

fn open_delim_chars() -> (r: Vec<char>)
    ensures
        r@ == open_delim(),
{
    let mut v: Vec<char> = Vec::new();
    v.push('-');
    v.push('-');
    v.push('-');
    v.push('\n');
    proof {
        assert(v@ =~= open_delim());
    }
    v
}

fn close_delim_chars() -> (r: Vec<char>)
    ensures
        r@ == close_delim(),
{
    let mut v: Vec<char> = Vec::new();
    v.push('\n');
    v.push('-');
    v.push('-');
    v.push('-');
    v.push('\n');
    proof {
        assert(v@ =~= close_delim());
    }
    v
}

/// The metadata block and the body of `doc`: the block lies between the
/// first opening delimiter and the first closing delimiter after it, and
/// the body is everything after that closing delimiter.
pub open spec fn split_doc(doc: Seq<char>) -> Option<(Seq<char>, Seq<char>)> {
    match find_spec(doc, open_delim(), 0) {
        None => None,
        Some(i) => {
            let rest = doc.subrange(i + 4, doc.len() as int);
            match find_spec(rest, close_delim(), 0) {
                None => None,
                Some(j) => Some((rest.subrange(0, j), rest.subrange(j + 5, rest.len() as int))),
            }
        },
    }
}

/// A delimiter line opens the metadata block of `doc`.
pub open spec fn has_opening_delim(doc: Seq<char>) -> bool {
    find_spec(doc, open_delim(), 0) is Some
}

/// Splits `doc` into its metadata block and its body, reporting which
/// delimiter is missing when it cannot.
pub fn extract(doc: &str) -> (r: Result<(String, String), ConvertError>)
    ensures
        r matches Ok(p) ==> split_doc(doc@) == Some((p.0@, p.1@)),
        r is Ok <==> split_doc(doc@) is Some,
        r matches Err(e) ==> match e {
            ConvertError::MissingOpeningDelimiter => !has_opening_delim(doc@),
            ConvertError::MissingClosingDelimiter => has_opening_delim(doc@) && split_doc(
                doc@,
            ) is None,
            _ => false,
        },
{
    let chars = chars_of(doc);
    let od = open_delim_chars();
    let i = match find(&chars, &od, 0) {
        Some(i) => i,
        None => {
            return Err(ConvertError::MissingOpeningDelimiter);
        },
    };
    proof {
        lemma_find_spec_characterization(doc@, open_delim(), 0);
        assert(open_delim().len() == 4);
    }
    let n = chars.len();
    let rest = sub_chars(&chars, i + 4, n);
    let cd = close_delim_chars();
    let j = match find(&rest, &cd, 0) {
        Some(j) => j,
        None => {
            return Err(ConvertError::MissingClosingDelimiter);
        },
    };
    proof {
        lemma_find_spec_characterization(rest@, close_delim(), 0);
    }
    let meta = sub_chars(&rest, 0, j);
    let body = sub_chars(&rest, j + 5, rest.len());
    Ok((string_of(&meta), string_of(&body)))
}

/// The body recovered by `split_doc` is exactly the text of `doc` that
/// follows the closing delimiter.
pub proof fn lemma_body_follows_closing_delimiter(doc: Seq<char>)
    requires
        split_doc(doc) is Some,
    ensures
        ({
            let i = find_spec(doc, open_delim(), 0)->Some_0;
            let rest = doc.subrange(i + 4, doc.len() as int);
            let j = find_spec(rest, close_delim(), 0)->Some_0;
            split_doc(doc)->Some_0.1 == doc.subrange(i + 4 + j + 5, doc.len() as int)
        }),
{
    let i = find_spec(doc, open_delim(), 0)->Some_0;
    lemma_find_spec_characterization(doc, open_delim(), 0);
    let rest = doc.subrange(i + 4, doc.len() as int);
    let j = find_spec(rest, close_delim(), 0)->Some_0;
    lemma_find_spec_characterization(rest, close_delim(), 0);
    assert(rest.subrange(j + 5, rest.len() as int) =~= doc.subrange(
        i + 4 + j + 5,
        doc.len() as int,
    ));
}

} // verus!
