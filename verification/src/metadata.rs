//! Typed metadata records and their deserialization from the metadata
//! block. The block is a YAML mapping; field lookup is delegated to an
//! outside YAML parser, while presence and non-emptiness of the required
//! fields are checked here.

use vstd::prelude::*;
use crate::front_matter::ConvertError;

verus! {

/// Front matter for a blog post.
#[derive(Clone, Debug)]
pub struct PostFrontMatter {
    pub title: String,
    pub date: String,
    pub author: String,
    pub description: Option<String>,
    pub category: Option<String>,
}

/// Front matter for a generic page.
#[derive(Debug)]
pub struct PageFrontMatter {
    pub title: String,
    pub author: String,
    pub description: Option<String>,
}

/// Whether `s` is a well-formed YAML document.
pub uninterp spec fn yaml_parses(s: Seq<char>) -> bool;

/// The string value at `key` in the top-level mapping of the YAML document
/// `doc`, or nothing when `doc` does not parse, is not a mapping, lacks the
/// key, or holds a non-string value there.
pub uninterp spec fn yaml_string_field(doc: Seq<char>, key: Seq<char>) -> Option<Seq<char>>;

/// Relies on `serde_yaml::from_str::<Value>`: whether `s` parses as YAML is
/// a function of the text alone; on failure the parser's message is
/// returned.
#[verifier::external_body]
fn yaml_check(s: &str) -> (r: Result<(), String>)
    ensures
        r is Ok <==> yaml_parses(s@),
{
    match serde_yaml::from_str::<serde_yaml::Value>(s) {
        Ok(_) => Ok(()),
        Err(e) => Err(e.to_string()),
    }
}

/// Relies on `serde_yaml::from_str::<Value>`, `Value::get` and
/// `Value::as_str`: the string at `key` in the top-level mapping of `doc`
/// is a function of `doc` and `key` alone; `get` returns nothing on a
/// non-mapping or a missing key, `as_str` returns nothing on a non-string
/// value.
#[verifier::external_body]
fn yaml_get_string(doc: &str, key: &str) -> (r: Option<String>)
    ensures
        r is Some <==> yaml_string_field(doc@, key@) is Some,
        r matches Some(s) ==> yaml_string_field(doc@, key@) == Some(s@),
{
    let v: serde_yaml::Value = match serde_yaml::from_str(doc) {
        Ok(v) => v,
        Err(_) => return None,
    };
    let f = match v.get(key) {
        Some(f) => f,
        None => return None,
    };
    match f.as_str() {
        Some(s) => Some(s.to_string()),
        None => None,
    }
}

/// The metadata block `s` parses into a valid post record: well-formed
/// YAML whose `title`, `date` and `author` are strings, with `title` and
/// `author` non-empty.
pub open spec fn post_meta_ok(s: Seq<char>) -> bool {
    &&& yaml_parses(s)
    &&& yaml_string_field(s, "title"@) matches Some(t) && t.len() > 0
    &&& yaml_string_field(s, "date"@) is Some
    &&& yaml_string_field(s, "author"@) matches Some(a) && a.len() > 0
}

/// The metadata block `s` parses into a valid page record: well-formed
/// YAML whose `title` and `author` are non-empty strings.
pub open spec fn page_meta_ok(s: Seq<char>) -> bool {
    &&& yaml_parses(s)
    &&& yaml_string_field(s, "title"@) matches Some(t) && t.len() > 0
    &&& yaml_string_field(s, "author"@) matches Some(a) && a.len() > 0
}

/// An optional field of `m` agrees with the optional string at `key` in
/// `doc`.
pub open spec fn optional_field_ok(doc: Seq<char>, key: Seq<char>, f: Option<String>) -> bool {
    match f {
        Some(s) => yaml_string_field(doc, key) == Some(s@),
        None => yaml_string_field(doc, key) is None,
    }
}

fn invalid(field: &str, reason: &str) -> (r: ConvertError)
    ensures
        r matches ConvertError::InvalidMetadata { field: f, reason: re } && f@ == field@ && re@
            == reason@,
{
    ConvertError::InvalidMetadata { field: field.to_owned(), reason: reason.to_owned() }
}

/// A required field: the string at `key`, which must be present.
fn required_field(block: &str, key: &str) -> (r: Result<String, ConvertError>)
    ensures
        r is Ok <==> yaml_string_field(block@, key@) is Some,
        r matches Ok(s) ==> yaml_string_field(block@, key@) == Some(s@),
        r matches Err(e) ==> e matches ConvertError::InvalidMetadata { field, .. } && field@
            == key@,
{
    match yaml_get_string(block, key) {
        Some(s) => Ok(s),
        None => Err(invalid(key, "missing or not a string")),
    }
}

/// A required field that must also be non-empty.
fn required_nonempty_field(block: &str, key: &str) -> (r: Result<String, ConvertError>)
    ensures
        r is Ok <==> (yaml_string_field(block@, key@) matches Some(s) && s.len() > 0),
        r matches Ok(s) ==> yaml_string_field(block@, key@) == Some(s@) && s@.len() > 0,
        r matches Err(e) ==> e matches ConvertError::InvalidMetadata { field, .. } && field@
            == key@,
{
    let s = required_field(block, key)?;
    if s.as_str().is_empty() {
        Err(invalid(key, "must not be empty"))
    } else {
        Ok(s)
    }
}

/// Parses the metadata block of a post. Succeeds exactly on blocks that
/// `post_meta_ok` admits, returning the fields of the block; every failure
/// is an `InvalidMetadata` error naming the offending field.
pub fn parse_post_front_matter(block: &str) -> (r: Result<PostFrontMatter, ConvertError>)
    ensures
        r is Ok <==> post_meta_ok(block@),
        r matches Ok(m) ==> {
            &&& yaml_string_field(block@, "title"@) == Some(m.title@)
            &&& yaml_string_field(block@, "date"@) == Some(m.date@)
            &&& yaml_string_field(block@, "author"@) == Some(m.author@)
            &&& optional_field_ok(block@, "description"@, m.description)
            &&& optional_field_ok(block@, "category"@, m.category)
            &&& m.title@.len() > 0
            &&& m.author@.len() > 0
        },
        r matches Err(e) ==> e is InvalidMetadata,
{
    if let Err(reason) = yaml_check(block) {
        return Err(ConvertError::InvalidMetadata {
            field: "front matter".to_owned(),
            reason,
        });
    }
    let title = required_nonempty_field(block, "title")?;
    let date = required_field(block, "date")?;
    let author = required_nonempty_field(block, "author")?;
    let description = yaml_get_string(block, "description");
    let category = yaml_get_string(block, "category");
    Ok(PostFrontMatter { title, date, author, description, category })
}

/// Parses the metadata block of a page. Succeeds exactly on blocks that
/// `page_meta_ok` admits.
pub fn parse_page_front_matter(block: &str) -> (r: Result<PageFrontMatter, ConvertError>)
    ensures
        r is Ok <==> page_meta_ok(block@),
        r matches Ok(m) ==> {
            &&& yaml_string_field(block@, "title"@) == Some(m.title@)
            &&& yaml_string_field(block@, "author"@) == Some(m.author@)
            &&& optional_field_ok(block@, "description"@, m.description)
            &&& m.title@.len() > 0
            &&& m.author@.len() > 0
        },
        r matches Err(e) ==> e is InvalidMetadata,
{
    if let Err(reason) = yaml_check(block) {
        return Err(ConvertError::InvalidMetadata {
            field: "front matter".to_owned(),
            reason,
        });
    }
    let title = required_nonempty_field(block, "title")?;
    let author = required_nonempty_field(block, "author")?;
    let description = yaml_get_string(block, "description");
    Ok(PageFrontMatter { title, author, description })
}

} // verus!
