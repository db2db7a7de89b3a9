//! The document assembler: runs extraction, metadata parsing, rendering
//! and image scanning for each document kind, and finishes the document
//! once the caller has resolved the dimensions of every matched image.
//!
//! Dimension discovery needs storage or network access, so it stays with
//! the caller: `prepare_*` lists the matched image tags, the caller
//! resolves each to dimensions or to nothing, and `finish_*` rewrites the
//! document with those results in original order.

use vstd::prelude::*;
use crate::front_matter::{ConvertError, split_doc, has_opening_delim, extract};
use crate::metadata::{
    PostFrontMatter, PageFrontMatter, post_meta_ok, page_meta_ok, yaml_string_field,
    optional_field_ok, parse_post_front_matter, parse_page_front_matter,
};
use crate::render::{render, render_spec};
use crate::reading::{word_count, word_count_spec, reading_time, reading_time_spec};
use crate::naming::{destination_file_name, destination_spec};
use crate::rewrite::{
    ImageTag, views_of, matches_spec, rewrite_spec, tags_wf, find_image_tags,
    apply_image_rewrites, lemma_matches_wf,
};
use crate::images::ImageDimensions;

verus! {

/// A fully converted blog post.
#[derive(Debug)]
pub struct Post {
    /// Parsed front matter (title, date, author).
    pub front_matter: PostFrontMatter,
    /// Final HTML content after rendering and image rewriting.
    pub content: String,
    /// Estimated reading time (in minutes).
    pub reading_time: usize,
    /// Destination file name derived from the title.
    pub file_name: String,
}

/// A fully converted generic page.
#[derive(Debug)]
pub struct Page {
    /// Parsed front matter (title, author).
    pub front_matter: PageFrontMatter,
    /// Final HTML content after rendering and image rewriting.
    pub content: String,
}

/// A post with its body rendered and its image tags listed, awaiting
/// dimension resolution.
#[derive(Debug)]
pub struct PostDraft {
    pub front_matter: PostFrontMatter,
    pub html: String,
    pub reading_time: usize,
    pub file_name: String,
    pub images: Vec<ImageTag>,
}

/// A page with its body rendered and its image tags listed, awaiting
/// dimension resolution.
#[derive(Debug)]
pub struct PageDraft {
    pub front_matter: PageFrontMatter,
    pub html: String,
    pub images: Vec<ImageTag>,
}

/// The images listed in a draft are exactly the matches of its HTML.
pub open spec fn post_draft_wf(d: PostDraft) -> bool {
    views_of(d.images@) == matches_spec(d.html@)
}

/// The images listed in a draft are exactly the matches of its HTML.
pub open spec fn page_draft_wf(d: PageDraft) -> bool {
    views_of(d.images@) == matches_spec(d.html@)
}

/// Converts a raw post document up to image resolution: splits it, parses
/// and validates its metadata, renders the body, computes the reading time
/// and the destination name, and lists the image tags to resolve.
/// Succeeds exactly on documents with both delimiters and a valid post
/// metadata block.
pub fn prepare_post(raw: &str) -> (r: Result<PostDraft, ConvertError>)
    ensures
        r is Ok <==> (split_doc(raw@) matches Some(p) && post_meta_ok(p.0)),
        r matches Ok(d) ==> ({
            let p = split_doc(raw@)->Some_0;
            &&& yaml_string_field(p.0, "title"@) == Some(d.front_matter.title@)
            &&& yaml_string_field(p.0, "date"@) == Some(d.front_matter.date@)
            &&& yaml_string_field(p.0, "author"@) == Some(d.front_matter.author@)
            &&& optional_field_ok(p.0, "description"@, d.front_matter.description)
            &&& optional_field_ok(p.0, "category"@, d.front_matter.category)
            &&& d.front_matter.title@.len() > 0
            &&& d.front_matter.author@.len() > 0
            &&& d.html@ == render_spec(p.1)
            &&& d.reading_time == reading_time_spec(word_count_spec(p.1))
            &&& d.file_name@ == destination_spec(d.front_matter.title@)
            &&& post_draft_wf(d)
        }),
        r matches Err(e) ==> match e {
            ConvertError::MissingOpeningDelimiter => !has_opening_delim(raw@),
            ConvertError::MissingClosingDelimiter => has_opening_delim(raw@) && split_doc(
                raw@,
            ) is None,
            ConvertError::InvalidMetadata { .. } => split_doc(raw@) matches Some(p)
                && !post_meta_ok(p.0),
        },
{
    let (meta, body) = extract(raw)?;
    let front_matter = parse_post_front_matter(meta.as_str())?;
    let html = render(body.as_str());
    let words = word_count(body.as_str());
    let minutes = reading_time(words);
    let file_name = destination_file_name(front_matter.title.as_str());
    let images = find_image_tags(html.as_str());
    Ok(PostDraft { front_matter, html, reading_time: minutes, file_name, images })
}

/// Converts a raw page document up to image resolution. Succeeds exactly
/// on documents with both delimiters and a valid page metadata block.
pub fn prepare_page(raw: &str) -> (r: Result<PageDraft, ConvertError>)
    ensures
        r is Ok <==> (split_doc(raw@) matches Some(p) && page_meta_ok(p.0)),
        r matches Ok(d) ==> ({
            let p = split_doc(raw@)->Some_0;
            &&& yaml_string_field(p.0, "title"@) == Some(d.front_matter.title@)
            &&& yaml_string_field(p.0, "author"@) == Some(d.front_matter.author@)
            &&& optional_field_ok(p.0, "description"@, d.front_matter.description)
            &&& d.front_matter.title@.len() > 0
            &&& d.front_matter.author@.len() > 0
            &&& d.html@ == render_spec(p.1)
            &&& page_draft_wf(d)
        }),
        r matches Err(e) ==> match e {
            ConvertError::MissingOpeningDelimiter => !has_opening_delim(raw@),
            ConvertError::MissingClosingDelimiter => has_opening_delim(raw@) && split_doc(
                raw@,
            ) is None,
            ConvertError::InvalidMetadata { .. } => split_doc(raw@) matches Some(p)
                && !page_meta_ok(p.0),
        },
{
    let (meta, body) = extract(raw)?;
    let front_matter = parse_page_front_matter(meta.as_str())?;
    let html = render(body.as_str());
    let images = find_image_tags(html.as_str());
    Ok(PageDraft { front_matter, html, images })
}

/// Finishes a post: rewrites its HTML with the resolved dimensions, one
/// entry per listed image tag, in original order.
pub fn finish_post(draft: PostDraft, dims: &Vec<Option<ImageDimensions>>) -> (p: Post)
    requires
        post_draft_wf(draft),
        dims@.len() == draft.images@.len(),
    ensures
        p.content@ == rewrite_spec(draft.html@, dims@),
        p.front_matter == draft.front_matter,
        p.reading_time == draft.reading_time,
        p.file_name == draft.file_name,
{
    proof {
        lemma_matches_wf(draft.html@, 0);
    }
    let content = apply_image_rewrites(draft.html.as_str(), &draft.images, dims);
    Post {
        front_matter: draft.front_matter,
        content,
        reading_time: draft.reading_time,
        file_name: draft.file_name,
    }
}

/// Finishes a page: rewrites its HTML with the resolved dimensions, one
/// entry per listed image tag, in original order.
pub fn finish_page(draft: PageDraft, dims: &Vec<Option<ImageDimensions>>) -> (p: Page)
    requires
        page_draft_wf(draft),
        dims@.len() == draft.images@.len(),
    ensures
        p.content@ == rewrite_spec(draft.html@, dims@),
        p.front_matter == draft.front_matter,
{
    proof {
        lemma_matches_wf(draft.html@, 0);
    }
    let content = apply_image_rewrites(draft.html.as_str(), &draft.images, dims);
    Page { front_matter: draft.front_matter, content }
}

} // verus!
