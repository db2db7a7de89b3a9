//! The HTML image rewriter: scans rendered HTML for image tags carrying a
//! `src` and then an `alt` attribute, and replaces each matched tag either
//! by a dimension-aware wrapper element or, when its dimensions are
//! unresolvable, by nothing. Text outside matched tags passes through
//! unchanged.
//!
//! The scanner is deliberately order-sensitive (`src` before `alt`) and is
//! not a general HTML attribute parser: a tag opens with `<img` followed by
//! whitespace, its `src="..."` must be non-empty and appear before any `>`,
//! whitespace must separate the closing quote from `alt="..."`, and the tag
//! ends at the first `>` after the `alt` value with no newline in between.

use vstd::prelude::*;
use crate::text::{
    is_ws, ws_char, find_spec, find_char_spec, skip_ws_spec, find, find_char, skip_ws, chars_of,
    sub_chars, string_of, dec_digits, push_decimal, lemma_find_spec_characterization,
};
use crate::images::ImageDimensions;

verus! {

/// A matched image tag: the half-open span it occupies in the scanned
/// HTML and its two attribute values.
pub struct ImageTagSpec {
    pub start: int,
    pub end: int,
    pub src: Seq<char>,
    pub alt: Seq<char>,
}

/// A matched image tag, as extracted by the scanner.
#[derive(Clone, Debug)]
pub struct ImageTag {
    pub start: usize,
    pub end: usize,
    pub src: String,
    pub alt: String,
}

impl View for ImageTag {
    type V = ImageTagSpec;

    open spec fn view(&self) -> ImageTagSpec {
        ImageTagSpec {
            start: self.start as int,
            end: self.end as int,
            src: self.src@,
            alt: self.alt@,
        }
    }
}

/// The views of a vector of matched tags.
pub open spec fn views_of(tags: Seq<ImageTag>) -> Seq<ImageTagSpec> {
    tags.map_values(|t: ImageTag| t@)
}

/// The opener of an image tag.
pub open spec fn img_open_pat() -> Seq<char> {
    seq!['<', 'i', 'm', 'g']
}

/// The opener of the source attribute.
pub open spec fn src_pat() -> Seq<char> {
    seq!['s', 'r', 'c', '=', '"']
}

/// The opener of the alternative-text attribute.
pub open spec fn alt_pat() -> Seq<char> {
    seq!['a', 'l', 't', '=', '"']
}

/// No occurrence of `c` at a position in `[from, to)` of `h`.
pub open spec fn char_clear_upto(h: Seq<char>, c: char, from: int, to: int) -> bool {
    match find_char_spec(h, c, from) {
        None => true,
        Some(g) => to <= g,
    }
}

/// The match attempted at position `i` of `h`: an image tag opener with
/// whitespace, a non-empty `src="..."` before any `>`, whitespace, an
/// `alt="..."`, and a closing `>` with no newline before it.
pub open spec fn try_match_at(h: Seq<char>, i: int) -> Option<ImageTagSpec> {
    if !(0 <= i && i + 5 <= h.len() && h.subrange(i, i + 4) == img_open_pat() && is_ws(h[i + 4])) {
        None
    } else {
        match find_spec(h, src_pat(), i + 5) {
            None => None,
            Some(q) => if !char_clear_upto(h, '>', i + 5, q) {
                None
            } else {
                match find_char_spec(h, '"', q + 5) {
                    None => None,
                    Some(f) => if f == q + 5 {
                        None
                    } else {
                        let a = skip_ws_spec(h, f + 1);
                        if !(f + 1 < h.len() && is_ws(h[f + 1]) && a + 5 <= h.len() && h.subrange(
                            a,
                            a + 5,
                        ) == alt_pat()) {
                            None
                        } else {
                            match find_char_spec(h, '"', a + 5) {
                                None => None,
                                Some(e) => match find_char_spec(h, '>', e + 1) {
                                    None => None,
                                    Some(t) => if !char_clear_upto(h, '\n', e + 1, t) {
                                        None
                                    } else {
                                        Some(
                                            ImageTagSpec {
                                                start: i,
                                                end: t + 1,
                                                src: h.subrange(q + 5, f),
                                                alt: h.subrange(a + 5, e),
                                            },
                                        )
                                    },
                                },
                            }
                        }
                    },
                }
            },
        }
    }
}

/// `find_char_spec` returns the earliest occurrence at or after `from`.
pub proof fn lemma_find_char_characterization(h: Seq<char>, c: char, from: int)
    requires
        from >= 0,
    ensures
        match find_char_spec(h, c, from) {
            Some(i) => from <= i < h.len() && h[i] == c && forall|j: int|
                from <= j < i ==> h[j] != c,
            None => forall|j: int| from <= j < h.len() ==> h[j] != c,
        },
    decreases h.len() - from + 1,
{
    if from < h.len() && h[from] != c {
        lemma_find_char_characterization(h, c, from + 1);
    }
}

/// A successful match starts where it was attempted and spans a non-empty
/// range inside `h`.
pub proof fn lemma_try_match_bounds(h: Seq<char>, i: int)
    requires
        try_match_at(h, i) is Some,
    ensures
        ({
            let m = try_match_at(h, i)->Some_0;
            m.start == i && i < m.end <= h.len()
        }),
{
    let m = try_match_at(h, i)->Some_0;
    let q = find_spec(h, src_pat(), i + 5)->Some_0;
    lemma_find_spec_characterization(h, src_pat(), i + 5);
    let f = find_char_spec(h, '"', q + 5)->Some_0;
    lemma_find_char_characterization(h, '"', q + 5);
    let a = skip_ws_spec(h, f + 1);
    crate::text::lemma_skip_ws_bounds(h, f + 1);
    let e = find_char_spec(h, '"', a + 5)->Some_0;
    lemma_find_char_characterization(h, '"', a + 5);
    let t = find_char_spec(h, '>', e + 1)->Some_0;
    lemma_find_char_characterization(h, '>', e + 1);
}

/// All matches of `h` at or after position `i`, in document order,
/// resuming after each matched span.
pub open spec fn matches_from(h: Seq<char>, i: int) -> Seq<ImageTagSpec>
    decreases h.len() - i when i >= 0 via matches_from_decreases
{
    if i >= h.len() {
        Seq::empty()
    } else {
        match try_match_at(h, i) {
            Some(m) => seq![m] + matches_from(h, m.end),
            None => matches_from(h, i + 1),
        }
    }
}

#[via_fn]
proof fn matches_from_decreases(h: Seq<char>, i: int) {
    if i < h.len() && try_match_at(h, i) is Some {
        lemma_try_match_bounds(h, i);
    }
}

/// All image-tag matches of `h`, in document order.
pub open spec fn matches_spec(h: Seq<char>) -> Seq<ImageTagSpec> {
    matches_from(h, 0)
}

/// The spans of `tags` lie in order inside `h`, at or after position `i`.
pub open spec fn tags_wf_from(h: Seq<char>, tags: Seq<ImageTagSpec>, i: int) -> bool
    decreases tags.len()
{
    if tags.len() == 0 {
        true
    } else {
        &&& i <= tags[0].start
        &&& tags[0].start < tags[0].end <= h.len()
        &&& tags_wf_from(h, tags.drop_first(), tags[0].end)
    }
}

/// The spans of `tags` lie in order inside `h`.
pub open spec fn tags_wf(h: Seq<char>, tags: Seq<ImageTagSpec>) -> bool {
    tags_wf_from(h, tags, 0)
}

/// The matches of `h` are well-formed: ordered, disjoint, and inside `h`.
pub proof fn lemma_matches_wf(h: Seq<char>, i: int)
    requires
        i >= 0,
    ensures
        tags_wf_from(h, matches_from(h, i), i),
    decreases h.len() - i + 1,
{
    if i < h.len() {
        match try_match_at(h, i) {
            Some(m) => {
                lemma_try_match_bounds(h, i);
                lemma_matches_wf(h, m.end);
                assert((seq![m] + matches_from(h, m.end)).drop_first() =~= matches_from(
                    h,
                    m.end,
                ));
            },
            None => {
                lemma_matches_wf(h, i + 1);
                lemma_tags_wf_weaken(h, matches_from(h, i + 1), i + 1, i);
            },
        }
    }
}

/// Well-formedness at a later start position implies it at an earlier one.
proof fn lemma_tags_wf_weaken(h: Seq<char>, tags: Seq<ImageTagSpec>, i: int, j: int)
    requires
        tags_wf_from(h, tags, i),
        j <= i,
    ensures
        tags_wf_from(h, tags, j),
{
}

/// The wrapper element emitted for a resolved image: a shimmer placeholder
/// carrying the aspect ratio, holding the reconstructed image tag.
pub open spec fn wrapper_markup(src: Seq<char>, alt: Seq<char>, w: u32, h: u32) -> Seq<char> {
    "<div class='shimmer aspect-ratio' style='--aspect-ratio:"@ + dec_digits(w as nat) + " / "@
        + dec_digits(h as nat) + "'><img src=\""@ + src + "\" alt=\""@ + alt + "\"/></div>"@
}

/// What replaces a matched tag: the wrapper element when its dimensions
/// resolved, nothing when they did not.
pub open spec fn replacement_spec(t: ImageTagSpec, d: Option<ImageDimensions>) -> Seq<char> {
    match d {
        Some(dd) => wrapper_markup(t.src, t.alt, dd.width, dd.height),
        None => Seq::empty(),
    }
}

/// `h` from position `pos` on, with each of `tags` replaced according to
/// its entry in `dims` and the text between tags kept unchanged.
pub open spec fn assemble_from(
    h: Seq<char>,
    tags: Seq<ImageTagSpec>,
    dims: Seq<Option<ImageDimensions>>,
    pos: int,
) -> Seq<char>
    decreases tags.len()
{
    if tags.len() == 0 {
        h.subrange(pos, h.len() as int)
    } else {
        h.subrange(pos, tags[0].start) + replacement_spec(tags[0], dims[0]) + assemble_from(
            h,
            tags.drop_first(),
            dims.drop_first(),
            tags[0].end,
        )
    }
}

/// `h` with every matched image tag replaced according to `dims`.
pub open spec fn rewrite_spec(h: Seq<char>, dims: Seq<Option<ImageDimensions>>) -> Seq<char> {
    assemble_from(h, matches_spec(h), dims, 0)
}

/// One match attempt, mirroring `try_match_at`.
fn try_match(h: &Vec<char>, i: usize) -> (r: Option<ImageTag>)
    ensures
        match r {
            Some(t) => try_match_at(h@, i as int) == Some(t@),
            None => try_match_at(h@, i as int) is None,
        },
{
    let n = h.len();
    if n < 5 || i > n - 5 {
        return None;
    }
    let opener = h[i] == '<' && h[i + 1] == 'i' && h[i + 2] == 'm' && h[i + 3] == 'g' && ws_char(
        h[i + 4],
    );
    proof {
        if h@.subrange(i as int, i as int + 4) == img_open_pat() {
            assert(h@[i as int] == h@.subrange(i as int, i as int + 4)[0]);
            assert(h@[i as int + 1] == h@.subrange(i as int, i as int + 4)[1]);
            assert(h@[i as int + 2] == h@.subrange(i as int, i as int + 4)[2]);
            assert(h@[i as int + 3] == h@.subrange(i as int, i as int + 4)[3]);
        }
        if h@[i as int] == '<' && h@[i as int + 1] == 'i' && h@[i as int + 2] == 'm' && h@[i as int
            + 3] == 'g' {
            assert(h@.subrange(i as int, i as int + 4) =~= img_open_pat());
        }
    }
    if !opener {
        return None;
    }
    let sp = src_pat_chars();
    let q = match find(h, &sp, i + 5) {
        Some(q) => q,
        None => {
            return None;
        },
    };
    proof {
        lemma_find_spec_characterization(h@, src_pat(), i as int + 5);
    }
    match find_char(h, '>', i + 5) {
        Some(g) if g < q => {
            return None;
        },
        _ => {},
    }
    let f = match find_char(h, '"', q + 5) {
        Some(f) => f,
        None => {
            return None;
        },
    };
    if f == q + 5 {
        return None;
    }
    proof {
        lemma_find_char_characterization(h@, '"', q as int + 5);
    }
    if f + 1 >= n || !ws_char(h[f + 1]) {
        return None;
    }
    let a = skip_ws(h, f + 1);
    if n - a < 5 {
        return None;
    }
    let alt_there = h[a] == 'a' && h[a + 1] == 'l' && h[a + 2] == 't' && h[a + 3] == '=' && h[a
        + 4] == '"';
    proof {
        if h@.subrange(a as int, a as int + 5) == alt_pat() {
            assert(h@[a as int] == h@.subrange(a as int, a as int + 5)[0]);
            assert(h@[a as int + 1] == h@.subrange(a as int, a as int + 5)[1]);
            assert(h@[a as int + 2] == h@.subrange(a as int, a as int + 5)[2]);
            assert(h@[a as int + 3] == h@.subrange(a as int, a as int + 5)[3]);
            assert(h@[a as int + 4] == h@.subrange(a as int, a as int + 5)[4]);
        }
        if h@[a as int] == 'a' && h@[a as int + 1] == 'l' && h@[a as int + 2] == 't' && h@[a as int
            + 3] == '=' && h@[a as int + 4] == '"' {
            assert(h@.subrange(a as int, a as int + 5) =~= alt_pat());
        }
    }
    if !alt_there {
        return None;
    }
    let e = match find_char(h, '"', a + 5) {
        Some(e) => e,
        None => {
            return None;
        },
    };
    proof {
        lemma_find_char_characterization(h@, '"', a as int + 5);
    }
    let t = match find_char(h, '>', e + 1) {
        Some(t) => t,
        None => {
            return None;
        },
    };
    proof {
        lemma_find_char_characterization(h@, '>', e as int + 1);
    }
    match find_char(h, '\n', e + 1) {
        Some(x) if x < t => {
            return None;
        },
        _ => {},
    }
    let src = string_of(&sub_chars(h, q + 5, f));
    let alt = string_of(&sub_chars(h, a + 5, e));
    Some(ImageTag { start: i, end: t + 1, src, alt })
}

fn src_pat_chars() -> (r: Vec<char>)
    ensures
        r@ == src_pat(),
{
    let mut v: Vec<char> = Vec::new();
    v.push('s');
    v.push('r');
    v.push('c');
    v.push('=');
    v.push('"');
    proof {
        assert(v@ =~= src_pat());
    }
    v
}

/// Scans `html` for image tags carrying a `src` and then an `alt`
/// attribute, in document order.
pub fn find_image_tags(html: &str) -> (r: Vec<ImageTag>)
    ensures
        views_of(r@) == matches_spec(html@),
{
    let h = chars_of(html);
    let mut r: Vec<ImageTag> = Vec::new();
    let mut i: usize = 0;
    proof {
        assert(views_of(r@) =~= Seq::<ImageTagSpec>::empty());
    }
    while i < h.len()
        invariant
            h@ == html@,
            matches_spec(html@) == views_of(r@) + matches_from(html@, i as int),
        decreases h@.len() - i,
    {
        match try_match(&h, i) {
            Some(t) => {
                let e = t.end;
                proof {
                    lemma_try_match_bounds(h@, i as int);
                    assert(matches_from(h@, i as int) == seq![t@] + matches_from(h@, e as int));
                    assert(views_of(r@.push(t)) =~= views_of(r@).push(t@));
                    assert(views_of(r@).push(t@) + matches_from(h@, e as int) =~= views_of(r@) + (
                    seq![t@] + matches_from(h@, e as int)));
                }
                r.push(t);
                i = e;
            },
            None => {
                i = i + 1;
            },
        }
    }
    proof {
        assert(views_of(r@) + matches_from(html@, i as int) =~= views_of(r@));
    }
    r
}

/// The replacement text for one matched tag.
fn build_replacement(t: &ImageTag, d: &Option<ImageDimensions>) -> (r: Vec<char>)
    ensures
        r@ == replacement_spec(t@, *d),
{
    match d {
        None => Vec::new(),
        Some(dd) => {
            let mut v = chars_of("<div class='shimmer aspect-ratio' style='--aspect-ratio:");
            push_decimal(dd.width, &mut v);
            let mut sep = chars_of(" / ");
            v.append(&mut sep);
            push_decimal(dd.height, &mut v);
            let mut open_img = chars_of("'><img src=\"");
            v.append(&mut open_img);
            let mut sv = chars_of(t.src.as_str());
            v.append(&mut sv);
            let mut between = chars_of("\" alt=\"");
            v.append(&mut between);
            let mut av = chars_of(t.alt.as_str());
            v.append(&mut av);
            let mut close = chars_of("\"/></div>");
            v.append(&mut close);
            proof {
                assert(v@ =~= replacement_spec(t@, *d));
            }
            v
        },
    }
}

/// Applies the replacements for the matched `tags` of `html`, each
/// according to its entry in `dims`: a resolved tag becomes a wrapper
/// element with the aspect ratio, an unresolved one is omitted, and all
/// text outside the matched spans is kept unchanged.
pub fn apply_image_rewrites(
    html: &str,
    tags: &Vec<ImageTag>,
    dims: &Vec<Option<ImageDimensions>>,
) -> (r: String)
    requires
        tags_wf(html@, views_of(tags@)),
        dims@.len() == tags@.len(),
    ensures
        r@ == assemble_from(html@, views_of(tags@), dims@, 0),
{
    let h = chars_of(html);
    let mut out: Vec<char> = Vec::new();
    let mut pos: usize = 0;
    let mut k: usize = 0;
    proof {
        assert(views_of(tags@).skip(0) =~= views_of(tags@));
        assert(dims@.skip(0) =~= dims@);
        assert(out@ + assemble_from(html@, views_of(tags@), dims@, 0) =~= assemble_from(
            html@,
            views_of(tags@),
            dims@,
            0,
        ));
    }
    while k < tags.len()
        invariant
            h@ == html@,
            dims@.len() == tags@.len(),
            k <= tags@.len(),
            pos <= h@.len(),
            tags_wf_from(html@, views_of(tags@).skip(k as int), pos as int),
            assemble_from(html@, views_of(tags@), dims@, 0) == out@ + assemble_from(
                html@,
                views_of(tags@).skip(k as int),
                dims@.skip(k as int),
                pos as int,
            ),
        decreases tags@.len() - k,
    {
        proof {
            assert(views_of(tags@).skip(k as int)[0] == tags@[k as int]@);
        }
        let start = tags[k].start;
        let end = tags[k].end;
        let mut head = sub_chars(&h, pos, start);
        out.append(&mut head);
        let mut rep = build_replacement(&tags[k], &dims[k]);
        out.append(&mut rep);
        proof {
            assert(views_of(tags@).skip(k as int).drop_first() =~= views_of(tags@).skip(
                k as int + 1,
            ));
            assert(dims@.skip(k as int).drop_first() =~= dims@.skip(k as int + 1));
            assert(dims@.skip(k as int)[0] == dims@[k as int]);
        }
        pos = end;
        k = k + 1;
    }
    proof {
        assert(views_of(tags@).skip(k as int) =~= Seq::<ImageTagSpec>::empty());
        assert(dims@.skip(k as int) =~= Seq::<Option<ImageDimensions>>::empty());
    }
    let n = h.len();
    let mut tail = sub_chars(&h, pos, n);
    out.append(&mut tail);
    string_of(&out)
}

/// Rewriting text in which nothing matches is the identity.
pub proof fn lemma_rewrite_identity_without_matches(
    h: Seq<char>,
    dims: Seq<Option<ImageDimensions>>,
)
    requires
        matches_spec(h).len() == 0,
    ensures
        rewrite_spec(h, dims) == h,
{
    assert(h.subrange(0, h.len() as int) =~= h);
}

/// Text containing no image-tag opener has no matches: rewriting such
/// text, whatever its other content, is the identity.
pub proof fn lemma_no_img_opener_no_matches(h: Seq<char>)
    requires
        find_spec(h, img_open_pat(), 0) is None,
    ensures
        matches_spec(h).len() == 0,
{
    lemma_find_spec_characterization(h, img_open_pat(), 0);
    lemma_no_match_anywhere(h, 0);
}

proof fn lemma_no_match_anywhere(h: Seq<char>, i: int)
    requires
        i >= 0,
        forall|j: int| 0 <= j ==> !crate::text::is_match_at(h, img_open_pat(), j),
    ensures
        matches_from(h, i).len() == 0,
    decreases h.len() - i + 1,
{
    if i < h.len() {
        assert(try_match_at(h, i) is None) by {
            if try_match_at(h, i) is Some {
                assert(crate::text::is_match_at(h, img_open_pat(), i));
            }
        }
        lemma_no_match_anywhere(h, i + 1);
    }
}

/// Text in which no match attempt succeeds — in particular text whose
/// image tags all lack a `src` or an `alt` attribute — is rewritten to
/// itself: an unmatched tag is not modified.
pub proof fn lemma_unmatched_text_is_kept(h: Seq<char>, dims: Seq<Option<ImageDimensions>>)
    requires
        forall|i: int| 0 <= i ==> try_match_at(h, i) is None,
    ensures
        rewrite_spec(h, dims) == h,
{
    lemma_none_matches_from(h, 0);
    lemma_rewrite_identity_without_matches(h, dims);
}

proof fn lemma_none_matches_from(h: Seq<char>, i: int)
    requires
        i >= 0,
        forall|j: int| 0 <= j ==> try_match_at(h, j) is None,
    ensures
        matches_from(h, i).len() == 0,
    decreases h.len() - i + 1,
{
    if i < h.len() {
        lemma_none_matches_from(h, i + 1);
    }
}

/// A tag is matched only when it carries both attributes: a successful
/// match opens with `<img`, its `src` value is non-empty, and both the
/// `src="` and the `alt="` attribute openers occur inside the matched
/// span. A tag with `src` or `alt` missing is never matched, so its text
/// passes through the rewriter unchanged.
pub proof fn lemma_match_requires_src_and_alt(h: Seq<char>, i: int)
    requires
        try_match_at(h, i) is Some,
    ensures
        ({
            let m = try_match_at(h, i)->Some_0;
            &&& crate::text::is_match_at(h, img_open_pat(), m.start)
            &&& m.src.len() > 0
            &&& exists|q: int|
                m.start < q && q + 5 <= m.end && crate::text::is_match_at(h, src_pat(), q)
            &&& exists|a: int|
                m.start < a && a + 5 <= m.end && crate::text::is_match_at(h, alt_pat(), a)
        }),
{
    let m = try_match_at(h, i)->Some_0;
    let q = find_spec(h, src_pat(), i + 5)->Some_0;
    lemma_find_spec_characterization(h, src_pat(), i + 5);
    let f = find_char_spec(h, '"', q + 5)->Some_0;
    lemma_find_char_characterization(h, '"', q + 5);
    let a = skip_ws_spec(h, f + 1);
    crate::text::lemma_skip_ws_bounds(h, f + 1);
    let e = find_char_spec(h, '"', a + 5)->Some_0;
    lemma_find_char_characterization(h, '"', a + 5);
    let t = find_char_spec(h, '>', e + 1)->Some_0;
    lemma_find_char_characterization(h, '>', e + 1);
    assert(crate::text::is_match_at(h, src_pat(), q));
    assert(crate::text::is_match_at(h, alt_pat(), a));
    assert(m.start < q && q + 5 <= m.end);
    assert(m.start < a && a + 5 <= m.end);
}

} // verus!
