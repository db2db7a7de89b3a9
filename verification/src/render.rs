//! The renderer adapter: delegates Markdown rendering to an outside
//! renderer with every extension enabled, then marks every fenced code
//! block for line numbering by a literal, order-preserving substring
//! replacement.

use vstd::prelude::*;
use crate::text::{find_spec, find, chars_of, sub_chars, string_of, lemma_find_spec_characterization};

verus! {

/// The HTML that the outside renderer produces for `body`.
pub uninterp spec fn rendered_html_of(body: Seq<char>) -> Seq<char>;

/// Relies on `pulldown_cmark::Parser::new_ext` and
/// `pulldown_cmark::html::push_html`, with `Options::all()` (tables,
/// footnotes, strikethrough, task lists, smart punctuation and the other
/// extensions all enabled): the rendered HTML is a function of the body
/// text alone.
#[verifier::external_body]
fn render_markdown(body: &str) -> (r: String)
    ensures
        r@ == rendered_html_of(body@),
{
    let mut out = String::new();
    let parser = pulldown_cmark::Parser::new_ext(body, pulldown_cmark::Options::all());
    pulldown_cmark::html::push_html(&mut out, parser);
    out
}

/// `h` with every occurrence of `from` replaced by `to`, scanning left to
/// right and never rescanning replaced text.
pub open spec fn replace_all_spec(h: Seq<char>, from: Seq<char>, to: Seq<char>) -> Seq<char>
    decreases h.len() when from.len() > 0
{
    match find_spec(h, from, 0) {
        None => h,
        Some(i) => if 0 <= i && i + from.len() <= h.len() {
            h.subrange(0, i) + to + replace_all_spec(
                h.subrange(i + from.len() as int, h.len() as int),
                from,
                to,
            )
        } else {
            h
        },
    }
}

/// Replaces every occurrence of `from` in `h` by `to`.
pub fn replace_all(h: &Vec<char>, from: &Vec<char>, to: &Vec<char>) -> (r: Vec<char>)
    requires
        from@.len() > 0,
    ensures
        r@ == replace_all_spec(h@, from@, to@),
{
    let mut out: Vec<char> = Vec::new();
    let mut cur: Vec<char> = sub_chars(h, 0, h.len());
    proof {
        assert(h@.subrange(0, h@.len() as int) =~= h@);
    }
    loop
        invariant
            from@.len() > 0,
            replace_all_spec(h@, from@, to@) == out@ + replace_all_spec(cur@, from@, to@),
        decreases cur@.len(),
    {
        match find(&cur, from, 0) {
            None => {
                let mut tail = cur;
                out.append(&mut tail);
                proof {
                    assert(out@ =~= replace_all_spec(h@, from@, to@));
                }
                return out;
            },
            Some(i) => {
                proof {
                    lemma_find_spec_characterization(cur@, from@, 0);
                }
                let mut head = sub_chars(&cur, 0, i);
                out.append(&mut head);
                let mut mid = sub_chars(to, 0, to.len());
                proof {
                    assert(to@.subrange(0, to@.len() as int) =~= to@);
                }
                out.append(&mut mid);
                let cn = cur.len();
                let next = sub_chars(&cur, i + from.len(), cn);
                proof {
                    assert(replace_all_spec(h@, from@, to@) == out@ + replace_all_spec(
                        next@,
                        from@,
                        to@,
                    ));
                }
                cur = next;
            },
        }
    }
}

/// The opening markup that the renderer emits for a fenced code block.
pub open spec fn code_block_pat() -> Seq<char> {
    "<pre><code class=\"language-"@
}

/// The same opening markup with the line-numbering presentation class.
pub open spec fn code_block_sub() -> Seq<char> {
    "<pre class=\"line-numbers\"><code class=\"language-"@
}

/// The rendered HTML of `body`, with every fenced code block marked for
/// line numbering.
pub open spec fn render_spec(body: Seq<char>) -> Seq<char> {
    replace_all_spec(rendered_html_of(body), code_block_pat(), code_block_sub())
}

/// Renders a Markdown body to HTML and marks fenced code blocks for line
/// numbering.
pub fn render(body: &str) -> (r: String)
    ensures
        r@ == render_spec(body@),
{
    let html = render_markdown(body);
    let h = chars_of(html.as_str());
    let from = chars_of("<pre><code class=\"language-");
    let to = chars_of("<pre class=\"line-numbers\"><code class=\"language-");
    proof {
        reveal_strlit("<pre><code class=\"language-");
    }
    let out = replace_all(&h, &from, &to);
    string_of(&out)
}

} // verus!
