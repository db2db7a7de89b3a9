//! Destination naming for posts: the title is slugified and embedded in a
//! fixed output path template.

use vstd::prelude::*;
use crate::text::{chars_of, string_of};

verus! {

/// The slug of `s`: a lowercase, hyphen-separated ASCII derivation of it.
pub uninterp spec fn slug_of(s: Seq<char>) -> Seq<char>;

/// Relies on `slug::slugify`: the slug (characters drawn from `a`-`z`,
/// `0`-`9` and `-`, never starting or ending with `-`) is a function of the
/// input characters alone.
#[verifier::external_body]
fn slugify(title: &str) -> (r: String)
    ensures
        r@ == slug_of(title@),
{
    slug::slugify(title)
}

/// The output file name of a post titled `title`: its slug under the fixed
/// posts path.
pub open spec fn destination_spec(title: Seq<char>) -> Seq<char> {
    "docs/posts/"@ + slug_of(title) + ".html"@
}

/// Destination file name for a post: the slugified title embedded in the
/// posts path template.
pub fn destination_file_name(title: &str) -> (r: String)
    ensures
        r@ == destination_spec(title@),
{
    let mut v = chars_of("docs/posts/");
    let slug = slugify(title);
    let mut sv = chars_of(slug.as_str());
    v.append(&mut sv);
    let mut ev = chars_of(".html");
    v.append(&mut ev);
    proof {
        assert(v@ =~= destination_spec(title@));
    }
    string_of(&v)
}

} // verus!
