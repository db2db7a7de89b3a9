//! Image references: classification into remote and local, remapping of
//! local paths into the output tree, and pixel-dimension discovery from
//! encoded image bytes.

use vstd::prelude::*;
use crate::text::{chars_of, string_of};

verus! {

/// Pixel dimensions of an image; both extents are positive.
#[derive(Clone, Copy, Debug, PartialEq, Eq, Structural)]
pub struct ImageDimensions {
    pub width: u32,
    pub height: u32,
}

/// A reference is remote when its source starts with `http` (which covers
/// both the `http` and the `https` scheme).
pub open spec fn is_remote_spec(src: Seq<char>) -> bool {
    src.len() >= 4 && src.subrange(0, 4) == seq!['h', 't', 't', 'p']
}

/// Classifies an image source as remote or local.
pub fn is_remote(src: &str) -> (r: bool)
    ensures
        r == is_remote_spec(src@),
{
    let chars = chars_of(src);
    if chars.len() < 4 {
        return false;
    }
    let r = chars[0] == 'h' && chars[1] == 't' && chars[2] == 't' && chars[3] == 'p';
    proof {
        if r {
            assert(src@.subrange(0, 4) =~= seq!['h', 't', 't', 'p']);
        } else {
            assert(src@.subrange(0, 4) != seq!['h', 't', 't', 'p']);
        }
    }
    r
}

/// `src` with every leading `../` marker removed.
pub open spec fn strip_parent_markers(src: Seq<char>) -> Seq<char>
    decreases src.len()
{
    if src.len() >= 3 && src.subrange(0, 3) == seq!['.', '.', '/'] {
        strip_parent_markers(src.subrange(3, src.len() as int))
    } else {
        src
    }
}

/// The path under which a local image reference is looked up: leading
/// parent markers are dropped and the remainder is joined to the output
/// root directory (an absolute remainder stands on its own).
pub open spec fn local_path_spec(src: Seq<char>) -> Seq<char> {
    let c = strip_parent_markers(src);
    if c.len() > 0 && c[0] == '/' {
        c
    } else {
        "docs/"@ + c
    }
}

/// Remaps a local image reference into the output tree.
pub fn local_image_path(src: &str) -> (r: String)
    ensures
        r@ == local_path_spec(src@),
{
    let chars = chars_of(src);
    let n = chars.len();
    let mut i: usize = 0;
    proof {
        assert(src@.subrange(0, n as int) =~= src@);
    }
    while n - i >= 3 && chars[i] == '.' && chars[i + 1] == '.' && chars[i + 2] == '/'
        invariant
            chars@ == src@,
            n == chars@.len(),
            i <= n,
            strip_parent_markers(src@) == strip_parent_markers(
                src@.subrange(i as int, n as int),
            ),
        decreases n - i,
    {
        proof {
            let cur = src@.subrange(i as int, n as int);
            assert(cur.subrange(0, 3) =~= seq!['.', '.', '/']);
            assert(cur.subrange(3, cur.len() as int) =~= src@.subrange(i + 3, n as int));
        }
        i = i + 3;
    }
    proof {
        let cur = src@.subrange(i as int, n as int);
        if cur.len() >= 3 {
            assert(cur.subrange(0, 3) != seq!['.', '.', '/']) by {
                if cur.subrange(0, 3) == seq!['.', '.', '/'] {
                    assert(cur[0] == '.' && cur[1] == '.' && cur[2] == '/');
                    assert(chars@[i as int] == '.' && chars@[i + 1] == '.' && chars@[i + 2]
                        == '/');
                }
            }
        }
        assert(strip_parent_markers(src@) == cur);
    }
    let mut out: Vec<char>;
    if i < n && chars[i] == '/' {
        out = Vec::new();
    } else {
        out = chars_of("docs/");
    }
    let mut rest = crate::text::sub_chars(&chars, i, n);
    out.append(&mut rest);
    proof {
        assert(out@ =~= local_path_spec(src@));
    }
    string_of(&out)
}

/// The pixel dimensions encoded in `bytes`, or nothing when they do not
/// decode as an image.
pub uninterp spec fn image_dims_of(bytes: Seq<u8>) -> Option<(u32, u32)>;

/// Relies on `image::load_from_memory` and `GenericImageView::dimensions`:
/// the decoded width and height are a function of the bytes alone.
#[verifier::external_body]
fn decode_dims(bytes: &Vec<u8>) -> (r: Option<(u32, u32)>)
    ensures
        r == image_dims_of(bytes@),
{
    match image::load_from_memory(bytes.as_slice()) {
        Ok(img) => Some(image::GenericImageView::dimensions(&img)),
        Err(_) => None,
    }
}

/// Dimensions usable for layout: both extents must be positive.
pub open spec fn checked_dims_spec(wh: Option<(u32, u32)>) -> Option<ImageDimensions> {
    match wh {
        Some(p) => if p.0 > 0 && p.1 > 0 {
            Some(ImageDimensions { width: p.0, height: p.1 })
        } else {
            None
        },
        None => None,
    }
}

/// Wraps a reported width and height, rejecting degenerate extents.
pub fn checked_dimensions(width: u32, height: u32) -> (r: Option<ImageDimensions>)
    ensures
        r == checked_dims_spec(Some((width, height))),
{
    if width > 0 && height > 0 {
        Some(ImageDimensions { width, height })
    } else {
        None
    }
}

/// Decodes the pixel dimensions of an in-memory image, rejecting
/// degenerate extents.
pub fn dimensions_from_bytes(bytes: &Vec<u8>) -> (r: Option<ImageDimensions>)
    ensures
        r == checked_dims_spec(image_dims_of(bytes@)),
{
    match decode_dims(bytes) {
        Some(wh) => checked_dimensions(wh.0, wh.1),
        None => None,
    }
}

} // verus!
