//! End-to-end and component tests for the document conversion library.

use mdsite::assemble::{finish_page, finish_post, prepare_page, prepare_post};
use mdsite::front_matter::{extract, ConvertError};
use mdsite::images::{checked_dimensions, dimensions_from_bytes, is_remote, local_image_path,
    ImageDimensions};
use mdsite::metadata::{parse_page_front_matter, parse_post_front_matter};
use mdsite::naming::destination_file_name;
use mdsite::reading::{reading_time, word_count};
use mdsite::render::render;
use mdsite::rewrite::{apply_image_rewrites, find_image_tags};

#[test]
fn full_post_scenario() {
    let doc = "---\ntitle: \"T\"\ndate: \"2025-01-01\"\nauthor: \"A\"\n---\n\nHello **world**";
    let draft = prepare_post(doc).unwrap();
    assert_eq!(draft.html.trim_end(), "<p>Hello <strong>world</strong></p>");
    assert_eq!(draft.reading_time, 1);
    assert_eq!(draft.file_name, "docs/posts/t.html");
    assert_eq!(draft.front_matter.title, "T");
    assert_eq!(draft.front_matter.date, "2025-01-01");
    assert_eq!(draft.front_matter.author, "A");
    assert!(draft.front_matter.description.is_none());
    assert!(draft.front_matter.category.is_none());
    assert!(draft.images.is_empty());
    let post = finish_post(draft, &Vec::new());
    assert_eq!(post.content.trim_end(), "<p>Hello <strong>world</strong></p>");
    assert_eq!(post.reading_time, 1);
    assert_eq!(post.file_name, "docs/posts/t.html");
}

#[test]
fn full_page_scenario() {
    let doc = "---\ntitle: \"About Me\"\nauthor: \"John Doe\"\n---\n\n# About\n\nplain text";
    let draft = prepare_page(doc).unwrap();
    assert_eq!(draft.front_matter.title, "About Me");
    assert_eq!(draft.front_matter.author, "John Doe");
    let page = finish_page(draft, &Vec::new());
    assert!(page.content.contains("<h1>About</h1>"));
    assert!(page.content.contains("plain text"));
}

#[test]
fn extract_recovers_body_exactly() {
    let doc = "---\ntitle: \"T\"\n---\n\n  body with  spacing \n";
    let (meta, body) = extract(doc).unwrap();
    assert_eq!(meta, "title: \"T\"");
    assert_eq!(body, "\n  body with  spacing \n");
}

#[test]
fn missing_opening_delimiter_is_reported() {
    let doc = "title: \"T\"\nbody";
    assert!(matches!(extract(doc), Err(ConvertError::MissingOpeningDelimiter)));
    assert!(matches!(prepare_post(doc), Err(ConvertError::MissingOpeningDelimiter)));
}

#[test]
fn missing_closing_delimiter_is_reported() {
    let doc = "---\ntitle: \"T\"\ndate: \"2025-01-01\"\nauthor: \"A\"\n";
    assert!(matches!(extract(doc), Err(ConvertError::MissingClosingDelimiter)));
    assert!(matches!(prepare_post(doc), Err(ConvertError::MissingClosingDelimiter)));
}

#[test]
fn missing_required_field_is_invalid_metadata() {
    let block = "title: \"T\"\ndate: \"2025-01-01\"";
    let e = parse_post_front_matter(block).unwrap_err();
    match e {
        ConvertError::InvalidMetadata { field, .. } => assert_eq!(field, "author"),
        _ => panic!("expected InvalidMetadata"),
    }
}

#[test]
fn empty_title_is_invalid_metadata() {
    let block = "title: \"\"\ndate: \"2025-01-01\"\nauthor: \"A\"";
    let e = parse_post_front_matter(block).unwrap_err();
    match e {
        ConvertError::InvalidMetadata { field, reason } => {
            assert_eq!(field, "title");
            assert_eq!(reason, "must not be empty");
        },
        _ => panic!("expected InvalidMetadata"),
    }
}

#[test]
fn non_string_field_is_invalid_metadata() {
    let block = "title: [1, 2]\ndate: \"2025-01-01\"\nauthor: \"A\"";
    let e = parse_post_front_matter(block).unwrap_err();
    match e {
        ConvertError::InvalidMetadata { field, .. } => assert_eq!(field, "title"),
        _ => panic!("expected InvalidMetadata"),
    }
}

#[test]
fn unparseable_yaml_is_invalid_metadata() {
    let block = ": : :";
    assert!(matches!(
        parse_post_front_matter(block),
        Err(ConvertError::InvalidMetadata { .. })
    ));
}

#[test]
fn unknown_fields_are_ignored() {
    let block = "title: \"T\"\ndate: \"d\"\nauthor: \"A\"\nextra: 7\nmore: [x]";
    let m = parse_post_front_matter(block).unwrap();
    assert_eq!(m.title, "T");
    assert_eq!(m.date, "d");
    assert_eq!(m.author, "A");
}

#[test]
fn optional_fields_are_kept() {
    let block = "title: \"T\"\nauthor: \"A\"\ndescription: \"about\"";
    let m = parse_page_front_matter(block).unwrap();
    assert_eq!(m.description.as_deref(), Some("about"));
}

#[test]
fn reading_time_floors_and_rounds_up() {
    assert_eq!(reading_time(0), 1);
    assert_eq!(reading_time(1), 1);
    assert_eq!(reading_time(200), 1);
    assert_eq!(reading_time(201), 2);
    assert_eq!(reading_time(400), 2);
    assert_eq!(reading_time(401), 3);
}

#[test]
fn word_count_splits_on_whitespace_runs() {
    assert_eq!(word_count(""), 0);
    assert_eq!(word_count("   \n\t "), 0);
    assert_eq!(word_count("one"), 1);
    assert_eq!(word_count("a  b\nc\t d"), 4);
    let two_hundred = vec!["word"; 200].join(" ");
    assert_eq!(word_count(&two_hundred), 200);
    assert_eq!(reading_time(word_count(&two_hundred)), 1);
    let two_o_one = vec!["word"; 201].join(" ");
    assert_eq!(reading_time(word_count(&two_o_one)), 2);
}

#[test]
fn slugified_destination_name() {
    assert_eq!(destination_file_name("My First Post!"), "docs/posts/my-first-post.html");
    assert_eq!(destination_file_name("T"), "docs/posts/t.html");
}

#[test]
fn code_blocks_are_marked_for_line_numbering() {
    let body = "```rust\nlet x = 1;\n```\n";
    let html = render(body);
    assert!(html.contains("<pre class=\"line-numbers\"><code class=\"language-rust\">"));
    assert!(!html.contains("<pre><code class=\"language-"));
}

#[test]
fn rewrite_without_image_tags_is_identity() {
    let html = "<p>no images here, just <em>text</em> and a <a href=\"x\">link</a></p>";
    let tags = find_image_tags(html);
    assert!(tags.is_empty());
    let out = apply_image_rewrites(html, &tags, &Vec::new());
    assert_eq!(out, html);
}

#[test]
fn image_tag_without_alt_is_left_alone() {
    let html = "<p><img src=\"x.png\"></p>";
    let tags = find_image_tags(html);
    assert!(tags.is_empty());
    assert_eq!(apply_image_rewrites(html, &tags, &Vec::new()), html);
}

#[test]
fn image_tag_without_src_is_left_alone() {
    let html = "<p><img alt=\"y\"></p>";
    let tags = find_image_tags(html);
    assert!(tags.is_empty());
    assert_eq!(apply_image_rewrites(html, &tags, &Vec::new()), html);
}

#[test]
fn matched_tag_attributes_are_extracted() {
    let html = "a<img src=\"pic.png\" alt=\"a pic\" width=\"3\"/>b";
    let tags = find_image_tags(html);
    assert_eq!(tags.len(), 1);
    assert_eq!(tags[0].src, "pic.png");
    assert_eq!(tags[0].alt, "a pic");
    assert_eq!(&html[tags[0].start..tags[0].end], "<img src=\"pic.png\" alt=\"a pic\" width=\"3\"/>");
}

#[test]
fn resolved_image_gets_wrapper_markup() {
    let html = "<img src=\"a.png\" alt=\"pic\">";
    let tags = find_image_tags(html);
    assert_eq!(tags.len(), 1);
    let dims = vec![Some(ImageDimensions { width: 4, height: 3 })];
    let out = apply_image_rewrites(html, &tags, &dims);
    assert_eq!(
        out,
        "<div class='shimmer aspect-ratio' style='--aspect-ratio:4 / 3'><img src=\"a.png\" alt=\"pic\"/></div>"
    );
}

#[test]
fn unresolvable_image_is_omitted_and_surroundings_kept() {
    let html = "<p>before</p><img src=\"../img/missing.png\" alt=\"m\"><p>after</p>";
    let tags = find_image_tags(html);
    assert_eq!(tags.len(), 1);
    assert!(!is_remote(&tags[0].src));
    let path = local_image_path(&tags[0].src);
    assert_eq!(path, "docs/img/missing.png");
    let dims = match image::ImageReader::open(&path) {
        Ok(r) => match r.into_dimensions() {
            Ok((w, h)) => checked_dimensions(w, h),
            Err(_) => None,
        },
        Err(_) => None,
    };
    assert!(dims.is_none());
    let out = apply_image_rewrites(html, &tags, &vec![dims]);
    assert_eq!(out, "<p>before</p><p>after</p>");
}

#[test]
fn two_images_rewritten_in_order() {
    let html = "x<img src=\"a\" alt=\"1\">y<img src=\"b\" alt=\"2\">z";
    let tags = find_image_tags(html);
    assert_eq!(tags.len(), 2);
    let dims = vec![Some(ImageDimensions { width: 1, height: 2 }), None];
    let out = apply_image_rewrites(html, &tags, &dims);
    assert_eq!(
        out,
        "x<div class='shimmer aspect-ratio' style='--aspect-ratio:1 / 2'><img src=\"a\" alt=\"1\"/></div>yz"
    );
}

#[test]
fn remote_classification_by_scheme_prefix() {
    assert!(is_remote("http://example.org/a.png"));
    assert!(is_remote("https://example.org/a.png"));
    assert!(!is_remote("images/a.png"));
    assert!(!is_remote("../images/a.png"));
}

#[test]
fn local_paths_are_remapped_into_the_output_tree() {
    assert_eq!(local_image_path("../images/a.png"), "docs/images/a.png");
    assert_eq!(local_image_path("../../images/a.png"), "docs/images/a.png");
    assert_eq!(local_image_path("images/a.png"), "docs/images/a.png");
    assert_eq!(local_image_path("/abs/a.png"), "/abs/a.png");
}

#[test]
fn decoded_dimensions_come_from_the_bytes() {
    let img = image::RgbImage::new(5, 7);
    let mut bytes: Vec<u8> = Vec::new();
    let mut cursor = std::io::Cursor::new(&mut bytes);
    image::DynamicImage::ImageRgb8(img)
        .write_to(&mut cursor, image::ImageFormat::Png)
        .unwrap();
    assert_eq!(
        dimensions_from_bytes(&bytes),
        Some(ImageDimensions { width: 5, height: 7 })
    );
}

#[test]
fn undecodable_bytes_give_no_dimensions() {
    let garbage: Vec<u8> = b"this is not an image".to_vec();
    assert_eq!(dimensions_from_bytes(&garbage), None);
}

#[test]
fn degenerate_dimensions_are_rejected() {
    assert_eq!(checked_dimensions(0, 5), None);
    assert_eq!(checked_dimensions(5, 0), None);
    assert_eq!(
        checked_dimensions(2, 3),
        Some(ImageDimensions { width: 2, height: 3 })
    );
}

#[test]
fn remote_fetch_failure_is_omitted_like_a_missing_file() {
    let html = "<p>keep</p><img src=\"http://127.0.0.1:9/none.png\" alt=\"r\">";
    let tags = find_image_tags(html);
    assert_eq!(tags.len(), 1);
    assert!(is_remote(&tags[0].src));
    let client = reqwest::blocking::Client::builder()
        .user_agent("Mozilla/5.0 (X11; Linux x86_64)")
        .timeout(std::time::Duration::from_millis(300))
        .build()
        .unwrap();
    let dims = match client.get(tags[0].src.as_str()).send() {
        Ok(resp) if resp.status().is_success() => match resp.bytes() {
            Ok(b) => dimensions_from_bytes(&b.to_vec()),
            Err(_) => None,
        },
        _ => None,
    };
    assert!(dims.is_none());
    let out = apply_image_rewrites(html, &tags, &vec![dims]);
    assert_eq!(out, "<p>keep</p>");
}

#[test]
fn post_with_image_is_rewritten_end_to_end() {
    let doc = "---\ntitle: \"Pics\"\ndate: \"2025-01-01\"\nauthor: \"A\"\n---\n\n![alt text](../images/a.png)\n";
    let draft = prepare_post(doc).unwrap();
    assert_eq!(draft.images.len(), 1);
    assert_eq!(draft.images[0].src, "../images/a.png");
    assert_eq!(draft.images[0].alt, "alt text");
    let dims = vec![Some(ImageDimensions { width: 16, height: 9 })];
    let post = finish_post(draft, &dims);
    assert!(post.content.contains("--aspect-ratio:16 / 9"));
    assert!(post.content.contains("<img src=\"../images/a.png\" alt=\"alt text\"/>"));
}
