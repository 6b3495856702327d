use syosetu_dl::extract::{BlockKind, ChapterBlock, ExtractError, Piece};
use syosetu_dl::fetch::{resolve_piece, resolve_redirect, HeadOutcome};
use syosetu_dl::html::extract;
use syosetu_dl::text::trim_novel_ws;

fn render(b: &ChapterBlock) -> String {
    syosetu_dl::extract::render_block(b)
}

#[test]
fn text_children_become_trimmed_paragraphs() {
    let html = "<html><body>\
        <div class=\"p-novel__title\">My Title</div>\
        <div class=\"p-novel__text\"><p>  foo </p><p>\u{3000}bar\u{3000}</p><p>\tbaz\n</p></div>\
        </body></html>";
    let block = extract(html).unwrap();
    assert_eq!(block.title, "My Title");
    assert_eq!(block.pieces.len(), 3);
    let md = render(&block);
    assert_eq!(md, "## My Title\n\nfoo\nbar\nbaz\n\n");
}

#[test]
fn image_child_becomes_markdown_link() {
    let html = "<html><body>\
        <div class=\"p-novel__title\">T</div>\
        <div class=\"p-novel__text\"><p><img src=\"//i.example.net/path/x.jpg\" alt=\"pic\"></p></div>\
        </body></html>";
    let block = extract(html).unwrap();
    assert_eq!(block.pieces.len(), 1);
    match &block.pieces[0] {
        Piece::Image(src, alt) => {
            assert_eq!(src, "https://i.example.net/path/x.jpg");
            assert_eq!(alt, "pic");
        },
        _ => panic!("expected an image piece"),
    }
    let md = render(&block);
    assert_eq!(md, "## T\n\n![pic](https://i.example.net/path/x.jpg)\n\n");
}

#[test]
fn image_src_resolves_through_redirect() {
    let url = String::from("https://i.example.net/path/x.jpg");
    let resolved = resolve_redirect(
        url.clone(),
        HeadOutcome::Response(302, Some(String::from("https://cdn.example.net/x.jpg"))),
    );
    assert_eq!(resolved, "https://cdn.example.net/x.jpg");

    let kept = resolve_redirect(url.clone(), HeadOutcome::Response(200, None));
    assert_eq!(kept, "https://i.example.net/path/x.jpg");

    let kept = resolve_redirect(
        url.clone(),
        HeadOutcome::Response(200, Some(String::from("https://elsewhere.example.net/"))),
    );
    assert_eq!(kept, "https://i.example.net/path/x.jpg");

    let kept = resolve_redirect(url.clone(), HeadOutcome::Response(301, None));
    assert_eq!(kept, "https://i.example.net/path/x.jpg");

    let kept = resolve_redirect(url, HeadOutcome::Failed);
    assert_eq!(kept, "https://i.example.net/path/x.jpg");
}

#[test]
fn resolving_touches_only_image_pieces() {
    let image = Piece::Image(String::from("https://a/x.jpg"), String::from("pic"));
    let resolved = resolve_piece(
        image,
        HeadOutcome::Response(301, Some(String::from("https://b/x.jpg"))),
    );
    match resolved {
        Piece::Image(src, alt) => {
            assert_eq!(src, "https://b/x.jpg");
            assert_eq!(alt, "pic");
        },
        _ => panic!("expected an image piece"),
    }
    let text = Piece::Text(String::from("words"));
    let kept = resolve_piece(
        text,
        HeadOutcome::Response(301, Some(String::from("https://b/x.jpg"))),
    );
    match kept {
        Piece::Text(t) => assert_eq!(t, "words"),
        _ => panic!("expected a text piece"),
    }
}

#[test]
fn absolute_image_src_is_kept() {
    let html = "<html><body>\
        <div class=\"p-novel__title\">T</div>\
        <div class=\"p-novel__text\"><p><img src=\"http://img.example.net/y.png\"></p></div>\
        </body></html>";
    let block = extract(html).unwrap();
    match &block.pieces[0] {
        Piece::Image(src, alt) => {
            assert_eq!(src, "http://img.example.net/y.png");
            assert_eq!(alt, "");
        },
        _ => panic!("expected an image piece"),
    }
}

#[test]
fn image_without_src_leaves_blank_line() {
    let html = "<html><body>\
        <div class=\"p-novel__title\">T</div>\
        <div class=\"p-novel__text\"><p><img alt=\"pic\"></p></div>\
        </body></html>";
    let block = extract(html).unwrap();
    assert!(matches!(block.pieces[0], Piece::Blank));
    assert_eq!(render(&block), "## T\n\n\n\n");
}

#[test]
fn whitespace_only_child_leaves_blank_line() {
    let html = "<html><body>\
        <div class=\"p-novel__title\">T</div>\
        <div class=\"p-novel__text\"><p> \u{3000}\t </p></div>\
        </body></html>";
    let block = extract(html).unwrap();
    assert!(matches!(block.pieces[0], Piece::Blank));
}

#[test]
fn non_element_body_children_are_skipped() {
    let html = "<html><body>\
        <div class=\"p-novel__title\">T</div>\
        <div class=\"p-novel__text\">stray text<p>kept</p>more stray</div>\
        </body></html>";
    let block = extract(html).unwrap();
    assert_eq!(block.pieces.len(), 1);
    match &block.pieces[0] {
        Piece::Text(t) => assert_eq!(t, "kept"),
        _ => panic!("expected a text piece"),
    }
}

#[test]
fn title_text_is_kept_untrimmed() {
    let html = "<html><body>\
        <div class=\"p-novel__title\"> T </div>\
        <div class=\"p-novel__text\"><p>x</p></div>\
        </body></html>";
    let block = extract(html).unwrap();
    assert_eq!(block.title, " T ");
    assert_eq!(render(&block), "##  T \n\nx\n\n");
}

#[test]
fn empty_body_still_separates_chapters() {
    let html = "<html><body>\
        <div class=\"p-novel__title\">T</div>\
        <div class=\"p-novel__text\"></div>\
        </body></html>";
    let block = extract(html).unwrap();
    assert_eq!(block.pieces.len(), 0);
    assert_eq!(render(&block), "## T\n\n\n");
}

#[test]
fn missing_body_block_is_fatal() {
    let html = "<html><body><div class=\"p-novel__title\">T</div></body></html>";
    let r = extract(html);
    assert!(matches!(r, Err(ExtractError::MissingBlock(BlockKind::Body))));
}

#[test]
fn missing_title_block_is_fatal() {
    let html = "<html><body><div class=\"p-novel__text\"><p>x</p></div></body></html>";
    let r = extract(html);
    assert!(matches!(r, Err(ExtractError::MissingBlock(BlockKind::Title))));
}

#[test]
fn extraction_is_repeatable() {
    let html = "<html><body>\
        <div class=\"p-novel__title\">Chapter One</div>\
        <div class=\"p-novel__text\"><p> first </p><p><img src=\"/a/b.jpg\" alt=\"z\"></p><p></p></div>\
        </body></html>";
    let first = render(&extract(html).unwrap());
    let second = render(&extract(html).unwrap());
    assert_eq!(first, second);
    assert_eq!(first, "## Chapter One\n\nfirst\n![z](https://a/b.jpg)\n\n\n");
}

#[test]
fn trim_strips_the_whitespace_set() {
    assert_eq!(trim_novel_ws(" \t\n\u{3000}abc\u{3000}\n\t "), "abc");
    assert_eq!(trim_novel_ws("a b"), "a b");
    assert_eq!(trim_novel_ws(""), "");
    assert_eq!(trim_novel_ws(" \u{3000} "), "");
    let once = trim_novel_ws("  x  ");
    let twice = trim_novel_ws(&once);
    assert_eq!(once, twice);
}

#[test]
fn normalize_src_prefixes_and_strips_slashes() {
    assert_eq!(syosetu_dl::extract::normalize_src("//host/x.jpg"), "https://host/x.jpg");
    assert_eq!(syosetu_dl::extract::normalize_src("/x.jpg"), "https://x.jpg");
    assert_eq!(syosetu_dl::extract::normalize_src("https://host/x.jpg"), "https://host/x.jpg");
    assert_eq!(syosetu_dl::extract::normalize_src("http://host/x.jpg"), "http://host/x.jpg");
}
