//! Trusted doorway to kuchiki, and the scan that reads one chapter page
//! into the library's own [`ChapterDoc`] shape. The parsed DOM is opaque
//! here: each wrapper performs one step of reading it, the walk over the
//! body's children is verified code, and everything downstream works on
//! plain values.

use vstd::prelude::*;
use kuchiki::traits::TendrilSink;
use crate::extract::BlockKind;
use crate::extract::ChapterBlock;
use crate::extract::ChapterDoc;
use crate::extract::ChildNode;
use crate::extract::ExtractError;
use crate::extract::ImgRef;
use crate::extract::Piece;
use crate::extract::normalize_src_spec;
use crate::extract::plan_block;
use crate::extract::starts_with;
use crate::extract::strip_slashes;
use crate::text::trim_ws;

verus! {

#[verifier::external_type_specification]
#[verifier::external_body]
pub struct ExNodeRef(kuchiki::NodeRef);

/// The text content of the first title-selector match in `html` as kuchiki
/// parses it, or nothing when the selector matches nothing. A function of
/// the markup alone.
pub uninterp spec fn title_text_of(html: Seq<char>) -> Option<String>;

/// Whether the body selector matches anything in `html` as kuchiki parses
/// it. A function of the markup alone.
pub uninterp spec fn body_block_found(html: Seq<char>) -> bool;

/// Relies on kuchiki::parse_html (html5ever underneath; malformed markup
/// yields a tree rather than an error) and NodeRef::select_first and
/// text_contents: the text of the first title-block match in `html`.
#[verifier::external_body]
fn title_text_from(html: &str) -> (r: Option<String>)
    ensures
        r == title_text_of(html@),
{
    match kuchiki::parse_html().one(html).select_first(".p-novel__title") {
        Ok(element) => Some(element.as_node().text_contents()),
        Err(()) => None,
    }
}

/// Relies on kuchiki::parse_html and NodeRef::select_first: the first
/// body-block match in `html`, present exactly when the selector matches.
#[verifier::external_body]
fn body_node_from(html: &str) -> (r: Option<kuchiki::NodeRef>)
    ensures
        r is Some <==> body_block_found(html@),
{
    match kuchiki::parse_html().one(html).select_first(".p-novel__text") {
        Ok(element) => Some(element.as_node().clone()),
        Err(()) => None,
    }
}

/// Relies on kuchiki::NodeRef::select_first: the first element in tree
/// order among `node` and its descendants that matches the CSS selector,
/// or nothing when the selector matches nothing.
#[verifier::external_body]
fn select_first_node(node: &kuchiki::NodeRef, selector: &str) -> (r: Option<kuchiki::NodeRef>) {
    match node.select_first(selector) {
        Ok(element) => Some(element.as_node().clone()),
        Err(()) => None,
    }
}

/// Relies on kuchiki::NodeRef::children: the direct children of `node`, in
/// document order.
#[verifier::external_body]
fn child_nodes(node: &kuchiki::NodeRef) -> (r: Vec<kuchiki::NodeRef>) {
    node.children().collect()
}

/// Relies on kuchiki::Node::as_element: whether `node` is an element node.
#[verifier::external_body]
fn is_element_node(node: &kuchiki::NodeRef) -> (r: bool) {
    node.as_element().is_some()
}

/// Relies on kuchiki::NodeRef::text_contents: the concatenation of the
/// text of all descendant text nodes, with no markup.
#[verifier::external_body]
fn node_text(node: &kuchiki::NodeRef) -> (r: String) {
    node.text_contents()
}

/// Relies on kuchiki::Attributes::get, reached through Node::as_element:
/// the value of the attribute `name` when `node` is an element carrying
/// it.
#[verifier::external_body]
fn node_attribute(node: &kuchiki::NodeRef, name: &str) -> (r: Option<String>) {
    match node.as_element() {
        Some(element) => match element.attributes.borrow().get(name) {
            Some(value) => Some(value.to_owned()),
            None => None,
        },
        None => None,
    }
}

/// The fixed structural selector that locates one block of a chapter page.
pub fn block_selector(kind: BlockKind) -> (r: &'static str)
    ensures
        kind == BlockKind::Title ==> r@ == ".p-novel__title"@,
        kind == BlockKind::Body ==> r@ == ".p-novel__text"@,
{
    match kind {
        BlockKind::Title => ".p-novel__title",
        BlockKind::Body => ".p-novel__text",
    }
}

/// The report shown when a structural block is missing.
pub fn extract_error_message(e: &ExtractError) -> (r: String)
    ensures
        e == ExtractError::MissingBlock(BlockKind::Title) ==> r@ == "Unable to find "@
            + ".p-novel__title"@ + " block"@,
        e == ExtractError::MissingBlock(BlockKind::Body) ==> r@ == "Unable to find "@
            + ".p-novel__text"@ + " block"@,
{
    let kind = match e {
        ExtractError::MissingBlock(kind) => kind,
    };
    let mut out = String::from_str("Unable to find ");
    out.append(block_selector(*kind));
    out.append(" block");
    proof {
        assert(out@ =~= "Unable to find "@ + ".p-novel__title"@ + " block"@ || out@
            =~= "Unable to find "@ + ".p-novel__text"@ + " block"@);
    }
    out
}

/// Reads one chapter page into the library's shape: the text of the title
/// block, and one [`ChildNode`] per direct element child of the body
/// block, each with its text and its first descendant `img`. A side is
/// `None` exactly when its selector matched nothing; non-element children
/// are skipped.
pub fn scan_document(html: &str) -> (doc: ChapterDoc)
    ensures
        doc.title == title_text_of(html@),
        doc.body is Some <==> body_block_found(html@),
{
    let title = title_text_from(html);
    let body = match body_node_from(html) {
        Some(node) => {
            let kids = child_nodes(&node);
            let mut children: Vec<ChildNode> = Vec::new();
            let mut i: usize = 0;
            while i < kids.len()
                decreases kids.len() - i,
            {
                let kid = &kids[i];
                if is_element_node(kid) {
                    let text = node_text(kid);
                    let img = match select_first_node(kid, "img") {
                        Some(image) => Some(
                            ImgRef {
                                src: node_attribute(&image, "src"),
                                alt: node_attribute(&image, "alt"),
                            },
                        ),
                        None => None,
                    };
                    children.push(ChildNode { text, img });
                }
                i = i + 1;
            }
            Some(children)
        },
        None => None,
    };
    ChapterDoc { title, body }
}

/// Every absolute image URL begins with `http`: either the source already
/// did, or the `https://` prefix was put there.
pub proof fn lemma_normalized_src_absolute(s: Seq<char>)
    ensures
        starts_with(normalize_src_spec(s), "http"@),
{
    reveal_strlit("http");
    reveal_strlit("https://");
    if !starts_with(s, "http"@) {
        let r = "https://"@ + strip_slashes(s);
        assert(r.subrange(0, 4) =~= "http"@);
    }
}

/// What holds of every planned piece, whatever page was scanned: a
/// paragraph is its own trim and non-empty, and an image URL is absolute.
pub open spec fn piece_wf(p: Piece) -> bool {
    match p {
        Piece::Text(t) => t@ == trim_ws(t@) && t@.len() > 0,
        Piece::Image(src, _alt) => starts_with(src@, "http"@),
        Piece::Blank => true,
    }
}

/// Scans one chapter page and plans its Markdown block. Succeeds exactly
/// when both structural blocks are in the markup, with the title block's
/// text as the heading; fails with the missing block's name otherwise, and
/// then commits no output. A planned block carries only well-formed
/// pieces.
pub fn extract(html: &str) -> (r: Result<ChapterBlock, ExtractError>)
    ensures
        r is Ok <==> title_text_of(html@) is Some && body_block_found(html@),
        r == Result::<ChapterBlock, ExtractError>::Err(
            ExtractError::MissingBlock(BlockKind::Title),
        ) <==> title_text_of(html@) is None,
        r == Result::<ChapterBlock, ExtractError>::Err(
            ExtractError::MissingBlock(BlockKind::Body),
        ) <==> (title_text_of(html@) is Some && !body_block_found(html@)),
        r matches Ok(b) ==> b.title@ == title_text_of(html@).unwrap()@,
        r matches Ok(b) ==> forall|i: int|
            0 <= i < b.pieces@.len() ==> piece_wf(#[trigger] b.pieces@[i]),
{
    let doc = scan_document(html);
    let planned = plan_block(&doc);
    proof {
        if planned is Ok {
            let b = planned.unwrap();
            let children = doc.body.unwrap()@;
            assert forall|i: int| 0 <= i < b.pieces@.len() implies piece_wf(
                #[trigger] b.pieces@[i],
            ) by {
                let p = b.pieces@[i];
                let c = children[i];
                assert(crate::extract::piece_matches_child(p, c));
                if trim_ws(c.text@).len() > 0 {
                    crate::extract::lemma_trim_idempotent(c.text@);
                } else {
                    match c.img {
                        Some(img) => match img.src {
                            Some(src) => {
                                lemma_normalized_src_absolute(src@);
                            },
                            None => {},
                        },
                        None => {},
                    }
                }
            }
        }
    }
    planned
}

} // verus!
