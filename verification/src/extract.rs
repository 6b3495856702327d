//! The chapter extractor: turns the scanned shape of one chapter page into a
//! Markdown block. A chapter is a title line followed by one
//! blank-line-separated paragraph per direct child of the body node; a child
//! whose text is empty after trimming may instead contribute an image link.

use vstd::prelude::*;
use crate::text::is_novel_ws;
use crate::text::trim_back;
use crate::text::trim_front;
use crate::text::trim_ws;
use crate::text::trim_novel_ws;

verus! {

/// The two structural blocks that a chapter page must contain.
#[derive(Debug, PartialEq, Eq, Structural, Clone, Copy)]
pub enum BlockKind {
    Title,
    Body,
}

/// Extraction fails only when a structural block is missing: the page layout
/// no longer matches expectations, which is fatal for the whole run.
#[derive(Debug, PartialEq, Eq, Structural, Clone, Copy)]
pub enum ExtractError {
    MissingBlock(BlockKind),
}

/// An `img` element found under a body child: its `src` and `alt`
/// attributes, either of which may be absent.
pub struct ImgRef {
    pub src: Option<String>,
    pub alt: Option<String>,
}

/// One direct element child of the body node: its full text content and the
/// first `img` element among its descendants, if any.
pub struct ChildNode {
    pub text: String,
    pub img: Option<ImgRef>,
}

/// The shape of one chapter page, read off the parsed HTML: the text of the
/// title node and the direct element children of the body node. A side is
/// `None` when its structural selector matched nothing.
pub struct ChapterDoc {
    pub title: Option<String>,
    pub body: Option<Vec<ChildNode>>,
}

/// One segment of the rendered chapter: a trimmed paragraph, an image link,
/// or a blank line.
pub enum Piece {
    Text(String),
    Image(String, String),
    Blank,
}

/// A planned chapter block: the title line's text and one piece per body
/// child, in document order.
pub struct ChapterBlock {
    pub title: String,
    pub pieces: Vec<Piece>,
}

/// Whether `s` begins with the prefix `p`.
pub open spec fn starts_with(s: Seq<char>, p: Seq<char>) -> bool {
    p.len() <= s.len() && s.subrange(0, p.len() as int) == p
}

/// `s` with every leading `/` removed.
pub open spec fn strip_slashes(s: Seq<char>) -> Seq<char>
    decreases s.len(),
{
    if s.len() > 0 && s[0] == '/' {
        strip_slashes(s.drop_first())
    } else {
        s
    }
}

/// An image `src` made absolute: left alone when it already names a scheme,
/// otherwise prefixed with `https://` after the leading slashes go.
pub open spec fn normalize_src_spec(s: Seq<char>) -> Seq<char> {
    if starts_with(s, "http"@) {
        s
    } else {
        "https://"@ + strip_slashes(s)
    }
}

pub fn str_starts_with(s: &str, p: &str) -> (r: bool)
    ensures
        r == starts_with(s@, p@),
{
    let slen = s.unicode_len();
    let plen = p.unicode_len();
    if plen > slen {
        return false;
    }
    let mut i: usize = 0;
    while i < plen
        invariant
            plen <= slen,
            slen == s@.len(),
            plen == p@.len(),
            0 <= i <= plen,
            forall|k: int| 0 <= k < i ==> s@[k] == p@[k],
        decreases plen - i,
    {
        if s.get_char(i) != p.get_char(i) {
            assert(s@.subrange(0, plen as int)[i as int] != p@[i as int]);
            return false;
        }
        i = i + 1;
    }
    proof {
        assert(s@.subrange(0, plen as int) =~= p@);
    }
    true
}

proof fn lemma_strip_slashes_subrange(s: Seq<char>, i: int)
    requires
        0 <= i <= s.len(),
        forall|k: int| 0 <= k < i ==> s[k] == '/',
        i == s.len() || s[i] != '/',
    ensures
        strip_slashes(s) == s.subrange(i, s.len() as int),
    decreases i,
{
    if i == 0 {
        assert(s.subrange(0, s.len() as int) =~= s);
    } else {
        lemma_strip_slashes_subrange(s.drop_first(), i - 1);
        assert(s.drop_first().subrange(i - 1, s.drop_first().len() as int) =~= s.subrange(
            i,
            s.len() as int,
        ));
    }
}

/// Makes an image `src` absolute, as [`normalize_src_spec`] says.
pub fn normalize_src(src: &str) -> (r: String)
    ensures
        r@ == normalize_src_spec(src@),
{
    if str_starts_with(src, "http") {
        return String::from_str(src);
    }
    let len = src.unicode_len();
    let mut i: usize = 0;
    while i < len && src.get_char(i) == '/'
        invariant
            len == src@.len(),
            0 <= i <= len,
            forall|k: int| 0 <= k < i ==> src@[k] == '/',
        decreases len - i,
    {
        i = i + 1;
    }
    proof {
        lemma_strip_slashes_subrange(src@, i as int);
    }
    let mut out = String::from_str("https://");
    out.append(src.substring_char(i, len));
    proof {
        assert(out@ =~= normalize_src_spec(src@));
    }
    out
}

/// The text of the `alt` attribute, with the empty string for an absent one.
pub open spec fn alt_text_spec(alt: Option<String>) -> Seq<char> {
    match alt {
        Some(a) => a@,
        None => Seq::empty(),
    }
}

/// How one body child determines its piece: a child with text left after
/// trimming is a paragraph; one without text but with an `img` that has a
/// `src` is an image link; anything else is a blank line.
pub open spec fn piece_matches_child(p: Piece, c: ChildNode) -> bool {
    if trim_ws(c.text@).len() > 0 {
        p matches Piece::Text(t) && t@ == trim_ws(c.text@)
    } else {
        match c.img {
            Some(img) => match img.src {
                Some(src) => p matches Piece::Image(s, a) && s@ == normalize_src_spec(src@)
                    && a@ == alt_text_spec(img.alt),
                None => p is Blank,
            },
            None => p is Blank,
        }
    }
}

/// Plans the Markdown block of one chapter. Fails exactly when a structural
/// block is missing from the scanned page; otherwise each body child yields
/// the piece that [`piece_matches_child`] describes, in document order. No
/// output is produced in the error case.
pub fn plan_block(doc: &ChapterDoc) -> (r: Result<ChapterBlock, ExtractError>)
    ensures
        doc.title is None <==> r == Result::<ChapterBlock, ExtractError>::Err(
            ExtractError::MissingBlock(BlockKind::Title),
        ),
        doc.title is Some && doc.body is None <==> r == Result::<ChapterBlock, ExtractError>::Err(
            ExtractError::MissingBlock(BlockKind::Body),
        ),
        doc.title is Some && doc.body is Some ==> (r matches Ok(b) && b.title@
            == doc.title.unwrap()@ && b.pieces@.len() == doc.body.unwrap()@.len() && forall|i: int|
            0 <= i < b.pieces@.len() ==> piece_matches_child(
                #[trigger] b.pieces@[i],
                doc.body.unwrap()@[i],
            )),
{
    let title = match &doc.title {
        Some(t) => t.clone(),
        None => {
            return Err(ExtractError::MissingBlock(BlockKind::Title));
        },
    };
    let children = match &doc.body {
        Some(c) => c,
        None => {
            return Err(ExtractError::MissingBlock(BlockKind::Body));
        },
    };
    let mut pieces: Vec<Piece> = Vec::new();
    let mut i: usize = 0;
    while i < children.len()
        invariant
            0 <= i <= children.len(),
            pieces@.len() == i,
            forall|k: int|
                0 <= k < i ==> piece_matches_child(#[trigger] pieces@[k], children@[k]),
        decreases children.len() - i,
    {
        let child = &children[i];
        let trimmed = trim_novel_ws(child.text.as_str());
        let piece = if !trimmed.as_str().is_empty() {
            Piece::Text(trimmed)
        } else {
            match &child.img {
                Some(img) => match &img.src {
                    Some(src) => {
                        let alt = match &img.alt {
                            Some(a) => a.clone(),
                            None => String::new(),
                        };
                        Piece::Image(normalize_src(src.as_str()), alt)
                    },
                    None => Piece::Blank,
                },
                None => Piece::Blank,
            }
        };
        pieces.push(piece);
        i = i + 1;
    }
    Ok(ChapterBlock { title, pieces })
}

/// The characters one piece contributes after its leading newline.
pub open spec fn piece_render_spec(p: Piece) -> Seq<char> {
    match p {
        Piece::Text(t) => t@,
        Piece::Image(src, alt) => "!["@ + alt@ + "]("@ + src@ + ")"@,
        Piece::Blank => Seq::empty(),
    }
}

/// The body of a chapter block: a newline before each piece, pieces in
/// order.
pub open spec fn pieces_render_spec(ps: Seq<Piece>) -> Seq<char>
    decreases ps.len(),
{
    if ps.len() == 0 {
        Seq::empty()
    } else {
        pieces_render_spec(ps.drop_last()) + "\n"@ + piece_render_spec(ps.last())
    }
}

/// The full Markdown text of one chapter: the title as a second-level
/// heading, the pieces, and two trailing newlines that separate chapters.
pub open spec fn render_block_spec(title: Seq<char>, ps: Seq<Piece>) -> Seq<char> {
    "## "@ + title + "\n"@ + pieces_render_spec(ps) + "\n\n"@
}

/// Renders a planned chapter block to its Markdown text.
pub fn render_block(b: &ChapterBlock) -> (r: String)
    ensures
        r@ == render_block_spec(b.title@, b.pieces@),
{
    let mut out = String::from_str("## ");
    out.append(b.title.as_str());
    out.append("\n");
    let mut i: usize = 0;
    while i < b.pieces.len()
        invariant
            0 <= i <= b.pieces@.len(),
            out@ == "## "@ + b.title@ + "\n"@ + pieces_render_spec(b.pieces@.subrange(0, i as int)),
        decreases b.pieces@.len() - i,
    {
        out.append("\n");
        match &b.pieces[i] {
            Piece::Text(t) => {
                out.append(t.as_str());
            },
            Piece::Image(src, alt) => {
                out.append("![");
                out.append(alt.as_str());
                out.append("](");
                out.append(src.as_str());
                out.append(")");
            },
            Piece::Blank => {},
        }
        proof {
            let pre = b.pieces@.subrange(0, i + 1);
            assert(pre.drop_last() =~= b.pieces@.subrange(0, i as int));
            assert(pre.last() == b.pieces@[i as int]);
            assert(out@ =~= "## "@ + b.title@ + "\n"@ + pieces_render_spec(pre));
        }
        i = i + 1;
    }
    out.append("\n\n");
    proof {
        assert(b.pieces@.subrange(0, b.pieces@.len() as int) =~= b.pieces@);
        assert(out@ =~= render_block_spec(b.title@, b.pieces@));
    }
    out
}

proof fn lemma_trim_front_head(s: Seq<char>)
    ensures
        trim_front(s).len() > 0 ==> !is_novel_ws(trim_front(s)[0]),
    decreases s.len(),
{
    if s.len() > 0 && is_novel_ws(s[0]) {
        lemma_trim_front_head(s.drop_first());
    }
}

proof fn lemma_trim_back_last(s: Seq<char>)
    ensures
        trim_back(s).len() > 0 ==> !is_novel_ws(trim_back(s).last()),
    decreases s.len(),
{
    if s.len() > 0 && is_novel_ws(s.last()) {
        lemma_trim_back_last(s.drop_last());
    }
}

proof fn lemma_trim_back_head(s: Seq<char>)
    ensures
        trim_back(s).len() > 0 ==> trim_back(s)[0] == s[0],
    decreases s.len(),
{
    if s.len() > 0 && is_novel_ws(s.last()) {
        lemma_trim_back_head(s.drop_last());
    }
}

/// Trimming is idempotent: a second pass over an already trimmed paragraph
/// changes nothing.
pub proof fn lemma_trim_idempotent(s: Seq<char>)
    ensures
        trim_ws(trim_ws(s)) == trim_ws(s),
{
    let t = trim_ws(s);
    lemma_trim_front_head(s);
    lemma_trim_back_head(trim_front(s));
    assert(trim_front(t) == t);
    lemma_trim_back_last(trim_front(s));
    assert(trim_back(t) == t);
}

/// The paragraph text that a sequence of text-bearing children contributes:
/// a newline, then the trimmed text, child by child in document order.
pub open spec fn paragraphs_spec(children: Seq<ChildNode>) -> Seq<char>
    decreases children.len(),
{
    if children.len() == 0 {
        Seq::empty()
    } else {
        paragraphs_spec(children.drop_last()) + "\n"@ + trim_ws(children.last().text@)
    }
}

proof fn lemma_pieces_paragraphs(children: Seq<ChildNode>, ps: Seq<Piece>)
    requires
        ps.len() == children.len(),
        forall|i: int| 0 <= i < ps.len() ==> piece_matches_child(#[trigger] ps[i], children[i]),
        forall|i: int| 0 <= i < children.len() ==> trim_ws(#[trigger] children[i].text@).len() > 0,
    ensures
        pieces_render_spec(ps) == paragraphs_spec(children),
    decreases ps.len(),
{
    if ps.len() > 0 {
        assert forall|i: int| 0 <= i < ps.drop_last().len() implies piece_matches_child(
            #[trigger] ps.drop_last()[i],
            children.drop_last()[i],
        ) by {
            assert(ps.drop_last()[i] == ps[i]);
            assert(children.drop_last()[i] == children[i]);
        }
        assert forall|i: int| 0 <= i < children.drop_last().len() implies trim_ws(
            #[trigger] children.drop_last()[i].text@,
        ).len() > 0 by {
            assert(children.drop_last()[i] == children[i]);
        }
        lemma_pieces_paragraphs(children.drop_last(), ps.drop_last());
        assert(piece_matches_child(ps[ps.len() - 1], children[children.len() - 1]));
        assert(piece_render_spec(ps.last()) == trim_ws(children.last().text@));
    }
}

/// A chapter whose body children all carry text renders as the heading line
/// followed by one blank-line-separated trimmed paragraph per child, in
/// document order.
pub proof fn lemma_text_chapter_render(title: Seq<char>, children: Seq<ChildNode>, ps: Seq<Piece>)
    requires
        ps.len() == children.len(),
        forall|i: int| 0 <= i < ps.len() ==> piece_matches_child(#[trigger] ps[i], children[i]),
        forall|i: int| 0 <= i < children.len() ==> trim_ws(#[trigger] children[i].text@).len() > 0,
    ensures
        render_block_spec(title, ps) == "## "@ + title + "\n"@ + paragraphs_spec(children)
            + "\n\n"@,
{
    lemma_pieces_paragraphs(children, ps);
}

proof fn lemma_pieces_render_agree(children: Seq<ChildNode>, p1: Seq<Piece>, p2: Seq<Piece>)
    requires
        p1.len() == children.len(),
        p2.len() == children.len(),
        forall|i: int| 0 <= i < p1.len() ==> piece_matches_child(#[trigger] p1[i], children[i]),
        forall|i: int| 0 <= i < p2.len() ==> piece_matches_child(#[trigger] p2[i], children[i]),
    ensures
        pieces_render_spec(p1) == pieces_render_spec(p2),
    decreases p1.len(),
{
    if p1.len() > 0 {
        assert forall|i: int| 0 <= i < p1.drop_last().len() implies piece_matches_child(
            #[trigger] p1.drop_last()[i],
            children.drop_last()[i],
        ) by {
            assert(p1.drop_last()[i] == p1[i]);
            assert(children.drop_last()[i] == children[i]);
        }
        assert forall|i: int| 0 <= i < p2.drop_last().len() implies piece_matches_child(
            #[trigger] p2.drop_last()[i],
            children.drop_last()[i],
        ) by {
            assert(p2.drop_last()[i] == p2[i]);
            assert(children.drop_last()[i] == children[i]);
        }
        lemma_pieces_render_agree(children.drop_last(), p1.drop_last(), p2.drop_last());
        let a = p1.last();
        let b = p2.last();
        let c = children.last();
        assert(piece_matches_child(a, c));
        assert(piece_matches_child(b, c));
        if trim_ws(c.text@).len() > 0 {
            assert(piece_render_spec(a) == piece_render_spec(b));
        } else {
            match c.img {
                Some(img) => match img.src {
                    Some(_) => {
                        assert(piece_render_spec(a) == piece_render_spec(b));
                    },
                    None => {
                        assert(piece_render_spec(a) == piece_render_spec(b));
                    },
                },
                None => {
                    assert(piece_render_spec(a) == piece_render_spec(b));
                },
            }
        }
    }
}

/// Rendering is a function of the scanned children: any two planned piece
/// lists for the same children render to the same Markdown text, so the run
/// is repeatable on a fixed page.
pub proof fn lemma_render_deterministic(
    title: Seq<char>,
    children: Seq<ChildNode>,
    p1: Seq<Piece>,
    p2: Seq<Piece>,
)
    requires
        p1.len() == children.len(),
        p2.len() == children.len(),
        forall|i: int| 0 <= i < p1.len() ==> piece_matches_child(#[trigger] p1[i], children[i]),
        forall|i: int| 0 <= i < p2.len() ==> piece_matches_child(#[trigger] p2[i], children[i]),
    ensures
        render_block_spec(title, p1) == render_block_spec(title, p2),
{
    lemma_pieces_render_agree(children, p1, p2);
}

} // verus!
