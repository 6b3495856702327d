//! Builders for the fixed upstream URLs, the output file path, and the
//! document header that opens the Markdown file.

use vstd::prelude::*;
use crate::text::dec_seq;
use crate::text::usize_to_string;

verus! {

/// The host prefix of the chapter pages: the adult deployment lives on its
/// own subdomain.
pub open spec fn host_prefix_spec(r18: bool) -> Seq<char> {
    if r18 {
        "novel18"@
    } else {
        "ncode"@
    }
}

/// The path segment that selects the metadata API variant.
pub open spec fn api_variant_spec(r18: bool) -> Seq<char> {
    if r18 {
        "novel18api"@
    } else {
        "novelapi"@
    }
}

pub fn host_prefix(r18: bool) -> (r: &'static str)
    ensures
        r@ == host_prefix_spec(r18),
{
    if r18 {
        "novel18"
    } else {
        "ncode"
    }
}

/// The URL of the novel-info API endpoint for the novel `id`.
pub open spec fn api_url_spec(r18: bool, id: Seq<char>) -> Seq<char> {
    "https://api.syosetu.com/"@ + api_variant_spec(r18) + "/api/?out=json&ncode="@ + id
}

pub fn api_url(r18: bool, id: &str) -> (r: String)
    ensures
        r@ == api_url_spec(r18, id@),
{
    let mut out = String::from_str("https://api.syosetu.com/");
    if r18 {
        out.append("novel18api");
    } else {
        out.append("novelapi");
    }
    out.append("/api/?out=json&ncode=");
    out.append(id);
    proof {
        assert(out@ =~= api_url_spec(r18, id@));
    }
    out
}

/// The URL of one chapter page: host prefix, novel code, chapter index.
pub open spec fn chapter_url_spec(r18: bool, code: Seq<char>, idx: nat) -> Seq<char> {
    "https://"@ + host_prefix_spec(r18) + ".syosetu.com/"@ + code + "/"@ + dec_seq(idx)
}

pub fn chapter_url(r18: bool, code: &str, idx: usize) -> (r: String)
    ensures
        r@ == chapter_url_spec(r18, code@, idx as nat),
{
    let mut out = String::from_str("https://");
    out.append(host_prefix(r18));
    out.append(".syosetu.com/");
    out.append(code);
    out.append("/");
    let digits = usize_to_string(idx);
    out.append(digits.as_str());
    proof {
        assert(out@ =~= chapter_url_spec(r18, code@, idx as nat));
    }
    out
}

/// The header written once at the top of the output file: the title as a
/// level-one heading and a link back to the novel's front page.
pub open spec fn document_header_spec(title: Seq<char>, r18: bool, code: Seq<char>) -> Seq<char> {
    "# "@ + title + "\n\nOriginal: https://"@ + host_prefix_spec(r18) + ".syosetu.com/"@ + code
        + "\n\n"@
}

pub fn document_header(title: &str, r18: bool, code: &str) -> (r: String)
    ensures
        r@ == document_header_spec(title@, r18, code@),
{
    let mut out = String::from_str("# ");
    out.append(title);
    out.append("\n\nOriginal: https://");
    out.append(host_prefix(r18));
    out.append(".syosetu.com/");
    out.append(code);
    out.append("\n\n");
    proof {
        assert(out@ =~= document_header_spec(title@, r18, code@));
    }
    out
}

/// The path of the output file: the title inside `dir`, with the Markdown
/// extension.
pub open spec fn file_path_spec(dir: Seq<char>, name: Seq<char>) -> Seq<char> {
    dir + "/"@ + name + ".md"@
}

pub fn construct_file_path(dir: &str, name: &str) -> (r: String)
    ensures
        r@ == file_path_spec(dir@, name@),
{
    let mut out = String::from_str(dir);
    out.append("/");
    out.append(name);
    out.append(".md");
    proof {
        assert(out@ =~= file_path_spec(dir@, name@));
    }
    out
}

} // verus!
