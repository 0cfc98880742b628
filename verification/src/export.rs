//! Export helpers for the client: the data-URL a browser download link
//! carries, labelled with the MIME type the file name asks for.

use vstd::prelude::*;
use vstd::string::StringExecFns;
use vstd::string::StringSliceAdditionalSpecFns;

use crate::text::chars_of;

verus! {

/// What base64's standard alphabet, with padding, encodes these bytes to.
pub uninterp spec fn base64_standard_of(bytes: Seq<u8>) -> Seq<char>;

/// Relies on base64's `Engine::encode` on the `STANDARD` engine
/// (`engine::general_purpose::STANDARD`): a pure function of the input
/// bytes, emitting four characters per started triple of input bytes. The
/// length bound keeps the engine's output-size computation from
/// overflowing.
#[verifier::external_body]
fn base64_encode(content: &str) -> (r: String)
    requires
        content.spec_bytes().len() < usize::MAX / 2,
    ensures
        r@ == base64_standard_of(content.spec_bytes()),
        r@.len() == 4 * ((content.spec_bytes().len() + 2) / 3),
{
    base64::Engine::encode(&base64::engine::general_purpose::STANDARD, content.as_bytes())
}

/// Whether the file name ends in ".pdf".
pub open spec fn pdf_name(name: Seq<char>) -> bool {
    name.len() >= 4 && name.subrange(name.len() - 4, name.len() as int) == ".pdf"@
}

/// The MIME type the download declares: a raw-text export under a .pdf
/// name is labelled plain text, everything else markdown.
pub open spec fn download_mime(name: Seq<char>) -> Seq<char> {
    if pdf_name(name) {
        "text/plain"@
    } else {
        "text/markdown"@
    }
}

/// The data-URL a browser download link carries for `content`.
pub open spec fn download_href(name: Seq<char>, content_bytes: Seq<u8>) -> Seq<char> {
    "data:"@ + download_mime(name) + ";charset=utf-8;base64,"@ + base64_standard_of(content_bytes)
}

/// Whether `filename` ends in ".pdf".
fn name_is_pdf(filename: &str) -> (r: bool)
    ensures
        r == pdf_name(filename@),
{
    proof {
        reveal_strlit(".pdf");
    }
    let cs = chars_of(filename);
    let n = cs.len();
    if n < 4 {
        return false;
    }
    let r = cs[n - 4] == '.' && cs[n - 3] == 'p' && cs[n - 2] == 'd' && cs[n - 1] == 'f';
    proof {
        if r {
            assert(filename@.subrange(n - 4, n as int) =~= ".pdf"@);
        } else {
            assert(filename@.subrange(n - 4, n as int) != ".pdf"@) by {
                if filename@.subrange(n - 4, n as int) == ".pdf"@ {
                    assert(filename@.subrange(n - 4, n as int)[0] == '.');
                    assert(filename@.subrange(n - 4, n as int)[1] == 'p');
                    assert(filename@.subrange(n - 4, n as int)[2] == 'd');
                    assert(filename@.subrange(n - 4, n as int)[3] == 'f');
                }
            }
        }
    }
    r
}

/// Build the download link target: a data-URL declaring the MIME type the
/// file name asks for and carrying the content base64-encoded.
pub fn data_url_for_download(filename: &str, content: &str) -> (href: String)
    requires
        content.spec_bytes().len() < usize::MAX / 2,
    ensures
        href@ == download_href(filename@, content.spec_bytes()),
{
    let b64 = base64_encode(content);
    let mut href = String::from_str("data:");
    if name_is_pdf(filename) {
        href.append("text/plain");
    } else {
        href.append("text/markdown");
    }
    href.append(";charset=utf-8;base64,");
    href.append(b64.as_str());
    href
}

} // verus!
