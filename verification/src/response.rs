//! Complete HTTP response buffers, each pinned down as a byte
//! sequence.  Every response ends its header section with a blank
//! line; a response with a body carries a `Content-Length` header
//! whose value is the exact byte length of that body.  The file
//! responses append one trailing `CRLF` after the body as framing,
//! which is deliberately not counted in `Content-Length`.

use vstd::prelude::*;

verus! {

use crate::bytes::{append_bytes, dec_bytes, spec_dec};
use crate::tokens::{
    cl_prefix_bytes,
    crlf_bytes,
    ct_octet_bytes,
    ct_text_bytes,
    hello_body_bytes,
    sp_cl_prefix,
    sp_crlf,
    sp_ct_octet,
    sp_ct_text,
    sp_hello_body,
    sp_status_ok,
    status_ok_bytes,
};

/// The root route's response: a bare success status line, a blank
/// line, and the greeting followed by a terminating `CRLF`.
pub open spec fn sp_hello_response() -> Seq<u8> {
    sp_status_ok() + sp_crlf() + sp_hello_body() + sp_crlf()
}

/// The header section of a plain-text success response announcing a
/// body of `n` bytes: status line, `Content-Type: text/plain`,
/// `Content-Length: n`, and the blank line.
pub open spec fn sp_text_header(n: nat) -> Seq<u8> {
    sp_status_ok() + sp_ct_text() + sp_cl_prefix() + spec_dec(n) + sp_crlf() + sp_crlf()
}

/// A plain-text success response: the headers announcing exactly
/// `body.len()` bytes, then the body itself, nothing after it.
pub open spec fn sp_text_response(body: Seq<u8>) -> Seq<u8> {
    sp_text_header(body.len()) + body
}

/// The header section of a file-content success response announcing a
/// content of `n` bytes: status line, `Content-Type:
/// application/octet-stream`, `Content-Length: n`, and the blank line.
pub open spec fn sp_file_header(n: nat) -> Seq<u8> {
    sp_status_ok() + sp_ct_octet() + sp_cl_prefix() + spec_dec(n) + sp_crlf() + sp_crlf()
}

/// A file-content success response: the headers announcing exactly
/// `content.len()` bytes, the content, and one trailing `CRLF` of
/// framing that the announced length does not count.
pub open spec fn sp_file_response(content: Seq<u8>) -> Seq<u8> {
    sp_file_header(content.len()) + content + sp_crlf()
}

/// Build the root route's greeting response.
pub fn hello_response() -> (r: Vec<u8>)
    ensures
        r@ == sp_hello_response(),
{
    let mut r = status_ok_bytes();
    let crlf = crlf_bytes();
    let hello = hello_body_bytes();
    append_bytes(&mut r, crlf.as_slice());
    append_bytes(&mut r, hello.as_slice());
    append_bytes(&mut r, crlf.as_slice());
    r
}

/// Build a plain-text success response around `body`.
pub fn text_response(body: &[u8]) -> (r: Vec<u8>)
    ensures
        r@ == sp_text_response(body@),
{
    let mut r = status_ok_bytes();
    let ct = ct_text_bytes();
    let cl = cl_prefix_bytes();
    let len = dec_bytes(body.len());
    let crlf = crlf_bytes();
    append_bytes(&mut r, ct.as_slice());
    append_bytes(&mut r, cl.as_slice());
    append_bytes(&mut r, len.as_slice());
    append_bytes(&mut r, crlf.as_slice());
    append_bytes(&mut r, crlf.as_slice());
    append_bytes(&mut r, body);
    r
}

/// Build a file-content success response around `content`.
pub fn file_response(content: &[u8]) -> (r: Vec<u8>)
    ensures
        r@ == sp_file_response(content@),
{
    let mut r = status_ok_bytes();
    let ct = ct_octet_bytes();
    let cl = cl_prefix_bytes();
    let len = dec_bytes(content.len());
    let crlf = crlf_bytes();
    append_bytes(&mut r, ct.as_slice());
    append_bytes(&mut r, cl.as_slice());
    append_bytes(&mut r, len.as_slice());
    append_bytes(&mut r, crlf.as_slice());
    append_bytes(&mut r, crlf.as_slice());
    append_bytes(&mut r, content);
    append_bytes(&mut r, crlf.as_slice());
    r
}

} // verus!
