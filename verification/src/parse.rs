//! Turning a raw request buffer into a structured request.
//!
//! The buffer is split on `CRLF`; the first line is the request line,
//! split on single spaces into method, path, and (ignored) protocol
//! version; the third line is taken to be the `User-Agent` header
//! line, on the assumption of the common `Host` then `User-Agent`
//! ordering, and is stripped of its header-name prefix when present;
//! the body is whatever follows the last `CRLF`, with the zero
//! padding of a fixed-size read buffer stripped from its end.
//!
//! A buffer with fewer than three lines, or a request line with fewer
//! than two tokens, is malformed and yields no request.

use vstd::prelude::*;

verus! {

use crate::bytes::{
    is_sep_at,
    lemma_sep1_free_prefix,
    lemma_sep2_free_concat,
    lemma_sep2_free_prefix,
    lemma_split_cons,
    lemma_split_whole,
    sep_free,
    spec_split,
    spec_strip_nuls,
    spec_strip_prefix,
    split_bytes,
    strip_prefix,
    strip_trailing_nuls,
    subrange_vec,
    views,
};
use crate::tokens::{crlf_bytes, sp_crlf, sp_space, sp_ua_prefix, space_bytes, ua_prefix_bytes};

/// One parsed request: method, path, user-agent value, and body, all
/// as raw bytes.
pub struct ParsedRequest {
    pub method: Vec<u8>,
    pub path: Vec<u8>,
    pub user_agent: Vec<u8>,
    pub body: Vec<u8>,
}

/// The mathematical shape of a parsed request.
pub struct ReqView {
    pub method: Seq<u8>,
    pub path: Seq<u8>,
    pub user_agent: Seq<u8>,
    pub body: Seq<u8>,
}

impl View for ParsedRequest {
    type V = ReqView;

    open spec fn view(&self) -> ReqView {
        ReqView {
            method: self.method@,
            path: self.path@,
            user_agent: self.user_agent@,
            body: self.body@,
        }
    }
}

/// What parsing a buffer yields: the request assembled from the
/// `CRLF`-separated lines, or nothing when the buffer is malformed.
pub open spec fn sp_parse(buf: Seq<u8>) -> Option<ReqView> {
    let lines = spec_split(buf, sp_crlf());
    if lines.len() < 3 {
        None
    } else {
        let toks = spec_split(lines[0], sp_space());
        if toks.len() < 2 {
            None
        } else {
            Some(
                ReqView {
                    method: toks[0],
                    path: toks[1],
                    user_agent: spec_strip_prefix(lines[2], sp_ua_prefix()),
                    body: spec_strip_nuls(lines[lines.len() - 1]),
                },
            )
        }
    }
}

/// A well-formed request buffer as common clients send one: request
/// line with method, path, and protocol version, a `Host` header
/// line, the `User-Agent` header line, the blank line, and the body.
pub open spec fn sp_request_buf(
    method: Seq<u8>,
    path: Seq<u8>,
    version: Seq<u8>,
    host_line: Seq<u8>,
    ua_value: Seq<u8>,
    body: Seq<u8>,
) -> Seq<u8> {
    method + sp_space() + path + sp_space() + version + sp_crlf() + host_line + sp_crlf()
        + sp_ua_prefix() + ua_value + sp_crlf() + sp_crlf() + body
}

/// The header-name prefix of the user-agent line holds no carriage
/// return, and ends in a space.
proof fn lemma_ua_prefix_bytes()
    ensures
        sep_free(sp_ua_prefix(), sp_crlf()),
        sp_ua_prefix()[sp_ua_prefix().len() - 1] == 32u8,
{
    let pre = sp_ua_prefix();
    assert forall|k: int| !is_sep_at(pre, sp_crlf(), k) by {
        if 0 <= k && k + 2 <= pre.len() {
            assert(pre.subrange(k, k + 2)[0] == pre[k]);
            assert(pre[k] != 13u8);
        }
    }
}

/// Parsing a well-formed request buffer yields exactly its tokens:
/// the method, the path, the user-agent value with its header-name
/// prefix stripped, and the body.
pub proof fn lemma_parse_well_formed(
    method: Seq<u8>,
    path: Seq<u8>,
    version: Seq<u8>,
    host_line: Seq<u8>,
    ua_value: Seq<u8>,
    body: Seq<u8>,
)
    requires
        sep_free(method, sp_crlf()),
        sep_free(path, sp_crlf()),
        sep_free(version, sp_crlf()),
        sep_free(host_line, sp_crlf()),
        sep_free(ua_value, sp_crlf()),
        sep_free(body, sp_crlf()),
        sep_free(method, sp_space()),
        sep_free(path, sp_space()),
        sep_free(version, sp_space()),
        body.len() == 0 || body[body.len() - 1] != 0u8,
    ensures
        sp_parse(sp_request_buf(method, path, version, host_line, ua_value, body)) == Some(
            ReqView { method, path, user_agent: ua_value, body },
        ),
{
    let sp = sp_space();
    let crlf = sp_crlf();
    let l0 = method + sp + path + sp + version;
    let l2 = sp_ua_prefix() + ua_value;
    let buf = sp_request_buf(method, path, version, host_line, ua_value, body);

    // the space byte can take part in no CRLF occurrence
    assert forall|k: int| !is_sep_at(sp, crlf, k) by {}
    assert(sp[0] == 32u8);

    // the request line is free of CRLF
    lemma_sep2_free_concat(method, sp, crlf);
    assert((method + sp)[(method + sp).len() - 1] == 32u8);
    lemma_sep2_free_concat(method + sp, path, crlf);
    lemma_sep2_free_concat(method + sp + path, sp, crlf);
    assert((method + sp + path + sp)[(method + sp + path + sp).len() - 1] == 32u8);
    lemma_sep2_free_concat(method + sp + path + sp, version, crlf);
    assert(sep_free(l0, crlf));

    // the user-agent line is free of CRLF
    lemma_ua_prefix_bytes();
    lemma_sep2_free_concat(sp_ua_prefix(), ua_value, crlf);
    assert(sep_free(l2, crlf));

    // the empty line is trivially free of CRLF
    let empty = Seq::<u8>::empty();
    assert(sep_free(empty, crlf));

    // peel the four lines off the buffer
    let r3 = empty + crlf + body;
    let r2 = l2 + crlf + r3;
    let r1 = host_line + crlf + r2;
    assert(buf =~= l0 + crlf + r1);
    lemma_sep2_free_prefix(l0, crlf, r1);
    lemma_split_cons(l0, crlf, r1);
    lemma_sep2_free_prefix(host_line, crlf, r2);
    lemma_split_cons(host_line, crlf, r2);
    lemma_sep2_free_prefix(l2, crlf, r3);
    lemma_split_cons(l2, crlf, r3);
    lemma_sep2_free_prefix(empty, crlf, body);
    lemma_split_cons(empty, crlf, body);
    lemma_split_whole(body, crlf);
    let lines = spec_split(buf, crlf);
    assert(lines =~= seq![l0, host_line, l2, empty, body]);

    // split the request line into its three tokens
    lemma_sep1_free_prefix(method, sp, path + sp + version);
    assert(l0 =~= method + sp + (path + sp + version));
    lemma_split_cons(method, sp, path + sp + version);
    lemma_sep1_free_prefix(path, sp, version);
    lemma_split_cons(path, sp, version);
    lemma_split_whole(version, sp);
    let toks = spec_split(l0, sp);
    assert(toks =~= seq![method, path, version]);

    // the user-agent line strips back to its value
    assert(l2.take(sp_ua_prefix().len() as int) =~= sp_ua_prefix());
    assert(l2.skip(sp_ua_prefix().len() as int) =~= ua_value);

    // the body carries no zero padding to strip
    assert(spec_strip_nuls(body) == body);
}

/// Parse a raw request buffer; `None` means the request is malformed
/// and deserves a `400`-class answer or a plain close.
pub fn parse_request(buf: &[u8]) -> (r: Option<ParsedRequest>)
    ensures
        r matches Some(req) ==> sp_parse(buf@) == Some(req@),
        r is None ==> sp_parse(buf@) is None,
{
    let crlf = crlf_bytes();
    let lines = split_bytes(buf, crlf.as_slice());
    proof {
        assert(views(lines@) == spec_split(buf@, sp_crlf()));
        assert(lines@.len() == views(lines@).len());
    }
    if lines.len() < 3 {
        return None;
    }
    let space = space_bytes();
    let toks = split_bytes(lines[0].as_slice(), space.as_slice());
    proof {
        assert(views(lines@)[0] == lines@[0]@);
        assert(views(toks@) == spec_split(lines@[0]@, sp_space()));
        assert(toks@.len() == views(toks@).len());
    }
    if toks.len() < 2 {
        return None;
    }
    let method = subrange_vec(toks[0].as_slice(), 0, toks[0].len());
    let path = subrange_vec(toks[1].as_slice(), 0, toks[1].len());
    let ua = ua_prefix_bytes();
    let user_agent = strip_prefix(lines[2].as_slice(), ua.as_slice());
    let last = lines.len() - 1;
    let body = strip_trailing_nuls(lines[last].as_slice());
    proof {
        assert(views(toks@)[0] == toks@[0]@);
        assert(views(toks@)[1] == toks@[1]@);
        assert(views(lines@)[2] == lines@[2]@);
        assert(views(lines@)[last as int] == lines@[last as int]@);
        assert(toks@[0]@.subrange(0, toks@[0]@.len() as int) =~= toks@[0]@);
        assert(toks@[1]@.subrange(0, toks@[1]@.len() as int) =~= toks@[1]@);
    }
    Some(ParsedRequest { method, path, user_agent, body })
}

} // verus!
