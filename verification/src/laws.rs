//! The routing guarantees, stated and proved over the same spec
//! functions the executable functions are verified against.

use vstd::prelude::*;

verus! {

use crate::bytes::{
    lemma_first_byte_absent_sep_free,
    lemma_sep1_free_concat,
    lemma_sep2_free_concat,
    sep_free,
    spec_starts_with,
    spec_strip_prefix,
};
use crate::parse::{lemma_parse_well_formed, sp_parse, sp_request_buf, ReqView};
use crate::response::{sp_file_header, sp_file_response, sp_hello_response, sp_text_response};
use crate::routes::{sp_route, ActionView};
use crate::tokens::{
    sp_crlf,
    sp_echo,
    sp_echo_slash,
    sp_files,
    sp_files_slash,
    sp_get,
    sp_method_not_allowed,
    sp_not_found,
    sp_post,
    sp_root,
    sp_space,
    sp_user_agent_route,
};

/// A path under `/files/` misses every earlier route and strips back
/// to the bare filename.
proof fn lemma_files_path(name: Seq<u8>)
    ensures
        sp_files_slash() + name != sp_root(),
        !spec_starts_with(sp_files_slash() + name, sp_echo()),
        !spec_starts_with(sp_files_slash() + name, sp_user_agent_route()),
        spec_starts_with(sp_files_slash() + name, sp_files()),
        spec_strip_prefix(sp_files_slash() + name, sp_files_slash()) == name,
{
    let p = sp_files_slash() + name;
    assert(p.len() != sp_root().len());
    if spec_starts_with(p, sp_echo()) {
        assert(p.take(sp_echo().len() as int)[1] == p[1]);
        assert(p[1] == sp_files_slash()[1]);
    }
    if spec_starts_with(p, sp_user_agent_route()) {
        assert(p.take(sp_user_agent_route().len() as int)[1] == p[1]);
        assert(p[1] == sp_files_slash()[1]);
    }
    assert(p.take(sp_files().len() as int) =~= sp_files());
    assert(p.take(sp_files_slash().len() as int) =~= sp_files_slash());
    assert(p.skip(sp_files_slash().len() as int) =~= name);
}

/// A path matching none of the fixed routes is answered with the 404
/// response, whatever the method, headers, body, and configuration;
/// that response ends at the blank line closing its header section,
/// so it has no body.
pub proof fn lemma_unmatched_path_not_found(
    method: Seq<u8>,
    path: Seq<u8>,
    user_agent: Seq<u8>,
    content: Seq<u8>,
    dir: Option<Seq<u8>>,
)
    requires
        path != sp_root(),
        !spec_starts_with(path, sp_echo()),
        !spec_starts_with(path, sp_user_agent_route()),
        !spec_starts_with(path, sp_files()),
    ensures
        sp_route(method, path, user_agent, content, dir) == ActionView::Respond(sp_not_found()),
        sp_not_found().skip(sp_not_found().len() - 4) == sp_crlf() + sp_crlf(),
{
    assert(sp_not_found().skip(sp_not_found().len() - 4) =~= sp_crlf() + sp_crlf());
}

/// Every request whose path is exactly the root is answered with the
/// greeting response, whatever the method, headers, body, and
/// configuration.
pub proof fn lemma_root_route(
    method: Seq<u8>,
    user_agent: Seq<u8>,
    content: Seq<u8>,
    dir: Option<Seq<u8>>,
)
    ensures
        sp_route(method, sp_root(), user_agent, content, dir) == ActionView::Respond(
            sp_hello_response(),
        ),
{
}

/// Any path `/echo/{s}` is answered, whatever the method, with the
/// plain-text success response whose announced length is exactly
/// `s.len()` and whose body is exactly `s`.
pub proof fn lemma_echo_route(
    method: Seq<u8>,
    s: Seq<u8>,
    user_agent: Seq<u8>,
    content: Seq<u8>,
    dir: Option<Seq<u8>>,
)
    ensures
        sp_route(method, sp_echo_slash() + s, user_agent, content, dir) == ActionView::Respond(
            sp_text_response(s),
        ),
{
    let p = sp_echo_slash() + s;
    assert(p.len() != sp_root().len());
    assert(p.take(sp_echo().len() as int) =~= sp_echo());
    assert(p.take(sp_echo_slash().len() as int) =~= sp_echo_slash());
    assert(p.skip(sp_echo_slash().len() as int) =~= s);
}

/// A `POST` and a later `GET` on the same `/files/{name}` target the
/// same file path under the configured directory; the `POST` carries
/// the request body to that path verbatim, and a `GET` whose read
/// hands back those same bytes is answered with the file response
/// that announces exactly their length and carries them in full
/// before its trailing `CRLF` of framing.
pub proof fn lemma_files_round_trip(
    name: Seq<u8>,
    body: Seq<u8>,
    dir: Seq<u8>,
    ua_post: Seq<u8>,
    ua_get: Seq<u8>,
    get_content: Seq<u8>,
)
    ensures
        sp_route(sp_post(), sp_files_slash() + name, ua_post, body, Some(dir))
            == ActionView::WriteFile(dir + sp_root() + name, body),
        sp_route(sp_get(), sp_files_slash() + name, ua_get, get_content, Some(dir))
            == ActionView::ReadFile(dir + sp_root() + name),
        sp_file_response(body) == sp_file_header(body.len()) + body + sp_crlf(),
{
    lemma_files_path(name);
    assert(sp_post() != sp_get()) by {
        assert(sp_post().len() != sp_get().len());
    }
}

/// The fixed tokens used by the end-to-end laws hold no carriage
/// return and no space, so they survive the line and token splits of
/// the parser untouched.
proof fn lemma_token_bytes()
    ensures
        sep_free(sp_get(), sp_crlf()),
        sep_free(sp_get(), sp_space()),
        sep_free(sp_root(), sp_crlf()),
        sep_free(sp_root(), sp_space()),
        sep_free(sp_echo_slash(), sp_crlf()),
        sep_free(sp_echo_slash(), sp_space()),
        sep_free(sp_user_agent_route(), sp_crlf()),
        sep_free(sp_user_agent_route(), sp_space()),
{
    assert(sp_crlf()[0] == 13u8);
    assert(sp_space()[0] == 32u8);
    lemma_first_byte_absent_sep_free(sp_get(), sp_crlf());
    lemma_first_byte_absent_sep_free(sp_get(), sp_space());
    lemma_first_byte_absent_sep_free(sp_root(), sp_crlf());
    lemma_first_byte_absent_sep_free(sp_root(), sp_space());
    lemma_first_byte_absent_sep_free(sp_echo_slash(), sp_crlf());
    lemma_first_byte_absent_sep_free(sp_echo_slash(), sp_space());
    lemma_first_byte_absent_sep_free(sp_user_agent_route(), sp_crlf());
    lemma_first_byte_absent_sep_free(sp_user_agent_route(), sp_space());
}

/// End to end for the root route: a well-formed `GET /` request
/// buffer parses to the expected request, and that request routes to
/// the greeting response, whatever its headers, body, and the
/// configuration.
pub proof fn lemma_root_request_end_to_end(
    version: Seq<u8>,
    host_line: Seq<u8>,
    ua_value: Seq<u8>,
    body: Seq<u8>,
    dir: Option<Seq<u8>>,
)
    requires
        sep_free(version, sp_crlf()),
        sep_free(host_line, sp_crlf()),
        sep_free(ua_value, sp_crlf()),
        sep_free(body, sp_crlf()),
        sep_free(version, sp_space()),
        body.len() == 0 || body[body.len() - 1] != 0u8,
    ensures
        sp_parse(sp_request_buf(sp_get(), sp_root(), version, host_line, ua_value, body)) == Some(
            ReqView { method: sp_get(), path: sp_root(), user_agent: ua_value, body },
        ),
        sp_route(sp_get(), sp_root(), ua_value, body, dir) == ActionView::Respond(
            sp_hello_response(),
        ),
{
    lemma_token_bytes();
    lemma_parse_well_formed(sp_get(), sp_root(), version, host_line, ua_value, body);
    lemma_root_route(sp_get(), ua_value, body, dir);
}

/// End to end for the echo route: a well-formed `GET /echo/{s}`
/// request buffer parses to the expected request, and that request
/// routes to the plain-text response whose announced length is
/// `s.len()` and whose body is exactly `s`.
pub proof fn lemma_echo_request_end_to_end(
    s: Seq<u8>,
    version: Seq<u8>,
    host_line: Seq<u8>,
    ua_value: Seq<u8>,
    body: Seq<u8>,
    dir: Option<Seq<u8>>,
)
    requires
        sep_free(s, sp_crlf()),
        sep_free(s, sp_space()),
        sep_free(version, sp_crlf()),
        sep_free(host_line, sp_crlf()),
        sep_free(ua_value, sp_crlf()),
        sep_free(body, sp_crlf()),
        sep_free(version, sp_space()),
        body.len() == 0 || body[body.len() - 1] != 0u8,
    ensures
        sp_parse(
            sp_request_buf(sp_get(), sp_echo_slash() + s, version, host_line, ua_value, body),
        ) == Some(
            ReqView { method: sp_get(), path: sp_echo_slash() + s, user_agent: ua_value, body },
        ),
        sp_route(sp_get(), sp_echo_slash() + s, ua_value, body, dir) == ActionView::Respond(
            sp_text_response(s),
        ),
{
    lemma_token_bytes();
    assert(sp_echo_slash()[sp_echo_slash().len() - 1] == 47u8);
    lemma_sep2_free_concat(sp_echo_slash(), s, sp_crlf());
    lemma_sep1_free_concat(sp_echo_slash(), s, sp_space());
    lemma_parse_well_formed(sp_get(), sp_echo_slash() + s, version, host_line, ua_value, body);
    lemma_echo_route(sp_get(), s, ua_value, body, dir);
}

/// End to end for the user-agent route: a well-formed
/// `GET /user-agent` request buffer parses to the expected request,
/// and that request routes to the plain-text response reflecting the
/// request's own user-agent value with its exact length.
pub proof fn lemma_user_agent_request_end_to_end(
    version: Seq<u8>,
    host_line: Seq<u8>,
    ua_value: Seq<u8>,
    body: Seq<u8>,
    dir: Option<Seq<u8>>,
)
    requires
        sep_free(version, sp_crlf()),
        sep_free(host_line, sp_crlf()),
        sep_free(ua_value, sp_crlf()),
        sep_free(body, sp_crlf()),
        sep_free(version, sp_space()),
        body.len() == 0 || body[body.len() - 1] != 0u8,
    ensures
        sp_parse(
            sp_request_buf(sp_get(), sp_user_agent_route(), version, host_line, ua_value, body),
        ) == Some(
            ReqView {
                method: sp_get(),
                path: sp_user_agent_route(),
                user_agent: ua_value,
                body,
            },
        ),
        sp_route(sp_get(), sp_user_agent_route(), ua_value, body, dir) == ActionView::Respond(
            sp_text_response(ua_value),
        ),
{
    lemma_token_bytes();
    lemma_parse_well_formed(sp_get(), sp_user_agent_route(), version, host_line, ua_value, body);
    let p = sp_user_agent_route();
    assert(p.len() != sp_root().len());
    if spec_starts_with(p, sp_echo()) {
        assert(p.take(sp_echo().len() as int)[1] == p[1]);
    }
    assert(p.take(p.len() as int) =~= p);
}

/// A `/files/{name}` request with a configured directory and any
/// method other than `GET` or `POST` is answered with the 405
/// response.
pub proof fn lemma_files_method_not_allowed(
    method: Seq<u8>,
    name: Seq<u8>,
    user_agent: Seq<u8>,
    content: Seq<u8>,
    dir: Seq<u8>,
)
    requires
        method != sp_get(),
        method != sp_post(),
    ensures
        sp_route(method, sp_files_slash() + name, user_agent, content, Some(dir))
            == ActionView::Respond(sp_method_not_allowed()),
{
    lemma_files_path(name);
}

} // verus!
