//! Routing and dispatch: from a parsed request to either a complete
//! response buffer or a file action for the surrounding program to
//! perform.
//!
//! Routing is by path prefix, in a fixed priority order: the root
//! path, then `/echo`, then `/user-agent`, then `/files`, and 404 for
//! everything else.  Prefix matching is deliberate: a path such as
//! `/echo-files` is handled by the echo route.

use vstd::prelude::*;

verus! {

use crate::bytes::{eq_bytes, spec_starts_with, spec_strip_prefix, starts_with, strip_prefix};
use crate::config::{spec_dir, Config};
use crate::response::{
    file_response,
    hello_response,
    sp_file_response,
    sp_hello_response,
    sp_text_response,
    text_response,
};
use crate::tokens::{
    created_bytes,
    echo_bytes,
    echo_slash_bytes,
    files_bytes,
    files_slash_bytes,
    get_bytes,
    method_not_allowed_bytes,
    not_found_bytes,
    post_bytes,
    root_bytes,
    server_error_bytes,
    sp_created,
    sp_echo,
    sp_echo_slash,
    sp_files,
    sp_files_slash,
    sp_get,
    sp_method_not_allowed,
    sp_not_found,
    sp_post,
    sp_root,
    sp_server_error,
    sp_user_agent_route,
    user_agent_route_bytes,
};

/// What the router asks of the connection handler: write a finished
/// response, or first read or write a file and then answer through
/// [`handle_get_file`] or [`handle_post_file`].
pub enum Action {
    /// A complete response buffer, ready to write to the socket.
    Respond(Vec<u8>),
    /// Read the file at this path, then build the response with
    /// [`handle_get_file`].
    ReadFile(Vec<u8>),
    /// Write these bytes to the file at this path, then build the
    /// response with [`handle_post_file`].
    WriteFile(Vec<u8>, Vec<u8>),
}

/// The mathematical shape of an [`Action`].
pub enum ActionView {
    Respond(Seq<u8>),
    ReadFile(Seq<u8>),
    WriteFile(Seq<u8>, Seq<u8>),
}

impl View for Action {
    type V = ActionView;

    open spec fn view(&self) -> ActionView {
        match self {
            Action::Respond(r) => ActionView::Respond(r@),
            Action::ReadFile(p) => ActionView::ReadFile(p@),
            Action::WriteFile(p, c) => ActionView::WriteFile(p@, c@),
        }
    }
}

/// The routing rules, in their priority order.  The target of a file
/// action is the configured directory, a path separator, and the
/// remainder of the path after `/files/`; with no directory
/// configured, a `/files` request is a configuration error answered
/// with the 500 response rather than a crash.
pub open spec fn sp_route(
    method: Seq<u8>,
    path: Seq<u8>,
    user_agent: Seq<u8>,
    content: Seq<u8>,
    dir: Option<Seq<u8>>,
) -> ActionView {
    if path == sp_root() {
        ActionView::Respond(sp_hello_response())
    } else if spec_starts_with(path, sp_echo()) {
        ActionView::Respond(sp_text_response(spec_strip_prefix(path, sp_echo_slash())))
    } else if spec_starts_with(path, sp_user_agent_route()) {
        ActionView::Respond(sp_text_response(user_agent))
    } else if spec_starts_with(path, sp_files()) {
        match dir {
            None => ActionView::Respond(sp_server_error()),
            Some(d) => {
                let target = d + sp_root() + spec_strip_prefix(path, sp_files_slash());
                if method == sp_get() {
                    ActionView::ReadFile(target)
                } else if method == sp_post() {
                    ActionView::WriteFile(target, content)
                } else {
                    ActionView::Respond(sp_method_not_allowed())
                }
            },
        }
    } else {
        ActionView::Respond(sp_not_found())
    }
}

/// Route one request, reading the serving directory from `config`.
pub fn handle_path(
    method: &[u8],
    path: &[u8],
    user_agent: &[u8],
    content: &[u8],
    config: &Config,
) -> (r: Action)
    ensures
        r@ == sp_route(method@, path@, user_agent@, content@, spec_dir(config)),
{
    let root = root_bytes();
    if eq_bytes(path, root.as_slice()) {
        return Action::Respond(hello_response());
    }
    let echo = echo_bytes();
    if starts_with(path, echo.as_slice()) {
        let echo_slash = echo_slash_bytes();
        let message = strip_prefix(path, echo_slash.as_slice());
        return Action::Respond(text_response(message.as_slice()));
    }
    let ua_route = user_agent_route_bytes();
    if starts_with(path, ua_route.as_slice()) {
        return Action::Respond(text_response(user_agent));
    }
    let files = files_bytes();
    if starts_with(path, files.as_slice()) {
        match &config.directory {
            None => {
                return Action::Respond(server_error_bytes());
            },
            Some(d) => {
                let mut target: Vec<u8> = Vec::new();
                crate::bytes::append_bytes(&mut target, d.as_str().as_bytes());
                crate::bytes::append_bytes(&mut target, root.as_slice());
                let files_slash = files_slash_bytes();
                let name = strip_prefix(path, files_slash.as_slice());
                crate::bytes::append_bytes(&mut target, name.as_slice());
                let get = get_bytes();
                if eq_bytes(method, get.as_slice()) {
                    return Action::ReadFile(target);
                }
                let post = post_bytes();
                if eq_bytes(method, post.as_slice()) {
                    let body = crate::bytes::subrange_vec(content, 0, content.len());
                    proof {
                        assert(content@.subrange(0, content@.len() as int) =~= content@);
                    }
                    return Action::WriteFile(target, body);
                }
                return Action::Respond(method_not_allowed_bytes());
            },
        }
    }
    Action::Respond(not_found_bytes())
}

/// Build the response for `GET /files/{name}` from the outcome of the
/// file read: the content of the file when it could be opened and
/// read, or nothing when it could not.
pub fn handle_get_file(content: Option<&Vec<u8>>) -> (r: Vec<u8>)
    ensures
        content matches Some(c) ==> r@ == sp_file_response(c@),
        content is None ==> r@ == sp_not_found(),
{
    match content {
        Some(c) => file_response(c.as_slice()),
        None => not_found_bytes(),
    }
}

/// Build the response for `POST /files/{name}` from the outcome of
/// the file write: created on success, and a 500 rather than a crash
/// when the file could not be written.
pub fn handle_post_file(written: bool) -> (r: Vec<u8>)
    ensures
        written ==> r@ == sp_created(),
        !written ==> r@ == sp_server_error(),
{
    if written {
        created_bytes()
    } else {
        server_error_bytes()
    }
}

} // verus!
