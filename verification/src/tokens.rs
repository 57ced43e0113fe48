//! The fixed byte strings of the protocol: separators, route
//! prefixes, method tokens, header fragments, and the complete
//! bodiless responses, each as a spec constant with its runtime
//! counterpart.

use vstd::prelude::*;

verus! {

/// `"\r\n"`: the HTTP line terminator.
pub open spec fn sp_crlf() -> Seq<u8> {
    seq![13u8, 10u8]
}

/// `"\r\n"` as a byte vector.
pub fn crlf_bytes() -> (r: Vec<u8>)
    ensures
        r@ == sp_crlf(),
{
    let r: Vec<u8> = vec![13, 10];
    proof {
        assert(r@ =~= sp_crlf());
    }
    r
}

/// `" "`: the request-line token separator.
pub open spec fn sp_space() -> Seq<u8> {
    seq![32u8]
}

/// `" "` as a byte vector.
pub fn space_bytes() -> (r: Vec<u8>)
    ensures
        r@ == sp_space(),
{
    let r: Vec<u8> = vec![32];
    proof {
        assert(r@ =~= sp_space());
    }
    r
}

/// `"/"`: the root path, also the path separator used in joins.
pub open spec fn sp_root() -> Seq<u8> {
    seq![47u8]
}

/// `"/"` as a byte vector.
pub fn root_bytes() -> (r: Vec<u8>)
    ensures
        r@ == sp_root(),
{
    let r: Vec<u8> = vec![47];
    proof {
        assert(r@ =~= sp_root());
    }
    r
}

/// `"/echo"`: the echo route prefix.
pub open spec fn sp_echo() -> Seq<u8> {
    seq![47u8, 101u8, 99u8, 104u8, 111u8]
}

/// `"/echo"` as a byte vector.
pub fn echo_bytes() -> (r: Vec<u8>)
    ensures
        r@ == sp_echo(),
{
    let r: Vec<u8> = vec![47, 101, 99, 104, 111];
    proof {
        assert(r@ =~= sp_echo());
    }
    r
}

/// `"/echo/"`: the echo payload prefix.
pub open spec fn sp_echo_slash() -> Seq<u8> {
    seq![47u8, 101u8, 99u8, 104u8, 111u8, 47u8]
}

/// `"/echo/"` as a byte vector.
pub fn echo_slash_bytes() -> (r: Vec<u8>)
    ensures
        r@ == sp_echo_slash(),
{
    let r: Vec<u8> = vec![47, 101, 99, 104, 111, 47];
    proof {
        assert(r@ =~= sp_echo_slash());
    }
    r
}

/// `"/user-agent"`: the user-agent route prefix.
pub open spec fn sp_user_agent_route() -> Seq<u8> {
    seq![47u8, 117u8, 115u8, 101u8, 114u8, 45u8, 97u8, 103u8, 101u8, 110u8, 116u8]
}

/// `"/user-agent"` as a byte vector.
pub fn user_agent_route_bytes() -> (r: Vec<u8>)
    ensures
        r@ == sp_user_agent_route(),
{
    let r: Vec<u8> = vec![47, 117, 115, 101, 114, 45, 97, 103, 101, 110, 116];
    proof {
        assert(r@ =~= sp_user_agent_route());
    }
    r
}

/// `"/files"`: the files route prefix.
pub open spec fn sp_files() -> Seq<u8> {
    seq![47u8, 102u8, 105u8, 108u8, 101u8, 115u8]
}

/// `"/files"` as a byte vector.
pub fn files_bytes() -> (r: Vec<u8>)
    ensures
        r@ == sp_files(),
{
    let r: Vec<u8> = vec![47, 102, 105, 108, 101, 115];
    proof {
        assert(r@ =~= sp_files());
    }
    r
}

/// `"/files/"`: the filename prefix of the files route.
pub open spec fn sp_files_slash() -> Seq<u8> {
    seq![47u8, 102u8, 105u8, 108u8, 101u8, 115u8, 47u8]
}

/// `"/files/"` as a byte vector.
pub fn files_slash_bytes() -> (r: Vec<u8>)
    ensures
        r@ == sp_files_slash(),
{
    let r: Vec<u8> = vec![47, 102, 105, 108, 101, 115, 47];
    proof {
        assert(r@ =~= sp_files_slash());
    }
    r
}

/// `"User-Agent: "`: the header prefix stripped from the user-agent line.
pub open spec fn sp_ua_prefix() -> Seq<u8> {
    seq![85u8, 115u8, 101u8, 114u8, 45u8, 65u8, 103u8, 101u8, 110u8, 116u8, 58u8, 32u8]
}

/// `"User-Agent: "` as a byte vector.
pub fn ua_prefix_bytes() -> (r: Vec<u8>)
    ensures
        r@ == sp_ua_prefix(),
{
    let r: Vec<u8> = vec![85, 115, 101, 114, 45, 65, 103, 101, 110, 116, 58, 32];
    proof {
        assert(r@ =~= sp_ua_prefix());
    }
    r
}

/// `"GET"`: the GET method token.
pub open spec fn sp_get() -> Seq<u8> {
    seq![71u8, 69u8, 84u8]
}

/// `"GET"` as a byte vector.
pub fn get_bytes() -> (r: Vec<u8>)
    ensures
        r@ == sp_get(),
{
    let r: Vec<u8> = vec![71, 69, 84];
    proof {
        assert(r@ =~= sp_get());
    }
    r
}

/// `"POST"`: the POST method token.
pub open spec fn sp_post() -> Seq<u8> {
    seq![80u8, 79u8, 83u8, 84u8]
}

/// `"POST"` as a byte vector.
pub fn post_bytes() -> (r: Vec<u8>)
    ensures
        r@ == sp_post(),
{
    let r: Vec<u8> = vec![80, 79, 83, 84];
    proof {
        assert(r@ =~= sp_post());
    }
    r
}

/// `"--directory"`: the command-line flag naming the serving directory.
pub open spec fn sp_dir_flag() -> Seq<u8> {
    seq![45u8, 45u8, 100u8, 105u8, 114u8, 101u8, 99u8, 116u8, 111u8, 114u8, 121u8]
}

/// `"--directory"` as a byte vector.
pub fn dir_flag_bytes() -> (r: Vec<u8>)
    ensures
        r@ == sp_dir_flag(),
{
    let r: Vec<u8> = vec![45, 45, 100, 105, 114, 101, 99, 116, 111, 114, 121];
    proof {
        assert(r@ =~= sp_dir_flag());
    }
    r
}

/// `"HTTP/1.1 200 OK\r\n"`: the success status line.
pub open spec fn sp_status_ok() -> Seq<u8> {
    seq![72u8, 84u8, 84u8, 80u8, 47u8, 49u8, 46u8, 49u8, 32u8, 50u8, 48u8, 48u8, 32u8, 79u8, 75u8, 13u8, 10u8]
}

/// `"HTTP/1.1 200 OK\r\n"` as a byte vector.
pub fn status_ok_bytes() -> (r: Vec<u8>)
    ensures
        r@ == sp_status_ok(),
{
    let r: Vec<u8> = vec![72, 84, 84, 80, 47, 49, 46, 49, 32, 50, 48, 48, 32, 79, 75, 13, 10];
    proof {
        assert(r@ =~= sp_status_ok());
    }
    r
}

/// `"Content-Type: text/plain\r\n"`: the plain-text content type header line.
pub open spec fn sp_ct_text() -> Seq<u8> {
    seq![67u8, 111u8, 110u8, 116u8, 101u8, 110u8, 116u8, 45u8, 84u8, 121u8, 112u8, 101u8, 58u8, 32u8, 116u8, 101u8, 120u8, 116u8, 47u8, 112u8, 108u8, 97u8, 105u8, 110u8, 13u8, 10u8]
}

/// `"Content-Type: text/plain\r\n"` as a byte vector.
pub fn ct_text_bytes() -> (r: Vec<u8>)
    ensures
        r@ == sp_ct_text(),
{
    let r: Vec<u8> = vec![67, 111, 110, 116, 101, 110, 116, 45, 84, 121, 112, 101, 58, 32, 116, 101, 120, 116, 47, 112, 108, 97, 105, 110, 13, 10];
    proof {
        assert(r@ =~= sp_ct_text());
    }
    r
}

/// `"Content-Type: application/octet-stream\r\n"`: the octet-stream content type header line.
pub open spec fn sp_ct_octet() -> Seq<u8> {
    seq![67u8, 111u8, 110u8, 116u8, 101u8, 110u8, 116u8, 45u8, 84u8, 121u8, 112u8, 101u8, 58u8, 32u8, 97u8, 112u8, 112u8, 108u8, 105u8, 99u8, 97u8, 116u8, 105u8, 111u8, 110u8, 47u8, 111u8, 99u8, 116u8, 101u8, 116u8, 45u8, 115u8, 116u8, 114u8, 101u8, 97u8, 109u8, 13u8, 10u8]
}

/// `"Content-Type: application/octet-stream\r\n"` as a byte vector.
pub fn ct_octet_bytes() -> (r: Vec<u8>)
    ensures
        r@ == sp_ct_octet(),
{
    let r: Vec<u8> = vec![67, 111, 110, 116, 101, 110, 116, 45, 84, 121, 112, 101, 58, 32, 97, 112, 112, 108, 105, 99, 97, 116, 105, 111, 110, 47, 111, 99, 116, 101, 116, 45, 115, 116, 114, 101, 97, 109, 13, 10];
    proof {
        assert(r@ =~= sp_ct_octet());
    }
    r
}

/// `"Content-Length: "`: the content length header name.
pub open spec fn sp_cl_prefix() -> Seq<u8> {
    seq![67u8, 111u8, 110u8, 116u8, 101u8, 110u8, 116u8, 45u8, 76u8, 101u8, 110u8, 103u8, 116u8, 104u8, 58u8, 32u8]
}

/// `"Content-Length: "` as a byte vector.
pub fn cl_prefix_bytes() -> (r: Vec<u8>)
    ensures
        r@ == sp_cl_prefix(),
{
    let r: Vec<u8> = vec![67, 111, 110, 116, 101, 110, 116, 45, 76, 101, 110, 103, 116, 104, 58, 32];
    proof {
        assert(r@ =~= sp_cl_prefix());
    }
    r
}

/// `"Hello, world!"`: the greeting body of the root route.
pub open spec fn sp_hello_body() -> Seq<u8> {
    seq![72u8, 101u8, 108u8, 108u8, 111u8, 44u8, 32u8, 119u8, 111u8, 114u8, 108u8, 100u8, 33u8]
}

/// `"Hello, world!"` as a byte vector.
pub fn hello_body_bytes() -> (r: Vec<u8>)
    ensures
        r@ == sp_hello_body(),
{
    let r: Vec<u8> = vec![72, 101, 108, 108, 111, 44, 32, 119, 111, 114, 108, 100, 33];
    proof {
        assert(r@ =~= sp_hello_body());
    }
    r
}

/// `"HTTP/1.1 404 Not Found\r\n\r\n"`: the complete bodiless 404 response.
pub open spec fn sp_not_found() -> Seq<u8> {
    seq![72u8, 84u8, 84u8, 80u8, 47u8, 49u8, 46u8, 49u8, 32u8, 52u8, 48u8, 52u8, 32u8, 78u8, 111u8, 116u8, 32u8, 70u8, 111u8, 117u8, 110u8, 100u8, 13u8, 10u8, 13u8, 10u8]
}

/// `"HTTP/1.1 404 Not Found\r\n\r\n"` as a byte vector.
pub fn not_found_bytes() -> (r: Vec<u8>)
    ensures
        r@ == sp_not_found(),
{
    let r: Vec<u8> = vec![72, 84, 84, 80, 47, 49, 46, 49, 32, 52, 48, 52, 32, 78, 111, 116, 32, 70, 111, 117, 110, 100, 13, 10, 13, 10];
    proof {
        assert(r@ =~= sp_not_found());
    }
    r
}

/// `"HTTP/1.1 405 Method Not Allowed\r\n\r\n"`: the complete bodiless 405 response.
pub open spec fn sp_method_not_allowed() -> Seq<u8> {
    seq![72u8, 84u8, 84u8, 80u8, 47u8, 49u8, 46u8, 49u8, 32u8, 52u8, 48u8, 53u8, 32u8, 77u8, 101u8, 116u8, 104u8, 111u8, 100u8, 32u8, 78u8, 111u8, 116u8, 32u8, 65u8, 108u8, 108u8, 111u8, 119u8, 101u8, 100u8, 13u8, 10u8, 13u8, 10u8]
}

/// `"HTTP/1.1 405 Method Not Allowed\r\n\r\n"` as a byte vector.
pub fn method_not_allowed_bytes() -> (r: Vec<u8>)
    ensures
        r@ == sp_method_not_allowed(),
{
    let r: Vec<u8> = vec![72, 84, 84, 80, 47, 49, 46, 49, 32, 52, 48, 53, 32, 77, 101, 116, 104, 111, 100, 32, 78, 111, 116, 32, 65, 108, 108, 111, 119, 101, 100, 13, 10, 13, 10];
    proof {
        assert(r@ =~= sp_method_not_allowed());
    }
    r
}

/// `"HTTP/1.1 201 Created\r\n\r\n"`: the complete bodiless 201 response.
pub open spec fn sp_created() -> Seq<u8> {
    seq![72u8, 84u8, 84u8, 80u8, 47u8, 49u8, 46u8, 49u8, 32u8, 50u8, 48u8, 49u8, 32u8, 67u8, 114u8, 101u8, 97u8, 116u8, 101u8, 100u8, 13u8, 10u8, 13u8, 10u8]
}

/// `"HTTP/1.1 201 Created\r\n\r\n"` as a byte vector.
pub fn created_bytes() -> (r: Vec<u8>)
    ensures
        r@ == sp_created(),
{
    let r: Vec<u8> = vec![72, 84, 84, 80, 47, 49, 46, 49, 32, 50, 48, 49, 32, 67, 114, 101, 97, 116, 101, 100, 13, 10, 13, 10];
    proof {
        assert(r@ =~= sp_created());
    }
    r
}

/// `"HTTP/1.1 500 Internal Server Error\r\n\r\n"`: the complete bodiless 500 response.
pub open spec fn sp_server_error() -> Seq<u8> {
    seq![72u8, 84u8, 84u8, 80u8, 47u8, 49u8, 46u8, 49u8, 32u8, 53u8, 48u8, 48u8, 32u8, 73u8, 110u8, 116u8, 101u8, 114u8, 110u8, 97u8, 108u8, 32u8, 83u8, 101u8, 114u8, 118u8, 101u8, 114u8, 32u8, 69u8, 114u8, 114u8, 111u8, 114u8, 13u8, 10u8, 13u8, 10u8]
}

/// `"HTTP/1.1 500 Internal Server Error\r\n\r\n"` as a byte vector.
pub fn server_error_bytes() -> (r: Vec<u8>)
    ensures
        r@ == sp_server_error(),
{
    let r: Vec<u8> = vec![72, 84, 84, 80, 47, 49, 46, 49, 32, 53, 48, 48, 32, 73, 110, 116, 101, 114, 110, 97, 108, 32, 83, 101, 114, 118, 101, 114, 32, 69, 114, 114, 111, 114, 13, 10, 13, 10];
    proof {
        assert(r@ =~= sp_server_error());
    }
    r
}

/// `"HTTP/1.1 400 Bad Request\r\n\r\n"`: the complete bodiless 400 response.
pub open spec fn sp_bad_request() -> Seq<u8> {
    seq![72u8, 84u8, 84u8, 80u8, 47u8, 49u8, 46u8, 49u8, 32u8, 52u8, 48u8, 48u8, 32u8, 66u8, 97u8, 100u8, 32u8, 82u8, 101u8, 113u8, 117u8, 101u8, 115u8, 116u8, 13u8, 10u8, 13u8, 10u8]
}

/// `"HTTP/1.1 400 Bad Request\r\n\r\n"` as a byte vector.
pub fn bad_request_bytes() -> (r: Vec<u8>)
    ensures
        r@ == sp_bad_request(),
{
    let r: Vec<u8> = vec![72, 84, 84, 80, 47, 49, 46, 49, 32, 52, 48, 48, 32, 66, 97, 100, 32, 82, 101, 113, 117, 101, 115, 116, 13, 10, 13, 10];
    proof {
        assert(r@ =~= sp_bad_request());
    }
    r
}

} // verus!
