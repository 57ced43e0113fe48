use http_server::args::directory_from_args;
use http_server::parse::parse_request;
use http_server::routes::{handle_get_file, handle_path, handle_post_file, Action};
use http_server::Config;

fn config_with(dir: &str) -> Config {
    Config {
        directory: Some(dir.to_string()),
    }
}

fn no_dir_config() -> Config {
    Config::new()
}

fn dispatch(raw: &[u8], config: &Config) -> Action {
    let req = parse_request(raw).expect("request should parse");
    handle_path(&req.method, &req.path, &req.user_agent, &req.body, config)
}

fn respond_bytes(raw: &[u8], config: &Config) -> Vec<u8> {
    match dispatch(raw, config) {
        Action::Respond(r) => r,
        _ => panic!("expected an immediate response"),
    }
}

#[test]
fn root_returns_hello_world() {
    let raw = b"GET / HTTP/1.1\r\nHost: localhost\r\nUser-Agent: curl/8.0\r\n\r\n";
    let r = respond_bytes(raw, &no_dir_config());
    assert_eq!(r, b"HTTP/1.1 200 OK\r\n\r\nHello, world!\r\n".to_vec());
}

#[test]
fn root_ignores_method_and_headers() {
    let raw = b"DELETE / HTTP/1.1\r\nHost: x\r\nX-Whatever: y\r\n\r\n";
    let r = respond_bytes(raw, &config_with("/srv"));
    assert_eq!(r, b"HTTP/1.1 200 OK\r\n\r\nHello, world!\r\n".to_vec());
}

#[test]
fn echo_returns_payload_with_exact_length() {
    let raw = b"GET /echo/abc HTTP/1.1\r\nHost: h\r\nUser-Agent: c\r\n\r\n";
    let r = respond_bytes(raw, &no_dir_config());
    assert_eq!(
        r,
        b"HTTP/1.1 200 OK\r\nContent-Type: text/plain\r\nContent-Length: 3\r\n\r\nabc".to_vec()
    );
}

#[test]
fn echo_keeps_embedded_slashes() {
    let raw = b"GET /echo/a/b/c HTTP/1.1\r\nHost: h\r\nUser-Agent: c\r\n\r\n";
    let r = respond_bytes(raw, &no_dir_config());
    assert_eq!(
        r,
        b"HTTP/1.1 200 OK\r\nContent-Type: text/plain\r\nContent-Length: 5\r\n\r\na/b/c".to_vec()
    );
}

#[test]
fn echo_empty_payload_has_length_zero() {
    let raw = b"GET /echo/ HTTP/1.1\r\nHost: h\r\nUser-Agent: c\r\n\r\n";
    let r = respond_bytes(raw, &no_dir_config());
    assert_eq!(
        r,
        b"HTTP/1.1 200 OK\r\nContent-Type: text/plain\r\nContent-Length: 0\r\n\r\n".to_vec()
    );
}

#[test]
fn echo_prefix_matching_catches_echo_dash_paths() {
    // prefix matching, not segment matching: /echo-files is the echo
    // route, and with no "/echo/" prefix present the whole path is the
    // payload
    let raw = b"GET /echo-files HTTP/1.1\r\nHost: h\r\nUser-Agent: c\r\n\r\n";
    let r = respond_bytes(raw, &no_dir_config());
    assert_eq!(
        r,
        b"HTTP/1.1 200 OK\r\nContent-Type: text/plain\r\nContent-Length: 11\r\n\r\n/echo-files".to_vec()
    );
}

#[test]
fn echo_length_in_decimal_for_longer_payloads() {
    let body = "x".repeat(123);
    let raw = format!(
        "GET /echo/{} HTTP/1.1\r\nHost: h\r\nUser-Agent: c\r\n\r\n",
        body
    );
    let r = respond_bytes(raw.as_bytes(), &no_dir_config());
    let expected = format!(
        "HTTP/1.1 200 OK\r\nContent-Type: text/plain\r\nContent-Length: 123\r\n\r\n{}",
        body
    );
    assert_eq!(r, expected.into_bytes());
}

#[test]
fn user_agent_is_reflected() {
    // the parser reads the third line as the User-Agent line, under
    // the common Host-then-User-Agent header ordering
    let raw = b"GET /user-agent HTTP/1.1\r\nHost: h\r\nUser-Agent: test-client/1.0\r\n\r\n";
    let r = respond_bytes(raw, &no_dir_config());
    assert_eq!(
        r,
        b"HTTP/1.1 200 OK\r\nContent-Type: text/plain\r\nContent-Length: 15\r\n\r\ntest-client/1.0"
            .to_vec()
    );
}

#[test]
fn user_agent_line_without_prefix_is_taken_verbatim() {
    let raw = b"GET /user-agent HTTP/1.1\r\nHost: h\r\nsomething-else\r\n\r\n";
    let r = respond_bytes(raw, &no_dir_config());
    assert_eq!(
        r,
        b"HTTP/1.1 200 OK\r\nContent-Type: text/plain\r\nContent-Length: 14\r\n\r\nsomething-else"
            .to_vec()
    );
}

#[test]
fn unknown_path_is_not_found_with_empty_body() {
    let raw = b"GET /nothing-here HTTP/1.1\r\nHost: h\r\nUser-Agent: c\r\n\r\n";
    let r = respond_bytes(raw, &config_with("/srv"));
    assert_eq!(r, b"HTTP/1.1 404 Not Found\r\n\r\n".to_vec());
}

#[test]
fn files_get_asks_for_the_joined_path() {
    let raw = b"GET /files/hello.txt HTTP/1.1\r\nHost: h\r\nUser-Agent: c\r\n\r\n";
    match dispatch(raw, &config_with("/tmp/data")) {
        Action::ReadFile(path) => assert_eq!(path, b"/tmp/data/hello.txt".to_vec()),
        _ => panic!("expected a file read"),
    }
}

#[test]
fn files_post_round_trip_scenario() {
    // directory /tmp/data; POST /files/hello.txt with body abc, then
    // GET /files/hello.txt whose read returns the written bytes
    let config = config_with("/tmp/data");
    let post = b"POST /files/hello.txt HTTP/1.1\r\nHost: h\r\nUser-Agent: c\r\n\r\nabc";
    let (path, content) = match dispatch(post, &config) {
        Action::WriteFile(path, content) => (path, content),
        _ => panic!("expected a file write"),
    };
    assert_eq!(path, b"/tmp/data/hello.txt".to_vec());
    assert_eq!(content, b"abc".to_vec());
    assert_eq!(
        handle_post_file(true),
        b"HTTP/1.1 201 Created\r\n\r\n".to_vec()
    );
    let get = b"GET /files/hello.txt HTTP/1.1\r\nHost: h\r\nUser-Agent: c\r\n\r\n";
    match dispatch(get, &config) {
        Action::ReadFile(read_path) => assert_eq!(read_path, path),
        _ => panic!("expected a file read"),
    }
    let r = handle_get_file(Some(&content));
    assert_eq!(
        r,
        b"HTTP/1.1 200 OK\r\nContent-Type: application/octet-stream\r\nContent-Length: 3\r\n\r\nabc\r\n"
            .to_vec()
    );
}

#[test]
fn files_get_missing_file_is_not_found_with_empty_body() {
    assert_eq!(
        handle_get_file(None),
        b"HTTP/1.1 404 Not Found\r\n\r\n".to_vec()
    );
}

#[test]
fn files_put_is_method_not_allowed() {
    let raw = b"PUT /files/hello.txt HTTP/1.1\r\nHost: h\r\nUser-Agent: c\r\n\r\nabc";
    let r = respond_bytes(raw, &config_with("/tmp/data"));
    assert_eq!(r, b"HTTP/1.1 405 Method Not Allowed\r\n\r\n".to_vec());
}

#[test]
fn files_delete_is_method_not_allowed() {
    let raw = b"DELETE /files/hello.txt HTTP/1.1\r\nHost: h\r\nUser-Agent: c\r\n\r\n";
    let r = respond_bytes(raw, &config_with("/tmp/data"));
    assert_eq!(r, b"HTTP/1.1 405 Method Not Allowed\r\n\r\n".to_vec());
}

#[test]
fn files_without_configured_directory_is_server_error() {
    let raw = b"GET /files/hello.txt HTTP/1.1\r\nHost: h\r\nUser-Agent: c\r\n\r\n";
    let r = respond_bytes(raw, &no_dir_config());
    assert_eq!(r, b"HTTP/1.1 500 Internal Server Error\r\n\r\n".to_vec());
}

#[test]
fn failed_file_write_is_server_error() {
    assert_eq!(
        handle_post_file(false),
        b"HTTP/1.1 500 Internal Server Error\r\n\r\n".to_vec()
    );
}

#[test]
fn body_keeps_content_after_last_crlf_and_drops_padding() {
    let mut raw = b"POST /files/f HTTP/1.1\r\nHost: h\r\nUser-Agent: c\r\n\r\nabc".to_vec();
    raw.extend(std::iter::repeat(0u8).take(16));
    match dispatch(&raw, &config_with("/d")) {
        Action::WriteFile(_, content) => assert_eq!(content, b"abc".to_vec()),
        _ => panic!("expected a file write"),
    }
}

#[test]
fn too_few_lines_is_malformed() {
    assert!(parse_request(b"GET / HTTP/1.1").is_none());
    assert!(parse_request(b"GET / HTTP/1.1\r\nHost: h").is_none());
    assert!(parse_request(b"").is_none());
}

#[test]
fn request_line_with_one_token_is_malformed() {
    assert!(parse_request(b"GET\r\nHost: h\r\nUser-Agent: c\r\n\r\n").is_none());
}

#[test]
fn parse_extracts_all_fields() {
    let req = parse_request(b"POST /files/x HTTP/1.1\r\nHost: h\r\nUser-Agent: ua\r\n\r\nbody")
        .expect("should parse");
    assert_eq!(req.method, b"POST".to_vec());
    assert_eq!(req.path, b"/files/x".to_vec());
    assert_eq!(req.user_agent, b"ua".to_vec());
    assert_eq!(req.body, b"body".to_vec());
}

#[test]
fn directory_flag_takes_the_next_argument() {
    let args = vec!["server".to_string(), "--directory".to_string(), "/tmp/data".to_string()];
    assert_eq!(directory_from_args(&args), Some("/tmp/data".to_string()));
}

#[test]
fn directory_flag_is_case_insensitive() {
    let args = vec!["server".to_string(), "--DIRECTORY".to_string(), "/d".to_string()];
    assert_eq!(directory_from_args(&args), Some("/d".to_string()));
}

#[test]
fn missing_directory_flag_leaves_directory_unset() {
    let args = vec!["server".to_string(), "/tmp/data".to_string()];
    assert_eq!(directory_from_args(&args), None);
}

#[test]
fn trailing_directory_flag_has_no_value() {
    let args = vec!["server".to_string(), "--directory".to_string()];
    assert_eq!(directory_from_args(&args), None);
}

#[test]
fn last_directory_flag_wins() {
    let args = vec![
        "server".to_string(),
        "--directory".to_string(),
        "/a".to_string(),
        "--directory".to_string(),
        "/b".to_string(),
    ];
    assert_eq!(directory_from_args(&args), Some("/b".to_string()));
}

#[test]
fn new_config_has_no_directory() {
    assert!(Config::new().directory.is_none());
}

#[test]
fn malformed_request_gets_the_bad_request_response() {
    // what the connection handler writes when parsing fails
    assert!(parse_request(b"nonsense").is_none());
    assert_eq!(
        http_server::tokens::bad_request_bytes(),
        b"HTTP/1.1 400 Bad Request\r\n\r\n".to_vec()
    );
}
