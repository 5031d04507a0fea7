//! Where a request is forwarded to on the backend.

use crate::text::{
    chars_of, decimal, extend_chars, push_decimal, string_of, strip_prefix_chars, strip_prefix_of,
};
use vstd::prelude::*;
use vstd::string::*;

verus! {

/// View of an optional text.
pub open spec fn opt_str_view(o: Option<&str>) -> Option<Seq<char>> {
    match o {
        Some(s) => Some(s@),
        None => None,
    }
}

/// The address of the backend, up to and including the slash that begins
/// the path.
pub open spec fn backend_root(port: u16) -> Seq<char> {
    "http://localhost:"@ + decimal(port as nat) + "/"@
}

/// A path without a prefix, if it begins with it; else the path.
pub open spec fn without_prefix(path: Seq<char>, prefix: Option<Seq<char>>) -> Seq<char> {
    match prefix {
        Some(p) => match strip_prefix_of(path, p) {
            Some(rest) => rest,
            None => path,
        },
        None => path,
    }
}

/// The address a request is forwarded to: the backend, then the target
/// prefix and a slash if there is a prefix, then path and query less the
/// source prefix.
pub open spec fn spec_forward_uri(
    port: u16,
    path_and_query: Seq<char>,
    strip_source_path_prefix: Option<Seq<char>>,
    prefix_target_path: Option<Seq<char>>,
) -> Seq<char> {
    let rest = without_prefix(path_and_query, strip_source_path_prefix);
    match prefix_target_path {
        Some(p) => backend_root(port) + p + "/"@ + rest,
        None => backend_root(port) + rest,
    }
}

/// The address a request is forwarded to.
pub fn forward_uri(
    port: u16,
    path_and_query: &str,
    strip_source_path_prefix: Option<&str>,
    prefix_target_path: Option<&str>,
) -> (uri: String)
    ensures
        uri@ == spec_forward_uri(
            port,
            path_and_query@,
            opt_str_view(strip_source_path_prefix),
            opt_str_view(prefix_target_path),
        ),
{
    let path = chars_of(path_and_query);
    let rest = match strip_source_path_prefix {
        Some(prefix) => match strip_prefix_chars(&path, &chars_of(prefix)) {
            Some(rest) => rest,
            None => path,
        },
        None => path,
    };
    let mut uri = chars_of("http://localhost:");
    push_decimal(&mut uri, port as u64);
    extend_chars(&mut uri, &chars_of("/"));
    match prefix_target_path {
        Some(prefix) => {
            extend_chars(&mut uri, &chars_of(prefix));
            extend_chars(&mut uri, &chars_of("/"));
        },
        None => {},
    }
    extend_chars(&mut uri, &rest);
    string_of(&uri)
}

/// The address an API request is forwarded to: what follows `/api/v1/` in
/// path and query, under `/v1/` on the backend.
pub fn forward_api_request(port: u16, path_and_query: &str) -> (uri: String)
    ensures
        uri@ == spec_forward_uri(port, path_and_query@, Some("/api/v1/"@), Some("v1"@)),
{
    forward_uri(port, path_and_query, Some("/api/v1/"), Some("v1"))
}

/// The address a request of the chat page is forwarded to: what follows
/// `/chat/` in path and query, at the root of the backend.
pub fn forward_ui_request(port: u16, path_and_query: &str) -> (uri: String)
    ensures
        uri@ == spec_forward_uri(port, path_and_query@, Some("/chat/"@), None),
{
    forward_uri(port, path_and_query, Some("/chat/"), None)
}

/// The address chat completions are posted to.
pub fn chat_completions_uri(port: u16) -> (uri: String)
    ensures
        uri@ == backend_root(port) + "v1/chat/completions"@,
{
    let mut uri = chars_of("http://localhost:");
    push_decimal(&mut uri, port as u64);
    extend_chars(&mut uri, &chars_of("/"));
    extend_chars(&mut uri, &chars_of("v1/chat/completions"));
    string_of(&uri)
}

/// The value of the `Authorization` header that carries a key.
pub fn bearer_header(api_key: &str) -> (value: String)
    ensures
        value@ == "Bearer "@ + api_key@,
        crate::gateway::bears_key(value@, api_key@),
{
    let mut value = String::from_str("Bearer ");
    value.append(api_key);
    proof {
        let p = "Bearer "@;
        assert(value@.subrange(0, 0 + p.len() as int) =~= p);
        assert(value@.subrange(p.len() as int, value@.len() as int) =~= api_key@);
    }
    value
}

} // verus!
