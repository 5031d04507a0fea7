//! Normalisation of the body of a chat-completion request before it is
//! decoded.

use crate::text::{
    chars_of, contains, contains_chars, ends_with, ends_with_chars, extend_chars, replace_all,
    replace_all_chars, string_of, trim_chars, trim_of, CharClass,
};
use vstd::prelude::*;
use vstd::string::*;

verus! {

/// The member that names the model, put in front of the messages.
pub open spec fn model_member(model_alias: Seq<char>) -> Seq<char> {
    "\"model\":\""@ + model_alias + "\",\"messages\":["@
}

/// The body without a `max_tokens` of -1, which the backend rejects.
pub open spec fn without_unbounded_max_tokens(body: Seq<char>) -> Seq<char> {
    replace_all(
        replace_all(body, ",\"max_tokens\":-1"@, Seq::empty()),
        "\"max_tokens\":-1,"@,
        Seq::empty(),
    )
}

/// The normalised body: ASCII white space around it removed, a `max_tokens`
/// of -1 removed, and the model named in front of the messages if the body
/// names none.
pub open spec fn spec_normalize(body: Seq<char>, model_alias: Seq<char>) -> Seq<char> {
    let cleaned = without_unbounded_max_tokens(trim_of(body, CharClass::AsciiSpace));
    if contains(cleaned, "\"model\":"@) {
        cleaned
    } else {
        replace_all(cleaned, "\"messages\":["@, model_member(model_alias))
    }
}

/// Whether a request came from the chat page, going by its `Referer`.
pub open spec fn spec_sent_from_ui(referer: Option<Seq<char>>) -> bool {
    match referer {
        Some(r) => ends_with(r, "/chat"@),
        None => false,
    }
}

/// Normalises the body of a chat-completion request.
pub fn normalize_chat_body(body: &str, model_alias: &str) -> (r: String)
    ensures
        r@ == spec_normalize(body@, model_alias@),
{
    let trimmed = trim_chars(&chars_of(body), CharClass::AsciiSpace);
    let empty: Vec<char> = Vec::new();
    assert(empty@ =~= Seq::<char>::empty());
    proof {
        reveal_strlit(",\"max_tokens\":-1");
        reveal_strlit("\"max_tokens\":-1,");
        reveal_strlit("\"messages\":[");
    }
    let first = replace_all_chars(&trimmed, &chars_of(",\"max_tokens\":-1"), &empty);
    let cleaned = replace_all_chars(&first, &chars_of("\"max_tokens\":-1,"), &empty);
    if contains_chars(&cleaned, &chars_of("\"model\":")) {
        string_of(&cleaned)
    } else {
        let mut member = chars_of("\"model\":\"");
        extend_chars(&mut member, &chars_of(model_alias));
        extend_chars(&mut member, &chars_of("\",\"messages\":["));
        string_of(&replace_all_chars(&cleaned, &chars_of("\"messages\":["), &member))
    }
}

/// Whether a request came from the chat page, going by its `Referer`.
pub fn is_sent_from_ui(referer: Option<&str>) -> (r: bool)
    ensures
        r == spec_sent_from_ui(crate::forward::opt_str_view(referer)),
{
    match referer {
        Some(referer) => ends_with_chars(&chars_of(referer), &chars_of("/chat")),
        None => false,
    }
}

/// The model a decoded request is routed by: the one it names, unless it
/// came from the chat page, which always gets the model given.
pub fn routed_model(sent_from_ui: bool, named: String, model_alias: &str) -> (model: String)
    ensures
        model@ == if sent_from_ui {
            model_alias@
        } else {
            named@
        },
{
    if sent_from_ui {
        String::from_str(model_alias)
    } else {
        named
    }
}

} // verus!
