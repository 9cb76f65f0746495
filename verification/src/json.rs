//! The JSON text that the library frames itself, and the outside JSON types that it
//! carries through unread.

use vstd::prelude::*;

verus! {

/// A JSON value of `serde_json`, carried through unread.
#[verifier::external_type_specification]
#[verifier::external_body]
pub struct ExJsonValue(serde_json::Value);

/// The error type of `serde_json`.
#[verifier::external_type_specification]
#[verifier::external_body]
pub struct ExJsonError(serde_json::Error);

/// Whether `c` is a character that a JSON string literal must escape: a quote,
/// a backslash, or a control character below U+0020.
pub open spec fn needs_json_escape(c: char) -> bool {
    c == '"' || c == '\\' || (c as u32) < 0x20
}

/// The lowercase hexadecimal digit of `n`, for `0 <= n < 16`.
pub open spec fn hex_digit(n: int) -> char {
    let digits = seq!['0', '1', '2', '3', '4', '5', '6', '7', '8', '9', 'a', 'b', 'c', 'd', 'e', 'f'];
    digits[n]
}

/// How a JSON string literal writes the character `c`: a quote and a backslash
/// behind a backslash; backspace, tab, line feed, form feed and carriage return as
/// `\b`, `\t`, `\n`, `\f`, `\r`; any other character below U+0020 as `\u00` and two
/// lowercase hexadecimal digits; every other character as itself.
pub open spec fn json_escaped_char(c: char) -> Seq<char> {
    let u = c as u32;
    if c == '"' {
        seq!['\\', '"']
    } else if c == '\\' {
        seq!['\\', '\\']
    } else if u == 0x08 {
        seq!['\\', 'b']
    } else if u == 0x09 {
        seq!['\\', 't']
    } else if u == 0x0A {
        seq!['\\', 'n']
    } else if u == 0x0C {
        seq!['\\', 'f']
    } else if u == 0x0D {
        seq!['\\', 'r']
    } else if u < 0x20 {
        seq!['\\', 'u', '0', '0', hex_digit((u / 16) as int), hex_digit((u % 16) as int)]
    } else {
        seq![c]
    }
}

/// The characters of `s`, each written as a JSON string literal writes it.
pub open spec fn json_escaped(s: Seq<char>) -> Seq<char>
    decreases s.len(),
{
    if s.len() == 0 {
        Seq::<char>::empty()
    } else {
        json_escaped(s.drop_last()) + json_escaped_char(s.last())
    }
}

/// The JSON string literal of the text `s`: its escaped characters between quotes.
pub open spec fn json_string_literal(s: Seq<char>) -> Seq<char> {
    seq!['"'] + json_escaped(s) + seq!['"']
}

/// Where no character of `s` needs escaping, its escaped form is `s` itself.
pub proof fn lemma_json_escaped_plain(s: Seq<char>)
    requires
        forall|i: int| 0 <= i < s.len() ==> !needs_json_escape(#[trigger] s[i]),
    ensures
        json_escaped(s) == s,
    decreases s.len(),
{
    if s.len() > 0 {
        let p = s.drop_last();
        assert forall|i: int| 0 <= i < p.len() implies !needs_json_escape(#[trigger] p[i]) by {
            assert(p[i] == s[i]);
        }
        lemma_json_escaped_plain(p);
        assert(!needs_json_escape(s[s.len() - 1]));
        assert(p.push(s.last()) =~= s);
    }
}

/// `serde_json::to_string` applied to a `&str`. The contract claims that the call
/// succeeds (serialising a string into memory cannot fail) and that the text is
/// the JSON string literal of the input: each character escaped as
/// `json_escaped_char` says, between two quotes.
#[verifier::external_body]
fn json_quote(s: &str) -> (r: Result<String, serde_json::Error>)
    ensures
        r is Ok,
        r matches Ok(t) ==> t@ == json_string_literal(s@),
{
    serde_json::to_string(s)
}

/// The text that opens a GraphQL request body, up to the query's literal.
pub const GRAPHQL_BODY_OPEN: &'static str = "{\"query\":";

/// The text that closes a GraphQL request body.
pub const GRAPHQL_BODY_CLOSE: &'static str = "}";

/// The JSON body of a GraphQL request: an object whose one member `query`
/// holds the query text, written compactly as `serde_json` writes it.
pub open spec fn graphql_body_text(query: Seq<char>) -> Seq<char> {
    GRAPHQL_BODY_OPEN@ + json_string_literal(query) + GRAPHQL_BODY_CLOSE@
}

/// The JSON body `{"query":"..."}` of a GraphQL request for `query`.
pub fn graphql_request_body(query: &str) -> (body: String)
    ensures
        body@ == graphql_body_text(query@),
        (forall|i: int| 0 <= i < query@.len() ==> !needs_json_escape(#[trigger] query@[i])) ==> body@
            == GRAPHQL_BODY_OPEN@ + seq!['"'] + query@ + seq!['"'] + GRAPHQL_BODY_CLOSE@,
{
    let mut body = String::from_str(GRAPHQL_BODY_OPEN);
    match json_quote(query) {
        Ok(literal) => {
            body.append(literal.as_str());
        },
        Err(_) => {},
    }
    body.append(GRAPHQL_BODY_CLOSE);
    proof {
        if forall|i: int| 0 <= i < query@.len() ==> !needs_json_escape(#[trigger] query@[i]) {
            lemma_json_escaped_plain(query@);
        }
    }
    body
}

} // verus!
