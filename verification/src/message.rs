//! The canonical message: the exact text over which a request is signed.

use vstd::prelude::*;
use crate::decimal::decimal;
use crate::decimal::decimal_i64;
use crate::decimal::lemma_decimal_injective;

verus! {

/// The verb of a request.
#[derive(Clone, Copy, Debug, PartialEq, Eq, Structural)]
pub enum Method {
    GET,
    POST,
    PUT,
    DELETE,
}

impl Method {
    /// The verb in upper case, as it is sent and signed.
    pub open spec fn name(self) -> Seq<char> {
        match self {
            Method::GET => seq!['G', 'E', 'T'],
            Method::POST => seq!['P', 'O', 'S', 'T'],
            Method::PUT => seq!['P', 'U', 'T'],
            Method::DELETE => seq!['D', 'E', 'L', 'E', 'T', 'E'],
        }
    }

    /// The verb in upper case.
    pub fn as_str(&self) -> (text: &'static str)
        ensures
            text@ == self.name(),
    {
        proof {
            reveal_strlit("GET");
            reveal_strlit("POST");
            reveal_strlit("PUT");
            reveal_strlit("DELETE");
        }
        let text = match self {
            Method::GET => "GET",
            Method::POST => "POST",
            Method::PUT => "PUT",
            Method::DELETE => "DELETE",
        };
        assert(text@ =~= self.name());
        text
    }
}

/// What a query adds to the message: a question mark and the query, or
/// nothing where there is no query.
pub open spec fn query_part(query: Option<Seq<char>>) -> Seq<char> {
    match query {
        Some(q) => seq!['?'] + q,
        None => Seq::empty(),
    }
}

/// The canonical message of a request: the timestamp in decimal, the verb,
/// the path, the query part and the body, one after the other with nothing
/// between them.
pub open spec fn canonical_message(
    timestamp: int,
    method: Method,
    path: Seq<char>,
    query: Option<Seq<char>>,
    body: Seq<char>,
) -> Seq<char> {
    decimal(timestamp) + method.name() + path + query_part(query) + body
}

/// The views of an optional text.
pub open spec fn option_view(text: Option<&str>) -> Option<Seq<char>> {
    match text {
        Some(t) => Some(t@),
        None => None,
    }
}

/// Builds the canonical message of a request.
pub fn build(timestamp: i64, method: Method, path: &str, query: Option<&str>, body: &str) -> (message:
    String)
    ensures
        message@ == canonical_message(timestamp as int, method, path@, option_view(query), body@),
{
    let mut message = decimal_i64(timestamp);
    message.append(method.as_str());
    message.append(path);
    match query {
        Some(q) => {
            proof {
                reveal_strlit("?");
            }
            message.append("?");
            message.append(q);
            assert(message@ =~= decimal(timestamp as int) + method.name() + path@ + (seq!['?'] + q@));
        },
        None => {
            assert(message@ =~= decimal(timestamp as int) + method.name() + path@ + Seq::<char>::empty());
        },
    }
    message.append(body);
    message
}

/// A text that is followed by the same text on both sides of an equation
/// is the same on both sides.
pub proof fn lemma_same_suffix(a: Seq<char>, b: Seq<char>, rest: Seq<char>)
    requires
        a + rest == b + rest,
    ensures
        a == b,
{
    assert((a + rest).len() == a.len() + rest.len());
    assert((b + rest).len() == b.len() + rest.len());
    assert((a + rest).subrange(0, a.len() as int) =~= a);
    assert((b + rest).subrange(0, b.len() as int) =~= b);
}

/// A text that follows the same text on both sides of an equation is the
/// same on both sides.
pub proof fn lemma_same_prefix(start: Seq<char>, a: Seq<char>, b: Seq<char>)
    requires
        start + a == start + b,
    ensures
        a == b,
{
    assert((start + a).len() == start.len() + a.len());
    assert((start + b).len() == start.len() + b.len());
    assert((start + a).subrange(start.len() as int, (start + a).len() as int) =~= a);
    assert((start + b).subrange(start.len() as int, (start + b).len() as int) =~= b);
}

/// Two verbs with the same name are the same verb.
pub proof fn lemma_method_name_injective(a: Method, b: Method)
    requires
        a.name() == b.name(),
    ensures
        a == b,
{
    assert(a.name().len() == b.name().len());
    assert(a.name()[0] == b.name()[0]);
}

/// Two requests that differ in the timestamp alone have different
/// canonical messages.
pub proof fn lemma_message_binds_timestamp(
    first: int,
    second: int,
    method: Method,
    path: Seq<char>,
    query: Option<Seq<char>>,
    body: Seq<char>,
)
    requires
        canonical_message(first, method, path, query, body) == canonical_message(
            second,
            method,
            path,
            query,
            body,
        ),
    ensures
        first == second,
{
    let rest = method.name() + path + query_part(query) + body;
    assert(canonical_message(first, method, path, query, body) =~= decimal(first) + rest);
    assert(canonical_message(second, method, path, query, body) =~= decimal(second) + rest);
    lemma_same_suffix(decimal(first), decimal(second), rest);
    lemma_decimal_injective(first, second);
}

/// Two requests that differ in the verb alone have different canonical
/// messages.
pub proof fn lemma_message_binds_method(
    timestamp: int,
    first: Method,
    second: Method,
    path: Seq<char>,
    query: Option<Seq<char>>,
    body: Seq<char>,
)
    requires
        canonical_message(timestamp, first, path, query, body) == canonical_message(
            timestamp,
            second,
            path,
            query,
            body,
        ),
    ensures
        first == second,
{
    let rest = path + query_part(query) + body;
    assert(canonical_message(timestamp, first, path, query, body) =~= decimal(timestamp) + (
    first.name() + rest));
    assert(canonical_message(timestamp, second, path, query, body) =~= decimal(timestamp) + (
    second.name() + rest));
    lemma_same_prefix(decimal(timestamp), first.name() + rest, second.name() + rest);
    lemma_same_suffix(first.name(), second.name(), rest);
    lemma_method_name_injective(first, second);
}

/// Two requests that differ in the path alone have different canonical
/// messages.
pub proof fn lemma_message_binds_path(
    timestamp: int,
    method: Method,
    first: Seq<char>,
    second: Seq<char>,
    query: Option<Seq<char>>,
    body: Seq<char>,
)
    requires
        canonical_message(timestamp, method, first, query, body) == canonical_message(
            timestamp,
            method,
            second,
            query,
            body,
        ),
    ensures
        first == second,
{
    let start = decimal(timestamp) + method.name();
    let rest = query_part(query) + body;
    assert(canonical_message(timestamp, method, first, query, body) =~= start + (first + rest));
    assert(canonical_message(timestamp, method, second, query, body) =~= start + (second + rest));
    lemma_same_prefix(start, first + rest, second + rest);
    lemma_same_suffix(first, second, rest);
}

/// Two requests that differ in the query alone, be it in its presence or
/// in its text, have different canonical messages.
pub proof fn lemma_message_binds_query(
    timestamp: int,
    method: Method,
    path: Seq<char>,
    first: Option<Seq<char>>,
    second: Option<Seq<char>>,
    body: Seq<char>,
)
    requires
        canonical_message(timestamp, method, path, first, body) == canonical_message(
            timestamp,
            method,
            path,
            second,
            body,
        ),
    ensures
        first == second,
{
    let start = decimal(timestamp) + method.name() + path;
    assert(canonical_message(timestamp, method, path, first, body) =~= start + (query_part(first)
        + body));
    assert(canonical_message(timestamp, method, path, second, body) =~= start + (query_part(second)
        + body));
    lemma_same_prefix(start, query_part(first) + body, query_part(second) + body);
    lemma_same_suffix(query_part(first), query_part(second), body);
    match (first, second) {
        (Some(a), Some(b)) => {
            lemma_same_prefix(seq!['?'], a, b);
        },
        (Some(a), None) => {
            assert(query_part(first).len() == 1 + a.len());
            assert(query_part(second).len() == 0);
        },
        (None, Some(b)) => {
            assert(query_part(second).len() == 1 + b.len());
            assert(query_part(first).len() == 0);
        },
        (None, None) => {},
    }
}

/// Two requests that differ in the body alone have different canonical
/// messages.
pub proof fn lemma_message_binds_body(
    timestamp: int,
    method: Method,
    path: Seq<char>,
    query: Option<Seq<char>>,
    first: Seq<char>,
    second: Seq<char>,
)
    requires
        canonical_message(timestamp, method, path, query, first) == canonical_message(
            timestamp,
            method,
            path,
            query,
            second,
        ),
    ensures
        first == second,
{
    let start = decimal(timestamp) + method.name() + path + query_part(query);
    lemma_same_prefix(start, first, second);
}

} // verus!
