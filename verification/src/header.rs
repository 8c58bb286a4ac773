//! Request headers: the fixed protocol headers and the signed triple.

use vstd::prelude::*;
use vstd::string::*;
use vstd::utf8::encode_utf8;
use crate::error::Error;

verus! {

/// One header of a request. A sensitive header is one that must not be
/// logged; the type has no `Debug`, so that none reaches a log by accident.
#[derive(Clone)]
pub struct Header {
    pub name: String,
    pub value: String,
    pub sensitive: bool,
}

/// A header as contracts speak of it.
pub ghost struct HeaderView {
    pub name: Seq<char>,
    pub value: Seq<char>,
    pub sensitive: bool,
}

impl View for Header {
    type V = HeaderView;

    open spec fn view(&self) -> HeaderView {
        HeaderView { name: self.name@, value: self.value@, sensitive: self.sensitive }
    }
}

/// The headers of a list, each as contracts speak of it.
pub open spec fn header_views(headers: Seq<Header>) -> Seq<HeaderView> {
    Seq::new(headers.len(), |i: int| headers[i]@)
}

/// Whether a byte may stand in a header value: a tab, or any byte from the
/// space upwards but the delete character.
pub open spec fn header_byte(b: u8) -> bool {
    (b >= 32 && b != 127) || b == 9
}

/// Whether a text, given by its bytes, may stand as a header value.
pub open spec fn header_safe(bytes: Seq<u8>) -> bool {
    forall|i: int| 0 <= i < bytes.len() ==> header_byte(#[trigger] bytes[i])
}

/// Whether each character of a text is a visible ASCII character.
pub open spec fn visible_ascii(text: Seq<char>) -> bool {
    forall|i: int| 0 <= i < text.len() ==> ' ' <= #[trigger] text[i] <= '~'
}

/// A text of visible ASCII characters may stand as a header value.
pub proof fn lemma_visible_ascii_is_header_safe(text: Seq<char>)
    requires
        visible_ascii(text),
    ensures
        header_safe(encode_utf8(text)),
{
    assert(vstd::utf8::is_ascii_chars(text)) by {
        assert forall|i: int| 0 <= i < text.len() implies '\0' <= #[trigger] text[i] <= '\u{7f}' by {
            assert(' ' <= text[i] <= '~');
        }
    }
    vstd::utf8::is_ascii_chars_encode_utf8(text);
    let bytes = encode_utf8(text);
    assert forall|i: int| 0 <= i < bytes.len() implies header_byte(#[trigger] bytes[i]) by {
        assert(' ' <= text[i] <= '~');
        assert(text[i] as u8 == bytes[i]);
    }
}

/// Asks `HeaderValue::from_str` of the `http` crate, as `reqwest` hands it
/// on, whether a text can be a header value. The contract claims that it can
/// exactly when each of its bytes is a tab or lies from 32 upwards and is
/// not 127.
#[verifier::external_body]
fn accepted_value(value: &str) -> (r: Result<(), reqwest::header::InvalidHeaderValue>)
    ensures
        r is Ok <==> header_safe(value.spec_bytes()),
{
    reqwest::header::HeaderValue::from_str(value).map(|_| ())
}

/// Makes a sensitive header of a name and a value, if the value can be a
/// header value at all.
pub fn sensitive_header(name: &str, value: &str) -> (r: Result<Header, Error>)
    ensures
        header_safe(value.spec_bytes()) ==> (r matches Ok(h) && h@ == (HeaderView {
            name: name@,
            value: value@,
            sensitive: true,
        })),
        !header_safe(value.spec_bytes()) ==> (r matches Err(Error::InvalidAuth)),
{
    match accepted_value(value) {
        Ok(_) => Ok(Header { name: name.to_owned(), value: value.to_owned(), sensitive: true }),
        Err(other) => Err(Error::from(other)),
    }
}

/// Makes an ordinary header of a name and a value.
pub fn plain_header(name: &str, value: &str) -> (h: Header)
    ensures
        h@ == (HeaderView { name: name@, value: value@, sensitive: false }),
{
    Header { name: name.to_owned(), value: value.to_owned(), sensitive: false }
}

} // verus!
