//! The client: a credential and the protocol settings, and the assembly of
//! signed requests from them.

use vstd::prelude::*;
use vstd::string::*;
use vstd::utf8::encode_utf8;
use crate::decimal::decimal;
use crate::decimal::decimal_i64;
use crate::decimal::lemma_decimal_visible;
use crate::error::Error;
use crate::header::header_safe;
use crate::header::header_views;
use crate::header::lemma_visible_ascii_is_header_safe;
use crate::header::plain_header;
use crate::header::sensitive_header;
use crate::header::Header;
use crate::header::HeaderView;
use crate::message::build;
use crate::message::canonical_message;
use crate::message::option_view;
use crate::message::Method;
use crate::signer::lemma_hex_lower_visible;
use crate::signer::sign;
use crate::signer::signature;
use crate::target::locate;
use crate::target::located;
use crate::target::Target;
use crate::target::TargetView;
use crate::endpoints::Call;
use crate::endpoints::CallView;
use crate::types::Language;

verus! {

/// The product and version that the client announces.
pub const U_AGENT: &'static str = "coinbase/rs/0.1.0";

/// The date of the protocol version that the client speaks.
pub const VERSION: &'static str = "2019-11-15";

/// A credential, which may be empty, and the protocol settings. The
/// credential does not change once the client is made.
#[derive(Debug)]
pub struct Client {
    key: String,
    secret: String,
    pub language: Language,
    pub uagent: &'static str,
    pub version: &'static str,
}

/// A request, ready to be sent. As its headers, it has no `Debug`.
#[derive(Clone)]
pub struct Request {
    pub method: Method,
    pub url: String,
    pub headers: Vec<Header>,
    pub body: String,
}

/// The three headers that authenticate a request made at `now`: the key,
/// the signature of the canonical message, and the timestamp, each marked
/// sensitive.
pub open spec fn signed_headers(
    key: Seq<char>,
    secret: Seq<char>,
    now: int,
    method: Method,
    path: Seq<char>,
    query: Option<Seq<char>>,
    body: Seq<char>,
) -> Seq<HeaderView> {
    seq![
        HeaderView { name: "CB-ACCESS-KEY"@, value: key, sensitive: true },
        HeaderView {
            name: "CB-ACCESS-SIGN"@,
            value: signature(
                encode_utf8(secret),
                encode_utf8(canonical_message(now, method, path, query, body)),
            ),
            sensitive: true,
        },
        HeaderView { name: "CB-ACCESS-TIMESTAMP"@, value: decimal(now), sensitive: true },
    ]
}

/// The headers that every request carries, whoever sends it.
pub open spec fn protocol_headers(language: Language, uagent: Seq<char>, version: Seq<char>) -> Seq<
    HeaderView,
> {
    seq![
        HeaderView { name: "Accept"@, value: "application/json"@, sensitive: false },
        HeaderView { name: "Accept-Language"@, value: language.tag(), sensitive: false },
        HeaderView { name: "Content-Type"@, value: "application/json"@, sensitive: false },
        HeaderView { name: "User-Agent"@, value: uagent, sensitive: false },
        HeaderView { name: "CB-VERSION"@, value: version, sensitive: false },
    ]
}

/// Whether `name` is the name of one of the three authenticating headers.
pub open spec fn is_auth_name(name: Seq<char>) -> bool {
    name == "CB-ACCESS-KEY"@ || name == "CB-ACCESS-SIGN"@ || name == "CB-ACCESS-TIMESTAMP"@
}

/// Reads the clock with `Utc::now().timestamp()` of the `chrono` crate:
/// whole seconds since the epoch. Nothing is claimed of the result.
#[verifier::external_body]
pub(crate) fn timestamp() -> (now: i64) {
    chrono::Utc::now().timestamp()
}

impl Default for Client {
    fn default() -> (client: Self)
        ensures
            client.key() == Seq::<char>::empty(),
            client.secret() == Seq::<char>::empty(),
            client.language() == Language::EN,
            client.uagent() == U_AGENT@,
            client.version() == VERSION@,
    {
        Client {
            key: String::new(),
            secret: String::new(),
            language: Language::default(),
            uagent: U_AGENT,
            version: VERSION,
        }
    }
}

impl Client {
    /// The key of the credential.
    pub closed spec fn key(&self) -> Seq<char> {
        self.key@
    }

    /// The secret of the credential.
    pub closed spec fn secret(&self) -> Seq<char> {
        self.secret@
    }

    /// The language in which the client asks to be answered.
    pub closed spec fn language(&self) -> Language {
        self.language
    }

    /// The product and version that the client announces.
    pub closed spec fn uagent(&self) -> Seq<char> {
        self.uagent@
    }

    /// The protocol version that the client speaks.
    pub closed spec fn version(&self) -> Seq<char> {
        self.version@
    }

    /// Whether the client signs its requests: it does when both the key and
    /// the secret are there.
    pub open spec fn authenticated(&self) -> bool {
        self.key().len() > 0 && self.secret().len() > 0
    }

    /// What the assembly of the authenticating headers at `now` must give.
    pub open spec fn auth_outcome(
        &self,
        now: int,
        method: Method,
        path: Seq<char>,
        query: Option<Seq<char>>,
        body: Seq<char>,
        r: Result<Vec<Header>, Error>,
    ) -> bool {
        if !self.authenticated() {
            r matches Ok(headers) && headers@.len() == 0
        } else if header_safe(encode_utf8(self.key())) {
            r matches Ok(headers) && header_views(headers@) == signed_headers(
                self.key(),
                self.secret(),
                now,
                method,
                path,
                query,
                body,
            )
        } else {
            r matches Err(Error::InvalidAuth)
        }
    }

    /// What the assembly of a request at `now` must give.
    pub open spec fn request_outcome(
        &self,
        now: int,
        method: Method,
        target: TargetView,
        body: Seq<char>,
        r: Result<Request, Error>,
    ) -> bool {
        let fixed = protocol_headers(self.language(), self.uagent(), self.version());
        if self.authenticated() && !header_safe(encode_utf8(self.key())) {
            r matches Err(Error::InvalidAuth)
        } else {
            r matches Ok(request) && request.method == method && request.url@ == target.url
                && request.body@ == body && header_views(request.headers@) == if self.authenticated() {
                fixed + signed_headers(
                    self.key(),
                    self.secret(),
                    now,
                    method,
                    target.path,
                    target.query,
                    body,
                )
            } else {
                fixed
            }
        }
    }

    /// What sending an operation off at `now` must give: nothing where the
    /// path of the operation makes no address, else what the assembly of
    /// the request to that address gives.
    pub open spec fn dispatch_outcome(
        &self,
        now: int,
        call: CallView,
        r: Option<Result<Request, Error>>,
    ) -> bool {
        match located(call.path) {
            Some(target) => r matches Some(outcome) && self.request_outcome(
                now,
                call.method,
                target,
                call.body,
                outcome,
            ),
            None => r is None,
        }
    }

    /// A client without a credential.
    pub fn new() -> (client: Self)
        ensures
            !client.authenticated(),
            client.key() == Seq::<char>::empty(),
            client.secret() == Seq::<char>::empty(),
            client.language() == Language::EN,
            client.uagent() == U_AGENT@,
            client.version() == VERSION@,
    {
        Client::default()
    }

    /// A client that signs with `key` and `secret`.
    pub fn private(key: &str, secret: &str) -> (client: Self)
        ensures
            client.key() == key@,
            client.secret() == secret@,
            client.language() == Language::EN,
            client.uagent() == U_AGENT@,
            client.version() == VERSION@,
    {
        Client {
            key: key.to_owned(),
            secret: secret.to_owned(),
            language: Language::default(),
            uagent: U_AGENT,
            version: VERSION,
        }
    }

    /// Whether the client signs its requests.
    pub fn has_auth(&self) -> (signs: bool)
        ensures
            signs == self.authenticated(),
    {
        !self.key.as_str().is_empty() && !self.secret.as_str().is_empty()
    }

    /// Makes one authenticating header, marked sensitive.
    pub fn auth_header(&self, name: &str, value: &str) -> (r: Result<Header, Error>)
        ensures
            header_safe(value.spec_bytes()) ==> (r matches Ok(h) && h@ == (HeaderView {
                name: name@,
                value: value@,
                sensitive: true,
            })),
            !header_safe(value.spec_bytes()) ==> (r matches Err(Error::InvalidAuth)),
    {
        sensitive_header(name, value)
    }

    /// Signs a message with the secret of the credential.
    pub fn auth_signature(&self, message: &str) -> (r: Result<String, Error>)
        ensures
            r matches Ok(text) && text@ == signature(encode_utf8(self.secret()), message.spec_bytes()),
    {
        sign(self.secret.as_str().as_bytes(), message)
    }

    /// The authenticating headers of a request made at `now`: none for a
    /// client without a credential, else the key, the signature and the
    /// timestamp. A key that cannot stand in a header is refused.
    pub fn auth_headers_at(
        &self,
        now: i64,
        method: Method,
        path: &str,
        query: Option<&str>,
        body: &str,
    ) -> (r: Result<Vec<Header>, Error>)
        ensures
            self.auth_outcome(now as int, method, path@, option_view(query), body@, r),
    {
        let mut headers: Vec<Header> = Vec::new();
        if self.has_auth() {
            let key = self.auth_header("CB-ACCESS-KEY", self.key.as_str())?;
            let stamp = decimal_i64(now);
            proof {
                lemma_decimal_visible(now as int);
                lemma_visible_ascii_is_header_safe(stamp@);
            }
            let timestamp = self.auth_header("CB-ACCESS-TIMESTAMP", stamp.as_str())?;
            let formatted = build(now, method, path, query, body);
            let signed = self.auth_signature(formatted.as_str())?;
            proof {
                lemma_hex_lower_visible(
                    crate::signer::hmac_sha256(encode_utf8(self.secret()), encode_utf8(formatted@)),
                );
                lemma_visible_ascii_is_header_safe(signed@);
            }
            let signature = self.auth_header("CB-ACCESS-SIGN", signed.as_str())?;
            headers.push(key);
            headers.push(signature);
            headers.push(timestamp);
            assert(header_views(headers@) =~= signed_headers(
                self.key(),
                self.secret(),
                now as int,
                method,
                path@,
                option_view(query),
                body@,
            ));
        }
        Ok(headers)
    }

    /// The authenticating headers of a request made now. The clock is read
    /// afresh at each call.
    pub fn auth_headers(&self, method: Method, path: &str, query: Option<&str>, body: &str) -> (r:
        Result<Vec<Header>, Error>)
        ensures
            exists|now: i64| #[trigger]
                self.auth_outcome(now as int, method, path@, option_view(query), body@, r),
    {
        let now = timestamp();
        self.auth_headers_at(now, method, path, query, body)
    }

    /// Assembles a request made at `now`: the protocol headers, then the
    /// authenticating headers if the client has a credential.
    pub fn request_at(&self, now: i64, method: Method, target: &Target, body: String) -> (r: Result<
        Request,
        Error,
    >)
        ensures
            self.request_outcome(now as int, method, target@, body@, r),
    {
        let query = match &target.query {
            Some(q) => Some(q.as_str()),
            None => None,
        };
        let auth = self.auth_headers_at(now, method, target.path.as_str(), query, body.as_str())?;
        let mut headers: Vec<Header> = Vec::new();
        headers.push(plain_header("Accept", "application/json"));
        headers.push(plain_header("Accept-Language", self.language.as_str()));
        headers.push(plain_header("Content-Type", "application/json"));
        headers.push(plain_header("User-Agent", self.uagent));
        headers.push(plain_header("CB-VERSION", self.version));
        let ghost fixed = protocol_headers(self.language(), self.uagent(), self.version());
        assert(header_views(headers@) =~= fixed);
        let ghost signed = header_views(auth@);
        let mut auth = auth;
        headers.append(&mut auth);
        assert(header_views(headers@) =~= fixed + signed);
        assert(!self.authenticated() ==> fixed + signed =~= fixed);
        Ok(Request { method, url: target.url.clone(), headers, body })
    }

    /// Assembles a request made now.
    pub fn request(&self, method: Method, target: &Target, body: String) -> (r: Result<Request, Error>)
        ensures
            exists|now: i64| #[trigger] self.request_outcome(now as int, method, target@, body@, r),
    {
        let now = timestamp();
        self.request_at(now, method, target, body)
    }

    /// Sends an operation off at `now`: finds its address and assembles the
    /// request; `None` where the path of the operation makes no address.
    pub fn dispatch_at(&self, now: i64, call: Call) -> (r: Option<Result<Request, Error>>)
        ensures
            self.dispatch_outcome(now as int, call@, r),
    {
        match locate(call.path.as_str()) {
            Some(target) => Some(self.request_at(now, call.method, &target, call.body)),
            None => None,
        }
    }

    /// Sends an operation off now.
    pub fn dispatch(&self, call: Call) -> (r: Option<Result<Request, Error>>)
        ensures
            exists|now: i64| #[trigger] self.dispatch_outcome(now as int, call@, r),
    {
        let now = timestamp();
        self.dispatch_at(now, call)
    }

    /// Assembles the request that reads what is at `path` below the root of
    /// the service; `None` where the path makes no address.
    pub fn get(&self, path: &str) -> (r: Option<Result<Request, Error>>)
        ensures
            exists|now: i64| #[trigger]
                self.dispatch_outcome(
                    now as int,
                    CallView { method: Method::GET, path: path@, body: Seq::<char>::empty() },
                    r,
                ),
    {
        self.dispatch(Call { method: Method::GET, path: path.to_owned(), body: String::new() })
    }

    /// Assembles the request that creates something at `path` below the
    /// root of the service; `None` where the path makes no address.
    pub fn post(&self, path: &str, body: String) -> (r: Option<Result<Request, Error>>)
        ensures
            exists|now: i64| #[trigger]
                self.dispatch_outcome(
                    now as int,
                    CallView { method: Method::POST, path: path@, body: body@ },
                    r,
                ),
    {
        self.dispatch(Call { method: Method::POST, path: path.to_owned(), body })
    }

    /// Assembles the request that replaces what is at `path` below the root
    /// of the service; `None` where the path makes no address.
    pub fn put(&self, path: &str, body: String) -> (r: Option<Result<Request, Error>>)
        ensures
            exists|now: i64| #[trigger]
                self.dispatch_outcome(
                    now as int,
                    CallView { method: Method::PUT, path: path@, body: body@ },
                    r,
                ),
    {
        self.dispatch(Call { method: Method::PUT, path: path.to_owned(), body })
    }
}

/// None of the protocol headers bears the name of an authenticating
/// header.
pub proof fn lemma_protocol_headers_are_not_auth(language: Language, uagent: Seq<char>, version: Seq<char>)
    ensures
        forall|i: int|
            0 <= i < protocol_headers(language, uagent, version).len() ==> !is_auth_name(
                #[trigger] protocol_headers(language, uagent, version)[i].name,
            ),
{
    reveal_strlit("CB-ACCESS-KEY");
    reveal_strlit("CB-ACCESS-SIGN");
    reveal_strlit("CB-ACCESS-TIMESTAMP");
    reveal_strlit("Accept");
    reveal_strlit("Accept-Language");
    reveal_strlit("Content-Type");
    reveal_strlit("User-Agent");
    reveal_strlit("CB-VERSION");
    let fixed = protocol_headers(language, uagent, version);
    assert(fixed[0].name.len() == 6);
    assert(fixed[1].name.len() == 15);
    assert(fixed[2].name.len() == 12);
    assert(fixed[3].name.len() == 10);
    assert(fixed[4].name.len() == 10);
    assert("CB-ACCESS-KEY"@.len() == 13);
    assert("CB-ACCESS-SIGN"@.len() == 14);
    assert("CB-ACCESS-TIMESTAMP"@.len() == 19);
}

/// A client without a credential, be it for want of a key, of a secret or
/// of both, assembles a request that carries none of the three
/// authenticating headers, whatever the time and the request.
pub proof fn lemma_anonymous_request_carries_no_auth(
    client: Client,
    now: int,
    method: Method,
    target: TargetView,
    body: Seq<char>,
    r: Result<Request, Error>,
)
    requires
        !client.authenticated(),
        client.request_outcome(now, method, target, body, r),
    ensures
        r matches Ok(request) && forall|i: int|
            0 <= i < request.headers@.len() ==> !is_auth_name(#[trigger] request.headers@[i].name@),
{
    lemma_protocol_headers_are_not_auth(client.language(), client.uagent(), client.version());
    let request = r->Ok_0;
    let fixed = protocol_headers(client.language(), client.uagent(), client.version());
    assert forall|i: int| 0 <= i < request.headers@.len() implies !is_auth_name(
        #[trigger] request.headers@[i].name@,
    ) by {
        assert(header_views(request.headers@).len() == request.headers@.len());
        assert(header_views(request.headers@)[i] == request.headers@[i]@);
        assert(request.headers@[i]@.name == fixed[i].name);
    }
}

/// A client with a credential whose key can stand in a header assembles a
/// request that carries each of the three authenticating headers once,
/// after the protocol headers.
pub proof fn lemma_authenticated_request_carries_auth(
    client: Client,
    now: int,
    method: Method,
    target: TargetView,
    body: Seq<char>,
    r: Result<Request, Error>,
)
    requires
        client.authenticated(),
        header_safe(encode_utf8(client.key())),
        client.request_outcome(now, method, target, body, r),
    ensures
        r matches Ok(request) && request.headers@.len() == 8 && request.headers@[5].name@
            == "CB-ACCESS-KEY"@ && request.headers@[5].value@ == client.key()
            && request.headers@[6].name@ == "CB-ACCESS-SIGN"@ && request.headers@[6].value@
            == signature(
            encode_utf8(client.secret()),
            encode_utf8(canonical_message(now, method, target.path, target.query, body)),
        ) && request.headers@[7].name@ == "CB-ACCESS-TIMESTAMP"@ && request.headers@[7].value@
            == decimal(now),
{
    let request = r->Ok_0;
    let fixed = protocol_headers(client.language(), client.uagent(), client.version());
    let signed = signed_headers(
        client.key(),
        client.secret(),
        now,
        method,
        target.path,
        target.query,
        body,
    );
    let all = header_views(request.headers@);
    assert(all == fixed + signed);
    assert(all.len() == 8);
    assert(all.len() == request.headers@.len());
    assert(all[5] == signed[0] && all[5] == request.headers@[5]@);
    assert(all[6] == signed[1] && all[6] == request.headers@[6]@);
    assert(all[7] == signed[2] && all[7] == request.headers@[7]@);
}

} // verus!
