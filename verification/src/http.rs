//! What goes over the wire: methods, requests, and the header state.

use crate::json::Json;
use crate::json::JsonTree;
use vstd::prelude::*;

verus! {

/// The verb of a request.
#[derive(Debug, Clone, Copy, PartialEq, Eq, Structural)]
pub enum Method {
    Get,
    Post,
    Put,
    Patch,
    Delete,
}

/// A request, ready to be sent.
#[derive(Debug, Clone, PartialEq, Eq)]
pub struct Request {
    pub method: Method,
    pub url: String,
    pub headers: Vec<(String, String)>,
    pub query: Vec<(String, String)>,
    pub body: Option<Json>,
}

/// The mathematical value of a [`Request`].
pub struct RequestView {
    pub method: Method,
    pub url: Seq<char>,
    pub headers: Seq<(Seq<char>, Seq<char>)>,
    pub query: Seq<(Seq<char>, Seq<char>)>,
    pub body: Option<JsonTree>,
}

impl View for Request {
    type V = RequestView;

    open spec fn view(&self) -> RequestView {
        RequestView {
            method: self.method,
            url: self.url@,
            headers: self.headers.deep_view(),
            query: self.query.deep_view(),
            body: self.body.deep_view(),
        }
    }
}

/// Whether a header value may hold the character: a tab, or anything from
/// the space on but the delete character.
pub open spec fn is_header_char(c: char) -> bool {
    c == '\t' || (c as u32 >= 32 && c as u32 != 127)
}

/// Whether a text can be the value of a header.
pub open spec fn is_header_text(text: Seq<char>) -> bool {
    forall|i: int| 0 <= i < text.len() ==> is_header_char(#[trigger] text[i])
}

/// `reqwest::header::HeaderValue::from_str` succeeds exactly on the texts
/// whose bytes are all a tab, or at least 32 and not 127. In UTF-8 every byte
/// of a character past ASCII is at least 128, so this is a test of the
/// characters.
#[verifier::external_body]
fn header_value_accepts(text: &str) -> (ok: bool)
    ensures
        ok == is_header_text(text@),
{
    reqwest::header::HeaderValue::from_str(text).is_ok()
}

/// Whether `p` is the word `bearer`, in any mix of upper and lower case,
/// followed by one space.
pub open spec fn is_bearer_prefix(p: Seq<char>) -> bool {
    &&& p.len() == 7
    &&& (p[0] == 'B' || p[0] == 'b')
    &&& (p[1] == 'E' || p[1] == 'e')
    &&& (p[2] == 'A' || p[2] == 'a')
    &&& (p[3] == 'R' || p[3] == 'r')
    &&& (p[4] == 'E' || p[4] == 'e')
    &&& (p[5] == 'R' || p[5] == 'r')
    &&& p[6] == ' '
}

/// Whether a credential begins with a bearer prefix.
pub open spec fn has_bearer_prefix(key: Seq<char>) -> bool {
    key.len() >= 7 && is_bearer_prefix(key.subrange(0, 7))
}

/// The token of a credential: the credential without its bearer prefix,
/// where it has one.
pub open spec fn bare_token(key: Seq<char>) -> Seq<char> {
    if has_bearer_prefix(key) {
        key.subrange(7, key.len() as int)
    } else {
        key
    }
}

/// Takes the bearer prefix off a credential, once.
pub fn strip_bearer(key: &str) -> (r: String)
    ensures
        r@ == bare_token(key@),
{
    let n: usize = key.unicode_len();
    if n < 7 {
        return key.to_owned();
    }
    let c0 = key.get_char(0);
    let c1 = key.get_char(1);
    let c2 = key.get_char(2);
    let c3 = key.get_char(3);
    let c4 = key.get_char(4);
    let c5 = key.get_char(5);
    let c6 = key.get_char(6);
    let prefixed = (c0 == 'B' || c0 == 'b') && (c1 == 'E' || c1 == 'e') && (c2 == 'A' || c2 == 'a')
        && (c3 == 'R' || c3 == 'r') && (c4 == 'E' || c4 == 'e') && (c5 == 'R' || c5 == 'r') && c6
        == ' ';
    if prefixed {
        key.substring_char(7, n).to_owned()
    } else {
        key.to_owned()
    }
}

/// The header state of a client: the content type, which is always JSON, and
/// the authorization value, where there is one.
#[derive(Debug, PartialEq, Eq)]
pub struct Headers {
    authorization: Option<String>,
}

impl Headers {
    /// The authorization value, where there is one, can be sent as a header.
    #[verifier::type_invariant]
    spec fn sendable(self) -> bool {
        self.authorization matches Some(t) ==> is_header_text(t@)
    }

    /// The authorization value.
    pub closed spec fn token(&self) -> Option<Seq<char>> {
        self.authorization.deep_view()
    }

    /// The headers as they go into a request.
    pub open spec fn entries(&self) -> Seq<(Seq<char>, Seq<char>)> {
        match self.token() {
            Some(t) => seq![("content-type"@, "application/json"@), ("authorization"@, t)],
            None => seq![("content-type"@, "application/json"@)],
        }
    }

    /// Headers without authorization.
    pub fn new() -> (r: Headers)
        ensures
            r.token() is None,
    {
        Headers { authorization: None }
    }

    /// Headers with `token` for the authorization value, if it can be sent
    /// as a header.
    pub fn holding(token: &str) -> (r: Option<Headers>)
        ensures
            (r is Some) == is_header_text(token@),
            r matches Some(h) ==> h.token() == Some(token@),
    {
        if header_value_accepts(token) {
            Some(Headers { authorization: Some(token.to_owned()) })
        } else {
            None
        }
    }

    /// Makes `token` the authorization value, if it can be sent as a header;
    /// leaves the headers as they are, if not. Says whether it did.
    pub fn set_authorization(&mut self, token: &str) -> (stored: bool)
        ensures
            stored == is_header_text(token@),
            stored ==> final(self).token() == Some(token@),
            !stored ==> final(self).token() == old(self).token(),
    {
        if header_value_accepts(token) {
            self.authorization = Some(token.to_owned());
            true
        } else {
            false
        }
    }

    /// The authorization value; it can be sent as a header.
    pub fn authorization(&self) -> (r: Option<&str>)
        ensures
            r.deep_view() == self.token(),
            self.token() matches Some(t) ==> is_header_text(t),
    {
        proof {
            use_type_invariant(self);
        }
        match &self.authorization {
            Some(t) => Some(t.as_str()),
            None => None,
        }
    }

    /// The headers as they go into a request.
    pub fn to_entries(&self) -> (r: Vec<(String, String)>)
        ensures
            r.deep_view() == self.entries(),
    {
        let mut r: Vec<(String, String)> = Vec::new();
        r.push(("content-type".to_owned(), "application/json".to_owned()));
        match &self.authorization {
            Some(t) => {
                r.push(("authorization".to_owned(), t.clone()));
            },
            None => {},
        }
        assert(r.deep_view() =~= self.entries());
        r
    }
}

impl Clone for Headers {
    fn clone(&self) -> (r: Headers)
        ensures
            r.token() == self.token(),
    {
        proof {
            use_type_invariant(self);
        }
        match &self.authorization {
            Some(t) => Headers { authorization: Some(t.clone()) },
            None => Headers { authorization: None },
        }
    }
}

} // verus!
