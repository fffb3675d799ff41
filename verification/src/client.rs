//! The client: its configuration, the requests it describes and the replies
//! it reads.

use crate::error::outcome;
use crate::error::Error;
use crate::error::ErrorKind;
use crate::http::bare_token;
use crate::http::is_bearer_prefix;
use crate::http::is_header_text;
use crate::http::strip_bearer;
use crate::http::Headers;
use crate::http::Method;
use crate::http::Request;
use crate::http::RequestView;
use crate::json::Json;
use crate::json::JsonTree;
use crate::reply::accepted;
use crate::reply::check_status;
use crate::reply::document;
use crate::reply::read_document;
use crate::text::before_first;
use crate::text::before_first_of;
use crate::text::contains;
use crate::text::find;
use crate::text::lemma_contains_tail;
use crate::text::lemma_trim_end;
use crate::text::second_piece;
use crate::text::second_piece_of;
use crate::text::trim_end;
use crate::text::trim_end_matches;
use vstd::prelude::*;

pub mod agents;
pub mod conversations;
pub mod providers;

verus! {

/// A client of one AGiXT server.
#[derive(Debug)]
pub struct AGiXTSDK {
    base_uri: String,
    headers: Headers,
    verbose: bool,
}

/// The mathematical value of a client.
pub struct ClientView {
    pub base_uri: Seq<char>,
    pub authorization: Option<Seq<char>>,
    pub verbose: bool,
}

/// The address of the server where none is given.
pub open spec fn default_base_uri() -> Seq<char> {
    "http://localhost:7437"@
}

/// The credential that a client keeps of the key it was given: the key
/// without its bearer prefix, where that can be sent as a header.
pub open spec fn stored_credential(api_key: Option<Seq<char>>) -> Option<Seq<char>> {
    match api_key {
        Some(key) => if is_header_text(bare_token(key)) {
            Some(bare_token(key))
        } else {
            None
        },
        None => None,
    }
}

impl ClientView {
    /// The base address does not end in a slash, and the credential can be
    /// sent as a header.
    pub open spec fn wf(self) -> bool {
        &&& self.base_uri.len() > 0 ==> self.base_uri.last() != '/'
        &&& self.authorization matches Some(t) ==> is_header_text(t)
    }

    /// The headers that go into an authorized request.
    pub open spec fn headers(self) -> Seq<(Seq<char>, Seq<char>)> {
        match self.authorization {
            Some(t) => seq![("content-type"@, "application/json"@), ("authorization"@, t)],
            None => seq![("content-type"@, "application/json"@)],
        }
    }

    /// A request that carries the headers of the client.
    pub open spec fn authorized(self, method: Method, path: Seq<char>, body: Option<JsonTree>)
        -> RequestView {
        RequestView {
            method,
            url: self.base_uri + path,
            headers: self.headers(),
            query: Seq::empty(),
            body,
        }
    }

    /// A request that carries the headers of the client and a query.
    pub open spec fn queried(
        self,
        method: Method,
        path: Seq<char>,
        query: Seq<(Seq<char>, Seq<char>)>,
        body: Option<JsonTree>,
    ) -> RequestView {
        RequestView { method, url: self.base_uri + path, headers: self.headers(), query, body }
    }

    /// The client with `token` for its credential, where `token` can be sent
    /// as a header; the client unchanged, where it cannot.
    pub open spec fn with_credential(self, token: Seq<char>) -> ClientView {
        if is_header_text(token) {
            ClientView { authorization: Some(token), ..self }
        } else {
            self
        }
    }
}

/// No pairs at all.
fn no_pairs() -> (r: Vec<(String, String)>)
    ensures
        r.deep_view() == Seq::<(Seq<char>, Seq<char>)>::empty(),
{
    let r: Vec<(String, String)> = Vec::new();
    assert(r.deep_view() =~= Seq::empty());
    r
}

impl View for AGiXTSDK {
    type V = ClientView;

    closed spec fn view(&self) -> ClientView {
        ClientView {
            base_uri: self.base_uri@,
            authorization: self.headers.token(),
            verbose: self.verbose,
        }
    }
}

impl AGiXTSDK {
    /// The base address does not end in a slash.
    #[verifier::type_invariant]
    spec fn trimmed(self) -> bool {
        self.base_uri@.len() > 0 ==> self.base_uri@.last() != '/'
    }

    /// A client for the server at `base_uri`, or at the default address. The
    /// trailing slashes of the address are dropped; the bearer prefix of the
    /// key is dropped, once.
    pub fn new(base_uri: Option<String>, api_key: Option<String>, verbose: bool) -> (client:
        AGiXTSDK)
        ensures
            client@.base_uri == trim_end(
                match base_uri {
                    Some(uri) => uri@,
                    None => default_base_uri(),
                },
                '/',
            ),
            client@.authorization == stored_credential(api_key.deep_view()),
            client@.verbose == verbose,
            client@.wf(),
    {
        let mut headers = Headers::new();
        match &api_key {
            Some(key) => {
                let token = strip_bearer(key.as_str());
                headers.set_authorization(token.as_str());
            },
            None => {},
        }
        let given: String = match base_uri {
            Some(uri) => uri,
            None => "http://localhost:7437".to_owned(),
        };
        let trimmed = trim_end_matches(given.as_str(), '/');
        proof {
            lemma_trim_end(given@, '/');
        }
        AGiXTSDK { base_uri: trimmed, headers, verbose }
    }

    /// The address of the server; it does not end in a slash.
    pub fn base_uri(&self) -> (r: &str)
        ensures
            r@ == self@.base_uri,
            r@.len() > 0 ==> r@.last() != '/',
    {
        proof {
            use_type_invariant(self);
        }
        self.base_uri.as_str()
    }

    /// Whether the caller asked for replies to be logged.
    pub fn verbose(&self) -> (r: bool)
        ensures
            r == self@.verbose,
    {
        self.verbose
    }

    /// The credential, where the client has one; it can be sent as a
    /// header.
    pub fn authorization(&self) -> (r: Option<&str>)
        ensures
            r.deep_view() == self@.authorization,
            self@.wf(),
    {
        proof {
            use_type_invariant(self);
        }
        self.headers.authorization()
    }

    /// The headers that go into an authorized request.
    pub fn headers(&self) -> (r: Vec<(String, String)>)
        ensures
            r.deep_view() == self@.headers(),
    {
        self.headers.to_entries()
    }

    /// Replaces the credential by `token`, if `token` can be sent as a
    /// header; says whether it did.
    pub fn set_credential(&mut self, token: &str) -> (stored: bool)
        ensures
            stored == is_header_text(token@),
            final(self)@ == old(self)@.with_credential(token@),
    {
        proof {
            use_type_invariant(&*self);
        }
        match Headers::holding(token) {
            Some(headers) => {
                self.headers = headers;
                true
            },
            None => false,
        }
    }

    /// The address of `path` on the server.
    pub fn url(&self, path: &str) -> (r: String)
        ensures
            r@ == self@.base_uri + path@,
    {
        let mut r = self.base_uri.clone();
        r.append(path);
        r
    }

    /// Describes a request that carries the headers of the client.
    pub fn authorized(&self, method: Method, path: &str, body: Option<Json>) -> (r: Request)
        ensures
            r@ == self@.authorized(method, path@, body.deep_view()),
    {
        Request { method, url: self.url(path), headers: self.headers(), query: no_pairs(), body }
    }

    /// Describes a request that carries the headers of the client and a
    /// query.
    pub fn queried(
        &self,
        method: Method,
        path: &str,
        query: Vec<(String, String)>,
        body: Option<Json>,
    ) -> (r: Request)
        ensures
            r@ == self@.queried(method, path@, query.deep_view(), body.deep_view()),
    {
        Request { method, url: self.url(path), headers: self.headers(), query, body }
    }

    /// Turns a reply outside the success class into the error of the service,
    /// with the status and the body as they came.
    pub fn parse_response(&self, status: u16, body: &str) -> (r: Result<(), Error>)
        ensures
            outcome(r) == accepted(status, body@),
    {
        check_status(status, body)
    }
}

/// The token that a login reply issues: where the member `detail` is a text
/// that holds `?token=`, what stands in it between the first `token=` and
/// the next one, or the end.
pub open spec fn login_token(doc: JsonTree) -> Option<Seq<char>> {
    match doc.str_member("detail"@) {
        Some(detail) => if contains(detail, "?token="@) {
            second_piece(detail, "token="@)
        } else {
            None
        },
        None => None,
    }
}

/// The one-time secret in an enrolment address: what stands between the
/// first `secret=` and the next one, up to its first `&`.
pub open spec fn mfa_token(otp_uri: Seq<char>) -> Option<Seq<char>> {
    match second_piece(otp_uri, "secret="@) {
        Some(piece) => Some(before_first(piece, "&"@)),
        None => None,
    }
}

/// What a reply to a login yields: the token it issues, if any.
pub open spec fn login_reply(status: u16, body: Seq<char>) -> Result<Option<Seq<char>>, ErrorKind> {
    match document(status, body) {
        Ok(doc) => Ok(login_token(doc)),
        Err(e) => Err(e),
    }
}

/// What a reply to a question after a user yields: the truth value that the
/// body is; any other document is malformed.
pub open spec fn user_exists_reply(status: u16, body: Seq<char>) -> Result<bool, ErrorKind> {
    match document(status, body) {
        Ok(doc) => match doc.as_bool() {
            Some(b) => Ok(b),
            None => Err(ErrorKind::Json),
        },
        Err(e) => Err(e),
    }
}

/// How a registration goes on after the reply of the service.
#[derive(Debug, Clone, PartialEq, Eq)]
pub enum Registration {
    /// The service enrolled the user for one-time passwords: the login that
    /// `request` describes comes next.
    Login { otp_uri: String, request: Request },
    /// The service answered without an enrolment address; the text is the
    /// body of its reply.
    Done(String),
}

/// The mathematical value of a [`Registration`].
pub enum RegistrationView {
    Login { otp_uri: Seq<char>, request: RequestView },
    Done(Seq<char>),
}

impl DeepView for Registration {
    type V = RegistrationView;

    open spec fn deep_view(&self) -> RegistrationView {
        match self {
            Registration::Login { otp_uri, request } => RegistrationView::Login {
                otp_uri: otp_uri@,
                request: request@,
            },
            Registration::Done(text) => RegistrationView::Done(text@),
        }
    }
}

impl ClientView {
    /// The client after it has read the document of a login reply.
    pub open spec fn after_login(self, doc: JsonTree) -> ClientView {
        match login_token(doc) {
            Some(token) => self.with_credential(token),
            None => self,
        }
    }

    /// The client after it has read a login reply.
    pub open spec fn after_login_reply(self, status: u16, body: Seq<char>) -> ClientView {
        match document(status, body) {
            Ok(doc) => self.after_login(doc),
            Err(_) => self,
        }
    }

    /// The request of a login.
    pub open spec fn login(self, email: Seq<char>, otp: Seq<char>) -> RequestView {
        self.authorized(
            Method::Post,
            "/v1/login"@,
            Some(JsonTree::empty_object().with_text("email"@, email).with_text("token"@, otp)),
        )
    }

    /// The request of a registration.
    pub open spec fn register_user(
        self,
        email: Seq<char>,
        first_name: Seq<char>,
        last_name: Seq<char>,
    ) -> RequestView {
        self.authorized(
            Method::Post,
            "/v1/user"@,
            Some(
                JsonTree::empty_object().with_text("email"@, email).with_text(
                    "first_name"@,
                    first_name,
                ).with_text("last_name"@, last_name),
            ),
        )
    }

    /// How a registration goes on after the reply of the service.
    pub open spec fn registration(self, email: Seq<char>, status: u16, body: Seq<char>) -> Result<
        RegistrationView,
        ErrorKind,
    > {
        match document(status, body) {
            Err(e) => Err(e),
            Ok(doc) => match doc.str_member("otp_uri"@) {
                Some(otp_uri) => match mfa_token(otp_uri) {
                    Some(secret) => Ok(
                        RegistrationView::Login { otp_uri, request: self.login(email, secret) },
                    ),
                    None => Err(ErrorKind::Other("Invalid OTP URI format"@)),
                },
                None => Ok(RegistrationView::Done(body)),
            },
        }
    }
}

impl AGiXTSDK {
    /// Describes a login with a one-time password.
    pub fn login(&self, email: &str, otp: &str) -> (r: Request)
        ensures
            r@ == self@.login(email@, otp@),
    {
        let body = Json::empty_object().with_text("email", email).with_text("token", otp);
        self.authorized(Method::Post, "/v1/login", Some(body))
    }

    /// Reads the document of a login reply. Where it issues a token, the
    /// token becomes the credential of the client, if it can be sent as a
    /// header, and is returned either way.
    pub fn process_login_response(&mut self, json: &Json) -> (r: Result<Option<String>, Error>)
        ensures
            outcome(r) == Ok::<Option<Seq<char>>, ErrorKind>(login_token(json@)),
            final(self)@ == old(self)@.after_login(json@),
    {
        let detail = match json.str_member("detail") {
            None => { return Ok(None); },
            Some(detail) => detail,
        };
        if find(detail, "?token=", 0).is_none() {
            return Ok(None);
        }
        proof {
            reveal_strlit("?token=");
            reveal_strlit("token=");
            assert("?token="@.subrange(1, 7) =~= "token="@);
            lemma_contains_tail(detail@, "?token="@, 1);
        }
        match second_piece_of(detail, "token=") {
            None => Ok(None),
            Some(token) => {
                self.set_credential(token.as_str());
                Ok(Some(token))
            },
        }
    }

    /// Reads a login reply. Where it issues a token, the token becomes the
    /// credential of the client, if it can be sent as a header, and is
    /// returned either way.
    pub fn login_response(&mut self, status: u16, body: &str) -> (r: Result<Option<String>, Error>)
        ensures
            outcome(r) == login_reply(status, body@),
            final(self)@ == old(self)@.after_login_reply(status, body@),
    {
        match read_document(status, body) {
            Err(e) => Err(e),
            Ok(doc) => self.process_login_response(&doc),
        }
    }

    /// Describes the registration of a user.
    pub fn register_user(&self, email: &str, first_name: &str, last_name: &str) -> (r: Request)
        ensures
            r@ == self@.register_user(email@, first_name@, last_name@),
    {
        let body = Json::empty_object().with_text("email", email).with_text(
            "first_name",
            first_name,
        ).with_text("last_name", last_name);
        self.authorized(Method::Post, "/v1/user", Some(body))
    }

    /// Reads the reply to a registration. Where it holds an enrolment
    /// address, the login with the secret of that address comes next; an
    /// address without a secret is an error.
    pub fn register_user_response(&self, email: &str, status: u16, body: &str) -> (r: Result<
        Registration,
        Error,
    >)
        ensures
            outcome(r) == self@.registration(email@, status, body@),
    {
        let doc = match read_document(status, body) {
            Err(e) => { return Err(e); },
            Ok(doc) => doc,
        };
        let otp_uri = match doc.get("otp_uri") {
            None => { return Ok(Registration::Done(body.to_owned())); },
            Some(member) => match member.as_str() {
                None => { return Ok(Registration::Done(body.to_owned())); },
                Some(otp_uri) => otp_uri,
            },
        };
        match second_piece_of(otp_uri, "secret=") {
            None => Err(Error::Other("Invalid OTP URI format".to_owned())),
            Some(piece) => {
                let secret = before_first_of(piece.as_str(), "&");
                let request = self.login(email, secret.as_str());
                Ok(Registration::Login { otp_uri: otp_uri.to_owned(), request })
            },
        }
    }

    /// Reads the reply to the login that a registration ends with, and hands
    /// the enrolment address back where the login went through.
    pub fn finish_registration(&mut self, otp_uri: String, status: u16, body: &str) -> (r: Result<
        String,
        Error,
    >)
        ensures
            outcome(r) == match login_reply(status, body@) {
                Ok(_) => Ok::<Seq<char>, ErrorKind>(otp_uri@),
                Err(e) => Err(e),
            },
            final(self)@ == old(self)@.after_login_reply(status, body@),
    {
        match self.login_response(status, body) {
            Ok(_) => Ok(otp_uri),
            Err(e) => Err(e),
        }
    }

    /// Describes the question whether a user exists.
    pub fn user_exists(&self, email: &str) -> (r: Request)
        ensures
            r@ == self@.queried(
                Method::Get,
                "/v1/user/exists"@,
                seq![("email"@, email@)],
                None,
            ),
    {
        let mut query: Vec<(String, String)> = Vec::new();
        query.push(("email".to_owned(), email.to_owned()));
        assert(query.deep_view() =~= seq![("email"@, email@)]);
        self.queried(Method::Get, "/v1/user/exists", query, None)
    }

    /// Reads the reply to the question whether a user exists.
    pub fn user_exists_response(&self, status: u16, body: &str) -> (r: Result<bool, Error>)
        ensures
            outcome(r) == user_exists_reply(status, body@),
    {
        match read_document(status, body) {
            Err(e) => Err(e),
            Ok(doc) => match doc.as_bool() {
                Some(b) => Ok(b),
                None => Err(Error::JsonError("expected a truth value".to_owned())),
            },
        }
    }

    /// Describes an update of the user's record.
    pub fn update_user(&self, updates: Json) -> (r: Request)
        ensures
            r@ == self@.authorized(Method::Put, "/v1/user"@, Some(updates@)),
    {
        self.authorized(Method::Put, "/v1/user", Some(updates))
    }

    /// Reads the reply to an update of the user's record.
    pub fn update_user_response(&self, status: u16, body: &str) -> (r: Result<Json, Error>)
        ensures
            outcome(r) == document(status, body@),
    {
        read_document(status, body)
    }

    /// Describes the question after the user's record.
    pub fn get_user(&self) -> (r: Request)
        ensures
            r@ == self@.authorized(Method::Get, "/v1/user"@, None),
    {
        self.authorized(Method::Get, "/v1/user", None)
    }

    /// Reads the user's record.
    pub fn get_user_response(&self, status: u16, body: &str) -> (r: Result<Json, Error>)
        ensures
            outcome(r) == document(status, body@),
    {
        read_document(status, body)
    }
}

/// The base address that a client keeps does not end in a slash, whatever
/// address it was given.
pub proof fn lemma_base_uri_has_no_trailing_slash(given: Seq<char>)
    ensures
        trim_end(given, '/').len() > 0 ==> trim_end(given, '/').last() != '/',
{
    lemma_trim_end(given, '/');
}

/// Of a key that begins with a bearer prefix, in whatever case, the client
/// keeps what follows the prefix: the prefix is taken off once, and nothing
/// more, even where what follows begins with such a prefix again. What
/// follows is kept only if it can be sent as a header.
pub proof fn lemma_bearer_prefix_stripped_once(prefix: Seq<char>, rest: Seq<char>)
    requires
        is_bearer_prefix(prefix),
    ensures
        bare_token(prefix + rest) == rest,
        is_header_text(rest) ==> stored_credential(Some(prefix + rest)) == Some(rest),
        !is_header_text(rest) ==> stored_credential(Some(prefix + rest)) is None,
{
    let key = prefix + rest;
    assert(key.subrange(0, 7) =~= prefix);
    assert(key.subrange(7, key.len() as int) =~= rest);
}

/// After a login reply that issues a token, every request of the client,
/// with a query or without, carries that token as its authorization, provided
/// the token can be sent as a header; a token that cannot leaves the client
/// as it was.
pub proof fn lemma_login_authorizes_requests(
    client: ClientView,
    status: u16,
    body: Seq<char>,
    token: Seq<char>,
    method: Method,
    path: Seq<char>,
    request_body: Option<JsonTree>,
)
    requires
        login_reply(status, body) == Ok::<Option<Seq<char>>, ErrorKind>(Some(token)),
    ensures
        is_header_text(token) ==> client.after_login_reply(status, body).authorization == Some(
            token,
        ),
        is_header_text(token) ==> client.after_login_reply(status, body).authorized(
            method,
            path,
            request_body,
        ).headers == seq![("content-type"@, "application/json"@), ("authorization"@, token)],
        forall|query: Seq<(Seq<char>, Seq<char>)>|
            is_header_text(token) ==> (#[trigger] client.after_login_reply(status, body).queried(
                method,
                path,
                query,
                request_body,
            )).headers == seq![("content-type"@, "application/json"@), ("authorization"@, token)],
        !is_header_text(token) ==> client.after_login_reply(status, body) == client,
{
}

/// A reply outside the success class is an error of the service that holds
/// the status and the body as they came, for a login, for a registration and
/// for the question after a user alike, and it leaves the credential alone.
pub proof fn lemma_failure_is_api_error_for_users(
    client: ClientView,
    email: Seq<char>,
    status: u16,
    body: Seq<char>,
)
    requires
        status >= 400,
    ensures
        login_reply(status, body) == Err::<Option<Seq<char>>, ErrorKind>(
            ErrorKind::Api { status, message: body },
        ),
        user_exists_reply(status, body) == Err::<bool, ErrorKind>(
            ErrorKind::Api { status, message: body },
        ),
        client.registration(email, status, body) == Err::<RegistrationView, ErrorKind>(
            ErrorKind::Api { status, message: body },
        ),
        client.after_login_reply(status, body) == client,
{
}

impl Clone for AGiXTSDK {
    fn clone(&self) -> (r: AGiXTSDK)
        ensures
            r@ == self@,
    {
        proof {
            use_type_invariant(self);
        }
        AGiXTSDK {
            base_uri: self.base_uri.clone(),
            headers: self.headers.clone(),
            verbose: self.verbose,
        }
    }
}

} // verus!
