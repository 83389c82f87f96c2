//! The HTTP transport: from a request to the HTTP call that carries it.
//!
//! The call itself is made by whoever holds an HTTP client; this module
//! decides what is called, and reads what came back.
use crate::protocols::routes::{lookup, Route, Routes, TableView};
use crate::protocols::placeholders::{is_plain, is_template, lemma_no_placeholder_remains};
use crate::text::{decimal, join, occurs_in, push_decimal, replace, replaced};
use crate::types::{
    text_of, volatile_of, KuzzleOptions, KuzzleRequest, OptionsView, Payload,
    ProtocolError, ProtocolErrorView, RequestView,
};
use crate::json::Json;
use reqwest::{Method, Url};
use vstd::prelude::*;
use vstd::string::*;

verus! {

/// `reqwest::Method`, an HTTP method. The verifier sees nothing inside it;
/// [`method_text`] names what it holds.
#[verifier::external_type_specification]
#[verifier::external_body]
pub struct ExMethod(reqwest::Method);

/// `reqwest::Url`, a URL. The verifier sees nothing inside it;
/// [`url_text`] names what it holds.
#[verifier::external_type_specification]
#[verifier::external_body]
pub struct ExUrl(reqwest::Url);

/// The name of an HTTP method, as `Method::as_str` gives it.
pub uninterp spec fn method_text(method: reqwest::Method) -> Seq<char>;

/// The text of a URL, as `Url::as_str` gives it.
pub uninterp spec fn url_text(url: reqwest::Url) -> Seq<char>;

/// The text of the URL that `Url::parse` reads from `text`, or `None` where
/// it reports an error.
pub uninterp spec fn parsed_url(text: Seq<char>) -> Option<Seq<char>>;

/// A character that may stand in an HTTP method: a letter or digit of
/// ASCII, or one of ``!#$%&'*+-.^_`|~``.
pub open spec fn is_token_char(c: char) -> bool {
    ||| '0' as u32 <= c as u32 <= '9' as u32
    ||| 'a' as u32 <= c as u32 <= 'z' as u32
    ||| 'A' as u32 <= c as u32 <= 'Z' as u32
    ||| c == '!'
    ||| c == '#'
    ||| c == '$'
    ||| c == '%'
    ||| c == '&'
    ||| c == '\''
    ||| c == '*'
    ||| c == '+'
    ||| c == '-'
    ||| c == '.'
    ||| c == '^'
    ||| c == '_'
    ||| c == '`'
    ||| c == '|'
    ||| c == '~'
}

/// A text that names an HTTP method: one character or more, each of which
/// may stand in a method.
pub open spec fn is_method(verb: Seq<char>) -> bool {
    &&& verb.len() > 0
    &&& forall|i: int| 0 <= i < verb.len() ==> is_token_char(#[trigger] verb[i])
}

/// `Method::from_bytes` on the bytes of `verb`: a method where `verb` is not
/// empty and holds only characters that may stand in a method, an error
/// otherwise; `Method::as_str` of that method gives `verb` back. The error
/// is dropped.
#[verifier::external_body]
fn method_from_text(verb: &str) -> (r: Option<Method>)
    ensures
        r is Some <==> is_method(verb@),
        r is Some ==> method_text(r->0) == verb@,
{
    Method::from_bytes(verb.as_bytes()).ok()
}

/// `Url::parse`: the URL that it reads from `text`, or an error. What it
/// reads is a matter of the text alone; it is named, not stated. The error
/// is dropped.
#[verifier::external_body]
fn url_from_text(text: &str) -> (r: Option<Url>)
    ensures
        match parsed_url(text@) {
            Some(url) => r is Some && url_text(r->0) == url,
            None => r is None,
        },
{
    Url::parse(text).ok()
}

/// The text, or the empty text where there is none.
pub open spec fn or_empty(text: Option<Seq<char>>) -> Seq<char> {
    match text {
        Some(t) => t,
        None => Seq::empty(),
    }
}

/// The path that `template` stands for: every `:index` in it replaced by
/// the index, then every `:collection` in the outcome by the collection;
/// by nothing where there is none.
pub open spec fn resolved_path(
    template: Seq<char>,
    index: Option<Seq<char>>,
    collection: Option<Seq<char>>,
) -> Seq<char> {
    replaced(replaced(template, ":index"@, or_empty(index)), ":collection"@, or_empty(collection))
}

impl Route {
    /// The path of the route for a request about `index` and `collection`.
    pub fn path(&self, index: &Option<String>, collection: &Option<String>) -> (r: String)
        ensures
            r@ == resolved_path(self.url@, text_of(*index), text_of(*collection)),
    {
        let with_index = match index {
            Some(name) => replace(self.url.as_str(), ":index", name.as_str()),
            None => replace(self.url.as_str(), ":index", ""),
        };
        proof {
            reveal_strlit("");
            assert(""@ =~= Seq::<char>::empty());
        }
        match collection {
            Some(name) => replace(with_index.as_str(), ":collection", name.as_str()),
            None => replace(with_index.as_str(), ":collection", ""),
        }
    }
}

/// An HTTP call: the method, the URL, and the body and the query strings
/// to send, where there are any.
#[derive(Debug)]
pub struct HttpCall {
    pub method: Method,
    pub url: Url,
    pub body: Option<Payload>,
    pub query_strings: Option<Payload>,
}

/// What an [`HttpCall`] holds.
pub struct CallView {
    pub method: Seq<char>,
    pub url: Seq<char>,
    pub body: Option<Map<Seq<char>, Json>>,
    pub query_strings: Option<Map<Seq<char>, Json>>,
}

impl View for HttpCall {
    type V = CallView;

    open spec fn view(&self) -> CallView {
        CallView {
            method: method_text(self.method),
            url: url_text(self.url),
            body: volatile_of(self.body),
            query_strings: volatile_of(self.query_strings),
        }
    }
}

/// The address of the server of `host` and `port`.
pub open spec fn server_url(host: Seq<char>, port: u32) -> Seq<char> {
    "http://"@ + host + ":"@ + decimal(port as nat)
}

/// What is sent of a mapping: nothing where it is empty.
pub open spec fn attached(data: Map<Seq<char>, Json>) -> Option<Map<Seq<char>, Json>> {
    if data == Map::<Seq<char>, Json>::empty() {
        None
    } else {
        Some(data)
    }
}

/// The HTTP call that carries `request` to the server at `base`, by the
/// routes of `table`.
///
/// A request whose controller and action have no route is refused. The URL
/// is `base` followed by the path of the route; where that is no URL, the
/// request is refused, and so it is where the verb of the route names no
/// HTTP method.
pub open spec fn resolution(base: Seq<char>, table: TableView, request: RequestView) -> Result<
    CallView,
    ProtocolErrorView,
> {
    match lookup(table, request.controller, request.action) {
        None => Err(
            ProtocolErrorView::UnknownRoute {
                controller: request.controller,
                action: request.action,
            },
        ),
        Some(route) => {
            let target = base + resolved_path(route.url, request.index, request.collection);
            match parsed_url(target) {
                None => Err(ProtocolErrorView::InvalidUrl { url: target }),
                Some(url) => if is_method(route.verb) {
                    Ok(
                        CallView {
                            method: route.verb,
                            url,
                            body: attached(request.body),
                            query_strings: attached(request.query_strings),
                        },
                    )
                } else {
                    Err(ProtocolErrorView::InvalidVerb { verb: route.verb })
                },
            }
        },
    }
}

/// The binding of the protocol to HTTP: the options of the client and the
/// route table.
#[derive(Debug)]
pub struct Http {
    _options: KuzzleOptions,
    _routes: Routes,
    _base_url: Option<String>,
}

impl Http {
    /// The options that the transport was made with.
    pub closed spec fn options(&self) -> OptionsView {
        self._options@
    }

    /// The route table that the transport was made with.
    pub closed spec fn routes(&self) -> TableView {
        self._routes@
    }

    /// The address that stands in for that of the server, where one was
    /// set.
    pub closed spec fn stand_in(&self) -> Option<Seq<char>> {
        text_of(self._base_url)
    }

    /// The address that the calls go to: that of the server of the options,
    /// or the one that stands in for it.
    pub open spec fn base(&self) -> Seq<char> {
        match self.stand_in() {
            Some(address) => address,
            None => server_url(self.options().host, self.options().port),
        }
    }

    /// A transport to the server that `options` name, by the routes of
    /// `routes`.
    pub fn new(options: KuzzleOptions, routes: Routes) -> (r: Http)
        ensures
            r.options() == options@,
            r.routes() == routes@,
            r.stand_in() is None,
    {
        Http { _options: options, _routes: routes, _base_url: None }
    }

    /// The transport, with its calls sent to `address` in place of the
    /// server of the options.
    pub fn set_base_url(self, address: &str) -> (r: Http)
        ensures
            r.options() == self.options(),
            r.routes() == self.routes(),
            r.stand_in() == Some(address@),
    {
        let mut http = self;
        http._base_url = Some(address.to_owned());
        http
    }

    /// The address that the calls go to.
    pub fn base_url(&self) -> (r: String)
        ensures
            r@ == self.base(),
    {
        match &self._base_url {
            Some(address) => address.clone(),
            None => {
                let mut out = join("http://", self._options.host().as_str());
                out.append(":");
                push_decimal(&mut out, *self._options.port() as u64);
                assert(out@ =~= server_url(self.options().host, self.options().port));
                out
            },
        }
    }

    /// `r` is what resolving `request` gives: the call or the failure of
    /// [`resolution`], for the address and the routes of this transport.
    pub open spec fn resolves(&self, request: RequestView, r: Result<HttpCall, ProtocolError>) -> bool {
        match resolution(self.base(), self.routes(), request) {
            Ok(call) => r is Ok && r->Ok_0@ == call,
            Err(error) => r is Err && r->Err_0@ == error,
        }
    }

    /// The HTTP call that carries `request`.
    pub fn resolve(&self, request: KuzzleRequest) -> (r: Result<HttpCall, ProtocolError>)
        ensures
            self.resolves(request@, r),
    {
        let route = match self._routes.route(
            request.controller().as_str(),
            request.action().as_str(),
        ) {
            Some(route) => route,
            None => {
                return Err(
                    ProtocolError::UnknownRoute {
                        controller: request.controller().clone(),
                        action: request.action().clone(),
                    },
                );
            },
        };
        let path = route.path(request.index(), request.collection());
        let target = join(self.base_url().as_str(), path.as_str());
        let url = match url_from_text(target.as_str()) {
            Some(url) => url,
            None => {
                return Err(ProtocolError::InvalidUrl { url: target });
            },
        };
        let method = match method_from_text(route.verb.as_str()) {
            Some(method) => method,
            None => {
                return Err(ProtocolError::InvalidVerb { verb: route.verb.clone() });
            },
        };
        let parts = request.into_parts();
        let body = if parts.2.is_empty() {
            None
        } else {
            Some(parts.2)
        };
        let query_strings = if parts.3.is_empty() {
            None
        } else {
            Some(parts.3)
        };
        Ok(HttpCall { method, url, body, query_strings })
    }
}

/// Resolving twice gives the same: two outcomes of resolving one request
/// by one transport are both calls, with the same verb, URL, body and query
/// strings, or both failures, and the same failure.
pub proof fn lemma_resolving_is_repeatable(
    http: Http,
    request: RequestView,
    first: Result<HttpCall, ProtocolError>,
    second: Result<HttpCall, ProtocolError>,
)
    requires
        http.resolves(request, first),
        http.resolves(request, second),
    ensures
        first is Ok <==> second is Ok,
        first is Ok ==> first->Ok_0@ == second->Ok_0@,
        first is Err ==> first->Err_0@ == second->Err_0@,
{
}

/// A request whose controller and action have no route fails as an unknown
/// route, and so as no other failure: not as one of the network, whatever
/// the address, the index and the collection are.
pub proof fn lemma_unknown_route_is_told(base: Seq<char>, table: TableView, request: RequestView)
    requires
        lookup(table, request.controller, request.action) is None,
    ensures
        resolution(base, table, request) == Err::<CallView, ProtocolErrorView>(
            ProtocolErrorView::UnknownRoute {
                controller: request.controller,
                action: request.action,
            },
        ),
        !(resolution(base, table, request)->Err_0 is Network),
{
}

/// The call of a request that has a route: its verb is the verb of the
/// route, and its URL is read from the address followed by the path of the
/// route. Where the route is a template and the index and the collection
/// hold no colon, no placeholder stands in that path.
pub proof fn lemma_call_follows_route(base: Seq<char>, table: TableView, request: RequestView)
    requires
        resolution(base, table, request) is Ok,
    ensures
        lookup(table, request.controller, request.action) is Some,
        ({
            let route = lookup(table, request.controller, request.action)->0;
            let call = resolution(base, table, request)->Ok_0;
            let path = resolved_path(route.url, request.index, request.collection);
            &&& call.method == route.verb
            &&& parsed_url(base + path) == Some(call.url)
            &&& is_template(route.url) && is_plain(or_empty(request.index)) && is_plain(
                or_empty(request.collection),
            ) ==> !occurs_in(path, ":index"@) && !occurs_in(path, ":collection"@)
        }),
{
    let route = lookup(table, request.controller, request.action)->0;
    if is_template(route.url) && is_plain(or_empty(request.index)) && is_plain(
        or_empty(request.collection),
    ) {
        lemma_no_placeholder_remains(route.url, request.index, request.collection);
    }
}

} // verus!
