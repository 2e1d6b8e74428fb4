//! Plain-value model of the HTTP vocabulary the cache works with: request
//! methods and their cost order, protocol versions, header collections,
//! requests, responses, and the error taxonomy.

use vstd::prelude::*;

verus! {

/// An HTTP request method.
#[derive(Debug, Clone, Copy, PartialEq, Eq, Structural)]
pub enum Method {
    Get,
    Head,
    Post,
    Put,
    Delete,
    Options,
    Patch,
}

/// Relative network cost of a method: `Head` is the cheapest (no body is
/// transferred), methods that read a representation come next, and methods
/// that carry a request body or mutate the resource are the most expensive.
pub open spec fn method_cost(m: Method) -> nat {
    match m {
        Method::Head => 0,
        Method::Get => 1,
        Method::Options => 1,
        _ => 2,
    }
}

/// An HTTP protocol version.
#[derive(Debug, Clone, Copy, PartialEq, Eq, Structural)]
pub enum HttpVersion {
    Http09,
    Http10,
    Http11,
    H2,
    H3,
}

/// How the cache's work can fail. Each kind is surfaced distinctly; none is
/// silently swallowed.
#[derive(Debug, Clone, Copy, PartialEq, Eq, Structural)]
pub enum CacheError {
    /// The transport reported an error while issuing a request.
    Transport,
    /// Response metadata could not be interpreted (a content-type header
    /// value holding bytes outside the visible ASCII range).
    MalformedMetadata,
    /// The original request could not be duplicated for re-issuance.
    NonReproducible,
}

/// The transport's own failure report, mapped to `CacheError::Transport`
/// by the state that issued the request.
#[derive(Debug, Clone, Copy, PartialEq, Eq, Structural)]
pub struct TransportFailure;

// ---------------------------------------------------------------------------
// Bytes: ASCII helpers shared by header lookup and metadata parsing.
// ---------------------------------------------------------------------------

/// ASCII lower-casing of one byte; bytes outside `A`..`Z` are unchanged.
pub open spec fn ascii_lower(b: u8) -> u8 {
    if 65 <= b && b <= 90 {
        (b + 32) as u8
    } else {
        b
    }
}

/// Case-insensitive equality of two byte strings, ASCII-wise.
pub open spec fn name_eq(a: Seq<u8>, b: Seq<u8>) -> bool {
    a.len() == b.len() && (forall|i: int| 0 <= i < a.len() ==> ascii_lower(a[i]) == ascii_lower(b[i]))
}

/// A byte that renders as a visible ASCII character or a space.
pub open spec fn is_visible_ascii(b: u8) -> bool {
    32 <= b && b <= 126
}

/// A byte string made only of visible ASCII characters and spaces: the only
/// shape accepted for a textual header value such as a content type.
pub open spec fn visible_ascii(s: Seq<u8>) -> bool {
    forall|i: int| 0 <= i < s.len() ==> is_visible_ascii(#[trigger] s[i])
}

/// An ASCII decimal digit.
pub open spec fn is_digit(b: u8) -> bool {
    48 <= b && b <= 57
}

/// Every byte of the string is an ASCII decimal digit.
pub open spec fn all_digits(s: Seq<u8>) -> bool {
    forall|i: int| 0 <= i < s.len() ==> is_digit(#[trigger] s[i])
}

/// The number a digit string denotes, most significant digit first.
pub open spec fn dec_value(s: Seq<u8>) -> int
    decreases s.len(),
{
    if s.len() == 0 {
        0
    } else {
        10 * dec_value(s.drop_last()) + (s.last() - 48)
    }
}

/// A byte string that denotes a length: non-empty, digits only, and small
/// enough for a 64-bit count.
pub open spec fn parses_u64(s: Seq<u8>) -> bool {
    s.len() > 0 && all_digits(s) && dec_value(s) <= u64::MAX
}

proof fn lemma_dec_value_nonneg(s: Seq<u8>)
    requires
        all_digits(s),
    ensures
        dec_value(s) >= 0,
    decreases s.len(),
{
    if s.len() > 0 {
        assert(all_digits(s.drop_last()));
        lemma_dec_value_nonneg(s.drop_last());
    }
}

/// Extending a digit string never shrinks the number it denotes.
proof fn lemma_dec_value_prefix(s: Seq<u8>, i: int)
    requires
        all_digits(s),
        0 <= i <= s.len(),
    ensures
        dec_value(s.take(i)) <= dec_value(s),
    decreases s.len() - i,
{
    assert(all_digits(s.take(i)));
    if i == s.len() {
        assert(s.take(i) =~= s);
    } else {
        lemma_dec_value_prefix(s, i + 1);
        assert(s.take(i + 1).drop_last() =~= s.take(i));
        lemma_dec_value_nonneg(s.take(i));
    }
}

fn ascii_lower_byte(b: u8) -> (r: u8)
    ensures
        r == ascii_lower(b),
{
    if 65 <= b && b <= 90 {
        b + 32
    } else {
        b
    }
}

/// Case-insensitive comparison of two byte strings, ASCII-wise.
pub fn bytes_eq_ignore_case(a: &Vec<u8>, b: &Vec<u8>) -> (r: bool)
    ensures
        r == name_eq(a@, b@),
{
    if a.len() != b.len() {
        return false;
    }
    let n = a.len();
    let mut i: usize = 0;
    while i < n
        invariant
            n == a@.len() == b@.len(),
            0 <= i <= n,
            forall|j: int| 0 <= j < i ==> ascii_lower(a@[j]) == ascii_lower(b@[j]),
        decreases n - i,
    {
        if ascii_lower_byte(a[i]) != ascii_lower_byte(b[i]) {
            return false;
        }
        i += 1;
    }
    true
}

/// Exact equality of two byte strings.
pub fn bytes_eq(a: &Vec<u8>, b: &Vec<u8>) -> (r: bool)
    ensures
        r == (a@ == b@),
{
    if a.len() != b.len() {
        return false;
    }
    let n = a.len();
    let mut i: usize = 0;
    while i < n
        invariant
            n == a@.len() == b@.len(),
            0 <= i <= n,
            forall|j: int| 0 <= j < i ==> a@[j] == b@[j],
        decreases n - i,
    {
        if a[i] != b[i] {
            return false;
        }
        i += 1;
    }
    proof {
        assert(a@ =~= b@);
    }
    true
}

/// Whether every byte of the string is visible ASCII or a space.
pub fn check_visible_ascii(v: &Vec<u8>) -> (r: bool)
    ensures
        r == visible_ascii(v@),
{
    let n = v.len();
    let mut i: usize = 0;
    while i < n
        invariant
            n == v@.len(),
            0 <= i <= n,
            forall|j: int| 0 <= j < i ==> is_visible_ascii(#[trigger] v@[j]),
        decreases n - i,
    {
        let b = v[i];
        if b < 32 || b > 126 {
            return false;
        }
        i += 1;
    }
    true
}

/// An independent copy of a byte string.
pub fn clone_bytes(v: &Vec<u8>) -> (r: Vec<u8>)
    ensures
        r@ == v@,
{
    let n = v.len();
    let mut r: Vec<u8> = Vec::new();
    let mut i: usize = 0;
    while i < n
        invariant
            n == v@.len(),
            0 <= i <= n,
            r@ == v@.take(i as int),
        decreases n - i,
    {
        r.push(v[i]);
        proof {
            assert(r@ =~= v@.take(i + 1));
        }
        i += 1;
    }
    proof {
        assert(r@ =~= v@);
    }
    r
}

/// Parse a byte string as a decimal 64-bit length. Returns the denoted
/// number exactly when the string is non-empty, all digits, and in range.
pub fn parse_u64_dec(s: &Vec<u8>) -> (r: Option<u64>)
    ensures
        parses_u64(s@) ==> r == Some(dec_value(s@) as u64),
        !parses_u64(s@) ==> r is None,
{
    let n = s.len();
    if n == 0 {
        return None;
    }
    let mut acc: u64 = 0;
    let mut i: usize = 0;
    while i < n
        invariant
            n == s@.len(),
            0 <= i <= n,
            all_digits(s@.take(i as int)),
            acc == dec_value(s@.take(i as int)),
        decreases n - i,
    {
        let b = s[i];
        if b < 48 || b > 57 {
            assert(!all_digits(s@));
            return None;
        }
        let d: u64 = (b - 48) as u64;
        proof {
            assert(all_digits(s@.take(i + 1)));
            assert(s@.take(i + 1).drop_last() =~= s@.take(i as int));
            lemma_dec_value_nonneg(s@.take(i as int));
        }
        let shifted = match acc.checked_mul(10) {
            Some(m) => m,
            None => {
                proof {
                    if all_digits(s@) {
                        lemma_dec_value_prefix(s@, i + 1);
                    }
                }
                return None;
            },
        };
        let next = match shifted.checked_add(d) {
            Some(a) => a,
            None => {
                proof {
                    if all_digits(s@) {
                        lemma_dec_value_prefix(s@, i + 1);
                    }
                }
                return None;
            },
        };
        acc = next;
        i += 1;
    }
    proof {
        assert(s@.take(n as int) =~= s@);
    }
    Some(acc)
}

// ---------------------------------------------------------------------------
// Headers: an ordered collection of name/value pairs with case-insensitive
// lookup by name.
// ---------------------------------------------------------------------------

/// One header line: a name and an uninterpreted byte value.
#[derive(Debug)]
pub struct Header {
    pub name: Vec<u8>,
    pub value: Vec<u8>,
}

/// The mathematical shape of one header line.
pub struct HeaderView {
    pub name: Seq<u8>,
    pub value: Seq<u8>,
}

impl View for Header {
    type V = HeaderView;

    open spec fn view(&self) -> HeaderView {
        HeaderView { name: self.name@, value: self.value@ }
    }
}

/// The first value bound to `name` in `entries`, compared ASCII
/// case-insensitively; `None` when no entry matches.
pub open spec fn lookup_from(entries: Seq<HeaderView>, name: Seq<u8>, i: int) -> Option<Seq<u8>>
    decreases entries.len() - i,
{
    if i < 0 || i >= entries.len() {
        None
    } else if name_eq(entries[i].name, name) {
        Some(entries[i].value)
    } else {
        lookup_from(entries, name, i + 1)
    }
}

/// Case-insensitive header lookup: the value of the first matching entry.
pub open spec fn lookup(entries: Seq<HeaderView>, name: Seq<u8>) -> Option<Seq<u8>> {
    lookup_from(entries, name, 0)
}

/// A response's header collection, kept verbatim in arrival order.
#[derive(Debug)]
pub struct Headers {
    pub entries: Vec<Header>,
}

impl View for Headers {
    type V = Seq<HeaderView>;

    open spec fn view(&self) -> Seq<HeaderView> {
        self.entries@.map_values(|h: Header| h@)
    }
}

impl Headers {
    /// An empty header collection.
    pub fn new() -> (r: Headers)
        ensures
            r@ =~= Seq::<HeaderView>::empty(),
    {
        Headers { entries: Vec::new() }
    }

    /// Append one header line.
    pub fn push(&mut self, name: Vec<u8>, value: Vec<u8>)
        ensures
            final(self)@ =~= old(self)@.push(HeaderView { name: name@, value: value@ }),
    {
        self.entries.push(Header { name, value });
        proof {
            assert(final(self)@ =~= old(self)@.push(HeaderView { name: name@, value: value@ }));
        }
    }

    /// An independent copy of the whole collection.
    pub fn duplicate(&self) -> (h: Headers)
        ensures
            h@ == self@,
    {
        let n = self.entries.len();
        let mut out: Vec<Header> = Vec::new();
        let mut i: usize = 0;
        while i < n
            invariant
                n == self.entries@.len(),
                0 <= i <= n,
                out@.len() == i,
                forall|j: int| 0 <= j < i ==> #[trigger] out@[j]@ == self.entries@[j]@,
            decreases n - i,
        {
            let name = clone_bytes(&self.entries[i].name);
            let value = clone_bytes(&self.entries[i].value);
            out.push(Header { name, value });
            i += 1;
        }
        let h = Headers { entries: out };
        proof {
            assert(h@ =~= self@);
        }
        h
    }

    /// The value of the first header whose name matches `name`, ASCII
    /// case-insensitively; `None` when no header matches.
    pub fn get(&self, name: &Vec<u8>) -> (r: Option<Vec<u8>>)
        ensures
            match r {
                Some(v) => lookup(self@, name@) == Some(v@),
                None => lookup(self@, name@) is None,
            },
    {
        let n = self.entries.len();
        let mut i: usize = 0;
        while i < n
            invariant
                n == self.entries@.len(),
                0 <= i <= n,
                self@.len() == n,
                lookup(self@, name@) == lookup_from(self@, name@, i as int),
            decreases n - i,
        {
            proof {
                assert(self@[i as int] == self.entries@[i as int]@);
            }
            if bytes_eq_ignore_case(&self.entries[i].name, name) {
                return Some(clone_bytes(&self.entries[i].value));
            }
            i += 1;
        }
        None
    }
}

// ---------------------------------------------------------------------------
// Requests and responses.
// ---------------------------------------------------------------------------

/// The body an outbound request carries. A streaming body can be sent once
/// but not duplicated, so a request holding one is not reproducible.
#[derive(Debug)]
pub enum RequestBody {
    Absent,
    Bytes(Vec<u8>),
    Streaming,
}

/// The mathematical shape of a request body.
pub enum RequestBodyView {
    Absent,
    Bytes(Seq<u8>),
    Streaming,
}

impl View for RequestBody {
    type V = RequestBodyView;

    open spec fn view(&self) -> RequestBodyView {
        match self {
            RequestBody::Absent => RequestBodyView::Absent,
            RequestBody::Bytes(b) => RequestBodyView::Bytes(b@),
            RequestBody::Streaming => RequestBodyView::Streaming,
        }
    }
}

/// The mathematical shape of an outbound request.
pub struct RequestView {
    pub method: Method,
    pub url: Seq<u8>,
    pub body: RequestBodyView,
}

/// An immutable description of the outbound call.
#[derive(Debug)]
pub struct Request {
    pub method: Method,
    pub url: Vec<u8>,
    pub body: RequestBody,
}

impl View for Request {
    type V = RequestView;

    open spec fn view(&self) -> RequestView {
        RequestView { method: self.method, url: self.url@, body: self.body@ }
    }
}

/// Whether a request can be issued again: a streaming body can be sent
/// only once.
pub open spec fn reproducible(r: RequestView) -> bool {
    !(r.body is Streaming)
}

impl Request {
    /// Whether the request can be issued again.
    pub open spec fn reproducible(self) -> bool {
        reproducible(self@)
    }

    /// Build a request without a body.
    pub fn new(method: Method, url: Vec<u8>) -> (r: Request)
        ensures
            r@.method == method,
            r@.url == url@,
            r@.body is Absent,
    {
        Request { method, url, body: RequestBody::Absent }
    }

    /// An independent duplicate of the request, or `None` exactly when the
    /// body cannot be re-sent.
    pub fn try_clone(&self) -> (r: Option<Request>)
        ensures
            self.reproducible() ==> (r matches Some(c) && c@ == self@),
            !self.reproducible() ==> r is None,
    {
        match &self.body {
            RequestBody::Streaming => None,
            RequestBody::Absent => Some(
                Request {
                    method: self.method,
                    url: clone_bytes(&self.url),
                    body: RequestBody::Absent,
                },
            ),
            RequestBody::Bytes(b) => Some(
                Request {
                    method: self.method,
                    url: clone_bytes(&self.url),
                    body: RequestBody::Bytes(clone_bytes(b)),
                },
            ),
        }
    }
}

/// The mathematical shape of a transport response.
pub struct ResponseView {
    pub version: HttpVersion,
    pub status: u16,
    pub headers: Seq<HeaderView>,
    pub reported_length: Option<u64>,
    pub body: Option<Seq<u8>>,
}

/// What the transport hands back for one issued request: the response
/// surface the cache consumes. `reported_length` is the transport's own
/// account of the content length; `body` is `None` when the body text
/// could not be retrieved.
#[derive(Debug)]
pub struct Response {
    pub version: HttpVersion,
    pub status: u16,
    pub headers: Headers,
    pub reported_length: Option<u64>,
    pub body: Option<Vec<u8>>,
}

impl View for Response {
    type V = ResponseView;

    open spec fn view(&self) -> ResponseView {
        ResponseView {
            version: self.version,
            status: self.status,
            headers: self.headers@,
            reported_length: self.reported_length,
            body: match self.body {
                Some(b) => Some(b@),
                None => None,
            },
        }
    }
}

/// A 2xx status code.
pub open spec fn is_success(status: u16) -> bool {
    200 <= status && status < 300
}

/// The boundary capability the cache assumes: something that can issue one
/// outbound request and hand back the response, or report failure.
///
/// Nothing is assumed of an implementation: every contract downstream
/// states what holds of the cache whatever a call of `issue` returns.
/// One call stands for exactly one network round trip.
pub trait Transport {
    /// Issue `request` once and wait for its response.
    fn issue(&mut self, request: &Request) -> Result<Response, TransportFailure>;
}

} // verus!
