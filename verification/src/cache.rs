//! The progressively populated record describing the target resource, and
//! the lazy façade that composes it with the state-machine engine and the
//! interrupt-condition registry.

use vstd::prelude::*;

use crate::fsm::{Transition, TransitionGraph};
use crate::resource::{
    bytes_eq, check_visible_ascii, clone_bytes, dec_value, is_success, lookup, parse_u64_dec,
    parses_u64, reproducible, visible_ascii, CacheError, HeaderView, Headers, HttpVersion, Method,
    Request, RequestView, Response, Transport,
};
use crate::states::{full_fetch_advance, probe_advance, terminal_advance, StateId};

verus! {

/// The bytes of the header name `content-type`.
pub open spec fn content_type_name() -> Seq<u8> {
    seq![99u8, 111u8, 110u8, 116u8, 101u8, 110u8, 116u8, 45u8, 116u8, 121u8, 112u8, 101u8]
}

/// The bytes of the header name `content-length`.
pub open spec fn content_length_name() -> Seq<u8> {
    seq![
        99u8,
        111u8,
        110u8,
        116u8,
        101u8,
        110u8,
        116u8,
        45u8,
        108u8,
        101u8,
        110u8,
        103u8,
        116u8,
        104u8,
    ]
}

fn content_type_name_vec() -> (v: Vec<u8>)
    ensures
        v@ == content_type_name(),
{
    let v: Vec<u8> = vec![99u8, 111u8, 110u8, 116u8, 101u8, 110u8, 116u8, 45u8, 116u8, 121u8, 112u8, 101u8];
    proof {
        assert(v@ =~= content_type_name());
    }
    v
}

fn content_length_name_vec() -> (v: Vec<u8>)
    ensures
        v@ == content_length_name(),
{
    let v: Vec<u8> = vec![
        99u8,
        111u8,
        110u8,
        116u8,
        101u8,
        110u8,
        116u8,
        45u8,
        108u8,
        101u8,
        110u8,
        103u8,
        116u8,
        104u8,
    ];
    proof {
        assert(v@ =~= content_length_name());
    }
    v
}

/// The mathematical shape of the resource record: the original request and
/// each progressively discovered attribute.
pub struct CacheDataView {
    pub request: RequestView,
    pub version: Option<HttpVersion>,
    pub headers: Option<Seq<HeaderView>>,
    pub status_code: Option<u16>,
    pub content_length: Option<u64>,
    pub content_type: Option<Seq<u8>>,
    pub body: Option<Seq<u8>>,
}

/// The record every state writes into: the original request plus the
/// attributes discovered so far. Presence of a value is the sole "already
/// known" signal; a field, once set, is never unset.
#[derive(Debug)]
pub struct HttpCacheData {
    request: Request,
    pub version: Option<HttpVersion>,
    pub headers: Option<Headers>,
    pub status_code: Option<u16>,
    pub content_length: Option<u64>,
    pub content_type: Option<Vec<u8>>,
    pub body: Option<Vec<u8>>,
}

impl View for HttpCacheData {
    type V = CacheDataView;

    closed spec fn view(&self) -> CacheDataView {
        CacheDataView {
            request: self.request@,
            version: self.version,
            headers: match self.headers {
                Some(h) => Some(h@),
                None => None,
            },
            status_code: self.status_code,
            content_length: self.content_length,
            content_type: match self.content_type {
                Some(t) => Some(t@),
                None => None,
            },
            body: match self.body {
                Some(b) => Some(b@),
                None => None,
            },
        }
    }
}

/// Set fields stay set, and the request is never replaced: the monotonic
/// accumulation invariant relating a record to any later version of it.
pub open spec fn data_monotone(a: CacheDataView, b: CacheDataView) -> bool {
    &&& a.request == b.request
    &&& (a.version is Some ==> b.version is Some)
    &&& (a.headers is Some ==> b.headers is Some)
    &&& (a.status_code is Some ==> b.status_code is Some)
    &&& (a.content_length is Some ==> b.content_length is Some)
    &&& (a.content_type is Some ==> b.content_type is Some)
    &&& (a.body is Some ==> b.body is Some)
}

/// The content-type header names a value that cannot be read as text.
pub open spec fn malformed_content_type(hs: Seq<HeaderView>) -> bool {
    lookup(hs, content_type_name()) matches Some(v) && !visible_ascii(v)
}

/// The content length after absorbing one response: a parseable
/// content-length header wins; otherwise the transport-reported value is
/// kept when there is one; otherwise the previous value stands.
pub open spec fn merged_length(
    old_length: Option<u64>,
    reported: Option<u64>,
    hs: Seq<HeaderView>,
) -> Option<u64> {
    let h = lookup(hs, content_length_name());
    if h is Some && parses_u64(h.unwrap()) {
        Some(dec_value(h.unwrap()) as u64)
    } else if reported is Some {
        reported
    } else {
        old_length
    }
}

/// The content type after absorbing one response: the header value when the
/// header is present, else the previous value.
pub open spec fn merged_type(old_type: Option<Seq<u8>>, hs: Seq<HeaderView>) -> Option<Seq<u8>> {
    match lookup(hs, content_type_name()) {
        Some(v) => Some(v),
        None => old_type,
    }
}

/// The body after absorbing one response: a non-empty retrieved body is
/// stored; an empty or unretrievable one leaves the field as it was, so an
/// empty body is represented as absent.
pub open spec fn merged_body(old_body: Option<Seq<u8>>, got: Option<Seq<u8>>) -> Option<Seq<u8>> {
    if got matches Some(b) && b.len() > 0 {
        got
    } else {
        old_body
    }
}

/// A stored body is never empty, and a stored content type is readable
/// text: the record's well-formedness.
pub open spec fn data_wf(d: CacheDataView) -> bool {
    &&& (d.body matches Some(b) ==> b.len() > 0)
    &&& (d.content_type matches Some(t) ==> visible_ascii(t))
}

impl HttpCacheData {
    /// The record's well-formedness.
    pub open spec fn wf(self) -> bool {
        data_wf(self@)
    }

    /// Creates a new record around `request`, with every attribute still
    /// undiscovered.
    pub fn new(request: Request) -> (d: HttpCacheData)
        ensures
            d.wf(),
            d@.request == request@,
            d@.version is None,
            d@.headers is None,
            d@.status_code is None,
            d@.content_length is None,
            d@.content_type is None,
            d@.body is None,
    {
        HttpCacheData {
            request,
            version: None,
            headers: None,
            status_code: None,
            content_length: None,
            content_type: None,
            body: None,
        }
    }

    /// An independent duplicate of the request, for re-issuance; `None`
    /// exactly when the request cannot be duplicated.
    pub fn request_clone(&self) -> (r: Option<Request>)
        ensures
            reproducible(self@.request) ==> (r matches Some(c) && c@ == self@.request),
            !reproducible(self@.request) ==> r is None,
    {
        self.request.try_clone()
    }

    /// The original request.
    pub fn request(&self) -> (r: &Request)
        ensures
            r@ == self@.request,
    {
        &self.request
    }

    /// Absorb one response into the record: version, status code and the
    /// header collection verbatim, the content type and content length
    /// re-derived preferentially from the headers, and the body only when
    /// it is non-empty. Fails exactly when the content-type header value
    /// is not readable text, leaving the fields written so far in place.
    pub fn populate(&mut self, response: Response) -> (r: Result<(), CacheError>)
        ensures
            r is Ok <==> !malformed_content_type(response@.headers),
            r is Err ==> r == Err::<(), CacheError>(CacheError::MalformedMetadata),
            final(self)@.request == old(self)@.request,
            final(self)@.status_code == Some(response@.status),
            final(self)@.version == Some(response@.version),
            final(self)@.headers == Some(response@.headers),
            final(self)@.content_length == merged_length(
                old(self)@.content_length,
                response@.reported_length,
                response@.headers,
            ),
            r is Ok ==> final(self)@.content_type == merged_type(
                old(self)@.content_type,
                response@.headers,
            ),
            r is Err ==> final(self)@.content_type == old(self)@.content_type,
            r is Ok ==> final(self)@.body == merged_body(old(self)@.body, response@.body),
            r is Err ==> final(self)@.body == old(self)@.body,
            data_monotone(old(self)@, final(self)@),
            old(self).wf() ==> final(self).wf(),
    {
        let content_type_header = response.headers.get(&content_type_name_vec());
        let content_length_header = response.headers.get(&content_length_name_vec());

        self.status_code = Some(response.status);
        self.version = Some(response.version);
        self.headers = Some(response.headers);

        match content_length_header {
            Some(v) => {
                match parse_u64_dec(&v) {
                    Some(n) => {
                        self.content_length = Some(n);
                    },
                    None => {
                        if let Some(l) = response.reported_length {
                            self.content_length = Some(l);
                        }
                    },
                }
            },
            None => {
                if let Some(l) = response.reported_length {
                    self.content_length = Some(l);
                }
            },
        }

        match content_type_header {
            Some(v) => {
                if !check_visible_ascii(&v) {
                    return Err(CacheError::MalformedMetadata);
                }
                self.content_type = Some(v);
            },
            None => {},
        }

        match response.body {
            Some(b) => {
                if b.len() > 0 {
                    self.body = Some(b);
                }
            },
            None => {},
        }

        Ok(())
    }
}

// ---------------------------------------------------------------------------
// Interrupt conditions: pure, total boolean rules over the record, held in
// an ordered registry and OR-combined.
// ---------------------------------------------------------------------------

/// The mathematical shape of one interrupt condition.
pub enum ConditionView {
    StatusNotSuccessful,
    ContentTypeIs(Seq<u8>),
    MethodIs(Method),
}

/// A declarative rule that halts further network work when it holds of the
/// record. Conditions never mutate the record; an unset field makes a
/// condition about that field false, not an error.
#[derive(Debug)]
pub enum InterruptCondition {
    /// Stop once a response's status code is known and is not 2xx.
    StatusNotSuccessful,
    /// Stop once the content type is known and equals the given value.
    ContentTypeIs(Vec<u8>),
    /// Stop when the original request used the given method.
    MethodIs(Method),
}

impl View for InterruptCondition {
    type V = ConditionView;

    open spec fn view(&self) -> ConditionView {
        match self {
            InterruptCondition::StatusNotSuccessful => ConditionView::StatusNotSuccessful,
            InterruptCondition::ContentTypeIs(t) => ConditionView::ContentTypeIs(t@),
            InterruptCondition::MethodIs(m) => ConditionView::MethodIs(*m),
        }
    }
}

/// What it means for one condition to hold of the record.
pub open spec fn condition_holds(c: ConditionView, d: CacheDataView) -> bool {
    match c {
        ConditionView::StatusNotSuccessful => d.status_code matches Some(s) && !is_success(s),
        ConditionView::ContentTypeIs(t) => d.content_type == Some(t),
        ConditionView::MethodIs(m) => d.request.method == m,
    }
}

/// The OR-combination of the whole registry: registry order affects only
/// evaluation order, never this meaning.
pub open spec fn any_condition_holds(cs: Seq<ConditionView>, d: CacheDataView) -> bool {
    exists|i: int| 0 <= i < cs.len() && condition_holds(cs[i], d)
}

fn eval_condition(c: &InterruptCondition, d: &HttpCacheData) -> (b: bool)
    ensures
        b == condition_holds(c@, d@),
{
    match c {
        InterruptCondition::StatusNotSuccessful => match d.status_code {
            Some(s) => !(200 <= s && s < 300),
            None => false,
        },
        InterruptCondition::ContentTypeIs(t) => match &d.content_type {
            Some(ct) => bytes_eq(ct, t),
            None => false,
        },
        InterruptCondition::MethodIs(m) => d.request.method == *m,
    }
}

// ---------------------------------------------------------------------------
// The lazy façade: engine state, lock flag, condition registry and record.
// ---------------------------------------------------------------------------

/// The mathematical shape of the whole façade.
pub struct CacheView {
    pub state: StateId,
    pub locked: bool,
    pub conditions: Seq<ConditionView>,
    pub data: CacheDataView,
    pub failure: Option<CacheError>,
}

/// The façade's well-formedness: the record is well formed, and a recorded
/// failure implies the machine is locked.
pub open spec fn cache_wf(c: CacheView) -> bool {
    &&& data_wf(c.data)
    &&& (c.failure is Some ==> c.locked)
}

/// How many advances the façade can still make: none once locked, and
/// otherwise one more than the advances left in the graph. Every advance
/// of an unlocked façade strictly decreases this rank.
pub open spec fn rank(c: CacheView) -> nat {
    if c.locked {
        0
    } else {
        c.state.steps_left() + 1
    }
}

/// Termination bound: the rank never exceeds the number of states in the
/// graph, and a façade of rank zero is locked. Together with `next`'s
/// guarantee that every advance of an unlocked façade strictly decreases
/// the rank, a façade driven without conditions locks after finitely many
/// advances, bounded by the graph's longest path.
pub proof fn lemma_termination_bound(c: CacheView)
    ensures
        rank(c) <= 3,
        rank(c) == 0 ==> c.locked,
{
}

/// Empty-body normalization: absorbing a response whose body is empty (or
/// could not be retrieved) leaves the body field exactly as it was, so an
/// empty body is represented as absent, never as an empty value.
pub proof fn lemma_empty_body_stays_absent(old_body: Option<Seq<u8>>, got: Option<Seq<u8>>)
    requires
        got matches Some(b) ==> b.len() == 0,
    ensures
        merged_body(old_body, got) == old_body,
{
}

/// With an empty registry no condition can hold, so nothing ever
/// interrupts the machine: it runs until the graph completes.
pub proof fn lemma_no_conditions_never_interrupt(cs: Seq<ConditionView>, d: CacheDataView)
    requires
        cs.len() == 0,
    ensures
        !any_condition_holds(cs, d),
{
}

/// A state machine that lazily resolves the attributes of one network
/// resource and caches them.
///
/// Each per-attribute accessor transparently drives the machine forward
/// exactly as far as needed: an apparently pure read may perform network
/// work through the supplied transport as its core observable behavior.
/// Once the machine locks — on completion, on failure, or when an
/// interrupt condition holds after an advance — every accessor returns the
/// same snapshot forever and triggers no further work.
pub struct HttpCache {
    fsm: StateId,
    fsm_locked: bool,
    interupt_conditions: Vec<InterruptCondition>,
    data: HttpCacheData,
    failure: Option<CacheError>,
}

impl View for HttpCache {
    type V = CacheView;

    closed spec fn view(&self) -> CacheView {
        CacheView {
            state: self.fsm,
            locked: self.fsm_locked,
            conditions: self.interupt_conditions@.map_values(|c: InterruptCondition| c@),
            data: self.data@,
            failure: self.failure,
        }
    }
}

impl HttpCache {
    /// The façade's well-formedness; established at construction and
    /// preserved by every operation.
    pub open spec fn wf(self) -> bool {
        cache_wf(self@)
    }

    /// Creates a new cache around `request`: start state, unlocked, empty
    /// record, empty condition registry.
    pub fn new(request: Request) -> (c: HttpCache)
        ensures
            c.wf(),
            c@.state == StateId::Probe,
            !c@.locked,
            c@.conditions.len() == 0,
            c@.failure is None,
            c@.data.request == request@,
            c@.data.version is None,
            c@.data.headers is None,
            c@.data.status_code is None,
            c@.data.content_length is None,
            c@.data.content_type is None,
            c@.data.body is None,
    {
        HttpCache {
            fsm: StateId::Probe,
            fsm_locked: false,
            interupt_conditions: Vec::new(),
            data: HttpCacheData::new(request),
            failure: None,
        }
    }

    /// Appends one condition to the ordered registry. The machine stops if
    /// any registered condition holds after an advance.
    pub fn add_interupt_condition(&mut self, condition: InterruptCondition)
        ensures
            final(self)@.conditions == old(self)@.conditions.push(condition@),
            final(self)@.state == old(self)@.state,
            final(self)@.locked == old(self)@.locked,
            final(self)@.data == old(self)@.data,
            final(self)@.failure == old(self)@.failure,
            old(self).wf() ==> final(self).wf(),
    {
        let ghost before = self@.conditions;
        self.interupt_conditions.push(condition);
        proof {
            assert(self@.conditions =~= before.push(condition@));
        }
    }

    /// The underlying request. Read-only, no side effect.
    pub fn request(&self) -> (r: &Request)
        ensures
            r@ == self@.data.request,
    {
        self.data.request()
    }

    /// Whether the machine is locked: finished, failed, or interrupted.
    /// Read-only, no side effect.
    pub fn fsm_is_locked(&self) -> (b: bool)
        ensures
            b == self@.locked,
    {
        self.fsm_locked
    }

    /// The failure that completed the machine, if any. Read-only.
    pub fn failure(&self) -> (r: Option<CacheError>)
        ensures
            r == self@.failure,
    {
        self.failure
    }

    /// Locks the machine: set on completion or on a true condition, never
    /// reset.
    fn lock_fsm(&mut self)
        ensures
            final(self)@.locked,
            final(self)@.state == old(self)@.state,
            final(self)@.conditions == old(self)@.conditions,
            final(self)@.data == old(self)@.data,
            final(self)@.failure == old(self)@.failure,
    {
        self.fsm_locked = true;
    }

    /// Whether any registered condition holds of the record now.
    fn check_conditions(&self) -> (b: bool)
        ensures
            b == any_condition_holds(self@.conditions, self@.data),
    {
        let n = self.interupt_conditions.len();
        let mut i: usize = 0;
        while i < n
            invariant
                n == self.interupt_conditions@.len(),
                self@.conditions.len() == n,
                0 <= i <= n,
                forall|j: int| 0 <= j < i ==> !condition_holds(self@.conditions[j], self@.data),
            decreases n - i,
        {
            proof {
                assert(self@.conditions[i as int] == self.interupt_conditions@[i as int]@);
            }
            if eval_condition(&self.interupt_conditions[i], &self.data) {
                return true;
            }
            i += 1;
        }
        false
    }

    /// Advance the machine exactly one step: a no-op once locked;
    /// otherwise the current state performs its one unit of work, the
    /// machine moves along the graph or locks on completion, and every
    /// condition is evaluated against the updated record — any true one
    /// locks the machine before further work can happen.
    ///
    /// Whatever the transport returns: set fields stay set, the registry
    /// is untouched, the rank strictly decreases while unlocked, and the
    /// machine ends either locked or in a graph-related successor state
    /// of which no condition holds.
    pub fn next<T: Transport>(&mut self, transport: &mut T)
        requires
            old(self).wf(),
        ensures
            final(self).wf(),
            final(self)@.conditions == old(self)@.conditions,
            data_monotone(old(self)@.data, final(self)@.data),
            old(self)@.locked ==> final(self)@ == old(self)@,
            !final(self)@.locked ==> final(self)@ == old(self)@ || !any_condition_holds(
                final(self)@.conditions,
                final(self)@.data,
            ),
            old(self)@.locked ==> final(self)@.locked,
            old(self)@.failure is Some ==> final(self)@.failure == old(self)@.failure,
            !old(self)@.locked ==> rank(final(self)@) < rank(old(self)@),
            final(self)@.state == old(self)@.state || old(self)@.state.allowed(
                final(self)@.state,
            ),
            !old(self)@.locked ==> final(self)@.locked || !any_condition_holds(
                final(self)@.conditions,
                final(self)@.data,
            ),
            !old(self)@.locked && old(self)@.state == StateId::Probe && final(self)@.state
                == StateId::FullFetch ==> final(self)@.data.status_code is Some
                && final(self)@.data.version is Some && final(self)@.data.headers is Some,
            !old(self)@.locked && old(self)@.state != StateId::Probe ==> final(self)@.locked,
            !old(self)@.locked && !reproducible(old(self)@.data.request) && old(self)@.state
                != StateId::Terminal ==> final(self)@.locked && final(self)@.failure == Some(
                CacheError::NonReproducible,
            ),
    {
        if self.fsm_locked {
            return ;
        }
        let t: Transition<StateId, CacheError> = match self.fsm {
            StateId::Probe => probe_advance(&mut self.data, transport),
            StateId::FullFetch => full_fetch_advance(&mut self.data, transport),
            StateId::Terminal => terminal_advance(&mut self.data),
        };
        match t {
            Transition::Next(h) => {
                self.fsm = h.state;
                if self.check_conditions() {
                    self.lock_fsm();
                }
            },
            Transition::Complete(r) => {
                if let Err(e) = r {
                    self.failure = Some(e);
                }
                self.lock_fsm();
            },
        }
    }

    /// Gets the HTTP version of the response.
    ///
    /// May perform network work: if the machine is unlocked and the field
    /// is still unknown, the machine is driven forward — one round trip at
    /// a time — until the field is known or the machine locks. Once
    /// locked, the current value (possibly unset, forever) is returned
    /// with no further work.
    pub fn version<T: Transport>(&mut self, transport: &mut T) -> (r: Option<HttpVersion>)
        requires
            old(self).wf(),
        ensures
            final(self).wf(),
            final(self)@.conditions == old(self)@.conditions,
            data_monotone(old(self)@.data, final(self)@.data),
            old(self)@.locked ==> final(self)@ == old(self)@,
            !final(self)@.locked ==> final(self)@ == old(self)@ || !any_condition_holds(
                final(self)@.conditions,
                final(self)@.data,
            ),
            !old(self)@.locked && old(self)@.data.version is Some ==> final(self)@ == old(self)@,
            final(self)@.locked || final(self)@.data.version is Some,
            r == final(self)@.data.version,
    {
        loop
            invariant
                self.wf(),
                self@.conditions == old(self)@.conditions,
                data_monotone(old(self)@.data, self@.data),
                old(self)@.locked ==> self@ == old(self)@,
                !self@.locked ==> self@ == old(self)@ || !any_condition_holds(
                    self@.conditions,
                    self@.data,
                ),
                !old(self)@.locked && old(self)@.data.version is Some ==> self@ == old(self)@,
            decreases rank(self@),
        {
            if self.fsm_locked {
                return self.data.version;
            }
            match self.data.version {
                Some(v) => {
                    return Some(v);
                },
                None => {},
            }
            self.next(transport);
        }
    }

    /// Gets the status code of the response. Same lazy policy as
    /// [`Self::version`]: may perform network work while unlocked.
    pub fn status_code<T: Transport>(&mut self, transport: &mut T) -> (r: Option<u16>)
        requires
            old(self).wf(),
        ensures
            final(self).wf(),
            final(self)@.conditions == old(self)@.conditions,
            data_monotone(old(self)@.data, final(self)@.data),
            old(self)@.locked ==> final(self)@ == old(self)@,
            !final(self)@.locked ==> final(self)@ == old(self)@ || !any_condition_holds(
                final(self)@.conditions,
                final(self)@.data,
            ),
            !old(self)@.locked && old(self)@.data.status_code is Some ==> final(self)@ == old(
                self,
            )@,
            final(self)@.locked || final(self)@.data.status_code is Some,
            r == final(self)@.data.status_code,
    {
        loop
            invariant
                self.wf(),
                self@.conditions == old(self)@.conditions,
                data_monotone(old(self)@.data, self@.data),
                old(self)@.locked ==> self@ == old(self)@,
                !self@.locked ==> self@ == old(self)@ || !any_condition_holds(
                    self@.conditions,
                    self@.data,
                ),
                !old(self)@.locked && old(self)@.data.status_code is Some ==> self@ == old(
                    self,
                )@,
            decreases rank(self@),
        {
            if self.fsm_locked {
                return self.data.status_code;
            }
            match self.data.status_code {
                Some(s) => {
                    return Some(s);
                },
                None => {},
            }
            self.next(transport);
        }
    }

    /// Gets the content length of the response. Same lazy policy as
    /// [`Self::version`]: may perform network work while unlocked.
    pub fn content_length<T: Transport>(&mut self, transport: &mut T) -> (r: Option<u64>)
        requires
            old(self).wf(),
        ensures
            final(self).wf(),
            final(self)@.conditions == old(self)@.conditions,
            data_monotone(old(self)@.data, final(self)@.data),
            old(self)@.locked ==> final(self)@ == old(self)@,
            !final(self)@.locked ==> final(self)@ == old(self)@ || !any_condition_holds(
                final(self)@.conditions,
                final(self)@.data,
            ),
            !old(self)@.locked && old(self)@.data.content_length is Some ==> final(self)@ == old(
                self,
            )@,
            final(self)@.locked || final(self)@.data.content_length is Some,
            r == final(self)@.data.content_length,
    {
        loop
            invariant
                self.wf(),
                self@.conditions == old(self)@.conditions,
                data_monotone(old(self)@.data, self@.data),
                old(self)@.locked ==> self@ == old(self)@,
                !self@.locked ==> self@ == old(self)@ || !any_condition_holds(
                    self@.conditions,
                    self@.data,
                ),
                !old(self)@.locked && old(self)@.data.content_length is Some ==> self@ == old(
                    self,
                )@,
            decreases rank(self@),
        {
            if self.fsm_locked {
                return self.data.content_length;
            }
            match self.data.content_length {
                Some(l) => {
                    return Some(l);
                },
                None => {},
            }
            self.next(transport);
        }
    }

    /// Gets the content type of the response. Same lazy policy as
    /// [`Self::version`]: may perform network work while unlocked.
    pub fn content_type<T: Transport>(&mut self, transport: &mut T) -> (r: Option<Vec<u8>>)
        requires
            old(self).wf(),
        ensures
            final(self).wf(),
            final(self)@.conditions == old(self)@.conditions,
            data_monotone(old(self)@.data, final(self)@.data),
            old(self)@.locked ==> final(self)@ == old(self)@,
            !final(self)@.locked ==> final(self)@ == old(self)@ || !any_condition_holds(
                final(self)@.conditions,
                final(self)@.data,
            ),
            !old(self)@.locked && old(self)@.data.content_type is Some ==> final(self)@ == old(
                self,
            )@,
            final(self)@.locked || final(self)@.data.content_type is Some,
            r is Some <==> final(self)@.data.content_type is Some,
            r matches Some(v) ==> final(self)@.data.content_type == Some(v@),
    {
        loop
            invariant
                self.wf(),
                self@.conditions == old(self)@.conditions,
                data_monotone(old(self)@.data, self@.data),
                old(self)@.locked ==> self@ == old(self)@,
                !self@.locked ==> self@ == old(self)@ || !any_condition_holds(
                    self@.conditions,
                    self@.data,
                ),
                !old(self)@.locked && old(self)@.data.content_type is Some ==> self@ == old(
                    self,
                )@,
            decreases rank(self@),
        {
            if self.fsm_locked {
                let r = match &self.data.content_type {
                    Some(t) => Some(clone_bytes(t)),
                    None => None,
                };
                return r;
            }
            match &self.data.content_type {
                Some(t) => {
                    return Some(clone_bytes(t));
                },
                None => {},
            }
            self.next(transport);
        }
    }

    /// Gets the body of the response. Same lazy policy as
    /// [`Self::version`]: may perform network work while unlocked. An
    /// unset body under a locked machine is the authoritative "no body";
    /// the machine never stores an empty body.
    pub fn body<T: Transport>(&mut self, transport: &mut T) -> (r: Option<Vec<u8>>)
        requires
            old(self).wf(),
        ensures
            final(self).wf(),
            final(self)@.conditions == old(self)@.conditions,
            data_monotone(old(self)@.data, final(self)@.data),
            old(self)@.locked ==> final(self)@ == old(self)@,
            !final(self)@.locked ==> final(self)@ == old(self)@ || !any_condition_holds(
                final(self)@.conditions,
                final(self)@.data,
            ),
            !old(self)@.locked && old(self)@.data.body is Some ==> final(self)@ == old(self)@,
            final(self)@.locked || final(self)@.data.body is Some,
            r is Some <==> final(self)@.data.body is Some,
            r matches Some(v) ==> final(self)@.data.body == Some(v@) && v@.len() > 0,
    {
        loop
            invariant
                self.wf(),
                self@.conditions == old(self)@.conditions,
                data_monotone(old(self)@.data, self@.data),
                old(self)@.locked ==> self@ == old(self)@,
                !self@.locked ==> self@ == old(self)@ || !any_condition_holds(
                    self@.conditions,
                    self@.data,
                ),
                !old(self)@.locked && old(self)@.data.body is Some ==> self@ == old(self)@,
            decreases rank(self@),
        {
            if self.fsm_locked {
                let r = match &self.data.body {
                    Some(b) => Some(clone_bytes(b)),
                    None => None,
                };
                return r;
            }
            match &self.data.body {
                Some(b) => {
                    return Some(clone_bytes(b));
                },
                None => {},
            }
            self.next(transport);
        }
    }

    /// Gets the headers of the response. Same lazy policy as
    /// [`Self::version`]: may perform network work while unlocked.
    pub fn headers<T: Transport>(&mut self, transport: &mut T) -> (r: Option<Headers>)
        requires
            old(self).wf(),
        ensures
            final(self).wf(),
            final(self)@.conditions == old(self)@.conditions,
            data_monotone(old(self)@.data, final(self)@.data),
            old(self)@.locked ==> final(self)@ == old(self)@,
            !final(self)@.locked ==> final(self)@ == old(self)@ || !any_condition_holds(
                final(self)@.conditions,
                final(self)@.data,
            ),
            !old(self)@.locked && old(self)@.data.headers is Some ==> final(self)@ == old(self)@,
            final(self)@.locked || final(self)@.data.headers is Some,
            r is Some <==> final(self)@.data.headers is Some,
            r matches Some(h) ==> final(self)@.data.headers == Some(h@),
    {
        loop
            invariant
                self.wf(),
                self@.conditions == old(self)@.conditions,
                data_monotone(old(self)@.data, self@.data),
                old(self)@.locked ==> self@ == old(self)@,
                !self@.locked ==> self@ == old(self)@ || !any_condition_holds(
                    self@.conditions,
                    self@.data,
                ),
                !old(self)@.locked && old(self)@.data.headers is Some ==> self@ == old(self)@,
            decreases rank(self@),
        {
            if self.fsm_locked {
                let r = match &self.data.headers {
                    Some(h) => Some(h.duplicate()),
                    None => None,
                };
                return r;
            }
            match &self.data.headers {
                Some(h) => {
                    return Some(h.duplicate());
                },
                None => {},
            }
            self.next(transport);
        }
    }
}

} // verus!
