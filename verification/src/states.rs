//! The concrete state graph for the probe-then-fetch policy: a cheap
//! metadata probe, a full body fetch, and the terminal state, wired
//! through the generic transition machinery.

use vstd::prelude::*;

use crate::cache::{data_monotone, HttpCacheData};
use crate::fsm::{terminal, Transition, TransitionGraph};
use crate::resource::{
    method_cost, reproducible, CacheError, Method, Request, RequestView, Transport,
};

verus! {

/// The state identities of the probe-then-fetch machine.
#[derive(Debug, Clone, Copy, PartialEq, Eq, Structural)]
pub enum StateId {
    /// Issues a minimal, cheap-method copy of the request and populates
    /// the metadata fields.
    Probe,
    /// Issues the original request unmodified, repopulates the metadata
    /// and additionally retrieves the body.
    FullFetch,
    /// The distinguished terminal state: no outgoing edge, no work.
    Terminal,
}

impl TransitionGraph for StateId {
    open spec fn allowed(self, next: StateId) -> bool {
        match (self, next) {
            (StateId::Probe, StateId::FullFetch) => true,
            (StateId::FullFetch, StateId::Terminal) => true,
            _ => false,
        }
    }

    open spec fn steps_left(self) -> nat {
        match self {
            StateId::Probe => 2,
            StateId::FullFetch => 1,
            StateId::Terminal => 0,
        }
    }

    proof fn edges_decrease(self, next: StateId) {
    }
}

/// `Terminal` is the one terminal state of the graph.
pub proof fn lemma_terminal_is_terminal()
    ensures
        terminal(StateId::Terminal),
        !terminal(StateId::Probe),
        !terminal(StateId::FullFetch),
{
    assert(!StateId::Terminal.allowed(StateId::Probe));
    assert(StateId::Probe.allowed(StateId::FullFetch));
    assert(StateId::FullFetch.allowed(StateId::Terminal));
}

/// The request the probe issues: a duplicate of the caller's request with
/// the method replaced by the cheapest one.
pub open spec fn probe_request(r: RequestView) -> RequestView {
    RequestView { method: Method::Head, url: r.url, body: r.body }
}

/// The request the full fetch issues: the caller's request, unmodified.
pub open spec fn full_fetch_request(r: RequestView) -> RequestView {
    r
}

/// The probe issues a strictly cheaper request than the full fetch, and
/// the full fetch issues the caller's request unchanged. The one request
/// this cannot hold of is one that already uses the cheapest method: there
/// the probe issues an equally cheap copy.
pub proof fn lemma_method_ordering(r: RequestView)
    requires
        r.method != Method::Head,
    ensures
        method_cost(probe_request(r).method) < method_cost(full_fetch_request(r).method),
        full_fetch_request(r) == r,
{
}

/// Build the probe's outbound request from the caller's request, or `None`
/// exactly when the request cannot be duplicated.
pub fn plan_probe_request(r: &Request) -> (p: Option<Request>)
    ensures
        reproducible(r@) ==> (p matches Some(q) && q@ == probe_request(r@)),
        !reproducible(r@) ==> p is None,
{
    match r.try_clone() {
        Some(c) => {
            let mut q = c;
            q.method = Method::Head;
            Some(q)
        },
        None => None,
    }
}

/// One advance of the probe state: issue the cheap-method copy of the
/// request, absorb the response's metadata, and move to the full fetch.
/// Any failure completes the machine with its distinct error kind instead.
pub fn probe_advance<T: Transport>(data: &mut HttpCacheData, transport: &mut T) -> (t: Transition<
    StateId,
    CacheError,
>)
    ensures
        data_monotone(old(data)@, final(data)@),
        old(data).wf() ==> final(data).wf(),
        t matches Transition::Next(h) ==> h.state == StateId::FullFetch
            && final(data)@.status_code is Some && final(data)@.version is Some
            && final(data)@.headers is Some,
        t matches Transition::Complete(r) ==> r matches Err(e) && (e == CacheError::Transport
            || e == CacheError::MalformedMetadata || e == CacheError::NonReproducible),
        !reproducible(old(data)@.request) ==> t == Transition::<StateId, CacheError>::Complete(
            Err(CacheError::NonReproducible),
        ),
{
    let probe = match plan_probe_request(data.request()) {
        Some(p) => p,
        None => {
            return Transition::Complete(Err(CacheError::NonReproducible));
        },
    };
    let response = match transport.issue(&probe) {
        Ok(r) => r,
        Err(_) => {
            return Transition::Complete(Err(CacheError::Transport));
        },
    };
    match data.populate(response) {
        Ok(()) => Transition::next(StateId::Probe, StateId::FullFetch),
        Err(e) => Transition::Complete(Err(e)),
    }
}

/// One advance of the full-fetch state: issue the original request
/// unmodified, absorb the whole response including its body, and complete
/// the machine. Any failure completes it with its distinct error kind.
pub fn full_fetch_advance<T: Transport>(data: &mut HttpCacheData, transport: &mut T) -> (t:
    Transition<StateId, CacheError>)
    ensures
        data_monotone(old(data)@, final(data)@),
        old(data).wf() ==> final(data).wf(),
        t is Complete,
        t matches Transition::Complete(r) && r is Ok ==> final(data)@.status_code is Some
            && final(data)@.version is Some && final(data)@.headers is Some,
        t matches Transition::Complete(r) && r matches Err(e) ==> (e == CacheError::Transport
            || e == CacheError::MalformedMetadata || e == CacheError::NonReproducible),
        !reproducible(old(data)@.request) ==> t == Transition::<StateId, CacheError>::Complete(
            Err(CacheError::NonReproducible),
        ),
{
    let request = match data.request_clone() {
        Some(r) => r,
        None => {
            return Transition::Complete(Err(CacheError::NonReproducible));
        },
    };
    let response = match transport.issue(&request) {
        Ok(r) => r,
        Err(_) => {
            return Transition::Complete(Err(CacheError::Transport));
        },
    };
    match data.populate(response) {
        Ok(()) => Transition::Complete(Ok(())),
        Err(e) => Transition::Complete(Err(e)),
    }
}

/// One advance of the terminal state: no work, always complete.
pub fn terminal_advance(data: &mut HttpCacheData) -> (t: Transition<StateId, CacheError>)
    ensures
        *final(data) == *old(data),
        t == Transition::<StateId, CacheError>::Complete(Ok(())),
{
    Transition::Complete(Ok(()))
}

} // verus!
