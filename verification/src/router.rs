//! The registry that maps a request identifier to its listener registration,
//! together with the delivery step that routes a response record to the
//! registered listener.
//!
//! The router is generic over the listener registration `L`: callers hand the
//! router whatever copyable handle lets them reach their callback object
//! later. The router owns the mapping alone; serializing concurrent access to
//! it (one lock around the `Router` value) is the embedding program's part,
//! as is actually invoking the listener that a delivery names.

use vstd::prelude::*;
use std::collections::HashMap;
use crate::kind::classify_spec;
use crate::kind::classify;
use crate::kind::ResponseKind;

verus! {

broadcast use vstd::std_specs::hash::group_hash_axioms;

/// The result channel of a delivery: empty for an error-classified record,
/// the payload otherwise.
pub open spec fn result_channel(payload: Seq<char>, tag: u32) -> Seq<char> {
    if classify_spec(tag) == ResponseKind::Error {
        Seq::empty()
    } else {
        payload
    }
}

/// The error channel of a delivery: the payload for an error-classified
/// record, empty otherwise.
pub open spec fn error_channel(payload: Seq<char>, tag: u32) -> Seq<char> {
    if classify_spec(tag) == ResponseKind::Error {
        payload
    } else {
        Seq::empty()
    }
}

/// The arguments of one invocation of a caller's listener: exactly one of
/// the two channels carries the delivered payload, and the numeric tag is
/// passed through unchanged.
pub struct ListenerCall {
    pub result_json: String,
    pub error_json: String,
    pub response_kind: u32,
}

/// Route a delivered payload to the channel its tag selects.
pub fn route_payload(payload: String, tag: u32) -> (call: ListenerCall)
    ensures
        call.response_kind == tag,
        call.result_json@ == result_channel(payload@, tag),
        call.error_json@ == error_channel(payload@, tag),
{
    if classify(tag) == ResponseKind::Error {
        ListenerCall { result_json: String::new(), error_json: payload, response_kind: tag }
    } else {
        ListenerCall { result_json: payload, error_json: String::new(), response_kind: tag }
    }
}

/// The registry of in-flight requests: request identifier to listener
/// registration. Its abstract value is the map of current registrations.
pub struct Router<L> {
    handlers: HashMap<u32, L>,
}

impl<L> View for Router<L> {
    type V = Map<u32, L>;

    closed spec fn view(&self) -> Map<u32, L> {
        self.handlers@
    }
}

impl<L> Router<L> {
    /// An empty registry, constructed once by the embedding program.
    pub fn new() -> (r: Self)
        ensures
            r@ == Map::<u32, L>::empty(),
    {
        Router { handlers: HashMap::new() }
    }

    /// The registry step of request submission: install the listener under
    /// the caller's identifier, overwriting any prior registration under the
    /// same identifier. Callers guarantee uniqueness among in-flight
    /// requests; no check is made here.
    pub fn register(&mut self, id: u32, listener: L)
        ensures
            final(self)@ == old(self)@.insert(id, listener),
    {
        self.handlers.insert(id, listener);
    }

    /// Whether a registration currently exists for `id`.
    pub fn contains(&self, id: u32) -> (present: bool)
        ensures
            present == self@.contains_key(id),
    {
        self.handlers.contains_key(&id)
    }

    /// How many registrations are in flight.
    pub fn len(&self) -> (n: usize)
        ensures
            n == self@.len(),
    {
        self.handlers.len()
    }
}

impl<L: Copy> Router<L> {
    /// The registration currently installed under `id`, if any.
    pub fn lookup(&self, id: u32) -> (r: Option<L>)
        ensures
            match r {
                Some(listener) => self@.contains_key(id) && self@[id] == listener,
                None => !self@.contains_key(id),
            },
    {
        match self.handlers.get(&id) {
            Some(listener) => Some(*listener),
            None => None,
        }
    }

    /// Deliver one response record. If a registration exists for `id`, the
    /// result names the listener to invoke, with the payload routed to the
    /// channel that `tag` selects and the tag passed through; the
    /// registration is removed exactly when `completed` is set. If no
    /// registration exists — expected for late deliveries after a completed
    /// one — no listener is named and the registry is untouched.
    pub fn deliver(&mut self, id: u32, payload: String, tag: u32, completed: bool) -> (r: Option<
        (L, ListenerCall),
    >)
        ensures
            match r {
                Some(p) => {
                    &&& old(self)@.contains_key(id)
                    &&& p.0 == old(self)@[id]
                    &&& p.1.response_kind == tag
                    &&& p.1.result_json@ == result_channel(payload@, tag)
                    &&& p.1.error_json@ == error_channel(payload@, tag)
                },
                None => !old(self)@.contains_key(id),
            },
            final(self)@ == (if old(self)@.contains_key(id) && completed {
                old(self)@.remove(id)
            } else {
                old(self)@
            }),
    {
        let listener: L = match self.handlers.get(&id) {
            Some(listener) => *listener,
            None => {
                return None;
            },
        };
        if completed {
            self.handlers.remove(&id);
        }
        Some((listener, route_payload(payload, tag)))
    }
}

} // verus!
