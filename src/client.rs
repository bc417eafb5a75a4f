//! The calling side: issues calls and notifications and keeps the table of
//! calls that still wait for their reply.
//!
//! `Correlator` states in Rust the rules that the script in
//! `dispatch::CLIENT_SCRIPT` follows inside the web view. That script is what
//! runs there, and it is not verified; `Correlator` is, and serves callers
//! that drive the protocol from Rust.

use vstd::prelude::*;
use vstd::string::*;
use std::collections::HashSet;
use crate::json::Json;
use crate::message::{RpcId, RpcRequest, Reply, Outcome, field_view, internal_error, is_internal_error};

verus! {

broadcast use vstd::std_specs::hash::group_hash_axioms;

/// How many identifiers `call` draws before it gives up.
pub const MAX_DRAWS: u32 = 8;

/// Why a call could not be issued.
#[derive(Debug, PartialEq, Eq, Structural)]
pub enum CallError {
    /// Every identifier drawn was already waiting for a reply.
    NoFreeId,
}

/// How a waiting call was settled.
#[derive(Debug)]
pub enum Settlement {
    Fulfilled { id: u32, value: Json },
    Rejected { id: u32, error: Json },
}

/// The table of calls that wait for a reply, keyed by identifier.
pub struct Correlator {
    pending: HashSet<u32>,
}

impl View for Correlator {
    type V = Set<u32>;

    closed spec fn view(&self) -> Set<u32> {
        self.pending@
    }
}

/// The table key that an identifier stands for, if any: only the numbers
/// that the table hands out can match an entry.
pub open spec fn key_of(id: RpcId) -> Option<u32> {
    match id {
        RpcId::UInt(u) => if u <= u32::MAX as u64 {
            Some(u as u32)
        } else {
            None
        },
        _ => None,
    }
}

/// Whether a reply for `id` finds a waiting call in `pending`.
pub open spec fn settles(pending: Set<u32>, id: RpcId) -> bool {
    match key_of(id) {
        Some(k) => pending.contains(k),
        None => false,
    }
}

/// The table after a reply for `id` has been delivered.
pub open spec fn after_settling(pending: Set<u32>, id: RpcId) -> Set<u32> {
    match key_of(id) {
        Some(k) => pending.remove(k),
        None => pending,
    }
}

/// The request that a call with identifier `k` sends.
pub open spec fn is_call(req: RpcRequest, k: u32, method: String, params: Vec<Json>) -> bool {
    &&& req.jsonrpc@ == "2.0"@
    &&& req.id == Some(RpcId::UInt(k as u64))
    &&& req.method == method
    &&& req.params == Some(Json::Array(params))
}

/// The error that a status other than 200 stands for: `{"code": status, "data": data}`.
pub open spec fn is_status_error(j: Json, status: u64, data: Json) -> bool {
    field_view(j) == Some(seq![("code"@, Json::UInt(status)), ("data"@, data)])
}

/// A call resolves at most once: once a reply for `id` has settled its
/// call, a second reply for `id` finds nothing and changes nothing.
pub proof fn lemma_settles_once(pending: Set<u32>, id: RpcId)
    requires
        settles(pending, id),
    ensures
        !settles(after_settling(pending, id), id),
        after_settling(after_settling(pending, id), id) == after_settling(pending, id),
{
    let once = after_settling(pending, id);
    assert(after_settling(once, id) =~= once);
}

/// Two calls issued one after the other, each with an identifier that was
/// free when it was drawn, have distinct identifiers, and both stay in the
/// table.
pub proof fn lemma_fresh_ids_differ(pending: Set<u32>, a: u32, b: u32)
    requires
        !pending.contains(a),
        !pending.insert(a).contains(b),
    ensures
        a != b,
        pending.insert(a).insert(b).contains(a),
        pending.insert(a).insert(b).contains(b),
{
}

/// Replies may come in any order: with calls `a` and `b` both waiting, the
/// reply for `b` leaves `a` waiting, and the table ends the same in either
/// order.
pub proof fn lemma_replies_commute(pending: Set<u32>, a: RpcId, b: RpcId)
    requires
        settles(pending, a),
        settles(pending, b),
        key_of(a) != key_of(b),
    ensures
        settles(after_settling(pending, b), a),
        settles(after_settling(pending, a), b),
        after_settling(after_settling(pending, b), a) == after_settling(after_settling(pending, a), b),
{
    assert(after_settling(after_settling(pending, b), a) =~= after_settling(after_settling(pending, a), b));
}

/// Relies on std's `RandomState::new`: a hasher builder keyed with fresh
/// random keys.
#[verifier::external_body]
fn fresh_keys() -> (r: std::collections::hash_map::RandomState) {
    std::collections::hash_map::RandomState::new()
}

/// Relies on std's `BuildHasher::hash_one`: the hash of a constant under
/// the builder's keys, unpredictable where the keys are random.
#[verifier::external_body]
fn hash_constant(keys: &std::collections::hash_map::RandomState) -> (r: u64) {
    std::hash::BuildHasher::hash_one(keys, 0u8)
}

/// A random identifier.
fn draw_id() -> (r: u32) {
    let keys = fresh_keys();
    let h = hash_constant(&keys);
    (h % 0x1_0000_0000) as u32
}

impl Correlator {
    /// An empty table.
    pub fn new() -> (r: Correlator)
        ensures
            r@ == Set::<u32>::empty(),
    {
        Correlator { pending: HashSet::new() }
    }

    /// Whether a call with identifier `id` waits for its reply.
    pub fn is_pending(&self, id: u32) -> (r: bool)
        ensures
            r == self@.contains(id),
    {
        self.pending.contains(&id)
    }

    /// Issues a call with the identifier `id`, unless a call with that
    /// identifier already waits.
    pub fn call_with_id(&mut self, id: u32, method: String, params: Vec<Json>) -> (r: Option<RpcRequest>)
        ensures
            old(self)@.contains(id) ==> r is None && final(self)@ == old(self)@,
            !old(self)@.contains(id) ==> (r matches Some(req) && is_call(req, id, method, params)
                && final(self)@ == old(self)@.insert(id)),
    {
        if self.pending.contains(&id) {
            return None;
        }
        self.pending.insert(id);
        Some(RpcRequest::new(Some(RpcId::UInt(id as u64)), method, Some(Json::Array(params))))
    }

    /// Issues a call with a fresh random identifier, drawing again while the
    /// identifier drawn is taken, at most `MAX_DRAWS` times.
    pub fn call(&mut self, method: String, params: Vec<Json>) -> (r: Result<RpcRequest, CallError>)
        ensures
            match r {
                Ok(req) => exists|k: u32|
                    !old(self)@.contains(k) && is_call(req, k, method, params)
                        && final(self)@ == old(self)@.insert(k),
                Err(e) => e == CallError::NoFreeId && final(self)@ == old(self)@,
            },
            old(self)@ == Set::<u32>::empty() ==> r is Ok,
    {
        let mut attempt: u32 = 0;
        while attempt < MAX_DRAWS
            invariant
                self@ == old(self)@,
                self@ == Set::<u32>::empty() ==> attempt == 0,
            decreases MAX_DRAWS - attempt,
        {
            let k = draw_id();
            if !self.is_pending(k) {
                let r = self.call_with_id(k, method, params);
                return match r {
                    Some(req) => Ok(req),
                    None => Err(CallError::NoFreeId),
                };
            }
            attempt = attempt + 1;
        }
        Err(CallError::NoFreeId)
    }

    /// A notification: a request without identifier, for which no reply is
    /// awaited and nothing is recorded.
    pub fn notify(&self, method: String, params: Vec<Json>) -> (r: RpcRequest)
        ensures
            r.jsonrpc@ == "2.0"@,
            r.id is None,
            r.method == method,
            r.params == Some(Json::Array(params)),
    {
        RpcRequest::new(None, method, Some(Json::Array(params)))
    }

    /// Fulfills the call waiting under `id` with `value`; nothing happens
    /// where no call waits under it.
    pub fn deliver_result(&mut self, id: &RpcId, value: Json) -> (r: Option<Settlement>)
        ensures
            final(self)@ == after_settling(old(self)@, *id),
            settles(old(self)@, *id) ==> r == Some(Settlement::Fulfilled { id: key_of(*id)->Some_0, value }),
            !settles(old(self)@, *id) ==> r is None,
    {
        match self.take(id) {
            Some(k) => Some(Settlement::Fulfilled { id: k, value }),
            None => None,
        }
    }

    /// Rejects the call waiting under `id` with `error`; nothing happens
    /// where no call waits under it.
    pub fn deliver_error(&mut self, id: &RpcId, error: Json) -> (r: Option<Settlement>)
        ensures
            final(self)@ == after_settling(old(self)@, *id),
            settles(old(self)@, *id) ==> r == Some(Settlement::Rejected { id: key_of(*id)->Some_0, error }),
            !settles(old(self)@, *id) ==> r is None,
    {
        match self.take(id) {
            Some(k) => Some(Settlement::Rejected { id: k, error }),
            None => None,
        }
    }

    /// Settles the call that a reply answers, as the reply says.
    pub fn deliver(&mut self, reply: Reply) -> (r: Option<Settlement>)
        ensures
            final(self)@ == after_settling(old(self)@, reply.id),
            !settles(old(self)@, reply.id) ==> r is None,
            settles(old(self)@, reply.id) ==> match reply.outcome {
                Outcome::Value(v) => r == Some(Settlement::Fulfilled { id: key_of(reply.id)->Some_0, value: v }),
                Outcome::Failure(e) => r == Some(Settlement::Rejected { id: key_of(reply.id)->Some_0, error: e }),
                Outcome::Malformed => (r matches Some(Settlement::Rejected { id, error })
                    && id == key_of(reply.id)->Some_0 && is_internal_error(error)),
            },
    {
        match reply.outcome {
            Outcome::Value(v) => self.deliver_result(&reply.id, v),
            Outcome::Failure(e) => self.deliver_error(&reply.id, e),
            Outcome::Malformed => self.deliver_error(&reply.id, internal_error()),
        }
    }

    /// Settles the call under `id` from a status and a payload: status 200
    /// fulfills it with the payload, any other status rejects it with
    /// `{"code": status, "data": data}`.
    pub fn deliver_status(&mut self, id: &RpcId, status: u64, data: Json) -> (r: Option<Settlement>)
        ensures
            final(self)@ == after_settling(old(self)@, *id),
            !settles(old(self)@, *id) ==> r is None,
            settles(old(self)@, *id) && status == 200 ==> r == Some(
                Settlement::Fulfilled { id: key_of(*id)->Some_0, value: data },
            ),
            settles(old(self)@, *id) && status != 200 ==> (r matches Some(Settlement::Rejected { id: k, error })
                && k == key_of(*id)->Some_0 && is_status_error(error, status, data)),
    {
        if status == 200 {
            self.deliver_result(id, data)
        } else {
            let ghost payload = data;
            let mut out: Vec<(String, Json)> = Vec::new();
            out.push((String::from_str("code"), Json::UInt(status)));
            out.push((String::from_str("data"), data));
            let error = Json::Object(out);
            assert(crate::message::fields(out@) =~= seq![("code"@, Json::UInt(status)), ("data"@, payload)]);
            self.deliver_error(id, error)
        }
    }

    /// Removes the entry that `id` stands for and returns its key.
    fn take(&mut self, id: &RpcId) -> (r: Option<u32>)
        ensures
            final(self)@ == after_settling(old(self)@, *id),
            settles(old(self)@, *id) ==> r == key_of(*id),
            !settles(old(self)@, *id) ==> r is None,
    {
        match id {
            RpcId::UInt(u) => {
                if *u > u32::MAX as u64 {
                    return None;
                }
                let k = *u as u32;
                if self.pending.remove(&k) {
                    Some(k)
                } else {
                    None
                }
            },
            _ => None,
        }
    }
}

} // verus!
