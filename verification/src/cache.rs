//! A sample cache service built on the framework: a worker whose calls
//! answer `Get` requests out of a map and whose casts apply `Put`
//! requests to it. The decisions of its two handlers are here; the
//! asynchronous callbacks around them only wrap these results in
//! directives.

use vstd::prelude::*;
use std::collections::HashMap;

verus! {

broadcast use vstd::std_specs::hash::group_hash_axioms;

/// A request to the cache worker.
#[derive(PartialEq, Eq, Structural, Clone, Copy, Debug)]
pub enum CacheReq {
    Put(i32, i32),
    Get(i32),
}

/// A reply from the cache worker.
#[derive(PartialEq, Eq, Structural, Clone, Copy, Debug)]
pub enum CacheResp {
    Done,
    Failed(i32),
    Get(Option<i32>),
}

/// The cache worker's private state: the stored entries.
pub struct CacheState {
    map: HashMap<i32, i32>,
}

impl CacheState {
    /// The stored entries.
    pub closed spec fn view(&self) -> Map<i32, i32> {
        self.map@
    }

    pub fn new() -> (r: Self)
        ensures
            r@ == Map::<i32, i32>::empty(),
    {
        CacheState { map: HashMap::new() }
    }
}

impl Default for CacheState {
    fn default() -> (r: Self)
        ensures
            r@ == Map::<i32, i32>::empty(),
    {
        CacheState::new()
    }
}

/// The call handler's decision: a `Get` is answered with the stored
/// value under the key, or `None` if the key is absent; any other
/// request draws no reply.
pub fn cache_handle_call(request: CacheReq, state: &CacheState) -> (r: Option<CacheResp>)
    ensures
        (request matches CacheReq::Get(k) ==>
            r == Some(CacheResp::Get(if state@.contains_key(k) { Some(state@[k]) } else { None }))),
        (request matches CacheReq::Put(..) ==> r is None),
{
    match request {
        CacheReq::Get(k) => {
            let result = match state.map.get(&k) {
                Some(v) => Some(*v),
                None => None,
            };
            Some(CacheResp::Get(result))
        }
        CacheReq::Put(..) => None,
    }
}

/// The cast handler's decision: a `Put` stores its value under its
/// key, overwriting any older value; any other request changes nothing.
pub fn cache_handle_cast(request: CacheReq, state: &mut CacheState)
    ensures
        (request matches CacheReq::Put(k, v) ==> final(state)@ == old(state)@.insert(k, v)),
        (request matches CacheReq::Get(_) ==> final(state)@ == old(state)@),
{
    match request {
        CacheReq::Put(k, v) => {
            self_insert(state, k, v);
        }
        CacheReq::Get(_) => {}
    }
}

/// Store one entry.
fn self_insert(state: &mut CacheState, k: i32, v: i32)
    ensures
        final(state)@ == old(state)@.insert(k, v),
{
    state.map.insert(k, v);
}

} // verus!
