//! A one-slot cache for the address of one host name.
//!
//! The cache does no lookup itself. A caller asks it what to do, performs
//! the query it is told to perform against the trusted upstream resolver,
//! and hands the answer back. Only a successful answer fills the slot.

use vstd::prelude::*;

verus! {

/// Why a host name could not be resolved.
#[derive(Debug, Clone, Copy, PartialEq, Eq, Structural)]
pub enum ResolveError {
    /// The query itself failed.
    LookupFailed,
    /// The query succeeded but returned no address.
    NoAddress,
}

/// What a caller that needs the address has to do.
#[derive(Debug, Clone, PartialEq, Eq)]
pub enum Lookup {
    /// The address is known: no query is needed.
    Cached(String),
    /// Nothing is known yet: query the upstream resolver for this host name.
    Query(String),
}

/// What came back from the upstream resolver.
#[derive(Debug, Clone, PartialEq, Eq)]
pub enum Answer {
    /// The query failed.
    Failed,
    /// The query returned these addresses, in the resolver's order.
    Addresses(Vec<String>),
}

/// The slot of a cache after `answer` was handed to it.
pub open spec fn spec_slot_after(slot: Option<Seq<char>>, answer: Answer) -> Option<Seq<char>> {
    match answer {
        Answer::Addresses(list) => if list@.len() > 0 {
            Some(list@[0]@)
        } else {
            slot
        },
        Answer::Failed => slot,
    }
}

/// What a caller gets for `answer`.
pub open spec fn spec_resolved(answer: Answer) -> Result<Seq<char>, ResolveError> {
    match answer {
        Answer::Addresses(list) => if list@.len() > 0 {
            Ok(list@[0]@)
        } else {
            Err(ResolveError::NoAddress)
        },
        Answer::Failed => Err(ResolveError::LookupFailed),
    }
}

/// The address of one host name, once it is known.
pub struct ResolverCache {
    hostname: String,
    slot: Option<String>,
}

impl ResolverCache {
    /// The host name that this cache is for.
    pub closed spec fn spec_hostname(&self) -> Seq<char> {
        self.hostname@
    }

    /// The address held, if any.
    pub closed spec fn spec_slot(&self) -> Option<Seq<char>> {
        match self.slot {
            Some(a) => Some(a@),
            None => None,
        }
    }

    /// An empty cache for `hostname`.
    pub fn new(hostname: &str) -> (r: ResolverCache)
        ensures
            r.spec_hostname() == hostname@,
            r.spec_slot() is None,
    {
        ResolverCache { hostname: hostname.to_owned(), slot: None }
    }

    /// The host name that this cache is for.
    pub fn hostname(&self) -> (r: &str)
        ensures
            r@ == self.spec_hostname(),
    {
        self.hostname.as_str()
    }

    /// The address held, if any.
    pub fn cached(&self) -> (r: Option<String>)
        ensures
            r is Some <==> self.spec_slot() is Some,
            r matches Some(a) ==> Some(a@) == self.spec_slot(),
    {
        match &self.slot {
            Some(a) => Some(a.clone()),
            None => None,
        }
    }

    /// Tells a caller what to do: use the address held, or query the
    /// upstream resolver for the host name.
    pub fn begin(&self) -> (r: Lookup)
        ensures
            match r {
                Lookup::Cached(a) => self.spec_slot() == Some(a@),
                Lookup::Query(h) => self.spec_slot() is None && h@ == self.spec_hostname(),
            },
    {
        match &self.slot {
            Some(a) => Lookup::Cached(a.clone()),
            None => Lookup::Query(self.hostname.clone()),
        }
    }

    /// Takes the answer to a query. The first address of a non-empty answer
    /// fills the slot and is returned. A failed query or an empty answer is
    /// an error and leaves the cache as it was, so that the next caller
    /// queries again.
    pub fn complete(&mut self, answer: &Answer) -> (r: Result<String, ResolveError>)
        ensures
            final(self).spec_hostname() == old(self).spec_hostname(),
            final(self).spec_slot() == spec_slot_after(old(self).spec_slot(), *answer),
            match r {
                Ok(a) => spec_resolved(*answer) == Ok::<Seq<char>, ResolveError>(a@),
                Err(e) => spec_resolved(*answer) == Err::<Seq<char>, ResolveError>(e),
            },
    {
        match answer {
            Answer::Failed => Err(ResolveError::LookupFailed),
            Answer::Addresses(list) => {
                if list.len() == 0 {
                    Err(ResolveError::NoAddress)
                } else {
                    let first: String = list[0].clone();
                    self.slot = Some(first.clone());
                    Ok(first)
                }
            },
        }
    }
}

/// Tells whether a caller that finds `slot` has to query the resolver.
pub open spec fn spec_needs_query(slot: Option<Seq<char>>) -> bool {
    slot is None
}

/// Once a query has succeeded no later caller queries again, and every
/// later answer handed in still leaves an address in the slot. A failed
/// query or an empty answer leaves the slot as it was, so a cache that was
/// empty is empty still and the next caller queries again.
pub proof fn lemma_cache_lookups(slot: Option<Seq<char>>, answer: Answer, later: Answer)
    ensures
        spec_resolved(answer) is Ok ==> !spec_needs_query(spec_slot_after(slot, answer)),
        spec_resolved(answer) matches Ok(a) ==> spec_slot_after(slot, answer) == Some(a),
        spec_resolved(answer) is Ok ==> !spec_needs_query(
            spec_slot_after(spec_slot_after(slot, answer), later),
        ),
        spec_resolved(answer) is Err ==> spec_slot_after(slot, answer) == slot,
        spec_resolved(answer) is Err ==> spec_needs_query(spec_slot_after(slot, answer))
            == spec_needs_query(slot),
{
}

} // verus!
