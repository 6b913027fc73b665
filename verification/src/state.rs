//! The hash of the exported catalogue, set at most once.

use crate::text::str_eq;
use vstd::prelude::*;
use vstd::string::*;

verus! {

/// Holds the hash of the exported catalogue dataset. It starts unset, takes
/// the first hash it is given and keeps it: the same hash may be set again,
/// another is refused.
pub struct CatalogueHash {
    value: Option<String>,
}

impl View for CatalogueHash {
    type V = Option<Seq<char>>;

    closed spec fn view(&self) -> Option<Seq<char>> {
        match self.value {
            Some(s) => Some(s@),
            None => None,
        }
    }
}

/// What a store holds after an attempt to set `hash`: a set store keeps what
/// it has.
pub open spec fn after_set(held: Option<Seq<char>>, hash: Seq<char>) -> Option<Seq<char>> {
    match held {
        Some(_) => held,
        None => Some(hash),
    }
}

/// The message with which an attempt to set another hash is refused.
pub open spec fn already_set_message() -> Seq<char> {
    "Catalogue hash already set"@
}

impl CatalogueHash {
    /// A store with no hash set.
    pub fn new() -> (r: CatalogueHash)
        ensures
            r@ is None,
    {
        CatalogueHash { value: None }
    }
}

/// Sets the hash. The set is idempotent: a store that is unset takes the
/// hash, one that holds the same hash stays as it is, and both succeed. A
/// store that holds another hash keeps its own and refuses the new one.
pub fn set_catalogue_hash(store: &mut CatalogueHash, hash: String) -> (r: Result<(), String>)
    ensures
        final(store)@ == after_set(old(store)@, hash@),
        r is Ok <==> (old(store)@ is None || old(store)@ == Some(hash@)),
        r matches Err(message) ==> message@ == already_set_message(),
{
    let held_same: Option<bool> = match &store.value {
        Some(held) => Some(str_eq(held.as_str(), hash.as_str())),
        None => None,
    };
    match held_same {
        Some(true) => Ok(()),
        Some(false) => Err(String::from_str("Catalogue hash already set")),
        None => {
            store.value = Some(hash);
            Ok(())
        },
    }
}

/// The hash that was set, if one was.
pub fn get_catalogue_hash(store: &CatalogueHash) -> (r: Option<&str>)
    ensures
        r is Some <==> store@ is Some,
        r matches Some(s) ==> store@ == Some(s@),
{
    match &store.value {
        Some(s) => Some(s.as_str()),
        None => None,
    }
}

/// The first hash stays: after a first set a second one changes nothing,
/// whether it brings the same hash or another, and an unset store ends up
/// with the first hash.
pub proof fn lemma_first_hash_stays(held: Option<Seq<char>>, first: Seq<char>, second: Seq<char>)
    ensures
        after_set(after_set(held, first), second) == after_set(held, first),
        after_set(held, first) is Some,
        held is None ==> after_set(after_set(held, first), second) == Some(first),
{
}

} // verus!
