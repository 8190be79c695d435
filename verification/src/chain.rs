use vstd::prelude::*;

use crate::text::str_eq;

verus! {

/// An entry of an agent's source chain, as the validation logic reads it.
///
/// `App` entries carry their entry type, the result of asking for their
/// address, and their content read as a `T` (`None` where the content is not
/// a `T`). Every other kind of chain entry is `Other`.
pub enum ChainEntry<T> {
    App { entry_type: String, address: Result<String, String>, content: Option<T> },
    Other,
}

/// The chain entry is an app entry of type `entry_type` whose content reads as a `T`.
pub open spec fn typed_content<T>(e: ChainEntry<T>, entry_type: Seq<char>) -> Option<T> {
    match e {
        ChainEntry::App { entry_type: t, content: Some(c), .. } => if t@ == entry_type {
            Some(c)
        } else {
            None
        },
        _ => None,
    }
}

/// `o` is a possible answer of the predicate `pred` on `c` other than `Ok(true)`.
pub open spec fn rejects<T, P: Fn(&T) -> Result<bool, String>>(pred: P, c: T) -> bool {
    exists|o: Result<bool, String>| call_ensures(pred, (&c,), o) && o != Ok::<bool, String>(true)
}

/// Finds the first app entry of type `entry_type` whose content reads as a
/// `T` and on which `predicate` answers `Ok(true)`, and gives its content.
pub fn find_entry<'a, T, P: Fn(&T) -> Result<bool, String>>(
    chain_entries: &'a Vec<ChainEntry<T>>,
    entry_type: &str,
    predicate: P,
) -> (r: Option<&'a T>)
    requires
        forall|i: int|
            0 <= i < chain_entries@.len() && (#[trigger] typed_content(
                chain_entries@[i],
                entry_type@,
            )) is Some ==> call_requires(
                predicate,
                (&typed_content(chain_entries@[i], entry_type@)->0,),
            ),
    ensures
        r is Some ==> exists|i: int|
            {
                &&& 0 <= i < chain_entries@.len()
                &&& #[trigger] typed_content(chain_entries@[i], entry_type@) is Some
                &&& call_ensures(
                    predicate,
                    (&typed_content(chain_entries@[i], entry_type@)->0,),
                    Ok::<bool, String>(true),
                )
                &&& *r->0 == typed_content(chain_entries@[i], entry_type@)->0
                &&& forall|j: int|
                    0 <= j < i && (#[trigger] typed_content(chain_entries@[j], entry_type@)) is Some
                        ==> rejects(predicate, typed_content(chain_entries@[j], entry_type@)->0)
            },
        r is None ==> forall|j: int|
            0 <= j < chain_entries@.len() && (#[trigger] typed_content(
                chain_entries@[j],
                entry_type@,
            )) is Some ==> rejects(predicate, typed_content(chain_entries@[j], entry_type@)->0),
{
    let mut i: usize = 0;
    while i < chain_entries.len()
        invariant
            0 <= i <= chain_entries@.len(),
            forall|k: int|
                0 <= k < chain_entries@.len() && (#[trigger] typed_content(
                    chain_entries@[k],
                    entry_type@,
                )) is Some ==> call_requires(
                    predicate,
                    (&typed_content(chain_entries@[k], entry_type@)->0,),
                ),
            forall|j: int|
                0 <= j < i && (#[trigger] typed_content(chain_entries@[j], entry_type@)) is Some
                    ==> rejects(predicate, typed_content(chain_entries@[j], entry_type@)->0),
        decreases chain_entries@.len() - i,
    {
        let e = &chain_entries[i];
        match e {
            ChainEntry::App { entry_type: t, content: Some(c), .. } => {
                if str_eq(t.as_str(), entry_type) {
                    assert(typed_content(chain_entries@[i as int], entry_type@) == Some(*c));
                    let found = predicate(c);
                    match found {
                        Ok(true) => {
                            assert(typed_content(chain_entries@[i as int], entry_type@) is Some);
                            return Some(c);
                        },
                        _ => {
                            assert(rejects(predicate, *c));
                        },
                    }
                }
            },
            _ => {},
        }
        i = i + 1;
    }
    None
}

} // verus!

verus! {

/// What a search by address over a chain comes to.
pub enum Lookup<T> {
    /// No app entry of the type has the address.
    Missing,
    /// The first app entry of the type with the address; its content.
    Found(T),
    /// The search stopped: an address could not be had, or the entry found
    /// does not read as a `T`. The error message.
    Failed(Seq<char>),
}

/// The message of a search that found an entry whose content does not read as a `T`.
pub open spec fn conversion_error() -> Seq<char> {
    "Error converting entry"@
}

/// Searches `chain` from position `i` on for the app entry of type
/// `entry_type` at `address`. Every app entry passed on the way must have
/// its address, else the search fails with that error.
pub open spec fn lookup_from<T>(
    chain: Seq<ChainEntry<T>>,
    i: int,
    entry_type: Seq<char>,
    address: Seq<char>,
) -> Lookup<T>
    decreases chain.len() - i,
{
    if i < 0 || i >= chain.len() {
        Lookup::Missing
    } else {
        match chain[i] {
            ChainEntry::App { entry_type: t, address: a, content } => match a {
                Err(e) => Lookup::Failed(e@),
                Ok(a) => if t@ == entry_type && a@ == address {
                    match content {
                        Some(c) => Lookup::Found(c),
                        None => Lookup::Failed(conversion_error()),
                    }
                } else {
                    lookup_from(chain, i + 1, entry_type, address)
                },
            },
            ChainEntry::Other => lookup_from(chain, i + 1, entry_type, address),
        }
    }
}

/// The result of `find_entry_with_address` matches the search `l`.
pub open spec fn lookup_result<T>(r: Result<Option<&T>, String>, l: Lookup<T>) -> bool {
    match l {
        Lookup::Missing => r == Ok::<Option<&T>, String>(None),
        Lookup::Found(c) => r matches Ok(Some(v)) && *v == c,
        Lookup::Failed(e) => r matches Err(m) && m@ == e,
    }
}

/// Finds the first app entry of type `entry_type` at `address`: `Ok(None)`
/// when there is none, its content when it reads as a `T`, and an error when it
/// does not or when the address of an app entry on the way cannot be had.
pub fn find_entry_with_address<'a, T>(
    chain_entries: &'a Vec<ChainEntry<T>>,
    entry_type: &str,
    address: String,
) -> (r: Result<Option<&'a T>, String>)
    ensures
        lookup_result(r, lookup_from(chain_entries@, 0, entry_type@, address@)),
{
    let n = chain_entries.len();
    let mut i: usize = 0;
    while i < n
        invariant
            n == chain_entries@.len(),
            0 <= i <= n,
            lookup_from(chain_entries@, 0, entry_type@, address@) == lookup_from(
                chain_entries@,
                i as int,
                entry_type@,
                address@,
            ),
        decreases n - i,
    {
        match &chain_entries[i] {
            ChainEntry::App { entry_type: t, address: a, content } => {
                match a {
                    Err(e) => {
                        return Err(e.clone());
                    },
                    Ok(a) => {
                        if str_eq(t.as_str(), entry_type) && *a == address {
                            match content {
                                Some(c) => {
                                    return Ok(Some(c));
                                },
                                None => {
                                    return Err("Error converting entry".to_string());
                                },
                            }
                        }
                    },
                }
            },
            ChainEntry::Other => {},
        }
        i = i + 1;
    }
    Ok(None)
}

} // verus!
