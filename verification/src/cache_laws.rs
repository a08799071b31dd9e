//! What holds of every call for a package, however the calls of several
//! callers fall between each other.

use crate::address::AccountAddress;
use crate::cache::{reconciled, served};
use crate::error::Error;
use crate::package::Package;
use crate::recency::{
    bounded, distinct_keys, lemma_position, lemma_stored, lemma_touched, position, touched, value_of,
};
use std::sync::Arc;
use vstd::prelude::*;

verus! {

/// Offering a fetched package keeps the cache well-formed, and what the
/// caller gets is what the cache then holds for the address, at the front.
/// Its version is not lower than that of the fetched package, nor than that
/// of the package that was cached before.
pub proof fn law_reconciled_is_cached(
    entries: Seq<((u128, u128), Arc<Package>)>,
    limit: nat,
    key: (u128, u128),
    package: Arc<Package>,
)
    requires
        bounded(entries, limit),
    ensures
        bounded(reconciled(entries, limit, key, package).0, limit),
        position(reconciled(entries, limit, key, package).0, key) == Some(0int),
        value_of(reconciled(entries, limit, key, package).0, key) == Some(
            reconciled(entries, limit, key, package).1,
        ),
        reconciled(entries, limit, key, package).1.version >= package.version,
        value_of(entries, key) matches Some(previous) ==> reconciled(
            entries,
            limit,
            key,
            package,
        ).1.version >= previous.version,
{
    lemma_touched(entries, key);
    lemma_stored(entries, limit, key, package);
    lemma_position(entries, key);
}

/// A call keeps the cache well-formed. Where it hands out a package, the
/// cache then holds that package for the address.
pub proof fn law_served_is_cached(
    entries: Seq<((u128, u128), Arc<Package>)>,
    limit: nat,
    system: bool,
    key: (u128, u128),
    version: Result<u64, Error>,
    fetch: Result<Arc<Package>, Error>,
)
    requires
        bounded(entries, limit),
    ensures
        bounded(served(entries, limit, system, key, version, fetch).entries, limit),
        served(entries, limit, system, key, version, fetch).result matches Ok(package)
            ==> value_of(served(entries, limit, system, key, version, fetch).entries, key) == Some(
            package,
        ),
{
    lemma_touched(entries, key);
    let used = touched(entries, key);
    if let Ok(package) = fetch {
        law_reconciled_is_cached(used, limit, key, package);
    }
}

/// A package that the store does not know cannot be had. Where the store
/// answers `PackageNotFound` for `id`, and nothing is cached for `id` unless
/// it names a system package, the call fails with that error, after it has
/// asked the store, and every address keeps the package that was cached for
/// it.
pub proof fn law_unknown_package_is_not_found(
    entries: Seq<((u128, u128), Arc<Package>)>,
    limit: nat,
    system: bool,
    id: AccountAddress,
)
    requires
        bounded(entries, limit),
        system || value_of(entries, id.key()) is None,
    ensures
        ({
            let missing = Error::PackageNotFound(id);
            let call = served(entries, limit, system, id.key(), Err(missing), Err(missing));
            &&& call.result == Err::<Arc<Package>, Error>(missing)
            &&& call.asked_version || call.fetched
            &&& forall|other: (u128, u128)|
                value_of(call.entries, other) == value_of(entries, other)
        }),
{
    lemma_touched(entries, id.key());
}

/// An ordinary package is fetched once. After a call has handed out a
/// package for an address that names no system package, the next call for
/// that address hands out the same package and does not ask the store,
/// whatever the store would answer.
pub proof fn law_ordinary_package_is_fetched_once(
    entries: Seq<((u128, u128), Arc<Package>)>,
    limit: nat,
    key: (u128, u128),
    version: Result<u64, Error>,
    fetch: Result<Arc<Package>, Error>,
    next_version: Result<u64, Error>,
    next_fetch: Result<Arc<Package>, Error>,
)
    requires
        bounded(entries, limit),
        served(entries, limit, false, key, version, fetch).result is Ok,
    ensures
        ({
            let first = served(entries, limit, false, key, version, fetch);
            let second = served(first.entries, limit, false, key, next_version, next_fetch);
            &&& second.result == first.result
            &&& !second.asked_version
            &&& !second.fetched
        }),
{
    law_served_is_cached(entries, limit, false, key, version, fetch);
}

/// A system package follows the store. After a call has handed out a system
/// package, a call for which the store reports a higher version, and hands
/// out the package of that version, returns that package, and the cache
/// holds it.
pub proof fn law_system_package_follows_store(
    entries: Seq<((u128, u128), Arc<Package>)>,
    limit: nat,
    key: (u128, u128),
    version: Result<u64, Error>,
    fetch: Result<Arc<Package>, Error>,
    latest: u64,
    upgraded: Arc<Package>,
)
    requires
        bounded(entries, limit),
        served(entries, limit, true, key, version, fetch).result matches Ok(first)
            && first.version < latest,
        upgraded.version == latest,
    ensures
        ({
            let first = served(entries, limit, true, key, version, fetch);
            let second = served(first.entries, limit, true, key, Ok(latest), Ok(upgraded));
            &&& second.result == Ok::<Arc<Package>, Error>(upgraded)
            &&& second.asked_version
            &&& second.fetched
            &&& value_of(second.entries, key) == Some(upgraded)
        }),
{
    law_served_is_cached(entries, limit, true, key, version, fetch);
    let first = served(entries, limit, true, key, version, fetch);
    lemma_touched(first.entries, key);
    law_reconciled_is_cached(touched(first.entries, key), limit, key, upgraded);
}

/// Callers that fetch at the same time agree. Where nothing is cached for an
/// address and two callers each offer a package of the same version for it,
/// both get the package that was offered first, and the cache holds that
/// package for the address, once.
pub proof fn law_concurrent_fetches_agree(
    entries: Seq<((u128, u128), Arc<Package>)>,
    limit: nat,
    key: (u128, u128),
    first: Arc<Package>,
    second: Arc<Package>,
)
    requires
        bounded(entries, limit),
        value_of(entries, key) is None,
        first.version == second.version,
    ensures
        ({
            let (between, to_first) = reconciled(entries, limit, key, first);
            let (after, to_second) = reconciled(between, limit, key, second);
            &&& to_first == first
            &&& to_second == first
            &&& to_first.version == first.version
            &&& to_second.version == second.version
            &&& value_of(after, key) == Some(first)
            &&& distinct_keys(after)
        }),
{
    law_reconciled_is_cached(entries, limit, key, first);
    let (between, to_first) = reconciled(entries, limit, key, first);
    law_reconciled_is_cached(between, limit, key, second);
}

/// The cache never goes back to an older version. Where a package is cached
/// for an address and a caller offers one of a lower version, the caller
/// gets the cached package, and the cache still holds it.
pub proof fn law_late_fetch_loses(
    entries: Seq<((u128, u128), Arc<Package>)>,
    limit: nat,
    key: (u128, u128),
    fetched: Arc<Package>,
)
    requires
        bounded(entries, limit),
        value_of(entries, key) matches Some(cached) && fetched.version < cached.version,
    ensures
        value_of(entries, key) == Some(reconciled(entries, limit, key, fetched).1),
        value_of(reconciled(entries, limit, key, fetched).0, key) == value_of(entries, key),
{
    law_reconciled_is_cached(entries, limit, key, fetched);
}

/// While a package stays cached for an address, no call lowers its version:
/// the package that a call hands out is not older than the one that was
/// cached before the call.
pub proof fn law_versions_do_not_fall(
    entries: Seq<((u128, u128), Arc<Package>)>,
    limit: nat,
    system: bool,
    key: (u128, u128),
    version: Result<u64, Error>,
    fetch: Result<Arc<Package>, Error>,
)
    requires
        bounded(entries, limit),
        value_of(entries, key) is Some,
    ensures
        ({
            let call = served(entries, limit, system, key, version, fetch);
            &&& value_of(call.entries, key) matches Some(kept)
            &&& kept.version >= value_of(entries, key)->0.version
            &&& call.result matches Ok(package) ==> package.version >= value_of(entries, key)->0.version
        }),
{
    lemma_touched(entries, key);
    let used = touched(entries, key);
    if let Ok(package) = fetch {
        law_reconciled_is_cached(used, limit, key, package);
    }
}

/// A package that a call hands out is the one that was cached for the
/// address or the one that the store handed out in this call. So where the
/// store never serves a lower version for an address than it served before,
/// the versions that calls hand out for the address do not fall either,
/// also after the package was dropped from a full cache.
pub proof fn law_served_is_cached_or_fetched(
    entries: Seq<((u128, u128), Arc<Package>)>,
    limit: nat,
    system: bool,
    key: (u128, u128),
    version: Result<u64, Error>,
    fetch: Result<Arc<Package>, Error>,
)
    requires
        bounded(entries, limit),
    ensures
        ({
            let call = served(entries, limit, system, key, version, fetch);
            call.result matches Ok(package) ==> {
                ||| value_of(entries, key) == Some(package)
                ||| call.fetched && fetch == Ok::<Arc<Package>, Error>(package)
            }
        }),
{
    lemma_touched(entries, key);
}

} // verus!
