//! A bounded cache of materialized packages, keyed by the address of the
//! object that holds the package.
//!
//! A package never changes under its address, with one exception: a system
//! package keeps its address through upgrades. The cache therefore trusts what
//! it holds of an ordinary package, and asks the store for the current version
//! before it hands out a system package.
//!
//! The cache is meant to be shared by callers that read the store at the same
//! time. What touches the cached entries is split off from what reads the
//! store: [`CachedPackages::probe`] before the store is read, and
//! [`CachedPackages::reconcile`] after it, so that a lock around the entries need
//! not be held in between. [`PackageCache::package`] runs the steps in a row.

use crate::address::{contains_address, AccountAddress};
use crate::error::Error;
use crate::layout::{LayoutView, MoveTypeLayout, TypeTag, TypeTagView};
use crate::object::Object;
use crate::package::Package;
use crate::recency::{bounded, displaced, lemma_stored, lemma_touched, stored, touched, value_of};
use crate::resolve::{depth_budget, tag_layout, ResolutionContext, Unresolved};
use crate::store::PackageStore;
use lru::LruCache;
use std::collections::hash_map::RandomState;
use std::num::NonZeroUsize;
use std::sync::Arc;
use vstd::prelude::*;

verus! {

/// The number of packages that a cache holds at most.
pub const PACKAGE_CACHE_SIZE: usize = 1024;

/// `lru::LruCache`, as a type whose inside is not looked into. What is said
/// of a cache is said over [`lru_entries`] and [`lru_limit`].
#[verifier::external_type_specification]
#[verifier::external_body]
#[verifier::reject_recursive_types(K)]
#[verifier::reject_recursive_types(V)]
#[verifier::reject_recursive_types(S)]
pub struct ExLruCache<K, V, S>(LruCache<K, V, S>);

/// The entries of an `lru::LruCache`, the most recently used one first. No
/// key occurs twice in them; the functions below rely on that where they
/// speak of the entry under a key.
pub uninterp spec fn lru_entries(cache: LruCache<(u128, u128), Arc<Package>, RandomState>) -> Seq<
    ((u128, u128), Arc<Package>),
>;

/// The number of entries that an `lru::LruCache` was made to hold at most.
pub uninterp spec fn lru_limit(cache: LruCache<(u128, u128), Arc<Package>, RandomState>) -> nat;

/// `LruCache::with_hasher`, with the hasher that std's maps use: an empty
/// cache that holds at most `limit` entries. The bound on `limit` keeps the
/// size of the table that is allocated up front within what can be computed.
#[verifier::external_body]
fn lru_new(limit: usize) -> (cache: LruCache<(u128, u128), Arc<Package>, RandomState>)
    requires
        0 < limit <= 0x1_0000,
    ensures
        lru_entries(cache) == Seq::<((u128, u128), Arc<Package>)>::empty(),
        lru_limit(cache) == limit,
{
    LruCache::with_hasher(NonZeroUsize::new(limit).unwrap(), RandomState::new())
}

/// `LruCache::get`: a handle to the package held under `key`, whose entry
/// moves to the front. Without such an entry nothing changes.
#[verifier::external_body]
fn lru_get(cache: &mut LruCache<(u128, u128), Arc<Package>, RandomState>, key: &(u128, u128)) -> (found:
    Option<Arc<Package>>)
    ensures
        found == value_of(lru_entries(*old(cache)), *key),
        lru_entries(*final(cache)) == touched(lru_entries(*old(cache)), *key),
        lru_limit(*final(cache)) == lru_limit(*old(cache)),
{
    cache.get(key).map(Arc::clone)
}

/// `LruCache::peek`: a handle to the package held under `key`. The order of
/// the entries stays as it is.
#[verifier::external_body]
fn lru_peek(cache: &LruCache<(u128, u128), Arc<Package>, RandomState>, key: &(u128, u128)) -> (found:
    Option<Arc<Package>>)
    ensures
        found == value_of(lru_entries(*cache), *key),
{
    cache.peek(key).map(Arc::clone)
}

/// `LruCache::promote`: the entry under `key`, if there is one, moves to the
/// front.
#[verifier::external_body]
fn lru_promote(cache: &mut LruCache<(u128, u128), Arc<Package>, RandomState>, key: &(u128, u128))
    ensures
        lru_entries(*final(cache)) == touched(lru_entries(*old(cache)), *key),
        lru_limit(*final(cache)) == lru_limit(*old(cache)),
{
    cache.promote(key)
}

/// `LruCache::push`: `package` is held under `key`, at the front. It takes
/// the place of the entry that had the key, or else, in a full cache, of the
/// entry at the back; the entry that left comes back.
#[verifier::external_body]
fn lru_push(
    cache: &mut LruCache<(u128, u128), Arc<Package>, RandomState>,
    key: (u128, u128),
    package: Arc<Package>,
) -> (out: Option<((u128, u128), Arc<Package>)>)
    ensures
        lru_entries(*final(cache)) == stored(
            lru_entries(*old(cache)),
            lru_limit(*old(cache)),
            key,
            package,
        ),
        lru_limit(*final(cache)) == lru_limit(*old(cache)),
        out == displaced(lru_entries(*old(cache)), lru_limit(*old(cache)), key),
{
    cache.push(key, package)
}

/// What a look into the cache found for an address.
#[derive(Debug)]
pub enum Probe {
    /// The package is cached and can be handed out as it is.
    Found(Arc<Package>),
    /// A system package is cached. It can be handed out once the store has
    /// confirmed its version.
    Unconfirmed(Arc<Package>),
    /// Nothing is cached.
    Missing,
}

/// What a look into the cache makes of the entry that it found.
pub open spec fn probe_of(cached: Option<Arc<Package>>, system: bool) -> Probe {
    match cached {
        Some(package) => if system {
            Probe::Unconfirmed(package)
        } else {
            Probe::Found(package)
        },
        None => Probe::Missing,
    }
}

/// Whether a cached package of version `cached` is still current when the
/// store reports the version `latest`.
pub open spec fn current(cached: u64, latest: u64) -> bool {
    latest <= cached
}

/// The entries after a freshly fetched package was offered for `key`, and the
/// package that the caller gets. A cached package of the same or a higher
/// version wins: it moves to the front and the fetched package is dropped.
/// Otherwise the fetched package is stored.
pub open spec fn reconciled(
    entries: Seq<((u128, u128), Arc<Package>)>,
    limit: nat,
    key: (u128, u128),
    package: Arc<Package>,
) -> (Seq<((u128, u128), Arc<Package>)>, Arc<Package>) {
    match value_of(entries, key) {
        Some(previous) => if package.version <= previous.version {
            (touched(entries, key), previous)
        } else {
            (stored(entries, limit, key, package), package)
        },
        None => (stored(entries, limit, key, package), package),
    }
}

/// The cached packages.
pub struct CachedPackages {
    packages: LruCache<(u128, u128), Arc<Package>, RandomState>,
}

impl CachedPackages {
    /// The cached packages under the keys of their addresses, the most
    /// recently used one first.
    pub closed spec fn entries(&self) -> Seq<((u128, u128), Arc<Package>)> {
        lru_entries(self.packages)
    }

    /// The number of packages that the cache holds at most.
    pub closed spec fn limit(&self) -> nat {
        lru_limit(self.packages)
    }

    /// No address is cached twice, and the cache is within its limit.
    pub open spec fn wf(&self) -> bool {
        bounded(self.entries(), self.limit())
    }

    /// The package cached for `id`.
    pub open spec fn cached(&self, id: AccountAddress) -> Option<Arc<Package>> {
        value_of(self.entries(), id.key())
    }

    /// An empty cache for up to `PACKAGE_CACHE_SIZE` packages.
    pub fn new() -> (cache: CachedPackages)
        ensures
            cache.wf(),
            cache.entries() == Seq::<((u128, u128), Arc<Package>)>::empty(),
            cache.limit() == PACKAGE_CACHE_SIZE,
    {
        CachedPackages { packages: lru_new(PACKAGE_CACHE_SIZE) }
    }

    /// Looks for the package of `id`, where `system` says whether `id` names
    /// a system package. A package that is found counts as used.
    pub fn probe(&mut self, id: AccountAddress, system: bool) -> (probe: Probe)
        requires
            old(self).wf(),
        ensures
            probe == probe_of(old(self).cached(id), system),
            final(self).entries() == touched(old(self).entries(), id.key()),
            final(self).limit() == old(self).limit(),
            final(self).wf(),
    {
        proof {
            lemma_touched(self.entries(), id.key());
        }
        let key = id.to_key();
        let cached = lru_get(&mut self.packages, &key);
        match cached {
            Some(package) => if system {
                Probe::Unconfirmed(package)
            } else {
                Probe::Found(package)
            },
            None => Probe::Missing,
        }
    }

    /// Offers the package `package`, freshly fetched for `id`, to the cache,
    /// and returns the package to hand out: the cached one if its version is
    /// the same or higher, else `package`, which is then cached.
    pub fn reconcile(&mut self, id: AccountAddress, package: Arc<Package>) -> (kept: Arc<Package>)
        requires
            old(self).wf(),
        ensures
            (final(self).entries(), kept) == reconciled(
                old(self).entries(),
                old(self).limit(),
                id.key(),
                package,
            ),
            final(self).limit() == old(self).limit(),
            final(self).wf(),
    {
        proof {
            lemma_touched(self.entries(), id.key());
            lemma_stored(self.entries(), self.limit(), id.key(), package);
        }
        let key = id.to_key();
        match lru_peek(&self.packages, &key) {
            Some(previous) => if package.version <= previous.version {
                lru_promote(&mut self.packages, &key);
                previous
            } else {
                let kept = share(&package);
                lru_push(&mut self.packages, key, package);
                kept
            },
            None => {
                let kept = share(&package);
                lru_push(&mut self.packages, key, package);
                kept
            },
        }
    }
}

/// How a call for a package went: what the cache holds afterwards, what the
/// caller got, and whether the store was asked for the version and for the
/// package.
pub struct Served {
    pub entries: Seq<((u128, u128), Arc<Package>)>,
    pub result: Result<Arc<Package>, Error>,
    pub asked_version: bool,
    pub fetched: bool,
}

/// How a call goes on once it has turned to the store for the package. Where
/// the store fails, its error is the result and the cache stays as it is;
/// else the fetched package is offered to the cache.
pub open spec fn served_by_store(
    entries: Seq<((u128, u128), Arc<Package>)>,
    limit: nat,
    key: (u128, u128),
    fetch: Result<Arc<Package>, Error>,
    asked_version: bool,
) -> Served {
    match fetch {
        Ok(package) => Served {
            entries: reconciled(entries, limit, key, package).0,
            result: Ok(reconciled(entries, limit, key, package).1),
            asked_version,
            fetched: true,
        },
        Err(error) => Served { entries, result: Err(error), asked_version, fetched: true },
    }
}

/// How a call for the package under `key` goes in a cache with the given
/// entries, where `system` says whether the address names a system package,
/// `version` is what the store answers when asked for the version, and
/// `fetch` what it answers when asked for the package.
///
/// A cached package of an ordinary address is the result, and the store is
/// not asked. A cached system package is the result if the store's version is
/// not higher than its own. In every other case the package is fetched.
pub open spec fn served(
    entries: Seq<((u128, u128), Arc<Package>)>,
    limit: nat,
    system: bool,
    key: (u128, u128),
    version: Result<u64, Error>,
    fetch: Result<Arc<Package>, Error>,
) -> Served {
    let used = touched(entries, key);
    match probe_of(value_of(entries, key), system) {
        Probe::Found(package) => Served {
            entries: used,
            result: Ok(package),
            asked_version: false,
            fetched: false,
        },
        Probe::Unconfirmed(package) => match version {
            Ok(latest) => if current(package.version, latest) {
                Served { entries: used, result: Ok(package), asked_version: true, fetched: false }
            } else {
                served_by_store(used, limit, key, fetch, true)
            },
            Err(error) => Served {
                entries: used,
                result: Err(error),
                asked_version: true,
                fetched: false,
            },
        },
        Probe::Missing => served_by_store(used, limit, key, fetch, false),
    }
}

/// Whether `fetch` is the store's answer `answer`, with the package that
/// was fetched behind a handle.
pub open spec fn answered(answer: Result<Package, Error>, fetch: Result<Arc<Package>, Error>) -> bool {
    match answer {
        Ok(package) => fetch matches Ok(handle) && *handle == package,
        Err(error) => fetch == Err::<Arc<Package>, Error>(error),
    }
}

/// Whether a call for the package of `id`, in a cache with the given
/// entries in front of `store`, can leave the entries `after` and hand back
/// `result`: the call goes as [`served`] says; where it asks for the
/// version, the answer is one of `store`'s `version` for `id`; and where it
/// fetches, the answer is one of `store`'s `fetch` for `id`.
pub open spec fn served_from<S: PackageStore>(
    store: S,
    entries: Seq<((u128, u128), Arc<Package>)>,
    limit: nat,
    system: bool,
    id: AccountAddress,
    after: Seq<((u128, u128), Arc<Package>)>,
    result: Result<Arc<Package>, Error>,
) -> bool {
    exists|version: Result<u64, Error>, fetch: Result<Arc<Package>, Error>|
        {
            let call = #[trigger] served(entries, limit, system, id.key(), version, fetch);
            &&& call.entries == after
            &&& call.result == result
            &&& call.asked_version ==> S::version.ensures((&store, id), version)
            &&& call.fetched ==> exists|answer: Result<Package, Error>|
                S::fetch.ensures((&store, id), answer) && answered(answer, fetch)
        }
}

/// What a round of resolution yields for `tag` against `gathered`.
pub open spec fn round(gathered: Seq<(AccountAddress, Arc<Package>)>, tag: TypeTag) -> Result<
    (TypeTagView, LayoutView),
    Unresolved,
> {
    tag_layout(gathered, tag, depth_budget(gathered))
}

/// Each of `gathered` was added under the address that the round against
/// the packages before it reported missing.
pub open spec fn gathered_in_turn(gathered: Seq<(AccountAddress, Arc<Package>)>, tag: TypeTag) -> bool {
    forall|i: int|
        0 <= i < gathered.len() ==> round(#[trigger] gathered.take(i), tag) == Err::<
            (TypeTagView, LayoutView),
            Unresolved,
        >(Unresolved::Missing(gathered[i].0))
}

/// Whether the packages `gathered` are what calls for their addresses
/// handed out, one after the other, in a cache in front of `store` whose
/// entries went through `states`: the call for the package `i` found the
/// entries `states[i]` and left the entries `states[i + 1]`.
pub open spec fn gathered_by_calls<S: PackageStore>(
    store: S,
    limit: nat,
    system_packages: Seq<AccountAddress>,
    gathered: Seq<(AccountAddress, Arc<Package>)>,
    states: Seq<Seq<((u128, u128), Arc<Package>)>>,
) -> bool {
    &&& states.len() == gathered.len() + 1
    &&& forall|i: int|
        0 <= i < gathered.len() ==> served_from(
            store,
            #[trigger] states[i],
            limit,
            system_packages.contains(gathered[i].0),
            gathered[i].0,
            states[i + 1],
            Ok(gathered[i].1),
        )
}

/// Whether `result` is how the gathering for `tag` ends, and `after` the
/// entries that it leaves, once `gathered` are at hand, the cache holds
/// `entries`, and at most `max_packages` may be gathered. It ends with the
/// layout that the round against `gathered` yields; with the package that
/// this round misses, where no more may be gathered; with the reason that
/// this round gives for a tag without layout; or, where this round misses a
/// package that may still be gathered, with the error of the call for that
/// package. Only that call changes the entries.
pub open spec fn ends_gathering<S: PackageStore>(
    store: S,
    limit: nat,
    system_packages: Seq<AccountAddress>,
    gathered: Seq<(AccountAddress, Arc<Package>)>,
    entries: Seq<((u128, u128), Arc<Package>)>,
    tag: TypeTag,
    max_packages: nat,
    after: Seq<((u128, u128), Arc<Package>)>,
    result: Result<MoveTypeLayout, Unresolved>,
) -> bool {
    match result {
        Ok(layout) => {
            &&& after == entries
            &&& round(gathered, tag) matches Ok(resolved)
            &&& resolved.1 == layout@
        },
        Err(Unresolved::Missing(id)) => {
            &&& after == entries
            &&& gathered.len() == max_packages
            &&& round(gathered, tag) == Err::<(TypeTagView, LayoutView), Unresolved>(
                Unresolved::Missing(id),
            )
        },
        Err(Unresolved::Failed(error)) => {
            ||| {
                &&& after == entries
                &&& round(gathered, tag) == Err::<(TypeTagView, LayoutView), Unresolved>(
                    Unresolved::Failed(error),
                )
            }
            ||| {
                &&& gathered.len() < max_packages
                &&& round(gathered, tag) matches Err(Unresolved::Missing(id))
                &&& served_from(
                    store,
                    entries,
                    limit,
                    system_packages.contains(id),
                    id,
                    after,
                    Err(error),
                )
            }
        },
    }
}

/// A cache of packages in front of a store.
pub struct PackageCache<S: PackageStore> {
    packages: CachedPackages,
    system_packages: Vec<AccountAddress>,
    store: S,
}

impl<S: PackageStore> PackageCache<S> {
    /// The cached packages.
    pub closed spec fn packages(&self) -> CachedPackages {
        self.packages
    }

    /// The store behind the cache.
    pub closed spec fn store(&self) -> S {
        self.store
    }

    /// The addresses of the system packages.
    pub closed spec fn system_packages(&self) -> Seq<AccountAddress> {
        self.system_packages@
    }

    /// Whether `id` names a system package.
    pub open spec fn is_system(&self, id: AccountAddress) -> bool {
        self.system_packages().contains(id)
    }

    /// See [`CachedPackages::wf`].
    pub open spec fn wf(&self) -> bool {
        self.packages().wf()
    }

    /// Whether `id` names a system package.
    pub fn is_system_package(&self, id: AccountAddress) -> (system: bool)
        ensures
            system == self.is_system(id),
    {
        contains_address(&self.system_packages, id)
    }

    /// An empty cache in front of `store`. `system_packages` are the
    /// addresses whose packages can change.
    pub fn with_store(store: S, system_packages: Vec<AccountAddress>) -> (cache: Self)
        ensures
            cache.wf(),
            cache.packages().entries() == Seq::<((u128, u128), Arc<Package>)>::empty(),
            cache.packages().limit() == PACKAGE_CACHE_SIZE,
            cache.system_packages() == system_packages@,
            cache.store() == store,
    {
        PackageCache { packages: CachedPackages::new(), system_packages, store }
    }

    /// The package at the address `id`: from the cache if it can be had there,
    /// else from the store, in which case it is cached.
    ///
    /// The call goes as [`served`] says, for what the store answers when it
    /// is asked for the version and for the package of `id`.
    pub fn package(&mut self, id: AccountAddress) -> (result: Result<Arc<Package>, Error>)
        requires
            old(self).wf(),
        ensures
            final(self).wf(),
            final(self).packages().limit() == old(self).packages().limit(),
            final(self).system_packages() == old(self).system_packages(),
            final(self).store() == old(self).store(),
            served_from(
                old(self).store(),
                old(self).packages().entries(),
                old(self).packages().limit(),
                old(self).is_system(id),
                id,
                final(self).packages().entries(),
                result,
            ),
    {
        let ghost before = self.packages.entries();
        let ghost limit = self.packages.limit();
        let system = self.is_system_package(id);
        let ghost unasked: Result<u64, Error> = Ok(0);
        let ghost unfetched: Result<Arc<Package>, Error> = Err(Error::PackageNotFound(id));
        let ghost version = unasked;

        match self.packages.probe(id, system) {
            Probe::Found(package) => {
                assert(served(before, limit, system, id.key(), unasked, unfetched).result == Ok::<
                    Arc<Package>,
                    Error,
                >(package));
                return Ok(package);
            },
            Probe::Unconfirmed(package) => {
                let latest = self.store.version(id);
                proof {
                    version = latest;
                }
                match latest {
                    Ok(latest) => if is_current(&package, latest) {
                        assert(served(before, limit, system, id.key(), version, unfetched).result
                            == Ok::<Arc<Package>, Error>(package));
                        return Ok(package);
                    },
                    Err(error) => {
                        assert(served(before, limit, system, id.key(), version, unfetched).result
                            == Err::<Arc<Package>, Error>(error));
                        return Err(error);
                    },
                }
            },
            Probe::Missing => {},
        }

        let answer = self.store.fetch(id);
        match answer {
            Ok(package) => {
                let package = Arc::new(package);
                let kept = self.packages.reconcile(id, package);
                assert(answered(answer, Ok(package)));
                assert(served(before, limit, system, id.key(), version, Ok(package)).result == Ok::<
                    Arc<Package>,
                    Error,
                >(kept));
                Ok(kept)
            },
            Err(error) => {
                assert(answered(answer, Err(error)));
                assert(served(before, limit, system, id.key(), version, Err(error)).result == Err::<
                    Arc<Package>,
                    Error,
                >(error));
                Err(error)
            },
        }
    }

    /// The layout of `tag`. Structs are laid out as the packages that first
    /// defined them declare them.
    ///
    /// The packages that the tag needs are gathered through
    /// [`PackageCache::package`], one after the other, each when a round of
    /// [`tag_layout`] reports it missing, and at most `max_packages` of them:
    /// where more are needed, the address of the next one comes back as
    /// `Unresolved::Missing`. Where the call for a package fails, its error
    /// comes back as `Unresolved::Failed`, as does the reason why the tag
    /// has no layout.
    pub fn type_layout(&mut self, tag: &TypeTag, max_packages: usize) -> (result: Result<
        MoveTypeLayout,
        Unresolved,
    >)
        requires
            old(self).wf(),
        ensures
            final(self).wf(),
            final(self).packages().limit() == old(self).packages().limit(),
            final(self).system_packages() == old(self).system_packages(),
            final(self).store() == old(self).store(),
            exists|
                gathered: Seq<(AccountAddress, Arc<Package>)>,
                states: Seq<Seq<((u128, u128), Arc<Package>)>>,
            |
                {
                    &&& gathered.len() <= max_packages
                    &&& gathered_in_turn(gathered, *tag)
                    &&& gathered_by_calls(
                        old(self).store(),
                        old(self).packages().limit(),
                        old(self).system_packages(),
                        gathered,
                        states,
                    )
                    &&& states[0] == old(self).packages().entries()
                    &&& #[trigger] ends_gathering(
                        old(self).store(),
                        old(self).packages().limit(),
                        old(self).system_packages(),
                        gathered,
                        states.last(),
                        *tag,
                        max_packages as nat,
                        final(self).packages().entries(),
                        result,
                    )
                },
    {
        let mut context = ResolutionContext::new();
        let mut left: usize = max_packages;
        let ghost store = self.store();
        let ghost limit = self.packages().limit();
        let ghost system_packages = self.system_packages();
        let ghost mut states = seq![self.packages().entries()];
        loop
            invariant
                self.wf(),
                self.packages().limit() == limit,
                self.system_packages() == system_packages,
                self.store() == store,
                store == old(self).store(),
                limit == old(self).packages().limit(),
                system_packages == old(self).system_packages(),
                context.packages().len() + left == max_packages,
                gathered_in_turn(context.packages(), *tag),
                gathered_by_calls(store, limit, system_packages, context.packages(), states),
                states[0] == old(self).packages().entries(),
                states.last() == self.packages().entries(),
            decreases left,
        {
            let ghost gathered = context.packages();
            let ghost entries = self.packages().entries();
            match context.resolve_type_tag(tag) {
                Ok(layout) => {
                    assert(ends_gathering(
                        store,
                        limit,
                        system_packages,
                        gathered,
                        states.last(),
                        *tag,
                        max_packages as nat,
                        entries,
                        Ok(layout),
                    ));
                    return Ok(layout);
                },
                Err(Unresolved::Missing(id)) => {
                    if left == 0 {
                        assert(ends_gathering(
                            store,
                            limit,
                            system_packages,
                            gathered,
                            states.last(),
                            *tag,
                            max_packages as nat,
                            entries,
                            Err(Unresolved::Missing(id)),
                        ));
                        return Err(Unresolved::Missing(id));
                    }
                    match self.package(id) {
                        Ok(package) => {
                            context.add_package(id, package);
                            let ghost before = states;
                            proof {
                                states = states.push(self.packages().entries());
                            }
                            assert forall|i: int| 0 <= i < context.packages().len() implies round(
                                #[trigger] context.packages().take(i),
                                *tag,
                            ) == Err::<(TypeTagView, LayoutView), Unresolved>(
                                Unresolved::Missing(context.packages()[i].0),
                            ) by {
                                if i < gathered.len() {
                                    assert(context.packages().take(i) =~= gathered.take(i));
                                } else {
                                    assert(context.packages().take(i) =~= gathered);
                                }
                            }
                            assert forall|i: int| 0 <= i < context.packages().len() implies served_from(
                                store,
                                #[trigger] states[i],
                                limit,
                                system_packages.contains(context.packages()[i].0),
                                context.packages()[i].0,
                                states[i + 1],
                                Ok(context.packages()[i].1),
                            ) by {
                                if i < gathered.len() {
                                    assert(states[i] == before[i]);
                                    assert(states[i + 1] == before[i + 1]);
                                    assert(context.packages()[i] == gathered[i]);
                                }
                            }
                        },
                        Err(error) => {
                            assert(ends_gathering(
                                store,
                                limit,
                                system_packages,
                                gathered,
                                states.last(),
                                *tag,
                                max_packages as nat,
                                self.packages().entries(),
                                Err(Unresolved::Failed(error)),
                            ));
                            return Err(Unresolved::Failed(error));
                        },
                    }
                    left -= 1;
                },
                Err(Unresolved::Failed(error)) => {
                    assert(ends_gathering(
                        store,
                        limit,
                        system_packages,
                        gathered,
                        states.last(),
                        *tag,
                        max_packages as nat,
                        entries,
                        Err(Unresolved::Failed(error)),
                    ));
                    return Err(Unresolved::Failed(error));
                },
            }
        }
    }

    /// Hands `object` to the store: the result is what the store's `update`
    /// answers for this object. The cache is not touched: what it holds of a
    /// system package is set right by the next call for that package.
    pub fn update_store(&self, object: &Object) -> (result: Result<(), Error>)
        ensures
            S::update.ensures((&self.store(), object), result),
    {
        self.store.update(object)
    }
}

/// Whether a cached package is still current when the store reports the
/// version `latest`.
pub fn is_current(cached: &Package, latest: u64) -> (fresh: bool)
    ensures
        fresh == current(cached.version, latest),
{
    latest <= cached.version
}

/// `Arc::clone`: another handle to the same package.
#[verifier::external_body]
fn share(package: &Arc<Package>) -> (handle: Arc<Package>)
    ensures
        handle == *package,
{
    Arc::clone(package)
}

} // verus!
