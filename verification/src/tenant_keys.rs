//! Tenant keys and the bounded cache that holds them by recency of use.

use crate::address::{spec_parse_address, Address};
use lru::LruCache;
use std::num::NonZeroUsize;
use vstd::prelude::*;

verus! {

/// Largest number of tenants whose keys are resident at once.
pub const MAX_CACHED_TENANT_KEYS: usize = 100;

/// The key material of one tenant, as the key store serializes it.
#[derive(Clone, Debug)]
pub struct TenantKeys {
    /// The tenant's chain id, under which the keys are cached.
    pub tenant_id: i32,
    /// The tenant's access-control contract.
    pub acl_contract_address: Address,
    /// The server key.
    pub server_key: Vec<u8>,
    /// The public key that proofs are checked against.
    pub public_key: Vec<u8>,
    /// The public parameters of the proof system.
    pub public_params: Vec<u8>,
}

/// Tenant keys as plain values.
pub ghost struct TenantKeysView {
    pub tenant_id: i32,
    pub acl_contract_address: Seq<u8>,
    pub server_key: Seq<u8>,
    pub public_key: Seq<u8>,
    pub public_params: Seq<u8>,
}

impl View for TenantKeys {
    type V = TenantKeysView;

    open spec fn view(&self) -> TenantKeysView {
        TenantKeysView {
            tenant_id: self.tenant_id,
            acl_contract_address: self.acl_contract_address@,
            server_key: self.server_key@,
            public_key: self.public_key@,
            public_params: self.public_params@,
        }
    }
}

impl TenantKeys {
    /// The keys of a tenant as the key store records them, with the
    /// access-control contract given as text. A record whose contract
    /// address is not an address yields no keys.
    pub fn from_record(
        tenant_id: i32,
        acl_contract_address: &str,
        server_key: Vec<u8>,
        public_key: Vec<u8>,
        public_params: Vec<u8>,
    ) -> (keys: Option<TenantKeys>)
        ensures
            match keys {
                Some(found) => spec_parse_address(acl_contract_address@) == Some(
                    found@.acl_contract_address,
                ) && found@ == (TenantKeysView {
                    tenant_id,
                    acl_contract_address: found@.acl_contract_address,
                    server_key: server_key@,
                    public_key: public_key@,
                    public_params: public_params@,
                }),
                None => spec_parse_address(acl_contract_address@) is None,
            },
    {
        match Address::parse(acl_contract_address) {
            Some(address) => Some(
                TenantKeys {
                    tenant_id,
                    acl_contract_address: address,
                    server_key,
                    public_key,
                    public_params,
                },
            ),
            None => None,
        }
    }

    /// A copy of the keys.
    pub fn duplicate(&self) -> (copy: TenantKeys)
        ensures
            copy@ == self@,
    {
        let server_key = self.server_key.clone();
        let public_key = self.public_key.clone();
        let public_params = self.public_params.clone();
        proof {
            assert(server_key@ =~= self.server_key@);
            assert(public_key@ =~= self.public_key@);
            assert(public_params@ =~= self.public_params@);
        }
        TenantKeys {
            tenant_id: self.tenant_id,
            acl_contract_address: self.acl_contract_address,
            server_key,
            public_key,
            public_params,
        }
    }
}

/// The resident entries of a cache: tenant and keys, most recently used
/// first.
pub type Entries = Seq<(i32, TenantKeysView)>;

/// Whether the keys of `tenant` are resident.
pub open spec fn holds(entries: Entries, tenant: i32) -> bool {
    exists|i: int| 0 <= i < entries.len() && (#[trigger] entries[i]).0 == tenant
}

/// The place of `tenant` among the entries, where it is resident.
pub open spec fn position(entries: Entries, tenant: i32) -> int {
    choose|i: int| 0 <= i < entries.len() && (#[trigger] entries[i]).0 == tenant
}

/// No tenant is resident twice.
pub open spec fn distinct_tenants(entries: Entries) -> bool {
    forall|i: int, j: int|
        0 <= i < j < entries.len() ==> (#[trigger] entries[i]).0 != (#[trigger] entries[j]).0
}

/// The entries after the one at `i` was used: it moves to the front.
pub open spec fn promoted(entries: Entries, i: int) -> Entries {
    seq![entries[i]] + entries.remove(i)
}

/// The entries after the keys of `tenant` were put into a cache of at most
/// `limit` entries: they stand at the front; keys of the same tenant are
/// replaced; otherwise, if the cache was full, the least recently used entry
/// is gone.
pub open spec fn admitted(
    entries: Entries,
    tenant: i32,
    keys: TenantKeysView,
    limit: nat,
) -> Entries {
    if holds(entries, tenant) {
        seq![(tenant, keys)] + entries.remove(position(entries, tenant))
    } else if entries.len() >= limit {
        seq![(tenant, keys)] + entries.drop_last()
    } else {
        seq![(tenant, keys)] + entries
    }
}

/// `lru::LruCache`, opaque to the verifier.
#[verifier::external_type_specification]
#[verifier::external_body]
#[verifier::reject_recursive_types(K)]
#[verifier::reject_recursive_types(V)]
#[verifier::reject_recursive_types(S)]
pub struct ExLruCache<K, V, S>(LruCache<K, V, S>);

/// `lru::DefaultHasher`, the hasher of an `lru::LruCache`, opaque to the
/// verifier.
#[verifier::external_type_specification]
#[verifier::external_body]
pub struct ExLruHasher(lru::DefaultHasher);

/// The entries of an `lru::LruCache`, in the order of its recency list:
/// most recently used first.
pub uninterp spec fn lru_entries(cache: LruCache<i32, TenantKeys>) -> Entries;

/// The capacity an `lru::LruCache` was made with.
pub uninterp spec fn lru_limit(cache: LruCache<i32, TenantKeys>) -> nat;

/// Makes a cache with `lru::LruCache::new`.
///
/// Trusted: the new cache is empty and holds at most `limit` entries. The
/// capacity must not be zero.
#[verifier::external_body]
fn lru_new(limit: usize) -> (cache: LruCache<i32, TenantKeys>)
    requires
        limit > 0,
    ensures
        lru_entries(cache) == Seq::<(i32, TenantKeysView)>::empty(),
        lru_limit(cache) == limit,
{
    LruCache::new(NonZeroUsize::new(limit).unwrap())
}

/// Counts the entries with `lru::LruCache::len`.
///
/// Trusted: the result is the number of resident entries.
#[verifier::external_body]
fn lru_len(cache: &LruCache<i32, TenantKeys>) -> (len: usize)
    ensures
        len == lru_entries(*cache).len(),
{
    cache.len()
}

/// Looks a tenant up with `lru::LruCache::get` and hands out a duplicate of
/// what was found.
///
/// Trusted: a resident entry is returned and moved to the front of the
/// recency list, the others keeping their order; without such an entry the
/// cache is unchanged. The capacity stays.
#[verifier::external_body]
fn lru_get(cache: &mut LruCache<i32, TenantKeys>, tenant: i32) -> (found: Option<TenantKeys>)
    ensures
        lru_limit(*final(cache)) == lru_limit(*old(cache)),
        match found {
            Some(keys) => exists|i: int|
                0 <= i < lru_entries(*old(cache)).len() && (#[trigger] lru_entries(
                    *old(cache),
                )[i]).0 == tenant && keys@ == lru_entries(*old(cache))[i].1 && lru_entries(
                    *final(cache),
                ) == promoted(lru_entries(*old(cache)), i),
            None => !holds(lru_entries(*old(cache)), tenant) && lru_entries(*final(cache))
                == lru_entries(*old(cache)),
        },
{
    cache.get(&tenant).map(|keys| keys.duplicate())
}

/// Stores keys with `lru::LruCache::put`.
///
/// Trusted: the new entry stands at the front of the recency list. Keys of
/// the same tenant are replaced and returned. Otherwise nothing is returned,
/// and if the cache held as many entries as its capacity, the entry at the
/// end of the list, the least recently used, is dropped. The capacity stays.
#[verifier::external_body]
fn lru_put(cache: &mut LruCache<i32, TenantKeys>, tenant: i32, keys: TenantKeys) -> (replaced:
    Option<TenantKeys>)
    ensures
        lru_limit(*final(cache)) == lru_limit(*old(cache)),
        match replaced {
            Some(previous) => exists|i: int|
                0 <= i < lru_entries(*old(cache)).len() && (#[trigger] lru_entries(
                    *old(cache),
                )[i]).0 == tenant && previous@ == lru_entries(*old(cache))[i].1 && lru_entries(
                    *final(cache),
                ) == seq![(tenant, keys@)] + lru_entries(*old(cache)).remove(i),
            None => !holds(lru_entries(*old(cache)), tenant) && lru_entries(*final(cache)) == if
                lru_entries(*old(cache)).len() == lru_limit(*old(cache)) {
                seq![(tenant, keys@)] + lru_entries(*old(cache)).drop_last()
            } else {
                seq![(tenant, keys@)] + lru_entries(*old(cache))
            },
        },
{
    cache.put(tenant, keys)
}

/// The keys of a tenant could not be had from the key store.
#[derive(Clone, Debug)]
pub struct KeysNotFound {
    /// The tenant whose keys were asked for.
    pub tenant_id: i32,
    /// What the key store reported.
    pub reason: String,
}

/// The cache of tenant keys that the consumers share: at most
/// `MAX_CACHED_TENANT_KEYS` tenants, the least recently used leaving first.
pub struct TenantKeyCache {
    inner: LruCache<i32, TenantKeys>,
}

impl TenantKeyCache {
    /// The resident entries, most recently used first.
    pub closed spec fn entries(&self) -> Entries {
        lru_entries(self.inner)
    }

    /// The cache is within its bound and holds no tenant twice.
    pub closed spec fn wf(&self) -> bool {
        &&& lru_limit(self.inner) == MAX_CACHED_TENANT_KEYS
        &&& self.entries().len() <= MAX_CACHED_TENANT_KEYS
        &&& distinct_tenants(self.entries())
    }

    /// A well-formed cache is within its bound and holds no tenant twice.
    pub proof fn lemma_wf(&self)
        requires
            self.wf(),
        ensures
            self.entries().len() <= MAX_CACHED_TENANT_KEYS,
            distinct_tenants(self.entries()),
    {
    }

    /// An empty cache.
    pub fn new() -> (cache: TenantKeyCache)
        ensures
            cache.wf(),
            cache.entries().len() == 0,
    {
        TenantKeyCache { inner: lru_new(MAX_CACHED_TENANT_KEYS) }
    }

    /// The number of resident tenants.
    pub fn len(&self) -> (len: usize)
        requires
            self.wf(),
        ensures
            len == self.entries().len(),
            len <= MAX_CACHED_TENANT_KEYS,
    {
        lru_len(&self.inner)
    }

    /// Returns the keys of `tenant` if they are resident, and marks them as
    /// the most recently used. A miss leaves the cache as it was.
    pub fn get(&mut self, tenant: i32) -> (found: Option<TenantKeys>)
        requires
            old(self).wf(),
        ensures
            final(self).wf(),
            match found {
                Some(keys) => {
                    &&& holds(old(self).entries(), tenant)
                    &&& keys@ == old(self).entries()[position(old(self).entries(), tenant)].1
                    &&& final(self).entries() == promoted(
                        old(self).entries(),
                        position(old(self).entries(), tenant),
                    )
                },
                None => !holds(old(self).entries(), tenant) && final(self).entries() == old(
                    self,
                ).entries(),
            },
    {
        let ghost before = self.entries();
        let found = lru_get(&mut self.inner, tenant);
        proof {
            if found is Some {
                let i = choose|i: int|
                    0 <= i < before.len() && (#[trigger] before[i]).0 == tenant
                        && found->Some_0@ == before[i].1 && self.entries() == promoted(
                        before,
                        i,
                    );
                lemma_position_unique(before, tenant, i);
                lemma_promoted_wf(before, i);
            }
        }
        found
    }

    /// Makes `keys` the resident keys of `tenant`, as the most recently
    /// used entry. In a full cache that does not hold the tenant yet, the
    /// least recently used entry gives way.
    pub fn insert(&mut self, tenant: i32, keys: TenantKeys)
        requires
            old(self).wf(),
        ensures
            final(self).wf(),
            final(self).entries() == admitted(
                old(self).entries(),
                tenant,
                keys@,
                MAX_CACHED_TENANT_KEYS as nat,
            ),
    {
        let ghost before = self.entries();
        let ghost view = keys@;
        let replaced = lru_put(&mut self.inner, tenant, keys);
        proof {
            if replaced is Some {
                let i = choose|i: int|
                    0 <= i < before.len() && (#[trigger] before[i]).0 == tenant
                        && replaced->Some_0@ == before[i].1 && self.entries() == seq![
                        (tenant, view),
                    ] + before.remove(i);
                lemma_position_unique(before, tenant, i);
            }
            lemma_admitted_wf(before, tenant, view, MAX_CACHED_TENANT_KEYS as nat);
        }
    }

    /// Completes a miss with what the key store returned. Keys that were
    /// found become resident and are returned; a failure is reported as keys
    /// not found and leaves the cache as it was.
    pub fn store_fetched(&mut self, tenant: i32, fetched: Result<TenantKeys, String>) -> (resolved: Result<
        TenantKeys,
        KeysNotFound,
    >)
        requires
            old(self).wf(),
        ensures
            final(self).wf(),
            match (fetched, resolved) {
                (Ok(keys), Ok(returned)) => {
                    &&& returned@ == keys@
                    &&& final(self).entries() == admitted(
                        old(self).entries(),
                        tenant,
                        keys@,
                        MAX_CACHED_TENANT_KEYS as nat,
                    )
                },
                (Err(reason), Err(error)) => {
                    &&& error.tenant_id == tenant
                    &&& error.reason@ == reason@
                    &&& final(self).entries() == old(self).entries()
                },
                _ => false,
            },
    {
        match fetched {
            Ok(keys) => {
                let returned = keys.duplicate();
                self.insert(tenant, keys);
                Ok(returned)
            },
            Err(reason) => Err(KeysNotFound { tenant_id: tenant, reason }),
        }
    }
}

/// Among distinct tenants, a tenant has one place.
pub proof fn lemma_position_unique(entries: Entries, tenant: i32, i: int)
    requires
        distinct_tenants(entries),
        0 <= i < entries.len(),
        entries[i].0 == tenant,
    ensures
        holds(entries, tenant),
        position(entries, tenant) == i,
{
    let p = position(entries, tenant);
    assert(0 <= p < entries.len() && entries[p].0 == tenant);
    if p < i {
        assert(entries[p].0 != entries[i].0);
    } else if i < p {
        assert(entries[i].0 != entries[p].0);
    }
}

/// Using an entry changes neither the number of entries nor the tenants
/// that are resident, and keeps them distinct.
pub proof fn lemma_promoted_wf(entries: Entries, i: int)
    requires
        distinct_tenants(entries),
        0 <= i < entries.len(),
    ensures
        promoted(entries, i).len() == entries.len(),
        distinct_tenants(promoted(entries, i)),
        promoted(entries, i)[0] == entries[i],
        forall|tenant: i32| holds(promoted(entries, i), tenant) <==> holds(entries, tenant),
{
    let after = promoted(entries, i);
    assert forall|k: int| 0 <= k < after.len() implies #[trigger] after[k] == entries[if k == 0 {
        i
    } else if k <= i {
        k - 1
    } else {
        k
    }] by {}
    assert forall|a: int, b: int| 0 <= a < b < after.len() implies (#[trigger] after[a]).0 != (
    #[trigger] after[b]).0 by {
        let sa = if a == 0 { i } else if a <= i { a - 1 } else { a };
        let sb = if b <= i { b - 1 } else { b };
        assert(after[a] == entries[sa]);
        assert(after[b] == entries[sb]);
        if sa < sb {
            assert(entries[sa].0 != entries[sb].0);
        } else {
            assert(entries[sb].0 != entries[sa].0);
        }
    }
    assert forall|tenant: i32| holds(after, tenant) <==> holds(entries, tenant) by {
        if holds(after, tenant) {
            let k = position(after, tenant);
            let s = if k == 0 { i } else if k <= i { k - 1 } else { k };
            assert(after[k] == entries[s]);
            assert(entries[s].0 == tenant);
        }
        if holds(entries, tenant) {
            let s = position(entries, tenant);
            let k = if s == i { 0 } else if s < i { s + 1 } else { s };
            assert(after[k] == entries[s]);
            assert(after[k].0 == tenant);
        }
    }
}

/// Cache bound: putting keys into a cache that is within its bound leaves
/// it within its bound, with no tenant twice and the new keys in front.
pub proof fn lemma_admitted_wf(entries: Entries, tenant: i32, keys: TenantKeysView, limit: nat)
    requires
        distinct_tenants(entries),
        entries.len() <= limit,
        limit > 0,
    ensures
        admitted(entries, tenant, keys, limit).len() <= limit,
        distinct_tenants(admitted(entries, tenant, keys, limit)),
        admitted(entries, tenant, keys, limit)[0] == (tenant, keys),
        holds(admitted(entries, tenant, keys, limit), tenant),
{
    let after = admitted(entries, tenant, keys, limit);
    assert(after[0] == (tenant, keys));
    if holds(entries, tenant) {
        let p = position(entries, tenant);
        assert forall|a: int, b: int| 0 <= a < b < after.len() implies (#[trigger] after[a]).0 != (
        #[trigger] after[b]).0 by {
            let sb = if b <= p { b - 1 } else { b };
            assert(after[b] == entries[sb]);
            if a == 0 {
                if sb < p {
                    assert(entries[sb].0 != entries[p].0);
                } else {
                    assert(entries[p].0 != entries[sb].0);
                }
            } else {
                let sa = if a <= p { a - 1 } else { a };
                assert(after[a] == entries[sa]);
                assert(entries[sa].0 != entries[sb].0);
            }
        }
    } else {
        assert forall|a: int, b: int| 0 <= a < b < after.len() implies (#[trigger] after[a]).0 != (
        #[trigger] after[b]).0 by {
            assert(after[b] == entries[b - 1]);
            if a == 0 {
                assert(entries[b - 1].0 != tenant);
            } else {
                assert(after[a] == entries[a - 1]);
                assert(entries[a - 1].0 != entries[b - 1].0);
            }
        }
    }
}

/// Eviction order: when new keys enter a full cache, the entry that leaves
/// is the least recently used one, and every other entry stays, in order,
/// behind the new keys.
pub proof fn lemma_admitted_evicts_least_recent(
    entries: Entries,
    tenant: i32,
    keys: TenantKeysView,
    limit: nat,
)
    requires
        distinct_tenants(entries),
        entries.len() == limit,
        limit > 0,
        !holds(entries, tenant),
    ensures
        admitted(entries, tenant, keys, limit).len() == limit,
        !holds(admitted(entries, tenant, keys, limit), entries.last().0),
        forall|i: int|
            0 <= i < entries.len() - 1 ==> admitted(entries, tenant, keys, limit)[i + 1]
                == #[trigger] entries[i],
{
    let after = admitted(entries, tenant, keys, limit);
    let last = entries.last();
    assert(entries[entries.len() - 1] == last);
    assert(last.0 != tenant);
    assert forall|k: int| 0 <= k < after.len() implies (#[trigger] after[k]).0 != last.0 by {
        if k > 0 {
            assert(after[k] == entries[k - 1]);
            assert(entries[k - 1].0 != entries[entries.len() - 1].0);
        }
    }
}

} // verus!
