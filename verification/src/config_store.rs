//! The in-memory configuration of every tenant.

use crate::error::{ServiceError, StoreFault};
use crate::model::{CompanyConfig, CompanyConfigView};
use vstd::prelude::*;

verus! {

/// The tenant of the entry at `i`.
spec fn key_at(s: Seq<CompanyConfig>, i: int) -> Seq<char> {
    s[i].company_id@
}

/// Some entry is for tenant `k`.
spec fn holds(s: Seq<CompanyConfig>, k: Seq<char>) -> bool {
    exists|i: int| 0 <= i < s.len() && #[trigger] key_at(s, i) == k
}

/// An entry for tenant `k`.
spec fn slot(s: Seq<CompanyConfig>, k: Seq<char>) -> int {
    choose|i: int| 0 <= i < s.len() && #[trigger] key_at(s, i) == k
}

/// No tenant has two entries.
spec fn distinct(s: Seq<CompanyConfig>) -> bool {
    forall|i: int, j: int|
        0 <= i < j < s.len() ==> #[trigger] key_at(s, i) != #[trigger] key_at(s, j)
}

/// Every entry has an endpoint address.
spec fn all_valid(s: Seq<CompanyConfig>) -> bool {
    forall|i: int| 0 <= i < s.len() ==> (#[trigger] s[i])@.valid()
}

/// The entries as a map from tenant to configuration.
spec fn to_map(s: Seq<CompanyConfig>) -> Map<Seq<char>, CompanyConfigView> {
    Map::new(|k: Seq<char>| holds(s, k), |k: Seq<char>| s[slot(s, k)]@)
}

proof fn lemma_slot(s: Seq<CompanyConfig>, i: int)
    requires
        distinct(s),
        0 <= i < s.len(),
    ensures
        holds(s, key_at(s, i)),
        slot(s, key_at(s, i)) == i,
{
    let k = key_at(s, i);
    let j = slot(s, k);
    assert(0 <= j < s.len() && key_at(s, j) == k);
}

proof fn lemma_replace(s: Seq<CompanyConfig>, i: int, c: CompanyConfig)
    requires
        distinct(s),
        0 <= i < s.len(),
        c.company_id@ == key_at(s, i),
    ensures
        distinct(s.update(i, c)),
        to_map(s.update(i, c)) == to_map(s).insert(c.company_id@, c@),
{
    let t = s.update(i, c);
    assert forall|a: int| 0 <= a < s.len() implies key_at(t, a) == key_at(s, a) by {}
    assert(distinct(t)) by {
        assert forall|a: int, b: int| 0 <= a < b < t.len() implies key_at(t, a) != key_at(t, b) by {
            assert(key_at(s, a) != key_at(s, b));
        }
    }
    assert forall|k: Seq<char>| holds(t, k) == holds(s, k) by {
        if holds(s, k) {
            let a = slot(s, k);
            assert(key_at(t, a) == k);
        }
        if holds(t, k) {
            let a = slot(t, k);
            assert(key_at(s, a) == k);
        }
    }
    assert forall|k: Seq<char>| holds(t, k) implies #[trigger] to_map(t)[k] == to_map(s).insert(
        c.company_id@,
        c@,
    )[k] by {
        let a = slot(t, k);
        assert(key_at(s, a) == k);
        lemma_slot(s, a);
        lemma_slot(t, a);
    }
    assert(holds(s, c.company_id@)) by {
        lemma_slot(s, i);
    }
    assert(to_map(t) =~= to_map(s).insert(c.company_id@, c@));
}

proof fn lemma_append(s: Seq<CompanyConfig>, c: CompanyConfig)
    requires
        distinct(s),
        !holds(s, c.company_id@),
    ensures
        distinct(s.push(c)),
        to_map(s.push(c)) == to_map(s).insert(c.company_id@, c@),
{
    let t = s.push(c);
    let n = s.len() as int;
    assert forall|a: int| 0 <= a < s.len() implies key_at(t, a) == key_at(s, a) by {}
    assert(key_at(t, n) == c.company_id@);
    assert(distinct(t)) by {
        assert forall|a: int, b: int| 0 <= a < b < t.len() implies key_at(t, a) != key_at(t, b) by {
            if b < n {
                assert(key_at(s, a) != key_at(s, b));
            } else {
                assert(key_at(s, a) != c.company_id@);
            }
        }
    }
    assert forall|k: Seq<char>| holds(t, k) == (holds(s, k) || k == c.company_id@) by {
        if holds(s, k) {
            let a = slot(s, k);
            assert(key_at(t, a) == k);
        }
        if k == c.company_id@ {
            assert(key_at(t, n) == k);
        }
        if holds(t, k) {
            let a = slot(t, k);
            if a < n {
                assert(key_at(s, a) == k);
            }
        }
    }
    assert forall|k: Seq<char>| holds(t, k) implies #[trigger] to_map(t)[k] == to_map(s).insert(
        c.company_id@,
        c@,
    )[k] by {
        let a = slot(t, k);
        lemma_slot(t, a);
        if a < n {
            assert(key_at(s, a) == k);
            lemma_slot(s, a);
        }
    }
    assert(to_map(t) =~= to_map(s).insert(c.company_id@, c@));
}

/// Every tenant's configuration is filed under the tenant that it names, and
/// has an endpoint address.
pub open spec fn well_keyed(configs: Map<Seq<char>, CompanyConfigView>) -> bool {
    forall|k: Seq<char>| #[trigger]
        configs.contains_key(k) ==> configs[k].company_id == k && configs[k].valid()
}

proof fn lemma_well_keyed(s: Seq<CompanyConfig>)
    requires
        distinct(s),
        all_valid(s),
    ensures
        well_keyed(to_map(s)),
{
    assert forall|k: Seq<char>| #[trigger] to_map(s).contains_key(k) implies to_map(s)[k].company_id
        == k && to_map(s)[k].valid() by {
        let i = slot(s, k);
        assert(key_at(s, i) == k);
        assert(s[i]@.valid());
    }
}

/// What the store gave when it was asked for a tenant's configuration, by
/// its content.
pub open spec fn found_view(found: Result<Option<CompanyConfig>, StoreFault>) -> Result<
    Option<CompanyConfigView>,
    StoreFault,
> {
    match found {
        Ok(Some(c)) => Ok(Some(c@)),
        Ok(None) => Ok(None),
        Err(e) => Err(e),
    }
}

/// What the store gave can stand for `company_id`: it names that tenant and
/// has an endpoint address.
pub open spec fn acceptable(company_id: Seq<char>, config: CompanyConfigView) -> bool {
    config.company_id == company_id && config.valid()
}

/// The configuration of a tenant, read through to the persistent store: what
/// memory holds for the tenant, or else what the store gave for it. A tenant
/// for which neither holds anything, or nothing with an endpoint address, is
/// `NotConfigured`; a store that failed, or gave another tenant's
/// configuration, is `StorageError`.
pub open spec fn resolved(
    configs: Map<Seq<char>, CompanyConfigView>,
    company_id: Seq<char>,
    found: Result<Option<CompanyConfigView>, StoreFault>,
) -> Result<CompanyConfigView, ServiceError> {
    if configs.contains_key(company_id) {
        Ok(configs[company_id])
    } else {
        match found {
            Err(_) => Err(ServiceError::StorageError),
            Ok(None) => Err(ServiceError::NotConfigured),
            Ok(Some(config)) => if config.company_id != company_id {
                Err(ServiceError::StorageError)
            } else if !config.valid() {
                Err(ServiceError::NotConfigured)
            } else {
                Ok(config)
            },
        }
    }
}

/// The configurations in memory after a tenant's was read through: what the
/// store gave is kept for a tenant that memory held nothing for, and nothing
/// else changes.
pub open spec fn configs_after_resolve(
    configs: Map<Seq<char>, CompanyConfigView>,
    company_id: Seq<char>,
    found: Result<Option<CompanyConfigView>, StoreFault>,
) -> Map<Seq<char>, CompanyConfigView> {
    if configs.contains_key(company_id) {
        configs
    } else {
        match found {
            Ok(Some(config)) => if acceptable(company_id, config) {
                configs.insert(company_id, config)
            } else {
                configs
            },
            _ => configs,
        }
    }
}

/// What the setting of a configuration answers: `NotConfigured` to one
/// without an endpoint address.
pub open spec fn put_result(config: CompanyConfigView) -> Result<(), ServiceError> {
    if config.valid() {
        Ok(())
    } else {
        Err(ServiceError::NotConfigured)
    }
}

/// The configurations after one was set: the one entry of its tenant is
/// replaced, unless the configuration has no endpoint address.
pub open spec fn configs_after_put(
    configs: Map<Seq<char>, CompanyConfigView>,
    config: CompanyConfigView,
) -> Map<Seq<char>, CompanyConfigView> {
    if config.valid() {
        configs.insert(config.company_id, config)
    } else {
        configs
    }
}

/// What a reading of a configuration ends with, by its content.
pub open spec fn config_result_view(r: Result<CompanyConfig, ServiceError>) -> Result<
    CompanyConfigView,
    ServiceError,
> {
    match r {
        Ok(c) => Ok(c@),
        Err(e) => Err(e),
    }
}

/// Per-tenant configuration, one entry for each tenant. An entry is only
/// ever replaced as a whole; nothing expires.
pub struct TenantConfigStore {
    entries: Vec<CompanyConfig>,
}

impl View for TenantConfigStore {
    type V = Map<Seq<char>, CompanyConfigView>;

    /// The configuration of every configured tenant.
    closed spec fn view(&self) -> Map<Seq<char>, CompanyConfigView> {
        to_map(self.entries@)
    }
}

impl TenantConfigStore {
    /// No tenant has two entries, and every entry has an endpoint address.
    #[verifier::type_invariant]
    pub closed spec fn inv(self) -> bool {
        distinct(self.entries@) && all_valid(self.entries@)
    }

    /// What the invariant of the store means for its content.
    pub proof fn lemma_well_keyed(self)
        requires
            self.inv(),
        ensures
            well_keyed(self@),
    {
        lemma_well_keyed(self.entries@);
    }

    /// A store without any tenant.
    pub fn new() -> (store: TenantConfigStore)
        ensures
            store@ == Map::<Seq<char>, CompanyConfigView>::empty(),
    {
        let store = TenantConfigStore { entries: Vec::new() };
        assert(store@ =~= Map::<Seq<char>, CompanyConfigView>::empty());
        store
    }

    fn find(&self, company_id: &String) -> (found: Option<usize>)
        ensures
            match found {
                Some(i) => i < self.entries@.len() && key_at(self.entries@, i as int)
                    == company_id@,
                None => !holds(self.entries@, company_id@),
            },
    {
        let mut i: usize = 0;
        while i < self.entries.len()
            invariant
                i <= self.entries@.len(),
                forall|j: int| 0 <= j < i ==> key_at(self.entries@, j) != company_id@,
            decreases self.entries@.len() - i,
        {
            if self.entries[i].company_id == *company_id {
                return Some(i);
            }
            i += 1;
        }
        None
    }

    /// The configuration of a tenant. It fails with `NotConfigured` exactly
    /// when the tenant has none.
    pub fn get(&self, company_id: &str) -> (r: Result<CompanyConfig, ServiceError>)
        ensures
            match r {
                Ok(c) => self@.contains_key(company_id@) && c@ == self@[company_id@],
                Err(e) => e == ServiceError::NotConfigured && !self@.contains_key(company_id@),
            },
            well_keyed(self@),
    {
        proof {
            use_type_invariant(self);
            lemma_well_keyed(self.entries@);
        }
        let key = company_id.to_owned();
        match self.find(&key) {
            Some(i) => {
                proof {
                    lemma_slot(self.entries@, i as int);
                }
                Ok(self.entries[i].clone())
            },
            None => Err(ServiceError::NotConfigured),
        }
    }

    /// Whether the tenant has a configuration.
    pub fn contains(&self, company_id: &str) -> (r: bool)
        ensures
            r == self@.contains_key(company_id@),
    {
        let key = company_id.to_owned();
        self.find(&key).is_some()
    }

    /// The configuration of a tenant, read through to the persistent store:
    /// `found` is what the store gave for the tenant. What memory holds comes
    /// first; what the store gave is kept in memory where memory held nothing.
    pub fn resolve(&mut self, company_id: &str, found: Result<Option<CompanyConfig>, StoreFault>)
        -> (r: Result<CompanyConfig, ServiceError>)
        ensures
            config_result_view(r) == resolved(old(self)@, company_id@, found_view(found)),
            final(self)@ == configs_after_resolve(old(self)@, company_id@, found_view(found)),
            r matches Ok(c) ==> final(self)@.contains_key(company_id@) && final(self)@[company_id@]
                == c@,
            well_keyed(final(self)@),
    {
        proof {
            use_type_invariant(&*self);
            lemma_well_keyed(self.entries@);
        }
        match self.get(company_id) {
            Ok(config) => Ok(config),
            Err(_) => match found {
                Err(_) => Err(ServiceError::StorageError),
                Ok(None) => Err(ServiceError::NotConfigured),
                Ok(Some(config)) => {
                    let key = company_id.to_owned();
                    if config.company_id != key {
                        Err(ServiceError::StorageError)
                    } else {
                        let kept = config.clone();
                        match self.put(config) {
                            Ok(_) => Ok(kept),
                            Err(e) => Err(e),
                        }
                    }
                },
            },
        }
    }

    /// Sets the configuration of `config.company_id`, in place of the one
    /// the tenant had, if any. No other tenant is touched. A configuration
    /// without an endpoint address configures nothing: it is refused with
    /// `NotConfigured`, and the store stays as it is.
    pub fn put(&mut self, config: CompanyConfig) -> (r: Result<(), ServiceError>)
        ensures
            final(self)@ == configs_after_put(old(self)@, config@),
            r == put_result(config@),
            well_keyed(old(self)@),
            well_keyed(final(self)@),
    {
        proof {
            use_type_invariant(&*self);
            lemma_well_keyed(self.entries@);
        }
        if config.third_party_api.as_str().is_empty() {
            return Err(ServiceError::NotConfigured);
        }
        let found = self.find(&config.company_id);
        let mut entries: Vec<CompanyConfig> = Vec::new();
        core::mem::swap(&mut entries, &mut self.entries);
        match found {
            Some(i) => {
                proof {
                    lemma_replace(entries@, i as int, config);
                }
                entries[i] = config;
            },
            None => {
                proof {
                    lemma_append(entries@, config);
                }
                entries.push(config);
            },
        }
        proof {
            lemma_well_keyed(entries@);
        }
        self.entries = entries;
        Ok(())
    }
}

} // verus!
