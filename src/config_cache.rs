use vstd::prelude::*;

use crate::registry::configs_view;
use crate::types::{AppError, ConfigView, PortForwardConfig};

verus! {

/// `i` is the first position of a definition named `name`.
pub open spec fn is_first_named(cs: Seq<ConfigView>, name: Seq<char>, i: int) -> bool {
    0 <= i < cs.len() && cs[i].name == name && forall|j: int| 0 <= j < i ==> cs[j].name != name
}

/// The definitions not named `name`, in order.
pub open spec fn without_name(cs: Seq<ConfigView>, name: Seq<char>) -> Seq<ConfigView>
    decreases cs.len(),
{
    if cs.len() == 0 {
        Seq::empty()
    } else {
        without_name(cs.drop_last(), name) + if cs.last().name != name {
            seq![cs.last()]
        } else {
            Seq::empty()
        }
    }
}

/// How long, in milliseconds, loaded definitions stay fresh by default.
pub const DEFAULT_TTL_MS: u64 = 5000;

/// The tunnel definitions as last loaded or saved, and when.
pub struct ConfigCache {
    configs: Option<Vec<PortForwardConfig>>,
    last_updated: Option<u64>,
    ttl: u64,
}

impl ConfigCache {
    /// The definitions held, if any.
    pub closed spec fn cached(&self) -> Option<Seq<ConfigView>> {
        match self.configs {
            Some(v) => Some(configs_view(v@)),
            None => None,
        }
    }

    /// When the definitions were loaded or saved, in milliseconds.
    pub closed spec fn updated_at(&self) -> Option<u64> {
        self.last_updated
    }

    /// How long loaded definitions stay fresh, in milliseconds.
    pub closed spec fn ttl_ms(&self) -> u64 {
        self.ttl
    }

    /// The cache holds definitions that are fresh at time `now`.
    pub open spec fn valid_at(&self, now: u64) -> bool {
        &&& self.cached() is Some
        &&& self.updated_at() is Some
        &&& (if now >= self.updated_at()->0 {
            now - self.updated_at()->0
        } else {
            0
        }) < self.ttl_ms()
    }

    /// An empty cache whose definitions stay fresh for five seconds.
    pub fn new() -> (r: ConfigCache)
        ensures
            r.cached() is None,
            r.updated_at() is None,
            r.ttl_ms() == DEFAULT_TTL_MS,
    {
        ConfigCache { configs: None, last_updated: None, ttl: DEFAULT_TTL_MS }
    }

    /// An empty cache whose definitions stay fresh for `ttl_ms` milliseconds.
    pub fn with_ttl(ttl_ms: u64) -> (r: ConfigCache)
        ensures
            r.cached() is None,
            r.updated_at() is None,
            r.ttl_ms() == ttl_ms,
    {
        ConfigCache { configs: None, last_updated: None, ttl: ttl_ms }
    }

    /// Whether the cache holds definitions that are fresh at time `now`.
    pub fn is_cache_valid(&self, now: u64) -> (r: bool)
        ensures
            r == self.valid_at(now),
    {
        match (&self.configs, self.last_updated) {
            (Some(_), Some(at)) => {
                let elapsed: u64 = if now >= at {
                    now - at
                } else {
                    0
                };
                elapsed < self.ttl
            },
            _ => false,
        }
    }

    /// The definitions, if they are fresh at time `now`; otherwise they must be loaded again
    /// and handed to `update_configs`.
    pub fn get_configs(&self, now: u64) -> (r: Option<Vec<PortForwardConfig>>)
        ensures
            self.valid_at(now) ==> (r matches Some(v) && Some(configs_view(v@)) == self.cached()),
            !self.valid_at(now) ==> r is None,
    {
        if self.is_cache_valid(now) {
            match &self.configs {
                Some(v) => Some(clone_configs(v)),
                None => None,
            }
        } else {
            None
        }
    }

    /// Forgets the definitions.
    pub fn invalidate(&mut self)
        ensures
            final(self).cached() is None,
            final(self).updated_at() is None,
            final(self).ttl_ms() == old(self).ttl_ms(),
    {
        self.configs = None;
        self.last_updated = None;
    }

    /// Holds `configs`, loaded or saved at time `now`.
    pub fn update_configs(&mut self, configs: Vec<PortForwardConfig>, now: u64)
        ensures
            final(self).cached() == Some(configs_view(configs@)),
            final(self).updated_at() == Some(now),
            final(self).ttl_ms() == old(self).ttl_ms(),
    {
        self.configs = Some(configs);
        self.last_updated = Some(now);
    }

    /// The first definition named `service_name`.
    pub fn find_config(configs: &Vec<PortForwardConfig>, service_name: &str) -> (r: Option<
        PortForwardConfig,
    >)
        ensures
            r matches Some(c) ==> exists|i: int|
                is_first_named(configs_view(configs@), service_name@, i) && c@ == configs@[i]@,
            r is None ==> forall|i: int| 0 <= i < configs@.len() ==> configs@[i].name@ != service_name@,
    {
        match position_of(configs, service_name) {
            Some(i) => Some(configs[i].clone()),
            None => None,
        }
    }

    /// The definitions with `config` added at the end.
    pub fn add_config(configs: Vec<PortForwardConfig>, config: PortForwardConfig) -> (r: Vec<
        PortForwardConfig,
    >)
        ensures
            configs_view(r@) == configs_view(configs@).push(config@),
    {
        let mut configs = configs;
        let ghost before = configs@;
        configs.push(config);
        assert(configs_view(configs@) =~= configs_view(before).push(config@));
        configs
    }

    /// The definitions without those named `service_key`.
    pub fn remove_config(configs: Vec<PortForwardConfig>, service_key: &str) -> (r: Vec<
        PortForwardConfig,
    >)
        ensures
            configs_view(r@) == without_name(configs_view(configs@), service_key@),
    {
        let key = service_key.to_string();
        let ghost cv = configs_view(configs@);
        let mut r: Vec<PortForwardConfig> = Vec::new();
        let mut i: usize = 0;
        while i < configs.len()
            invariant
                key@ == service_key@,
                cv == configs_view(configs@),
                i <= configs@.len(),
                configs_view(r@) == without_name(cv.subrange(0, i as int), service_key@),
            decreases configs@.len() - i,
        {
            let ghost pre = cv.subrange(0, i + 1);
            assert(pre.drop_last() =~= cv.subrange(0, i as int));
            let ghost before = r@;
            if !(configs[i].name == key) {
                r.push(configs[i].clone());
                assert(configs_view(r@) =~= configs_view(before).push(configs@[i as int]@));
            }
            i = i + 1;
        }
        assert(cv.subrange(0, i as int) =~= cv);
        r
    }

    /// The definitions with the first one named `old_service_key` replaced by `new_config`; an
    /// error if no definition has that name.
    pub fn update_config(
        configs: Vec<PortForwardConfig>,
        old_service_key: &str,
        new_config: PortForwardConfig,
    ) -> (r: Result<Vec<PortForwardConfig>, AppError>)
        ensures
            (forall|i: int| 0 <= i < configs@.len() ==> configs@[i].name@ != old_service_key@) <==> r is Err,
            r is Err ==> (r matches Err(AppError::NotFound(m)) && m@
                == "Configuration not found for service: "@ + old_service_key@),
            r matches Ok(v) ==> exists|i: int|
                is_first_named(configs_view(configs@), old_service_key@, i) && configs_view(v@)
                    == configs_view(configs@).update(i, new_config@),
    {
        match position_of(&configs, old_service_key) {
            Some(i) => {
                let mut configs = configs;
                let ghost before = configs@;
                configs.set(i, new_config);
                assert(configs_view(configs@) =~= configs_view(before).update(i as int, new_config@));
                Ok(configs)
            },
            None => Err(
                AppError::NotFound(
                    "Configuration not found for service: ".to_string().concat(old_service_key),
                ),
            ),
        }
    }

    /// The definitions with the first one named `service_key` moved to position `new_index`; an
    /// error if no definition has that name, or if the position is past the end.
    pub fn reorder_config(
        configs: Vec<PortForwardConfig>,
        service_key: &str,
        new_index: usize,
    ) -> (r: Result<Vec<PortForwardConfig>, AppError>)
        ensures
            (forall|i: int| 0 <= i < configs@.len() ==> configs@[i].name@ != service_key@) ==> (
            r matches Err(AppError::NotFound(m)) && m@ == "Configuration not found for service: "@
                + service_key@),
            (exists|i: int| 0 <= i < configs@.len() && configs@[i].name@ == service_key@)
                && new_index >= configs@.len() ==> (r matches Err(AppError::InvalidInput(m)) && m@
                == "Invalid new index"@),
            (exists|i: int| 0 <= i < configs@.len() && configs@[i].name@ == service_key@)
                && new_index < configs@.len() ==> r is Ok,
            r matches Ok(v) ==> exists|i: int|
                is_first_named(configs_view(configs@), service_key@, i) && configs_view(v@)
                    == configs_view(configs@).remove(i).insert(new_index as int, configs@[i]@),
    {
        match position_of(&configs, service_key) {
            None => Err(
                AppError::NotFound(
                    "Configuration not found for service: ".to_string().concat(service_key),
                ),
            ),
            Some(i) => {
                if new_index >= configs.len() {
                    return Err(AppError::InvalidInput("Invalid new index".to_string()));
                }
                let mut configs = configs;
                let ghost before = configs@;
                let c = configs.remove(i);
                configs.insert(new_index, c);
                assert(configs_view(configs@) =~= configs_view(before).remove(i as int).insert(
                    new_index as int,
                    before[i as int]@,
                ));
                Ok(configs)
            },
        }
    }
}

/// The position of the first definition named `name`.
fn position_of(configs: &Vec<PortForwardConfig>, name: &str) -> (r: Option<usize>)
    ensures
        r matches Some(i) ==> is_first_named(configs_view(configs@), name@, i as int),
        r is None ==> forall|i: int| 0 <= i < configs@.len() ==> configs@[i].name@ != name@,
{
    let key = name.to_string();
    let mut i: usize = 0;
    while i < configs.len()
        invariant
            key@ == name@,
            i <= configs@.len(),
            forall|j: int| 0 <= j < i ==> configs@[j].name@ != name@,
        decreases configs@.len() - i,
    {
        if configs[i].name == key {
            return Some(i);
        }
        i = i + 1;
    }
    None
}

/// A copy of each definition.
pub fn clone_configs(v: &Vec<PortForwardConfig>) -> (r: Vec<PortForwardConfig>)
    ensures
        configs_view(r@) == configs_view(v@),
{
    let mut r: Vec<PortForwardConfig> = Vec::new();
    let mut i: usize = 0;
    while i < v.len()
        invariant
            i <= v@.len(),
            configs_view(r@) == configs_view(v@.subrange(0, i as int)),
        decreases v@.len() - i,
    {
        let ghost before = r@;
        r.push(v[i].clone());
        assert(configs_view(r@) =~= configs_view(before).push(v@[i as int]@));
        assert(configs_view(v@.subrange(0, i + 1)) =~= configs_view(v@.subrange(0, i as int)).push(
            v@[i as int]@,
        ));
        i = i + 1;
    }
    assert(v@.subrange(0, i as int) =~= v@);
    r
}

} // verus!
