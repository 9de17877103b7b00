//! The plugin registry and the resolver that maps a guild's enablement set
//! to the registered plugins.

use crate::plugin::Plugin;
use std::sync::Arc;
use vstd::prelude::*;
use vstd::string::StringExecFns;

verus! {

/// A shared handle to one registered plugin.
pub type PluginHandle = Arc<Box<dyn Plugin>>;

/// The index of the first entry of `registry` that equals `name`, if any.
pub open spec fn first_index(registry: Seq<Seq<char>>, name: Seq<char>) -> Option<int>
    decreases registry.len(),
{
    if registry.len() == 0 {
        None
    } else if registry.first() == name {
        Some(0int)
    } else {
        match first_index(registry.drop_first(), name) {
            Some(i) => Some(i + 1),
            None => None,
        }
    }
}

/// The registry indices that `enabled` selects: for each enabled name in
/// turn, the first registered plugin of that name; a name that no plugin
/// carries selects nothing.
pub open spec fn resolve(registry: Seq<Seq<char>>, enabled: Seq<Seq<char>>) -> Seq<int>
    decreases enabled.len(),
{
    if enabled.len() == 0 {
        Seq::empty()
    } else {
        let earlier = resolve(registry, enabled.drop_last());
        match first_index(registry, enabled.last()) {
            Some(i) => earlier.push(i),
            None => earlier,
        }
    }
}

/// No two entries of `names` are equal.
pub open spec fn distinct(names: Seq<Seq<char>>) -> bool {
    forall|i: int, j: int| 0 <= i < j < names.len() ==> names[i] != names[j]
}

/// What [`first_index`] returns: the least index that holds `name`, or
/// `None` exactly when no index does.
pub proof fn lemma_first_index(registry: Seq<Seq<char>>, name: Seq<char>)
    ensures
        match first_index(registry, name) {
            Some(i) => {
                &&& 0 <= i < registry.len()
                &&& registry[i] == name
                &&& forall|j: int| 0 <= j < i ==> registry[j] != name
            },
            None => forall|j: int| 0 <= j < registry.len() ==> registry[j] != name,
        },
    decreases registry.len(),
{
    if registry.len() == 0 {
    } else if registry.first() == name {
    } else {
        let tail = registry.drop_first();
        lemma_first_index(tail, name);
        match first_index(tail, name) {
            Some(i) => {
                assert forall|j: int| 0 <= j < i + 1 implies registry[j] != name by {
                    if j > 0 {
                        assert(tail[j - 1] == registry[j]);
                    }
                }
                assert(tail[i] == registry[i + 1]);
            },
            None => {
                assert forall|j: int| 0 <= j < registry.len() implies registry[j] != name by {
                    if j > 0 {
                        assert(tail[j - 1] == registry[j]);
                    }
                }
            },
        }
    }
}

/// The resolver returns exactly the registered plugins whose names are in the
/// enablement set: with pairwise distinct registry names, a registry index
/// is selected if and only if its name is among the enabled names. Enabled
/// names that no plugin carries select nothing.
pub proof fn lemma_resolve_selects_enabled(registry: Seq<Seq<char>>, enabled: Seq<Seq<char>>)
    requires
        distinct(registry),
    ensures
        forall|i: int|
            #![trigger resolve(registry, enabled).contains(i)]
            #![trigger registry[i]]
            resolve(registry, enabled).contains(i) <==> (0 <= i < registry.len()
                && enabled.contains(registry[i])),
    decreases enabled.len(),
{
    let picked = resolve(registry, enabled);
    if enabled.len() == 0 {
        assert forall|i: int| !picked.contains(i) && !enabled.contains(registry[i]) by {}
    } else {
        let earlier_names = enabled.drop_last();
        let earlier = resolve(registry, earlier_names);
        lemma_resolve_selects_enabled(registry, earlier_names);
        lemma_first_index(registry, enabled.last());
        assert forall|i: int|
            picked.contains(i) <==> (0 <= i < registry.len() && enabled.contains(
                registry[i],
            )) by {
            if picked.contains(i) {
                let k = choose|k: int| 0 <= k < picked.len() && picked[k] == i;
                if k < earlier.len() {
                    assert(earlier[k] == i);
                    assert(earlier.contains(i));
                    let w = choose|w: int|
                        0 <= w < earlier_names.len() && earlier_names[w] == registry[i];
                    assert(enabled[w] == registry[i]);
                } else {
                    assert(first_index(registry, enabled.last()) == Some(i));
                    assert(enabled[enabled.len() - 1] == registry[i]);
                }
            }
            if 0 <= i < registry.len() && enabled.contains(registry[i]) {
                let w = choose|w: int| 0 <= w < enabled.len() && enabled[w] == registry[i];
                if w < earlier_names.len() {
                    assert(earlier_names[w] == registry[i]);
                    assert(earlier_names.contains(registry[i]));
                    assert(earlier.contains(i));
                    let k = choose|k: int| 0 <= k < earlier.len() && earlier[k] == i;
                    assert(picked[k] == i);
                } else {
                    assert(enabled.last() == registry[i]);
                    let found = first_index(registry, enabled.last());
                    assert(found is Some);
                    if found->0 != i {
                        if found->0 < i {
                            assert(registry[found->0] != registry[i]);
                        } else {
                            assert(registry[i] != registry[found->0]);
                        }
                    }
                    assert(picked[picked.len() - 1] == i);
                }
            }
        }
    }
}

/// The resolver keeps the enablement set a set: with pairwise distinct
/// registry names, enabled names that are pairwise distinct select pairwise
/// distinct plugins, in the order of the enabled names.
pub proof fn lemma_resolve_is_ordered_set(registry: Seq<Seq<char>>, enabled: Seq<Seq<char>>)
    requires
        distinct(enabled),
    ensures
        forall|a: int, b: int|
            0 <= a < b < resolve(registry, enabled).len() ==> resolve(registry, enabled)[a]
                != resolve(registry, enabled)[b],
        forall|a: int|
            0 <= a < resolve(registry, enabled).len() ==> 0 <= #[trigger] resolve(
                registry,
                enabled,
            )[a] < registry.len(),
        resolve(registry, enabled).len() <= enabled.len(),
    decreases enabled.len(),
{
    let picked = resolve(registry, enabled);
    if enabled.len() > 0 {
        let earlier_names = enabled.drop_last();
        let earlier = resolve(registry, earlier_names);
        lemma_resolve_is_ordered_set(registry, earlier_names);
        lemma_first_index(registry, enabled.last());
        lemma_resolved_names(registry, earlier_names);
        assert forall|a: int, b: int| 0 <= a < b < picked.len() implies picked[a] != picked[b] by {
            if b == earlier.len() {
                // `picked[a]` carries an earlier enabled name, `picked[b]` the last one.
                let w = choose|w: int|
                    0 <= w < earlier_names.len() && earlier_names[w] == registry[earlier[a]];
                assert(enabled[w] != enabled[enabled.len() - 1]);
            }
        }
    }
}

/// Every selected index carries one of the enabled names.
pub proof fn lemma_resolved_names(registry: Seq<Seq<char>>, enabled: Seq<Seq<char>>)
    ensures
        forall|a: int|
            0 <= a < resolve(registry, enabled).len() ==> {
                &&& 0 <= #[trigger] resolve(registry, enabled)[a] < registry.len()
                &&& enabled.contains(registry[resolve(registry, enabled)[a]])
            },
    decreases enabled.len(),
{
    let picked = resolve(registry, enabled);
    if enabled.len() > 0 {
        let earlier_names = enabled.drop_last();
        let earlier = resolve(registry, earlier_names);
        lemma_resolved_names(registry, earlier_names);
        lemma_first_index(registry, enabled.last());
        assert forall|a: int| 0 <= a < picked.len() implies {
            &&& 0 <= #[trigger] picked[a] < registry.len()
            &&& enabled.contains(registry[picked[a]])
        } by {
            if a < earlier.len() {
                let w = choose|w: int|
                    0 <= w < earlier_names.len() && earlier_names[w] == registry[earlier[a]];
                assert(enabled[w] == registry[picked[a]]);
            } else {
                assert(enabled[enabled.len() - 1] == registry[picked[a]]);
            }
        }
    }
}

/// The immutable list of registered plugins.
pub struct PluginConfig {
    pub plugins: Arc<Vec<PluginHandle>>,
}

impl PluginConfig {
    /// The names of the registered plugins, in registry order.
    pub open spec fn names(&self) -> Seq<Seq<char>> {
        Seq::new(self.plugins@.len(), |i: int| self.plugins@[i].spec_name())
    }

    /// Every plugin is registered under a name of its own.
    pub open spec fn well_formed(&self) -> bool {
        distinct(self.names())
    }

    /// The plugins that a lookup of the enablement store selects: none when
    /// the lookup failed, otherwise those that [`resolve`] picks.
    pub open spec fn selection(&self, enabled: Option<Vec<String>>) -> Seq<int> {
        match enabled {
            Some(names) => resolve(self.names(), names.deep_view()),
            None => Seq::empty(),
        }
    }

    /// Wraps a list of plugins as the registry.
    pub fn new(plugins: Arc<Vec<PluginHandle>>) -> (config: Self)
        ensures
            config.plugins == plugins,
    {
        PluginConfig { plugins }
    }

    /// Whether no two registered plugins share a name.
    pub fn has_distinct_names(&self) -> (ok: bool)
        ensures
            ok == self.well_formed(),
    {
        let n = self.plugins.len();
        let mut i: usize = 0;
        while i < n
            invariant
                n == self.plugins@.len(),
                i <= n,
                forall|a: int, b: int|
                    0 <= a < b < n && a < i ==> self.names()[a] != self.names()[b],
            decreases n - i,
        {
            let mine = String::from_str(self.plugins[i].name());
            let mut j: usize = i + 1;
            while j < n
                invariant
                    n == self.plugins@.len(),
                    i < j <= n,
                    mine@ == self.names()[i as int],
                    forall|b: int| i < b < j ==> self.names()[i as int] != self.names()[b],
                decreases n - j,
            {
                let other = String::from_str(self.plugins[j].name());
                if mine == other {
                    assert(self.names()[i as int] == self.names()[j as int]);
                    return false;
                }
                j += 1;
            }
            i += 1;
        }
        true
    }

    /// The position of the first registered plugin called `name`.
    pub fn find(&self, name: &String) -> (found: Option<usize>)
        ensures
            match found {
                Some(i) => i < self.plugins@.len() && first_index(self.names(), name@) == Some(
                    i as int,
                ),
                None => first_index(self.names(), name@) is None,
            },
    {
        let n = self.plugins.len();
        let mut i: usize = 0;
        while i < n
            invariant
                n == self.plugins@.len(),
                i <= n,
                forall|j: int| 0 <= j < i ==> self.names()[j] != name@,
            decreases n - i,
        {
            let candidate = String::from_str(self.plugins[i].name());
            if candidate == *name {
                proof {
                    assert(self.names()[i as int] == name@);
                    lemma_first_index(self.names(), name@);
                }
                return Some(i);
            }
            i += 1;
        }
        proof {
            lemma_first_index(self.names(), name@);
        }
        None
    }

    /// The handles that [`PluginConfig::selection`] picks, in its order.
    pub open spec fn selected(&self, enabled: Option<Vec<String>>) -> Seq<PluginHandle> {
        self.selection(enabled).map_values(|i: int| self.plugins@[i])
    }

    /// Resolves the plugins enabled for a guild from what the enablement store
    /// answered: `None` where the lookup failed, else the stored names. A
    /// failed lookup resolves to no plugin at all, so that an outage of the
    /// store never holds dispatch up. Names that no registered plugin carries
    /// are dropped.
    pub fn get_plugins(&self, enabled: &Option<Vec<String>>) -> (targets: Vec<PluginHandle>)
        ensures
            targets@ == self.selected(*enabled),
            forall|k: int|
                0 <= k < targets@.len() ==> 0 <= #[trigger] self.selection(*enabled)[k]
                    < self.plugins@.len(),
    {
        let mut result: Vec<PluginHandle> = Vec::new();
        match enabled {
            Some(names) => {
                let ghost wanted = names.deep_view();
                let mut k: usize = 0;
                assert(wanted.take(0) =~= Seq::empty());
                while k < names.len()
                    invariant
                        k <= names.len(),
                        wanted == names.deep_view(),
                        result@.len() == resolve(self.names(), wanted.take(k as int)).len(),
                        forall|a: int|
                            0 <= a < result@.len() ==> {
                                &&& 0 <= #[trigger] resolve(self.names(), wanted.take(k as int))[a]
                                    < self.plugins@.len()
                                &&& result@[a] == self.plugins@[resolve(
                                    self.names(),
                                    wanted.take(k as int),
                                )[a]]
                            },
                    decreases names.len() - k,
                {
                    let name = &names[k];
                    assert(wanted.take(k as int + 1).drop_last() =~= wanted.take(k as int));
                    assert(wanted.take(k as int + 1).last() == name@);
                    match self.find(name) {
                        Some(i) => {
                            result.push(self.plugins[i].clone());
                        },
                        None => {},
                    }
                    k += 1;
                }
                assert(wanted.take(k as int) =~= wanted);
            },
            None => {},
        }
        assert(result@ =~= self.selected(*enabled));
        result
    }
}

} // verus!
