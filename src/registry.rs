use vstd::prelude::*;

use crate::message::RawMessage;
use crate::plugin::{Descriptor, Execute, PluginDescriptor};
use crate::types::{status_spec, ApiVersion, Error, Handle, Int, PluginVersion};

verus! {

/// The module names of a sequence of entries, in order.
pub open spec fn module_names<C>(s: Seq<PluginDescriptor<C>>) -> Seq<Seq<char>> {
    s.map_values(|p: PluginDescriptor<C>| p.descriptor.module_name@)
}

/// No two entries share a module name.
pub open spec fn names_unique<C>(s: Seq<PluginDescriptor<C>>) -> bool {
    module_names(s).no_duplicates()
}

/// Each entry records its own position.
pub open spec fn indices_match<C>(s: Seq<PluginDescriptor<C>>) -> bool {
    forall|i: int| 0 <= i < s.len() ==> #[trigger] s[i].descriptor.index == i
}

/// What holds of the entries of every registry: there are no more than the
/// host's integer can count, no two share a module name, and each records its
/// own position.
pub open spec fn registry_valid<C>(s: Seq<PluginDescriptor<C>>) -> bool {
    &&& s.len() <= Int::MAX
    &&& names_unique(s)
    &&& indices_match(s)
}

/// Where the entry registered under module `m` stands, if there is one.
pub open spec fn position_of<C>(s: Seq<PluginDescriptor<C>>, m: Seq<char>) -> Option<int> {
    if exists|i: int| 0 <= i < s.len() && #[trigger] s[i].descriptor.module_name@ == m {
        Some(choose|i: int| 0 <= i < s.len() && #[trigger] s[i].descriptor.module_name@ == m)
    } else {
        None
    }
}

/// The map from module name to position.
pub open spec fn module_map<C>(s: Seq<PluginDescriptor<C>>) -> Map<Seq<char>, int> {
    Map::new(|m: Seq<char>| position_of(s, m).is_some(), |m: Seq<char>| position_of(s, m).unwrap())
}

/// With unique names, the entry found at position `i` is found by its own
/// name, and only there.
pub proof fn lemma_position_of_entry<C>(s: Seq<PluginDescriptor<C>>, i: int)
    requires
        names_unique(s),
        0 <= i < s.len(),
    ensures
        position_of(s, s[i].descriptor.module_name@) == Some(i),
{
    let m = s[i].descriptor.module_name@;
    assert(exists|k: int| 0 <= k < s.len() && #[trigger] s[k].descriptor.module_name@ == m) by {
        assert(0 <= i < s.len() && s[i].descriptor.module_name@ == m);
    }
    let j = position_of(s, m).unwrap();
    assert(0 <= j < s.len() && s[j].descriptor.module_name@ == m);
    assert(module_names(s)[i] == m && module_names(s)[j] == m);
    if i != j {
        assert(module_names(s)[i] != module_names(s)[j]);
    }
}

/// Every sequence of registrations keeps the module names unique, so the map
/// from module name to position has exactly one key per entry, and each key
/// leads back to the entry registered under it.
pub proof fn lemma_map_matches_entries<C>(s: Seq<PluginDescriptor<C>>)
    requires
        names_unique(s),
    ensures
        module_map(s).dom().finite(),
        module_map(s).dom().len() == s.len(),
        forall|m: Seq<char>| #[trigger] module_map(s).contains_key(m)
            ==> 0 <= module_map(s)[m] < s.len() && s[module_map(s)[m]].descriptor.module_name@ == m,
{
    let names = module_names(s);
    assert forall|m: Seq<char>| module_map(s).dom().contains(m) <==> names.to_set().contains(m) by {
        if names.to_set().contains(m) {
            let i = choose|i: int| 0 <= i < names.len() && names[i] == m;
            lemma_position_of_entry(s, i);
        }
        if module_map(s).dom().contains(m) {
            let i = position_of(s, m).unwrap();
            assert(names[i] == m);
        }
    }
    assert(module_map(s).dom() =~= names.to_set());
    names.unique_seq_to_set();
}

/// How dispatching `message` to module `m` takes the entries `old` to `new`
/// with result `r`: an unknown module changes nothing and is reported; a known
/// one hands the message to its own entry and leaves every other entry as it
/// was.
pub open spec fn routed<C: Execute>(
    old: Seq<PluginDescriptor<C>>,
    m: Seq<char>,
    message: RawMessage,
    new: Seq<PluginDescriptor<C>>,
    r: Result<Int, Error>,
) -> bool {
    &&& new.len() == old.len()
    &&& match position_of(old, m) {
        None => r == Err::<Int, Error>(Error::PluginNotFound) && new == old,
        Some(i) => {
            &&& forall|j: int| 0 <= j < old.len() && j != i ==> #[trigger] new[j] == old[j]
            &&& old[i].dispatch_spec(message, new[i], r)
        },
    }
}

/// The plugins of a module, in registration order. Module names are unique
/// and each entry records its own position. A plugin is found by scanning the
/// entries for its module name: vstd models a hash map's contents only for
/// integer keys, so a map keyed by name would carry no proved meaning; the map
/// from name to position is stated instead as `module_map`.
pub struct Registry<C> {
    plugins: Vec<PluginDescriptor<C>>,
}

impl<C> Registry<C> {
    /// The registered entries, in registration order.
    pub closed spec fn entries(&self) -> Seq<PluginDescriptor<C>> {
        self.plugins@
    }

    #[verifier::type_invariant]
    spec fn well_formed(self) -> bool {
        registry_valid(self.plugins@)
    }

    pub fn new() -> (r: Self)
        ensures
            r.entries() == Seq::<PluginDescriptor<C>>::empty(),
            registry_valid(r.entries()),
    {
        Registry { plugins: Vec::new() }
    }

    /// Whether a plugin is registered under `module_name`.
    pub fn contains_module(&self, module_name: &str) -> (r: bool)
        ensures
            r == position_of(self.entries(), module_name@).is_some(),
    {
        self.plugin_index(module_name).is_some()
    }

    /// The position of the plugin registered under `module_name`.
    pub fn plugin_index(&self, module_name: &str) -> (r: Option<usize>)
        ensures
            match r {
                Some(i) => position_of(self.entries(), module_name@) == Some(i as int),
                None => position_of(self.entries(), module_name@).is_none(),
            },
            registry_valid(self.entries()),
    {
        proof {
            use_type_invariant(self);
        }
        let key = module_name.to_owned();
        let mut i: usize = 0;
        while i < self.plugins.len()
            invariant
                i <= self.plugins@.len(),
                key@ == module_name@,
                registry_valid(self.plugins@),
                forall|j: int| 0 <= j < i ==> #[trigger] self.plugins@[j].descriptor.module_name@ != key@,
            decreases self.plugins@.len() - i,
        {
            if self.plugins[i].descriptor.module_name == key {
                proof {
                    lemma_position_of_entry(self.plugins@, i as int);
                }
                return Some(i);
            }
            i += 1;
        }
        None
    }

    /// Registers a plugin under `module_name` and returns its position.
    pub fn add(
        &mut self,
        module_name: &str,
        name: &str,
        api_version: ApiVersion,
        plugin_version: PluginVersion,
        instance: C,
    ) -> (r: usize)
        requires
            position_of(old(self).entries(), module_name@).is_none(),
            old(self).entries().len() < Int::MAX,
        ensures
            r == old(self).entries().len(),
            final(self).entries().len() == r + 1,
            final(self).entries().subrange(0, r as int) == old(self).entries(),
            final(self).entries()[r as int].descriptor.index == r,
            final(self).entries()[r as int].descriptor.module_name@ == module_name@,
            final(self).entries()[r as int].descriptor.name@ == name@,
            final(self).entries()[r as int].descriptor.api_version == api_version,
            final(self).entries()[r as int].descriptor.plugin_version == plugin_version,
            final(self).entries()[r as int].host.is_none(),
            final(self).entries()[r as int].instance == instance,
            registry_valid(final(self).entries()),
    {
        let mut taken = Registry::new();
        std::mem::swap(self, &mut taken);
        proof {
            use_type_invariant(&taken);
        }
        let mut plugins = taken.plugins;
        let plugin_index = plugins.len();
        let plugin = PluginDescriptor::new(
            plugin_index,
            module_name,
            name,
            api_version,
            plugin_version,
            instance,
        );
        proof {
            let s = plugins@.push(plugin);
            assert forall|i: int, j: int|
                0 <= i < s.len() && 0 <= j < s.len() && i != j
                implies module_names(s)[i] != module_names(s)[j] by {
                if j == plugin_index as int {
                    assert(module_names(plugins@)[i] == s[i].descriptor.module_name@);
                } else if i == plugin_index as int {
                    assert(module_names(plugins@)[j] == s[j].descriptor.module_name@);
                } else {
                    assert(module_names(plugins@)[i] == module_names(s)[i]);
                    assert(module_names(plugins@)[j] == module_names(s)[j]);
                }
            }
        }
        plugins.push(plugin);
        proof {
            assert(plugins@.subrange(0, plugin_index as int) =~= old(self).plugins@);
        }
        *self = Registry { plugins };
        plugin_index
    }

    /// The number of registered plugins.
    pub fn count(&self) -> (r: Int)
        ensures
            r == self.entries().len(),
            registry_valid(self.entries()),
    {
        proof {
            use_type_invariant(self);
        }
        self.plugins.len() as Int
    }

    pub fn get_plugin(&self, index: usize) -> (r: &PluginDescriptor<C>)
        requires
            index < self.entries().len(),
        ensures
            *r == self.entries()[index as int],
    {
        &self.plugins[index]
    }

    /// The record that the host reads for the plugin at `index`.
    pub fn ofx_plugin(&self, index: Int) -> (r: &Descriptor)
        requires
            0 <= index < self.entries().len(),
        ensures
            *r == self.entries()[index as int].descriptor,
    {
        self.plugins[index as usize].ofx_plugin()
    }

    /// The identity of the plugin at `index`, or `None` out of range.
    pub fn descriptor(&self, index: Int) -> (r: Option<&Descriptor>)
        ensures
            match r {
                Some(d) => 0 <= index < self.entries().len()
                    && *d == self.entries()[index as int].descriptor,
                None => !(0 <= index < self.entries().len()),
            },
    {
        if 0 <= index && (index as usize) < self.plugins.len() {
            Some(self.plugins[index as usize].ofx_plugin())
        } else {
            None
        }
    }
}

impl<C: Execute> Registry<C> {
    /// Routes a host call to the plugin registered under `plugin_module`.
    pub fn dispatch(&mut self, plugin_module: &str, message: RawMessage) -> (r: Result<Int, Error>)
        ensures
            routed(old(self).entries(), plugin_module@, message, final(self).entries(), r),
            registry_valid(final(self).entries()),
    {
        proof {
            use_type_invariant(&*self);
        }
        match self.plugin_index(plugin_module) {
            None => Err(Error::PluginNotFound),
            Some(i) => {
                let mut taken = Registry::new();
                std::mem::swap(self, &mut taken);
                proof {
                    use_type_invariant(&taken);
                }
                let mut plugins = taken.plugins;
                let r = plugins[i].dispatch(message);
                proof {
                    assert(module_names(plugins@) =~= module_names(old(self).plugins@));
                    assert forall|j: int| 0 <= j < plugins@.len() && j != i implies #[trigger] plugins@[j]
                        == old(self).plugins@[j] by {}
                }
                *self = Registry { plugins };
                proof {
                    use_type_invariant(&*self);
                }
                r
            },
        }
    }
}

/// Hands the host's services to the plugin registered under `plugin_module`.
/// The host cannot observe the outcome.
pub fn set_host_for_plugin<C: Execute>(registry: &mut Registry<C>, plugin_module: &str, host: Handle)
    ensures
        exists|r: Result<Int, Error>|
            routed(
                old(registry).entries(),
                plugin_module@,
                (RawMessage::SetHost { host }),
                final(registry).entries(),
                r,
            ),
{
    let _ = registry.dispatch(plugin_module, RawMessage::SetHost { host });
}

/// Routes an action request to the plugin registered under `plugin_module`
/// and returns the status that the host sees.
pub fn main_entry_for_plugin<C: Execute>(
    registry: &mut Registry<C>,
    plugin_module: &str,
    action: String,
    handle: Handle,
    in_args: Handle,
    out_args: Handle,
) -> (status: Int)
    ensures
        exists|r: Result<Int, Error>|
            {
                &&& routed(
                    old(registry).entries(),
                    plugin_module@,
                    (RawMessage::MainEntry { action, handle, in_args, out_args }),
                    final(registry).entries(),
                    r,
                )
                &&& status == status_spec(r)
            },
{
    let message = RawMessage::MainEntry { action, handle, in_args, out_args };
    let r = registry.dispatch(plugin_module, message);
    crate::types::status_of(r)
}

} // verus!
