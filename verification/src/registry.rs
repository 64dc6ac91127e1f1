//! The providers that were set up, under their names.

use crate::config::ProviderConfig;
use crate::providers::{get_provider, provider_made, Provider, ProviderView};
use vstd::prelude::*;

verus! {

/// The provider instances of a run. The provider at an index goes by the name
/// at that index; no name occurs twice, so that all services that name a
/// provider share one instance and its clock.
#[derive(Debug)]
pub struct Registry {
    pub names: Vec<String>,
    pub providers: Vec<Provider>,
}

/// The names of the entries of a registry, in order.
pub open spec fn names_of(entries: Seq<(Seq<char>, ProviderView)>) -> Seq<Seq<char>> {
    Seq::new(entries.len(), |index: int| entries[index].0)
}

/// The registry that results from setting up each entry of a configuration
/// in turn: an entry whose provider cannot be set up is left out, and so is
/// one whose name is taken.
pub open spec fn built(entries: Seq<(String, ProviderConfig)>) -> Seq<(Seq<char>, ProviderView)>
    decreases entries.len(),
{
    if entries.len() == 0 {
        Seq::empty()
    } else {
        let before = built(entries.drop_last());
        let name = entries.last().0@;
        match provider_made(name, entries.last().1) {
            Ok(provider) => if names_of(before).contains(name) {
                before
            } else {
                before.push((name, provider))
            },
            Err(_) => before,
        }
    }
}

impl View for Registry {
    type V = Seq<(Seq<char>, ProviderView)>;

    open spec fn view(&self) -> Seq<(Seq<char>, ProviderView)> {
        Seq::new(self.names.len() as nat, |index: int| (self.names[index]@, self.providers[index]@))
    }
}

impl Registry {
    /// Every name has its provider, and no name occurs twice.
    pub open spec fn well_formed(&self) -> bool {
        &&& self.names.len() == self.providers.len()
        &&& forall|first: int, second: int|
            0 <= first < second < self.names.len() ==> self.names[first]@ != self.names[second]@
    }

    /// The names under which providers are registered, in order.
    pub open spec fn names_view(&self) -> Seq<Seq<char>> {
        names_of(self@)
    }

    /// A registry without providers.
    pub fn new() -> (registry: Registry)
        ensures
            registry.well_formed(),
            registry@ == Seq::<(Seq<char>, ProviderView)>::empty(),
    {
        Registry { names: Vec::new(), providers: Vec::new() }
    }

    /// The number of providers.
    pub fn len(&self) -> (count: usize)
        ensures
            count == self@.len(),
    {
        self.names.len()
    }

    /// The index of the first provider that goes by `name`.
    pub fn position(&self, name: &str) -> (found: Option<usize>)
        ensures
            match found {
                Some(index) => index < self@.len() && self.names_view()[index as int] == name@
                    && forall|before: int|
                    0 <= before < index ==> self.names_view()[before] != name@,
                None => !self.names_view().contains(name@),
            },
    {
        let wanted: String = name.to_owned();
        let mut index: usize = 0;
        while index < self.names.len()
            invariant
                index <= self.names.len(),
                wanted@ == name@,
                forall|before: int| 0 <= before < index ==> self.names_view()[before] != name@,
            decreases self.names.len() - index,
        {
            if self.names[index] == wanted {
                return Some(index);
            }
            index += 1;
        }
        None
    }

    /// Whether a provider goes by `name`.
    pub fn contains(&self, name: &str) -> (found: bool)
        ensures
            found == self.names_view().contains(name@),
    {
        self.position(name).is_some()
    }

    /// Takes the provider at `index` out of the registry, with its name; the
    /// others keep their order. Nothing changes where there is none.
    pub fn remove(&mut self, index: usize) -> (removed: Option<Provider>)
        ensures
            old(self).well_formed() ==> final(self).well_formed(),
            index < old(self).names.len() && index < old(self).providers.len() ==> removed
                == Some(old(self).providers[index as int]) && final(self).names@ == old(
                self,
            ).names@.remove(index as int) && final(self).providers@ == old(
                self,
            ).providers@.remove(index as int),
            !(index < old(self).names.len() && index < old(self).providers.len()) ==> removed
                is None && *final(self) == *old(self),
            old(self).well_formed() && index < old(self)@.len() ==> final(self)@ == old(
                self,
            )@.remove(index as int),
    {
        if index < self.names.len() && index < self.providers.len() {
            let ghost before = *self;
            self.names.remove(index);
            let provider = self.providers.remove(index);
            proof {
                if before.well_formed() {
                    assert forall|first: int, second: int|
                        0 <= first < second < self.names.len() implies self.names[first]@
                        != self.names[second]@ by {
                        let first_before = if first < index { first } else { first + 1 };
                        let second_before = if second < index { second } else { second + 1 };
                        assert(self.names[first] == before.names[first_before]);
                        assert(self.names[second] == before.names[second_before]);
                    }
                    assert(self@ =~= before@.remove(index as int));
                }
            }
            Some(provider)
        } else {
            None
        }
    }

    /// Sets up the providers of a configuration, entry by entry. A provider
    /// that cannot be set up is left out, and the others are set up all the
    /// same.
    pub fn build(entries: &Vec<(String, ProviderConfig)>) -> (registry: Registry)
        ensures
            registry.well_formed(),
            registry@ == built(entries@),
    {
        let mut registry = Registry::new();
        let mut index: usize = 0;
        assert(entries@.take(0) =~= Seq::empty());
        while index < entries.len()
            invariant
                index <= entries.len(),
                registry.well_formed(),
                registry@ == built(entries@.take(index as int)),
            decreases entries.len() - index,
        {
            let ghost before = registry@;
            proof {
                assert(entries@.take(index as int + 1).drop_last() =~= entries@.take(index as int));
            }
            match get_provider(entries[index].0.as_str(), &entries[index].1) {
                Ok(provider) => {
                    if !registry.contains(entries[index].0.as_str()) {
                        let ghost old_names = registry.names@;
                        assert forall|taken: int| 0 <= taken < old_names.len() implies old_names[taken]@
                            != entries[index as int].0@ by {
                            assert(registry.names_view()[taken] == old_names[taken]@);
                        }
                        registry.names.push(entries[index].0.clone());
                        registry.providers.push(provider);
                        assert(registry@ =~= before.push((entries[index as int].0@, provider@)));
                    }
                },
                Err(_) => {},
            }
            index += 1;
        }
        assert(entries@.take(entries.len() as int) =~= entries@);
        registry
    }
}

/// The default provider of a run: the one that the configuration names, or,
/// where it names none, the only provider that was set up. With no provider
/// or several, and none named, there is no default.
pub open spec fn default_of(explicit: Option<String>, names: Seq<Seq<char>>) -> Option<Seq<char>> {
    match explicit {
        Some(name) => Some(name@),
        None => if names.len() == 1 {
            Some(names[0])
        } else {
            None
        },
    }
}

/// Determines the default provider: `explicit` where it names one, else the
/// only provider of the registry, if there is exactly one.
pub fn default_provider(explicit: &Option<String>, registry: &Registry) -> (chosen: Option<String>)
    ensures
        match chosen {
            Some(name) => default_of(*explicit, registry.names_view()) == Some(name@),
            None => default_of(*explicit, registry.names_view()) is None,
        },
{
    match explicit {
        Some(name) => Some(name.clone()),
        None => if registry.names.len() == 1 {
            assert(registry.names_view()[0] == registry.names[0]@);
            Some(registry.names[0].clone())
        } else {
            None
        },
    }
}

} // verus!
