//! The worlds of a game, by name.
use vstd::prelude::*;
use crate::specs_world::SpecsWorld;
use crate::util::ComponentRegistry;
use crate::value::{entries_map, find_last, put_entry, Entry};

verus! {

/// The worlds of a game, each under its name. A name has one world: a world
/// that is registered under a taken name replaces the one that was there.
pub struct WorldRegistry {
    pub worlds: Vec<Entry<SpecsWorld>>,
}

impl WorldRegistry {
    /// The worlds by their names.
    pub open spec fn view(&self) -> Map<Seq<char>, SpecsWorld> {
        entries_map(self.worlds@)
    }

    /// A registry without worlds.
    pub fn new() -> (r: Self)
        ensures
            r@ == Map::<Seq<char>, SpecsWorld>::empty(),
    {
        WorldRegistry { worlds: Vec::new() }
    }

    /// Puts a world under a name, in place of one that may be there. The
    /// result says whether one was there.
    pub fn register_world(&mut self, name: &str, world: SpecsWorld) -> (replaced: bool)
        ensures
            replaced == old(self)@.contains_key(name@),
            final(self)@ == old(self)@.insert(name@, world),
    {
        put_entry(&mut self.worlds, name.to_owned(), world)
    }

    /// The world under a name, if there is one.
    pub fn borrow_world(&self, name: &str) -> (r: Option<&SpecsWorld>)
        ensures
            r.is_some() == self@.contains_key(name@),
            r.is_some() ==> *r.unwrap() == self@[name@],
    {
        let owned = name.to_owned();
        match find_last(&self.worlds, &owned) {
            Some(i) => Some(&self.worlds[i].value),
            None => None,
        }
    }

    /// Lets a registry of components register its types with the world
    /// under a name: that world afterwards is what the registry's `register`
    /// makes of it. The result says whether there is such a world; without
    /// one nothing happens. The names stay as they are, and so do the other
    /// worlds.
    pub fn register<CR: ComponentRegistry>(&mut self, name: &str, registration: CR) -> (found:
        bool)
        ensures
            found == old(self)@.contains_key(name@),
            final(self)@.dom() == old(self)@.dom(),
            forall|other: Seq<char>|
                other != name@ && old(self)@.contains_key(other) ==> #[trigger] final(self)@[other]
                    == old(self)@[other],
            !found ==> final(self)@ == old(self)@,
            found ==> CR::registers(old(self)@[name@].world, final(self)@[name@].world),
    {
        let owned = name.to_owned();
        match find_last(&self.worlds, &owned) {
            Some(i) => {
                self.worlds[i].value.register_components::<CR>();
                proof {
                    crate::value::lemma_entries_replace(
                        old(self).worlds@,
                        i as int,
                        self.worlds@[i as int],
                    );
                    assert(self.worlds@ =~= old(self).worlds@.update(
                        i as int,
                        self.worlds@[i as int],
                    ));
                    assert(self@.dom() =~= old(self)@.dom());
                    assert(self@[name@] == self.worlds@[i as int].value);
                }
                true
            },
            None => false,
        }
    }
}

} // verus!
