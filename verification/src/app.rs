//! Application state: the catalog, the selected distribution index, the set
//! of selected package names, and the running flag. Mutated only by the
//! event dispatcher.

use vstd::assert_sets_equal;
use vstd::prelude::*;

use crate::catalog::Distributions;

verus! {

/// The single long-lived application state.
pub struct App {
    /// The distribution catalog, read-only after construction.
    pub distros: Distributions,
    /// The currently selected distribution index, kept clamped by the
    /// dispatcher.
    pub selected_distro: usize,
    /// The selected package names. Held in insertion order, with each name
    /// appearing at most once: together the entries form a set.
    pub selected_packages: Vec<String>,
    pub is_running: bool,
}

impl App {
    /// Whether `name` is among the selected packages.
    pub open spec fn has_package(self, name: Seq<char>) -> bool {
        exists|i: int|
            0 <= i < self.selected_packages@.len() && self.selected_packages@[i]@ == name
    }

    /// The selected packages as a set of names.
    pub open spec fn packages(self) -> Set<Seq<char>> {
        Set::new(|name: Seq<char>| self.has_package(name))
    }

    /// Well-formedness: no package name is stored twice.
    pub open spec fn wf(self) -> bool {
        forall|i: int, j: int|
            0 <= i < j < self.selected_packages@.len()
                ==> self.selected_packages@[i]@ != self.selected_packages@[j]@
    }

    /// A fresh state over `distros`: first distribution selected, no
    /// packages chosen, running.
    pub fn new(distros: Distributions) -> (r: Self)
        ensures
            r.distros == distros,
            r.selected_distro == 0,
            r.selected_packages@.len() == 0,
            r.is_running,
            r.wf(),
    {
        App { distros, selected_distro: 0, selected_packages: Vec::new(), is_running: true }
    }

    /// Overwrite the selected distribution index. No bounds check at this
    /// layer: callers pass a value already clamped by cursor arithmetic.
    pub fn set_distro(&mut self, index: usize)
        ensures
            final(self).selected_distro == index,
            final(self).distros == old(self).distros,
            final(self).selected_packages == old(self).selected_packages,
            final(self).is_running == old(self).is_running,
    {
        self.selected_distro = index;
    }

    /// Insert `name` into the selected-package set. Inserting a name that
    /// is already present changes nothing: insertion is idempotent.
    pub fn set_package(&mut self, name: String)
        requires
            old(self).wf(),
        ensures
            final(self).wf(),
            final(self).packages() == old(self).packages().insert(name@),
            forall|n: Seq<char>|
                final(self).has_package(n) <==> old(self).has_package(n) || n == name@,
            final(self).selected_packages@.len() == old(self).selected_packages@.len() + (
            if old(self).has_package(name@) {
                0int
            } else {
                1int
            }),
            old(self).has_package(name@)
                ==> final(self).selected_packages == old(self).selected_packages,
            final(self).distros == old(self).distros,
            final(self).selected_distro == old(self).selected_distro,
            final(self).is_running == old(self).is_running,
    {
        let n = self.selected_packages.len();
        for k in 0..n
            invariant
                *self == *old(self),
                self.wf(),
                n == self.selected_packages@.len(),
                forall|i: int| 0 <= i < k ==> self.selected_packages@[i]@ != name@,
        {
            if self.selected_packages[k] == name {
                proof {
                    assert(self.has_package(name@));
                    assert_sets_equal!(self.packages() == self.packages().insert(name@));
                }
                return ;
            }
        }
        let ghost before = *self;
        self.selected_packages.push(name);
        proof {
            assert(forall|i: int|
                0 <= i < before.selected_packages@.len()
                    ==> self.selected_packages@[i] == before.selected_packages@[i]);
            assert(self.selected_packages@[before.selected_packages@.len() as int]@ == name@);
            assert(self.has_package(name@));
            assert(forall|nm: Seq<char>|
                self.has_package(nm) <==> before.has_package(nm) || nm == name@);
            assert_sets_equal!(self.packages() == before.packages().insert(name@));
        }
    }

    /// The name of the distribution at `distro` in the catalog; the index
    /// must be known valid from the catalog length.
    pub fn get_distro_name(&self, distro: usize) -> (r: String)
        requires
            distro < self.distros.spec_len(),
        ensures
            r@ == self.distros.name_at(distro as int),
    {
        self.distros.get_distro(distro)
    }
}

} // verus!
