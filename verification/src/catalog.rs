//! The distribution catalog: an ordered list of distributions, each with a
//! name and a list of packages. The command lists carried by a package are
//! opaque strings, never interpreted here.

use vstd::prelude::*;

verus! {

/// A package with its name and the shell commands that install and
/// uninstall it. Both command lists are opaque to the core.
pub struct Package {
    pub name: String,
    /// Commands for package installation.
    pub install: Vec<String>,
    /// Commands for package uninstallation.
    pub uninstall: Vec<String>,
}

/// A distribution: a name and the packages offered for it.
pub struct Distro {
    pub name: String,
    pub packages: Vec<Package>,
}

/// The ordered catalog of distributions, immutable once loaded.
pub struct Distributions(pub Vec<Distro>);

impl Distributions {
    /// The number of distributions in the catalog.
    pub open spec fn spec_len(self) -> int {
        self.0@.len() as int
    }

    /// The name of the distribution at `i`.
    pub open spec fn name_at(self, i: int) -> Seq<char> {
        self.0@[i].name@
    }

    /// An empty catalog.
    pub fn new() -> (r: Self)
        ensures
            r.spec_len() == 0,
    {
        Distributions(Vec::new())
    }

    /// The number of distributions.
    pub fn len(&self) -> (r: usize)
        ensures
            r as int == self.spec_len(),
    {
        self.0.len()
    }

    /// The name of the distribution at `distro`, which must be in bounds.
    pub fn get_distro(&self, distro: usize) -> (r: String)
        requires
            distro < self.spec_len(),
        ensures
            r@ == self.name_at(distro as int),
    {
        self.0[distro].name.clone()
    }
}

} // verus!
