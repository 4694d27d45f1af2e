//! The package manifest model: the one field the driver reads from a
//! manifest, and the normalization of a package name into the module name
//! used in the generated interface file.

use vstd::prelude::*;

use crate::strutil::{replace_all, spec_replace};

verus! {

/// The package table of a manifest.
#[derive(Clone, Debug)]
pub struct Package {
    pub name: String,
}

/// A parsed package manifest, reduced to what the driver reads.
#[derive(Clone, Debug)]
pub struct Manifest {
    pub package: Package,
}

impl Manifest {
    /// The module name the interface file declares: the package name with
    /// every dash replaced by an underscore.
    pub fn module_name(&self) -> (r: String)
        ensures
            r@ == spec_replace(self.package.name@, "-"@, "_"@),
    {
        proof {
            reveal_strlit("-");
        }
        replace_all(self.package.name.as_str(), "-", "_")
    }
}

} // verus!
