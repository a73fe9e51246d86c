//! The records of an installed package, as the package manager lists them.

use vstd::prelude::*;
use vstd::string::*;

verus! {

/// One installed version of a package.
#[derive(Debug)]
pub struct PackageInstalled {
    pub version: String,
    pub time: i32,
}

/// An installed package. `tap` names the source it was installed from.
#[derive(Debug)]
pub struct Package {
    pub name: String,
    pub tap: String,
    pub desc: String,
    pub installed: Vec<PackageInstalled>,
}

impl Package {
    /// Whether the package comes from anywhere but the main formula source.
    pub fn is_cask(&self) -> (cask: bool)
        ensures
            cask == (self.tap@ != "homebrew/core"@),
    {
        let core = String::from_str("homebrew/core");
        !(self.tap == core)
    }
}

} // verus!
