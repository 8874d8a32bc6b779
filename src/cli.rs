use vstd::prelude::*;

use crate::error::{DepotError, DepotResult};

verus! {

/// Install packages.
#[derive(Debug)]
pub struct Install {
    pub package: Vec<String>,
    /// Install without asking for confirmation.
    pub yes: bool,
}

/// Remove packages.
#[derive(Debug)]
pub struct Remove {
    pub package: Vec<String>,
    /// Remove without asking for confirmation.
    pub yes: bool,
}

/// Search for a package.
#[derive(Debug)]
pub struct Search {
    pub package: String,
}

/// Update the listed packages, or every package when there is no list.
#[derive(Debug)]
pub struct Update {
    pub package: Option<Vec<String>>,
    /// Update without asking for confirmation.
    pub yes: bool,
}

/// A unified operation, independent of any backend's dialect.
#[derive(Debug)]
pub enum Command {
    Install(Install),
    Remove(Remove),
    Search(Search),
    Update(Update),
}

impl Command {
    /// Whether an install or a removal names no package.
    pub open spec fn lacks_packages(self) -> bool {
        match self {
            Command::Install(i) => i.package@.len() == 0,
            Command::Remove(i) => i.package@.len() == 0,
            _ => false,
        }
    }

    /// Refuses an install or a removal that names no package; every other
    /// operation passes.
    pub fn validate(&self) -> (r: DepotResult<()>)
        ensures
            self.lacks_packages() ==> r == Err::<(), _>(DepotError::NoPackageProvided),
            !self.lacks_packages() ==> r == Ok::<(), DepotError>(()),
    {
        match self {
            Command::Install(i) => if i.package.len() == 0 {
                Err(DepotError::NoPackageProvided)
            } else {
                Ok(())
            },
            Command::Remove(i) => if i.package.len() == 0 {
                Err(DepotError::NoPackageProvided)
            } else {
                Ok(())
            },
            _ => Ok(()),
        }
    }
}

} // verus!
