use vstd::prelude::*;

use crate::invocation::texts;
use crate::package_manager::PackageManager;
use crate::text::{join, join_with};

verus! {

/// What went wrong with an operation run through a package manager.
#[derive(Debug, PartialEq, Eq)]
pub enum PackageManagerError {
    InstallFailed(Vec<String>),
    RemoveFailed(Vec<String>),
    SearchFailed(String),
    UpdateFailed(Option<Vec<String>>),
    PackageManagerNotInstalled,
}

/// The errors that the library can return.
#[derive(Debug, PartialEq, Eq)]
pub enum DepotError {
    UnknownOperatingSystem,
    UnknownPackageManager,
    NoPackageProvided,
    PackageManagerError(PackageManagerError, PackageManager),
}

/// Either a value of type `T` or a `DepotError`.
pub type DepotResult<T> = Result<T, DepotError>;

/// `head`, the packages joined by commas, and the package manager used.
pub open spec fn failed_packages_message(
    head: Seq<char>,
    packages: Seq<Seq<char>>,
    pm: PackageManager,
) -> Seq<char> {
    head + join(packages, ", "@) + " using "@ + pm.label_spec()
}

impl DepotError {
    /// The message that reports this error to a person.
    pub open spec fn message_spec(self) -> Seq<char> {
        match self {
            DepotError::UnknownOperatingSystem => "Unable to determine your current operating system."@,
            DepotError::UnknownPackageManager => "The package manager is unknown or not supported."@,
            DepotError::NoPackageProvided => "Error: No package provided"@,
            DepotError::PackageManagerError(e, pm) => match e {
                PackageManagerError::InstallFailed(p) => failed_packages_message(
                    "Failed to install package: "@,
                    texts(p@),
                    pm,
                ),
                PackageManagerError::RemoveFailed(p) => failed_packages_message(
                    "Failed to remove package: "@,
                    texts(p@),
                    pm,
                ),
                PackageManagerError::SearchFailed(q) => "Failed to search for package: "@ + q@
                    + " using "@ + pm.label_spec(),
                PackageManagerError::UpdateFailed(Some(p)) => failed_packages_message(
                    "Failed to update package: "@,
                    texts(p@),
                    pm,
                ),
                PackageManagerError::UpdateFailed(None) => "Failed to update all packages."@,
                PackageManagerError::PackageManagerNotInstalled => "The package manager "@
                    + pm.label_spec() + " is not installed."@,
            },
        }
    }

    /// The message that reports this error to a person.
    pub fn message(&self) -> (r: String)
        ensures
            r@ == self.message_spec(),
    {
        match self {
            DepotError::UnknownOperatingSystem => String::from_str(
                "Unable to determine your current operating system.",
            ),
            DepotError::UnknownPackageManager => String::from_str(
                "The package manager is unknown or not supported.",
            ),
            DepotError::NoPackageProvided => String::from_str("Error: No package provided"),
            DepotError::PackageManagerError(e, pm) => match e {
                PackageManagerError::InstallFailed(p) => failed_packages(
                    "Failed to install package: ",
                    p,
                    pm,
                ),
                PackageManagerError::RemoveFailed(p) => failed_packages(
                    "Failed to remove package: ",
                    p,
                    pm,
                ),
                PackageManagerError::SearchFailed(q) => {
                    let mut r = String::from_str("Failed to search for package: ");
                    r.append(q.as_str());
                    r.append(" using ");
                    r.append(pm.label());
                    r
                },
                PackageManagerError::UpdateFailed(Some(p)) => failed_packages(
                    "Failed to update package: ",
                    p,
                    pm,
                ),
                PackageManagerError::UpdateFailed(None) => String::from_str(
                    "Failed to update all packages.",
                ),
                PackageManagerError::PackageManagerNotInstalled => {
                    let mut r = String::from_str("The package manager ");
                    r.append(pm.label());
                    r.append(" is not installed.");
                    r
                },
            },
        }
    }
}

fn failed_packages(head: &str, packages: &Vec<String>, pm: &PackageManager) -> (r: String)
    ensures
        r@ == failed_packages_message(head@, texts(packages@), *pm),
{
    let mut r = String::from_str(head);
    let joined = join_with(packages, ", ");
    r.append(joined.as_str());
    r.append(" using ");
    r.append(pm.label());
    r
}

} // verus!
