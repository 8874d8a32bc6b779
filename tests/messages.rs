use depot::{DepotError, PackageManager, PackageManagerError};

fn strings(v: &[&str]) -> Vec<String> {
    v.iter().map(|s| s.to_string()).collect()
}

#[test]
fn plain_messages() {
    assert_eq!(
        DepotError::UnknownOperatingSystem.message(),
        "Unable to determine your current operating system."
    );
    assert_eq!(
        DepotError::UnknownPackageManager.message(),
        "The package manager is unknown or not supported."
    );
    assert_eq!(DepotError::NoPackageProvided.message(), "Error: No package provided");
}

#[test]
fn failure_messages() {
    let e = DepotError::PackageManagerError(
        PackageManagerError::InstallFailed(strings(&["foo", "bar", "baz"])),
        PackageManager::AptGet,
    );
    assert_eq!(e.message(), "Failed to install package: foo, bar, baz using AptGet");
    let e = DepotError::PackageManagerError(
        PackageManagerError::RemoveFailed(strings(&["foo"])),
        PackageManager::Pacman,
    );
    assert_eq!(e.message(), "Failed to remove package: foo using Pacman");
    let e = DepotError::PackageManagerError(
        PackageManagerError::SearchFailed("vim".to_string()),
        PackageManager::Dnf,
    );
    assert_eq!(e.message(), "Failed to search for package: vim using Dnf");
    let e = DepotError::PackageManagerError(
        PackageManagerError::UpdateFailed(Some(strings(&["a", "b"]))),
        PackageManager::Apk,
    );
    assert_eq!(e.message(), "Failed to update package: a, b using Apk");
    let e = DepotError::PackageManagerError(PackageManagerError::UpdateFailed(None), PackageManager::Yay);
    assert_eq!(e.message(), "Failed to update all packages.");
    let e = DepotError::PackageManagerError(PackageManagerError::PackageManagerNotInstalled, PackageManager::Pkg);
    assert_eq!(e.message(), "The package manager Pkg is not installed.");
}

#[test]
fn empty_package_list_message() {
    let e = DepotError::PackageManagerError(PackageManagerError::InstallFailed(Vec::new()), PackageManager::Apt);
    assert_eq!(e.message(), "Failed to install package:  using Apt");
}
