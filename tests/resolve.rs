use depot::{get_package_manager, needs_host_identification, DepotError, OperatingSystem, PackageManager};

const ALL: [PackageManager; 7] = [
    PackageManager::Pacman,
    PackageManager::Yay,
    PackageManager::Apk,
    PackageManager::AptGet,
    PackageManager::Apt,
    PackageManager::Pkg,
    PackageManager::Dnf,
];

#[test]
fn explicit_choice_wins() {
    for pm in ALL {
        assert_eq!(get_package_manager(Some(pm), Some("unknown"), Some("ID=arch")), Ok(pm));
        assert_eq!(get_package_manager(Some(pm), Some("dnf"), None), Ok(pm));
        assert_eq!(get_package_manager(Some(pm), None, None), Ok(pm));
    }
}

#[test]
fn override_tokens_select_their_manager() {
    let cases = [
        ("pacman", PackageManager::Pacman),
        ("yay", PackageManager::Yay),
        ("apk", PackageManager::Apk),
        ("apt-get", PackageManager::AptGet),
        ("apt", PackageManager::Apt),
        ("pkg", PackageManager::Pkg),
        ("dnf", PackageManager::Dnf),
    ];
    for (token, pm) in cases {
        assert_eq!(get_package_manager(None, Some(token), Some("ID=fedora\n")), Ok(pm));
        assert_eq!(get_package_manager(None, Some(token), None), Ok(pm));
        assert_eq!(PackageManager::from_name(token), Some(pm));
    }
}

#[test]
fn yay_override_from_documentation() {
    assert_eq!(get_package_manager(Some(PackageManager::Pacman), None, None), Ok(PackageManager::Pacman));
    assert_eq!(get_package_manager(None, Some("yay"), None), Ok(PackageManager::Yay));
}

#[test]
fn unknown_override_is_an_error() {
    for token in ["unknown", "", "Pacman", "apt_get", "api", "pacman ", "aptget"] {
        assert_eq!(
            get_package_manager(None, Some(token), Some("ID=arch")),
            Err(DepotError::UnknownPackageManager)
        );
        assert_eq!(PackageManager::from_name(token), None);
    }
}

#[test]
fn host_defaults() {
    let cases = [
        ("arch", OperatingSystem::Arch, PackageManager::Pacman),
        ("alpine", OperatingSystem::Alpine, PackageManager::Apk),
        ("debian", OperatingSystem::Debian, PackageManager::AptGet),
        ("ubuntu", OperatingSystem::Ubuntu, PackageManager::AptGet),
        ("fedora", OperatingSystem::Fedora, PackageManager::Dnf),
    ];
    for (id, os, pm) in cases {
        let file = format!("NAME=\"Some Linux\"\nID={}\nVERSION_ID=1\n", id);
        assert_eq!(OperatingSystem::from_os_release(&file), Ok(os));
        assert_eq!(PackageManager::from(&os), pm);
        assert_eq!(get_package_manager(None, None, Some(&file)), Ok(pm));
        let bare = format!("ID={}", id);
        assert_eq!(get_package_manager(None, None, Some(&bare)), Ok(pm));
    }
}

#[test]
fn explicit_only_managers_are_no_default() {
    for os in [
        OperatingSystem::Arch,
        OperatingSystem::Alpine,
        OperatingSystem::Debian,
        OperatingSystem::Ubuntu,
        OperatingSystem::Fedora,
    ] {
        let pm = PackageManager::from(&os);
        assert_ne!(pm, PackageManager::Yay);
        assert_ne!(pm, PackageManager::Apt);
    }
}

#[test]
fn first_id_line_decides() {
    let file = "PRETTY_NAME=\"Ubuntu 22.04\"\nVERSION_ID=\"22.04\"\nID=ubuntu\nID_LIKE=debian\nID=arch\n";
    assert_eq!(OperatingSystem::from_os_release(file), Ok(OperatingSystem::Ubuntu));
    let later = "ID_LIKE=arch\nID=alpine";
    assert_eq!(OperatingSystem::from_os_release(later), Ok(OperatingSystem::Alpine));
    let inside = "NAME=x ID=arch\nID=debian\n";
    assert_eq!(OperatingSystem::from_os_release(inside), Ok(OperatingSystem::Debian));
}

#[test]
fn unknown_hosts_are_errors() {
    for file in ["", "NAME=Gentoo\nID=gentoo\n", "NAME=nothing\n", "ID=\"arch\"\n", "ID=arch \n", "id=arch", "ID_LIKE=arch\n", "ID=ARCH"] {
        assert_eq!(OperatingSystem::from_os_release(file), Err(DepotError::UnknownOperatingSystem));
        assert_eq!(get_package_manager(None, None, Some(file)), Err(DepotError::UnknownOperatingSystem));
    }
    assert_eq!(get_package_manager(None, None, None), Err(DepotError::UnknownOperatingSystem));
}

#[test]
fn override_wins_over_an_unknown_host() {
    assert_eq!(get_package_manager(None, Some("apk"), Some("ID=gentoo")), Ok(PackageManager::Apk));
    assert_eq!(get_package_manager(None, Some("apk"), None), Ok(PackageManager::Apk));
}

#[test]
fn host_file_is_needed_only_without_choice_or_override() {
    assert!(needs_host_identification(None, None));
    assert!(!needs_host_identification(None, Some("yay")));
    assert!(!needs_host_identification(Some(PackageManager::Dnf), None));
    assert!(!needs_host_identification(Some(PackageManager::Dnf), Some("bogus")));
}

#[test]
fn resolution_repeats() {
    let inputs: [(Option<PackageManager>, Option<&str>, Option<&str>); 4] = [
        (Some(PackageManager::Pkg), None, None),
        (None, Some("apt"), None),
        (None, Some("bogus"), None),
        (None, None, Some("ID=debian\n")),
    ];
    for (e, t, c) in inputs {
        assert_eq!(get_package_manager(e, t, c), get_package_manager(e, t, c));
    }
}
