use vstd::prelude::*;

use crate::cli::Command;
use crate::error::DepotError;
use crate::invocation::InvocationView;
use crate::os::{detect, has_id_key, id_line_from, is_line_start, line_end, OperatingSystem};
use crate::package_manager::{resolve, PackageManager};

verus! {

/// An explicit choice is returned unchanged, whatever the environment and
/// the host say.
pub proof fn lemma_explicit_wins(
    pm: PackageManager,
    env_pm: Option<Seq<char>>,
    os_release: Option<Seq<char>>,
)
    ensures
        resolve(Some(pm), env_pm, os_release) == Ok::<_, DepotError>(pm),
{
}

/// The names of distinct package managers differ.
proof fn lemma_names_distinct()
    ensures
        forall|a: PackageManager, b: PackageManager|
            a.name_spec() == b.name_spec() ==> a == b,
{
    reveal_strlit("pacman");
    reveal_strlit("yay");
    reveal_strlit("apk");
    reveal_strlit("apt-get");
    reveal_strlit("apt");
    reveal_strlit("pkg");
    reveal_strlit("dnf");
    assert forall|a: PackageManager, b: PackageManager|
        a.name_spec() == b.name_spec() implies a == b by {
        if a != b {
            assert(a.name_spec().len() != b.name_spec().len() || exists|i: int|
                0 <= i < a.name_spec().len() && a.name_spec()[i] != b.name_spec()[i]) by {
                match a {
                    PackageManager::Apt => {
                        if b == PackageManager::Apk {
                            assert(a.name_spec()[2] != b.name_spec()[2]);
                        }
                    },
                    PackageManager::Apk => {
                        if b == PackageManager::Apt {
                            assert(a.name_spec()[2] != b.name_spec()[2]);
                        }
                    },
                    _ => {},
                }
                if a.name_spec().len() == b.name_spec().len() {
                    assert(a.name_spec()[0] != b.name_spec()[0] || a.name_spec()[1]
                        != b.name_spec()[1] || a.name_spec()[2] != b.name_spec()[2]);
                }
            }
        }
    }
}

/// With no explicit choice, a token of the environment override selects the
/// package manager of that name, whatever the host says.
pub proof fn lemma_override_selects(pm: PackageManager, os_release: Option<Seq<char>>)
    ensures
        resolve(None, Some(pm.name_spec()), os_release) == Ok::<_, DepotError>(pm),
{
    lemma_names_distinct();
    assert(PackageManager::from_name_spec(pm.name_spec()) == Some(pm)) by {
        assert(PackageManager::Pacman.name_spec() == "pacman"@);
        assert(PackageManager::Yay.name_spec() == "yay"@);
        assert(PackageManager::Apk.name_spec() == "apk"@);
        assert(PackageManager::AptGet.name_spec() == "apt-get"@);
        assert(PackageManager::Apt.name_spec() == "apt"@);
        assert(PackageManager::Pkg.name_spec() == "pkg"@);
        assert(PackageManager::Dnf.name_spec() == "dnf"@);
    }
}

/// With no explicit choice, an override that names no package manager is
/// an error.
pub proof fn lemma_unknown_override(t: Seq<char>, os_release: Option<Seq<char>>)
    requires
        forall|pm: PackageManager| pm.name_spec() != t,
    ensures
        resolve(None, Some(t), os_release) == Err::<PackageManager, _>(
            DepotError::UnknownPackageManager,
        ),
{
    assert(PackageManager::Pacman.name_spec() != t);
    assert(PackageManager::Yay.name_spec() != t);
    assert(PackageManager::Apk.name_spec() != t);
    assert(PackageManager::AptGet.name_spec() != t);
    assert(PackageManager::Apt.name_spec() != t);
    assert(PackageManager::Pkg.name_spec() != t);
    assert(PackageManager::Dnf.name_spec() != t);
}

/// A line that holds no newline from `i` on ends at `j`.
proof fn lemma_line_end_at(s: Seq<char>, i: int, j: int)
    requires
        0 <= i <= j <= s.len(),
        forall|k: int| i <= k < j ==> s[k] != '\n',
        j == s.len() || s[j] == '\n',
    ensures
        line_end(s, i) == j,
    decreases j - i,
{
    if i < j {
        lemma_line_end_at(s, i + 1, j);
    }
}

/// Each operating system is named by its own `ID=` value.
proof fn lemma_id_names(os: OperatingSystem)
    ensures
        OperatingSystem::from_id_spec(os.id_spec()) == Some(os),
        forall|k: int| 0 <= k < os.id_spec().len() ==> os.id_spec()[k] != '\n',
{
    reveal_strlit("arch");
    reveal_strlit("alpine");
    reveal_strlit("debian");
    reveal_strlit("ubuntu");
    reveal_strlit("fedora");
    let v = os.id_spec();
    match os {
        OperatingSystem::Arch => {},
        OperatingSystem::Alpine => {
            assert(v.len() != "arch"@.len());
        },
        OperatingSystem::Debian => {
            assert(v.len() != "arch"@.len());
            assert(v[0] != "alpine"@[0]);
        },
        OperatingSystem::Ubuntu => {
            assert(v.len() != "arch"@.len());
            assert(v[0] != "alpine"@[0]);
            assert(v[0] != "debian"@[0]);
        },
        OperatingSystem::Fedora => {
            assert(v.len() != "arch"@.len());
            assert(v[0] != "alpine"@[0]);
            assert(v[0] != "debian"@[0]);
            assert(v[0] != "ubuntu"@[0]);
        },
    }
}

/// With neither an explicit choice nor an override, a host whose
/// identification file starts with the line `ID=<id>` resolves to the
/// default package manager of the operating system that `<id>` names.
pub proof fn lemma_inferred_from_host(os: OperatingSystem, rest: Seq<char>)
    requires
        rest.len() == 0 || rest[0] == '\n',
    ensures
        detect("ID="@ + os.id_spec() + rest) == Some(os),
        resolve(None, None, Some("ID="@ + os.id_spec() + rest)) == Ok::<_, DepotError>(
            PackageManager::default_for(os),
        ),
{
    reveal_strlit("ID=");
    lemma_id_names(os);
    let v = os.id_spec();
    let s = "ID="@ + v + rest;
    let j = 3 + v.len() as int;
    assert(s.subrange(0, 3) =~= "ID="@);
    assert(is_line_start(s, 0) && has_id_key(s, 0));
    assert(id_line_from(s, 0) == Some(0int));
    assert forall|k: int| 0 <= k < j implies s[k] != '\n' by {
        if k >= 3 {
            assert(s[k] == v[k - 3]);
        }
    }
    if j < s.len() {
        assert(s[j] == rest[0]);
    }
    lemma_line_end_at(s, 0, j);
    assert(s.subrange(3, j) =~= v);
}

/// An install runs the backend's own binary with its install verb, then its
/// confirm flag only when confirmation is waived, then every package in the
/// given order; a removal has the same shape with the remove verb.
pub proof fn lemma_install_remove_shape(pm: PackageManager, packages: Seq<Seq<char>>)
    ensures
        pm.install_spec(packages, true) == (InvocationView {
            program: pm.name_spec(),
            args: seq![pm.dialect_spec().install, pm.dialect_spec().confirm] + packages,
        }),
        pm.install_spec(packages, false) == (InvocationView {
            program: pm.name_spec(),
            args: seq![pm.dialect_spec().install] + packages,
        }),
        pm.remove_spec(packages, true) == (InvocationView {
            program: pm.name_spec(),
            args: seq![pm.dialect_spec().remove, pm.dialect_spec().confirm] + packages,
        }),
        pm.remove_spec(packages, false) == (InvocationView {
            program: pm.name_spec(),
            args: seq![pm.dialect_spec().remove] + packages,
        }),
{
    let d = pm.dialect_spec();
    assert(seq![d.install] + seq![d.confirm] =~= seq![d.install, d.confirm]);
    assert(seq![d.install] + Seq::<Seq<char>>::empty() =~= seq![d.install]);
    assert(seq![d.remove] + seq![d.confirm] =~= seq![d.remove, d.confirm]);
    assert(seq![d.remove] + Seq::<Seq<char>>::empty() =~= seq![d.remove]);
}

/// A search through apt-get queries the index with `apt-cache search`,
/// never with `apt-get`.
pub proof fn lemma_apt_get_searches_with_apt_cache(query: Seq<char>)
    ensures
        PackageManager::AptGet.search_spec(query) == (InvocationView {
            program: "apt-cache"@,
            args: seq!["search"@, query],
        }),
        PackageManager::AptGet.search_spec(query).program != "apt-get"@,
{
    reveal_strlit("apt-cache");
    reveal_strlit("apt-get");
    assert("apt-cache"@[4] != "apt-get"@[4]);
}

/// Updating everything runs the update-all verb alone; updating a list runs
/// the update verb followed by every package in the given order.
pub proof fn lemma_update_shape(pm: PackageManager, packages: Seq<Seq<char>>)
    ensures
        pm.update_spec(None) == (InvocationView {
            program: pm.name_spec(),
            args: seq![pm.dialect_spec().update_all],
        }),
        pm.update_spec(Some(packages)) == (InvocationView {
            program: pm.name_spec(),
            args: seq![pm.dialect_spec().update_some] + packages,
        }),
{
}

/// Resolution depends on its inputs alone: two resolutions of the same
/// explicit choice, override and host file agree.
pub proof fn lemma_resolution_repeats(
    expected: Option<PackageManager>,
    env_pm: Option<Seq<char>>,
    os_release: Option<Seq<char>>,
    first: Result<PackageManager, DepotError>,
    second: Result<PackageManager, DepotError>,
)
    requires
        first == resolve(expected, env_pm, os_release),
        second == resolve(expected, env_pm, os_release),
    ensures
        first == second,
{
}

/// Dispatch depends on its inputs alone: two command lines built for the
/// same package manager and operation agree.
pub proof fn lemma_dispatch_repeats(
    pm: PackageManager,
    cmd: Command,
    first: InvocationView,
    second: InvocationView,
)
    requires
        pm.dispatch_spec(cmd) == Some(first),
        pm.dispatch_spec(cmd) == Some(second),
    ensures
        first == second,
{
}

} // verus!
