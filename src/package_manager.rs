use vstd::prelude::*;

use crate::cli::{Command, Install, Remove, Search, Update};
use crate::error::{DepotError, DepotResult, PackageManagerError};
use crate::invocation::{flag_args, invocation, texts, Invocation, InvocationView};
use crate::os::{detect, OperatingSystem};
use crate::text::{chars_of, same_text, text_of};

verus! {

/// The package managers that can be driven.
#[derive(Debug, Clone, Copy, PartialEq, Eq, Structural, Hash)]
pub enum PackageManager {
    Pacman,
    Yay,
    Apk,
    AptGet,
    Apt,
    Pkg,
    Dnf,
}

/// How one package manager spells each operation.
pub struct Dialect {
    pub binary: &'static str,
    pub install: &'static str,
    pub remove: &'static str,
    /// The program that searches, where it is not `binary`.
    pub search_binary: Option<&'static str>,
    pub search: &'static str,
    pub update_all: &'static str,
    pub update_some: &'static str,
    pub confirm: &'static str,
}

/// A dialect as text.
pub struct DialectView {
    pub binary: Seq<char>,
    pub install: Seq<char>,
    pub remove: Seq<char>,
    pub search_binary: Option<Seq<char>>,
    pub search: Seq<char>,
    pub update_all: Seq<char>,
    pub update_some: Seq<char>,
    pub confirm: Seq<char>,
}

impl View for Dialect {
    type V = DialectView;

    open spec fn view(&self) -> DialectView {
        DialectView {
            binary: self.binary@,
            install: self.install@,
            remove: self.remove@,
            search_binary: match self.search_binary {
                Some(b) => Some(b@),
                None => None,
            },
            search: self.search@,
            update_all: self.update_all@,
            update_some: self.update_some@,
            confirm: self.confirm@,
        }
    }
}

impl PackageManager {
    /// The name of the backend: both its binary and its token in the
    /// environment override.
    pub open spec fn name_spec(self) -> Seq<char> {
        match self {
            PackageManager::Pacman => "pacman"@,
            PackageManager::Yay => "yay"@,
            PackageManager::Apk => "apk"@,
            PackageManager::AptGet => "apt-get"@,
            PackageManager::Apt => "apt"@,
            PackageManager::Pkg => "pkg"@,
            PackageManager::Dnf => "dnf"@,
        }
    }

    pub fn name(&self) -> (r: &'static str)
        ensures
            r@ == self.name_spec(),
    {
        match self {
            PackageManager::Pacman => "pacman",
            PackageManager::Yay => "yay",
            PackageManager::Apk => "apk",
            PackageManager::AptGet => "apt-get",
            PackageManager::Apt => "apt",
            PackageManager::Pkg => "pkg",
            PackageManager::Dnf => "dnf",
        }
    }

    /// The name of the variant, as messages show it.
    pub open spec fn label_spec(self) -> Seq<char> {
        match self {
            PackageManager::Pacman => "Pacman"@,
            PackageManager::Yay => "Yay"@,
            PackageManager::Apk => "Apk"@,
            PackageManager::AptGet => "AptGet"@,
            PackageManager::Apt => "Apt"@,
            PackageManager::Pkg => "Pkg"@,
            PackageManager::Dnf => "Dnf"@,
        }
    }

    pub fn label(&self) -> (r: &'static str)
        ensures
            r@ == self.label_spec(),
    {
        match self {
            PackageManager::Pacman => "Pacman",
            PackageManager::Yay => "Yay",
            PackageManager::Apk => "Apk",
            PackageManager::AptGet => "AptGet",
            PackageManager::Apt => "Apt",
            PackageManager::Pkg => "Pkg",
            PackageManager::Dnf => "Dnf",
        }
    }

    /// The dialect table.
    pub open spec fn dialect_spec(self) -> DialectView {
        match self {
            PackageManager::Pacman | PackageManager::Yay => DialectView {
                binary: self.name_spec(),
                install: "-S"@,
                remove: "-R"@,
                search_binary: None,
                search: "-Ss"@,
                update_all: "-Syu"@,
                update_some: "-S"@,
                confirm: "--noconfirm"@,
            },
            PackageManager::Apk => DialectView {
                binary: self.name_spec(),
                install: "add"@,
                remove: "del"@,
                search_binary: None,
                search: "search"@,
                update_all: "upgrade"@,
                update_some: "upgrade"@,
                confirm: "--no-cache"@,
            },
            PackageManager::AptGet => DialectView {
                binary: self.name_spec(),
                install: "install"@,
                remove: "remove"@,
                search_binary: Some("apt-cache"@),
                search: "search"@,
                update_all: "upgrade"@,
                update_some: "upgrade"@,
                confirm: "-y"@,
            },
            PackageManager::Apt | PackageManager::Pkg | PackageManager::Dnf => DialectView {
                binary: self.name_spec(),
                install: "install"@,
                remove: "remove"@,
                search_binary: None,
                search: "search"@,
                update_all: "upgrade"@,
                update_some: "upgrade"@,
                confirm: "-y"@,
            },
        }
    }

    pub fn dialect(&self) -> (r: Dialect)
        ensures
            r@ == self.dialect_spec(),
    {
        match self {
            PackageManager::Pacman | PackageManager::Yay => Dialect {
                binary: self.name(),
                install: "-S",
                remove: "-R",
                search_binary: None,
                search: "-Ss",
                update_all: "-Syu",
                update_some: "-S",
                confirm: "--noconfirm",
            },
            PackageManager::Apk => Dialect {
                binary: self.name(),
                install: "add",
                remove: "del",
                search_binary: None,
                search: "search",
                update_all: "upgrade",
                update_some: "upgrade",
                confirm: "--no-cache",
            },
            PackageManager::AptGet => Dialect {
                binary: self.name(),
                install: "install",
                remove: "remove",
                search_binary: Some("apt-cache"),
                search: "search",
                update_all: "upgrade",
                update_some: "upgrade",
                confirm: "-y",
            },
            PackageManager::Apt | PackageManager::Pkg | PackageManager::Dnf => Dialect {
                binary: self.name(),
                install: "install",
                remove: "remove",
                search_binary: None,
                search: "search",
                update_all: "upgrade",
                update_some: "upgrade",
                confirm: "-y",
            },
        }
    }

    /// The confirm flag when it is asked for.
    pub open spec fn confirm_args(self, yes: bool) -> Seq<Seq<char>> {
        flag_args(if yes { Some(self.dialect_spec().confirm) } else { None })
    }

    /// The command line that installs `packages`.
    pub open spec fn install_spec(self, packages: Seq<Seq<char>>, yes: bool) -> InvocationView {
        InvocationView {
            program: self.dialect_spec().binary,
            args: seq![self.dialect_spec().install] + self.confirm_args(yes) + packages,
        }
    }

    /// The command line that removes `packages`.
    pub open spec fn remove_spec(self, packages: Seq<Seq<char>>, yes: bool) -> InvocationView {
        InvocationView {
            program: self.dialect_spec().binary,
            args: seq![self.dialect_spec().remove] + self.confirm_args(yes) + packages,
        }
    }

    /// The command line that searches for `query`.
    pub open spec fn search_spec(self, query: Seq<char>) -> InvocationView {
        let d = self.dialect_spec();
        InvocationView {
            program: match d.search_binary {
                Some(b) => b,
                None => d.binary,
            },
            args: seq![d.search, query],
        }
    }

    /// The command line that updates `packages`, or everything when there
    /// is no list.
    pub open spec fn update_spec(self, packages: Option<Seq<Seq<char>>>) -> InvocationView {
        let d = self.dialect_spec();
        InvocationView {
            program: d.binary,
            args: match packages {
                Some(p) => seq![d.update_some] + p,
                None => seq![d.update_all],
            },
        }
    }

    /// Install packages: the command line to run, or `NoPackageProvided`
    /// when the list is empty.
    pub fn install(&self, instruction: &Install) -> (r: DepotResult<Invocation>)
        ensures
            instruction.package@.len() == 0 ==> r == Err::<Invocation, _>(
                DepotError::NoPackageProvided,
            ),
            instruction.package@.len() > 0 ==> (r matches Ok(inv) && inv@ == self.install_spec(
                texts(instruction.package@),
                instruction.yes,
            )),
    {
        if instruction.package.len() == 0 {
            return Err(DepotError::NoPackageProvided);
        }
        let d = self.dialect();
        let flag = if instruction.yes { Some(d.confirm) } else { None };
        Ok(invocation(d.binary, d.install, flag, instruction.package.as_slice()))
    }

    /// Remove packages: the command line to run, or `NoPackageProvided`
    /// when the list is empty.
    pub fn remove(&self, instruction: &Remove) -> (r: DepotResult<Invocation>)
        ensures
            instruction.package@.len() == 0 ==> r == Err::<Invocation, _>(
                DepotError::NoPackageProvided,
            ),
            instruction.package@.len() > 0 ==> (r matches Ok(inv) && inv@ == self.remove_spec(
                texts(instruction.package@),
                instruction.yes,
            )),
    {
        if instruction.package.len() == 0 {
            return Err(DepotError::NoPackageProvided);
        }
        let d = self.dialect();
        let flag = if instruction.yes { Some(d.confirm) } else { None };
        Ok(invocation(d.binary, d.remove, flag, instruction.package.as_slice()))
    }

    /// Search for a package: the command line to run.
    pub fn search(&self, instruction: &Search) -> (r: Invocation)
        ensures
            r@ == self.search_spec(instruction.package@),
    {
        let d = self.dialect();
        let program = match d.search_binary {
            Some(b) => b,
            None => d.binary,
        };
        let query = vec![instruction.package.clone()];
        let r = invocation(program, d.search, None, query.as_slice());
        assert(r@.args =~= seq![d.search@, instruction.package@]);
        r
    }

    /// Update the listed packages, or all of them: the command line to run.
    pub fn update(&self, instruction: &Update) -> (r: Invocation)
        ensures
            r@ == self.update_spec(
                match instruction.package {
                    Some(p) => Some(texts(p@)),
                    None => None,
                },
            ),
    {
        let d = self.dialect();
        match &instruction.package {
            Some(p) => invocation(d.binary, d.update_some, None, p.as_slice()),
            None => {
                let none: Vec<String> = Vec::new();
                let r = invocation(d.binary, d.update_all, None, none.as_slice());
                assert(r@.args =~= seq![d.update_all@]);
                r
            },
        }
    }

    /// The command line for any operation; `None` where an install or a
    /// removal names no package.
    pub open spec fn dispatch_spec(self, cmd: Command) -> Option<InvocationView> {
        match cmd {
            Command::Install(i) => if i.package@.len() == 0 {
                None
            } else {
                Some(self.install_spec(texts(i.package@), i.yes))
            },
            Command::Remove(i) => if i.package@.len() == 0 {
                None
            } else {
                Some(self.remove_spec(texts(i.package@), i.yes))
            },
            Command::Search(i) => Some(self.search_spec(i.package@)),
            Command::Update(i) => Some(
                self.update_spec(
                    match i.package {
                        Some(p) => Some(texts(p@)),
                        None => None,
                    },
                ),
            ),
        }
    }

    /// The command line that carries out `cmd` on this package manager.
    pub fn dispatch(&self, cmd: &Command) -> (r: DepotResult<Invocation>)
        ensures
            self.dispatch_spec(*cmd) is None ==> r == Err::<Invocation, _>(
                DepotError::NoPackageProvided,
            ),
            self.dispatch_spec(*cmd) matches Some(v) ==> (r matches Ok(inv) && inv@ == v),
    {
        match cmd {
            Command::Install(i) => self.install(i),
            Command::Remove(i) => self.remove(i),
            Command::Search(i) => Ok(self.search(i)),
            Command::Update(i) => Ok(self.update(i)),
        }
    }

    /// Maps how the process that ran `cmd` ended to the unified result:
    /// `exit` is its exit code, `None` where it could not be started or was
    /// ended by a signal.
    pub fn outcome(&self, cmd: Command, exit: Option<i32>) -> (r: DepotResult<()>)
        ensures
            exit == Some(0i32) ==> r == Ok::<(), DepotError>(()),
            exit != Some(0i32) ==> r == Err::<(), DepotError>(
                DepotError::PackageManagerError(failure_spec(cmd), *self),
            ),
    {
        match exit {
            Some(0) => Ok(()),
            _ => Err(DepotError::PackageManagerError(failure(cmd), *self)),
        }
    }

    /// The command line that tells whether the binary is installed.
    pub open spec fn probe_spec(self) -> InvocationView {
        InvocationView { program: "which"@, args: seq![self.name_spec()] }
    }

    /// Looks the binary up on the search path.
    pub fn probe(&self) -> (r: Invocation)
        ensures
            r@ == self.probe_spec(),
    {
        let r = invocation("which", self.name(), None, Vec::<String>::new().as_slice());
        assert(r@.args =~= seq![self.name_spec()]);
        r
    }

    /// Maps how the probe ended to this package manager, or to
    /// `PackageManagerNotInstalled` unless it exited with code 0.
    pub fn ensure_pm_installed(&self, probe_exit: Option<i32>) -> (r: DepotResult<PackageManager>)
        ensures
            probe_exit == Some(0i32) ==> r == Ok::<_, DepotError>(*self),
            probe_exit != Some(0i32) ==> r == Err::<PackageManager, _>(
                DepotError::PackageManagerError(
                    PackageManagerError::PackageManagerNotInstalled,
                    *self,
                ),
            ),
    {
        match probe_exit {
            Some(0) => Ok(*self),
            _ => Err(
                DepotError::PackageManagerError(
                    PackageManagerError::PackageManagerNotInstalled,
                    *self,
                ),
            ),
        }
    }
}

impl PackageManager {
    /// The package manager whose name is `t`.
    pub open spec fn from_name_spec(t: Seq<char>) -> Option<PackageManager> {
        if t == "pacman"@ {
            Some(PackageManager::Pacman)
        } else if t == "yay"@ {
            Some(PackageManager::Yay)
        } else if t == "apk"@ {
            Some(PackageManager::Apk)
        } else if t == "apt-get"@ {
            Some(PackageManager::AptGet)
        } else if t == "apt"@ {
            Some(PackageManager::Apt)
        } else if t == "pkg"@ {
            Some(PackageManager::Pkg)
        } else if t == "dnf"@ {
            Some(PackageManager::Dnf)
        } else {
            None
        }
    }

    /// The package manager named by a lowercase token such as `apt-get`.
    pub fn from_name(token: &str) -> (r: Option<PackageManager>)
        ensures
            r == PackageManager::from_name_spec(token@),
    {
        let t = chars_of(token);
        if same_text(&t, "pacman") {
            Some(PackageManager::Pacman)
        } else if same_text(&t, "yay") {
            Some(PackageManager::Yay)
        } else if same_text(&t, "apk") {
            Some(PackageManager::Apk)
        } else if same_text(&t, "apt-get") {
            Some(PackageManager::AptGet)
        } else if same_text(&t, "apt") {
            Some(PackageManager::Apt)
        } else if same_text(&t, "pkg") {
            Some(PackageManager::Pkg)
        } else if same_text(&t, "dnf") {
            Some(PackageManager::Dnf)
        } else {
            None
        }
    }

    /// The default package manager of an operating system.
    pub open spec fn default_for(os: OperatingSystem) -> PackageManager {
        match os {
            OperatingSystem::Arch => PackageManager::Pacman,
            OperatingSystem::Alpine => PackageManager::Apk,
            OperatingSystem::Debian => PackageManager::AptGet,
            OperatingSystem::Ubuntu => PackageManager::AptGet,
            OperatingSystem::Fedora => PackageManager::Dnf,
        }
    }
}

impl<'a> From<&'a OperatingSystem> for PackageManager {
    /// The default package manager of the operating system.
    fn from(os: &'a OperatingSystem) -> (r: PackageManager) {
        match os {
            OperatingSystem::Arch => PackageManager::Pacman,
            OperatingSystem::Alpine => PackageManager::Apk,
            OperatingSystem::Debian => PackageManager::AptGet,
            OperatingSystem::Ubuntu => PackageManager::AptGet,
            OperatingSystem::Fedora => PackageManager::Dnf,
        }
    }
}

impl<'a> vstd::std_specs::convert::FromSpecImpl<&'a OperatingSystem> for PackageManager {
    open spec fn obeys_from_spec() -> bool {
        true
    }

    open spec fn from_spec(os: &'a OperatingSystem) -> PackageManager {
        PackageManager::default_for(*os)
    }
}

/// The package manager in effect: `expected` where it is given; else the
/// one that the environment override `env_pm` names; else the default of
/// the operating system that `os_release` (the host identification file,
/// where it could be read) describes.
pub open spec fn resolve(
    expected: Option<PackageManager>,
    env_pm: Option<Seq<char>>,
    os_release: Option<Seq<char>>,
) -> DepotResult<PackageManager> {
    match expected {
        Some(pm) => Ok(pm),
        None => match env_pm {
            Some(t) => match PackageManager::from_name_spec(t) {
                Some(pm) => Ok(pm),
                None => Err(DepotError::UnknownPackageManager),
            },
            None => match os_release {
                Some(c) => match detect(c) {
                    Some(os) => Ok(PackageManager::default_for(os)),
                    None => Err(DepotError::UnknownOperatingSystem),
                },
                None => Err(DepotError::UnknownOperatingSystem),
            },
        },
    }
}

/// Whether resolution reads the host identification file: only when there
/// is neither an explicit choice nor an environment override.
pub fn needs_host_identification(expected: Option<PackageManager>, env_pm: Option<&str>) -> (r:
    bool)
    ensures
        r == (expected is None && env_pm is None),
{
    expected.is_none() && env_pm.is_none()
}

/// Get the package manager to use: the expected one where it is given;
/// else the one that the `DEPOT_PM` value `env_pm` names; else the default
/// of the current operating system, from the contents `os_release` of its
/// identification file (`None` where it could not be read).
pub fn get_package_manager(
    expected: Option<PackageManager>,
    env_pm: Option<&str>,
    os_release: Option<&str>,
) -> (r: DepotResult<PackageManager>)
    ensures
        r == resolve(expected, text_of(env_pm), text_of(os_release)),
{
    match expected {
        Some(manager) => Ok(manager),
        None => match env_pm {
            Some(token) => match PackageManager::from_name(token) {
                Some(manager) => Ok(manager),
                None => Err(DepotError::UnknownPackageManager),
            },
            None => match os_release {
                Some(contents) => {
                    let os = OperatingSystem::from_os_release(contents)?;
                    Ok(PackageManager::from(&os))
                },
                None => Err(DepotError::UnknownOperatingSystem),
            },
        },
    }
}

/// The failure that reports `cmd`, with the packages or the query it named.
pub open spec fn failure_spec(cmd: Command) -> PackageManagerError {
    match cmd {
        Command::Install(i) => PackageManagerError::InstallFailed(i.package),
        Command::Remove(i) => PackageManagerError::RemoveFailed(i.package),
        Command::Search(i) => PackageManagerError::SearchFailed(i.package),
        Command::Update(i) => PackageManagerError::UpdateFailed(i.package),
    }
}

fn failure(cmd: Command) -> (r: PackageManagerError)
    ensures
        r == failure_spec(cmd),
{
    match cmd {
        Command::Install(i) => PackageManagerError::InstallFailed(i.package),
        Command::Remove(i) => PackageManagerError::RemoveFailed(i.package),
        Command::Search(i) => PackageManagerError::SearchFailed(i.package),
        Command::Update(i) => PackageManagerError::UpdateFailed(i.package),
    }
}

} // verus!
