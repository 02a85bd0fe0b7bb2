use vstd::prelude::*;
use crate::system::process::{args1, arg_list, found, lookup_asks, observed_found, which_probe, LookupQuery, Observation, Step};
use crate::text::{join, join_strs};

verus! {

/// Family of the Linux distribution.
#[derive(Debug, Clone, Copy, PartialEq, Eq, Structural)]
pub enum LinuxDistroFamily {
    DebianUbuntu,
    FedoraRhel,
    Arch,
    Unknown,
}

/// The texts of some string slices.
pub open spec fn str_views(v: Seq<&str>) -> Seq<Seq<char>> {
    v.map_values(|p: &str| p@)
}

/// A system package manager: its name, the package names it uses, and the
/// command line that installs packages.
pub trait PackageManager: Send + Sync {
    spec fn spec_name(&self) -> Seq<char>;

    spec fn spec_mariadb_package(&self) -> Seq<char>;

    spec fn spec_mysql_package(&self) -> Seq<char>;

    spec fn spec_php_packages(&self) -> Seq<Seq<char>>;

    /// The text that precedes the package list in the install command.
    spec fn spec_install_prefix(&self) -> Seq<char>;

    /// The programs whose presence means the package manager is available.
    spec fn spec_programs(&self) -> Seq<Seq<char>>;

    fn name(&self) -> (res: &'static str)
        ensures
            res@ == self.spec_name();

    /// Begins checking whether the package manager's program can be found:
    /// asks for its programs to be looked up in `$PATH`; it is available when
    /// one of them is found (`availability_advance`).
    fn is_available(&self) -> (res: Step<LookupQuery, bool>)
        ensures
            lookup_asks(res, self.spec_programs());

    fn mariadb_package_name(&self) -> (res: &'static str)
        ensures
            res@ == self.spec_mariadb_package();

    fn mysql_package_name(&self) -> (res: &'static str)
        ensures
            res@ == self.spec_mysql_package();

    fn php_package_names(&self) -> (res: Vec<&'static str>)
        ensures
            str_views(res@) == self.spec_php_packages();

    fn install_command(&self, packages: &[&str]) -> (res: String)
        ensures
            res@ == self.spec_install_prefix() + join(str_views(packages@), " "@);
}

/// Builds a package list.
fn package_list4(a: &'static str, b: &'static str, c: &'static str, d: &'static str) -> (res: Vec<&'static str>)
    ensures
        str_views(res@) == seq![a@, b@, c@, d@],
{
    let mut v: Vec<&'static str> = Vec::new();
    v.push(a);
    v.push(b);
    v.push(c);
    v.push(d);
    assert(str_views(v@) =~= seq![a@, b@, c@, d@]);
    v
}

/// The install command: `prefix` followed by the packages separated by spaces.
fn install_line(prefix: &str, packages: &[&str]) -> (res: String)
    ensures
        res@ == prefix@ + join(str_views(packages@), " "@),
{
    let mut s = String::from_str(prefix);
    let list = join_strs(packages, " ");
    s.append(list.as_str());
    s
}

/// Debian and Ubuntu's `apt`.
pub struct AptPackageManager;

impl PackageManager for AptPackageManager {
    open spec fn spec_name(&self) -> Seq<char> { "apt"@ }

    open spec fn spec_mariadb_package(&self) -> Seq<char> { "mariadb-server"@ }

    open spec fn spec_mysql_package(&self) -> Seq<char> { "mysql-server"@ }

    open spec fn spec_php_packages(&self) -> Seq<Seq<char>> {
        seq!["php-cli"@, "php-mysqli"@, "php-mbstring"@, "php-zip"@]
    }

    open spec fn spec_install_prefix(&self) -> Seq<char> { "sudo apt update && sudo apt install -y "@ }

    open spec fn spec_programs(&self) -> Seq<Seq<char>> { seq!["apt"@, "apt-get"@] }

    fn name(&self) -> (res: &'static str) {
        "apt"
    }

    fn is_available(&self) -> (res: Step<LookupQuery, bool>) {
        let names = arg_list(&["apt", "apt-get"]);
        assert(seq!["apt", "apt-get"].map_values(|p: &str| p@) =~= seq!["apt"@, "apt-get"@]);
        Step::Need(LookupQuery, which_probe(names))
    }

    fn mariadb_package_name(&self) -> (res: &'static str) {
        "mariadb-server"
    }

    fn mysql_package_name(&self) -> (res: &'static str) {
        "mysql-server"
    }

    fn php_package_names(&self) -> (res: Vec<&'static str>) {
        package_list4("php-cli", "php-mysqli", "php-mbstring", "php-zip")
    }

    fn install_command(&self, packages: &[&str]) -> (res: String) {
        install_line("sudo apt update && sudo apt install -y ", packages)
    }
}

/// Fedora and RHEL's `dnf`.
pub struct DnfPackageManager;

impl PackageManager for DnfPackageManager {
    open spec fn spec_name(&self) -> Seq<char> { "dnf"@ }

    open spec fn spec_mariadb_package(&self) -> Seq<char> { "mariadb-server"@ }

    open spec fn spec_mysql_package(&self) -> Seq<char> { "community-mysql-server"@ }

    open spec fn spec_php_packages(&self) -> Seq<Seq<char>> {
        seq!["php-cli"@, "php-mysqli"@, "php-mbstring"@, "php-zip"@]
    }

    open spec fn spec_install_prefix(&self) -> Seq<char> { "sudo dnf install -y "@ }

    open spec fn spec_programs(&self) -> Seq<Seq<char>> { seq!["dnf"@] }

    fn name(&self) -> (res: &'static str) {
        "dnf"
    }

    fn is_available(&self) -> (res: Step<LookupQuery, bool>) {
        let names = args1("dnf");
        Step::Need(LookupQuery, which_probe(names))
    }

    fn mariadb_package_name(&self) -> (res: &'static str) {
        "mariadb-server"
    }

    fn mysql_package_name(&self) -> (res: &'static str) {
        "community-mysql-server"
    }

    fn php_package_names(&self) -> (res: Vec<&'static str>) {
        package_list4("php-cli", "php-mysqli", "php-mbstring", "php-zip")
    }

    fn install_command(&self, packages: &[&str]) -> (res: String) {
        install_line("sudo dnf install -y ", packages)
    }
}

/// Arch Linux's `pacman`.
pub struct PacmanPackageManager;

impl PackageManager for PacmanPackageManager {
    open spec fn spec_name(&self) -> Seq<char> { "pacman"@ }

    open spec fn spec_mariadb_package(&self) -> Seq<char> { "mariadb"@ }

    open spec fn spec_mysql_package(&self) -> Seq<char> { "mysql"@ }

    open spec fn spec_php_packages(&self) -> Seq<Seq<char>> {
        seq!["php"@, "php-embed"@]
    }

    open spec fn spec_install_prefix(&self) -> Seq<char> { "sudo pacman -S --noconfirm "@ }

    open spec fn spec_programs(&self) -> Seq<Seq<char>> { seq!["pacman"@] }

    fn name(&self) -> (res: &'static str) {
        "pacman"
    }

    fn is_available(&self) -> (res: Step<LookupQuery, bool>) {
        let names = args1("pacman");
        Step::Need(LookupQuery, which_probe(names))
    }

    fn mariadb_package_name(&self) -> (res: &'static str) {
        "mariadb"
    }

    fn mysql_package_name(&self) -> (res: &'static str) {
        "mysql"
    }

    fn php_package_names(&self) -> (res: Vec<&'static str>) {
        let mut v: Vec<&'static str> = Vec::new();
        v.push("php");
        v.push("php-embed");
        assert(str_views(v@) =~= seq!["php"@, "php-embed"@]);
        v
    }

    fn install_command(&self, packages: &[&str]) -> (res: String) {
        install_line("sudo pacman -S --noconfirm ", packages)
    }
}

/// The package manager found on the system.
#[derive(Debug, Clone, Copy, PartialEq, Eq, Structural)]
pub enum SystemPackageManager {
    Apt,
    Dnf,
    Pacman,
}

impl PackageManager for SystemPackageManager {
    open spec fn spec_name(&self) -> Seq<char> {
        match self {
            SystemPackageManager::Apt => AptPackageManager.spec_name(),
            SystemPackageManager::Dnf => DnfPackageManager.spec_name(),
            SystemPackageManager::Pacman => PacmanPackageManager.spec_name(),
        }
    }

    open spec fn spec_mariadb_package(&self) -> Seq<char> {
        match self {
            SystemPackageManager::Apt => AptPackageManager.spec_mariadb_package(),
            SystemPackageManager::Dnf => DnfPackageManager.spec_mariadb_package(),
            SystemPackageManager::Pacman => PacmanPackageManager.spec_mariadb_package(),
        }
    }

    open spec fn spec_mysql_package(&self) -> Seq<char> {
        match self {
            SystemPackageManager::Apt => AptPackageManager.spec_mysql_package(),
            SystemPackageManager::Dnf => DnfPackageManager.spec_mysql_package(),
            SystemPackageManager::Pacman => PacmanPackageManager.spec_mysql_package(),
        }
    }

    open spec fn spec_php_packages(&self) -> Seq<Seq<char>> {
        match self {
            SystemPackageManager::Apt => AptPackageManager.spec_php_packages(),
            SystemPackageManager::Dnf => DnfPackageManager.spec_php_packages(),
            SystemPackageManager::Pacman => PacmanPackageManager.spec_php_packages(),
        }
    }

    open spec fn spec_install_prefix(&self) -> Seq<char> {
        match self {
            SystemPackageManager::Apt => AptPackageManager.spec_install_prefix(),
            SystemPackageManager::Dnf => DnfPackageManager.spec_install_prefix(),
            SystemPackageManager::Pacman => PacmanPackageManager.spec_install_prefix(),
        }
    }

    open spec fn spec_programs(&self) -> Seq<Seq<char>> {
        match self {
            SystemPackageManager::Apt => AptPackageManager.spec_programs(),
            SystemPackageManager::Dnf => DnfPackageManager.spec_programs(),
            SystemPackageManager::Pacman => PacmanPackageManager.spec_programs(),
        }
    }

    fn name(&self) -> (res: &'static str) {
        match self {
            SystemPackageManager::Apt => AptPackageManager.name(),
            SystemPackageManager::Dnf => DnfPackageManager.name(),
            SystemPackageManager::Pacman => PacmanPackageManager.name(),
        }
    }

    fn is_available(&self) -> (res: Step<LookupQuery, bool>) {
        match self {
            SystemPackageManager::Apt => AptPackageManager.is_available(),
            SystemPackageManager::Dnf => DnfPackageManager.is_available(),
            SystemPackageManager::Pacman => PacmanPackageManager.is_available(),
        }
    }

    fn mariadb_package_name(&self) -> (res: &'static str) {
        match self {
            SystemPackageManager::Apt => AptPackageManager.mariadb_package_name(),
            SystemPackageManager::Dnf => DnfPackageManager.mariadb_package_name(),
            SystemPackageManager::Pacman => PacmanPackageManager.mariadb_package_name(),
        }
    }

    fn mysql_package_name(&self) -> (res: &'static str) {
        match self {
            SystemPackageManager::Apt => AptPackageManager.mysql_package_name(),
            SystemPackageManager::Dnf => DnfPackageManager.mysql_package_name(),
            SystemPackageManager::Pacman => PacmanPackageManager.mysql_package_name(),
        }
    }

    fn php_package_names(&self) -> (res: Vec<&'static str>) {
        match self {
            SystemPackageManager::Apt => AptPackageManager.php_package_names(),
            SystemPackageManager::Dnf => DnfPackageManager.php_package_names(),
            SystemPackageManager::Pacman => PacmanPackageManager.php_package_names(),
        }
    }

    fn install_command(&self, packages: &[&str]) -> (res: String) {
        match self {
            SystemPackageManager::Apt => AptPackageManager.install_command(packages),
            SystemPackageManager::Dnf => DnfPackageManager.install_command(packages),
            SystemPackageManager::Pacman => PacmanPackageManager.install_command(packages),
        }
    }
}

/// The package manager to use, given which programs exist: `apt`, else
/// `dnf`, else `pacman`, else `apt`.
pub open spec fn spec_select_package_manager(has_apt: bool, has_dnf: bool, has_pacman: bool) -> SystemPackageManager {
    if has_apt {
        SystemPackageManager::Apt
    } else if has_dnf {
        SystemPackageManager::Dnf
    } else if has_pacman {
        SystemPackageManager::Pacman
    } else {
        SystemPackageManager::Apt
    }
}

/// Whether the program of package manager `m` was found, given which of
/// `apt`, `dnf` and `pacman` were found.
pub open spec fn manager_found(m: SystemPackageManager, has_apt: bool, has_dnf: bool, has_pacman: bool) -> bool {
    match m {
        SystemPackageManager::Apt => has_apt,
        SystemPackageManager::Dnf => has_dnf,
        SystemPackageManager::Pacman => has_pacman,
    }
}

/// The package manager chosen is one whose program was found, whenever one
/// of `apt`, `dnf`, `pacman` was found; a manager is passed over only when
/// its program is missing, in the order `apt`, `dnf`, `pacman`; with none
/// found, `apt` is assumed.
pub proof fn lemma_selection_uses_found_program(has_apt: bool, has_dnf: bool, has_pacman: bool)
    ensures
        (has_apt || has_dnf || has_pacman)
            ==> manager_found(spec_select_package_manager(has_apt, has_dnf, has_pacman), has_apt, has_dnf, has_pacman),
        has_apt ==> spec_select_package_manager(has_apt, has_dnf, has_pacman) == SystemPackageManager::Apt,
        spec_select_package_manager(has_apt, has_dnf, has_pacman) == SystemPackageManager::Dnf ==> !has_apt,
        spec_select_package_manager(has_apt, has_dnf, has_pacman) == SystemPackageManager::Pacman ==> !has_apt && !has_dnf,
        !(has_apt || has_dnf || has_pacman)
            ==> spec_select_package_manager(has_apt, has_dnf, has_pacman) == SystemPackageManager::Apt,
{
}

/// See `spec_select_package_manager`.
pub fn select_package_manager(has_apt: bool, has_dnf: bool, has_pacman: bool) -> (res: SystemPackageManager)
    ensures
        res == spec_select_package_manager(has_apt, has_dnf, has_pacman),
{
    if has_apt {
        SystemPackageManager::Apt
    } else if has_dnf {
        SystemPackageManager::Dnf
    } else if has_pacman {
        SystemPackageManager::Pacman
    } else {
        SystemPackageManager::Apt
    }
}

/// Begins finding the package manager of this system: asks for `apt`,
/// `dnf` and `pacman` to be looked up; `package_manager_advance` chooses.
pub fn detect_package_manager() -> (res: Step<LookupQuery, SystemPackageManager>)
    ensures
        lookup_asks(res, seq!["apt"@, "dnf"@, "pacman"@]),
{
    let names = arg_list(&["apt", "dnf", "pacman"]);
    assert(seq!["apt", "dnf", "pacman"].map_values(|p: &str| p@) =~= seq!["apt"@, "dnf"@, "pacman"@]);
    Step::Need(LookupQuery, which_probe(names))
}

/// The package manager chosen from the lookup of `apt`, `dnf` and `pacman`
/// (see `spec_select_package_manager`).
pub fn package_manager_advance(q: LookupQuery, obs: &Observation) -> (res: Step<LookupQuery, SystemPackageManager>)
    ensures
        res matches Step::Done(m) && m == spec_select_package_manager(
            observed_found(*obs, 0), observed_found(*obs, 1), observed_found(*obs, 2)),
{
    Step::Done(select_package_manager(found(obs, 0), found(obs, 1), found(obs, 2)))
}

} // verus!
