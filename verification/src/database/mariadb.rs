use vstd::prelude::*;
use crate::database::detector::first_existing;
use crate::system::process::{args4, is_paths_probe, Probe};

verus! {

/// Where a MariaDb installation keeps its files.
pub struct MariaDbInfo;

/// The option file candidates, in order of preference.
pub open spec fn mariadb_config_paths() -> Seq<Seq<char>> {
    seq!["/etc/mysql/mariadb.cnf"@, "/etc/mysql/my.cnf"@, "/etc/my.cnf.d/mariadb-server.cnf"@, "/etc/my.cnf"@]
}

impl MariaDbInfo {
    pub const DEFAULT_PORT: u16 = 3306;
    pub const DEFAULT_SERVICE: &'static str = "mariadb.service";
    pub const CONFIG_PATHS: [&'static str; 4] = ["/etc/mysql/mariadb.cnf", "/etc/mysql/my.cnf", "/etc/my.cnf.d/mariadb-server.cnf", "/etc/my.cnf"];

    /// The probe for which of the option file candidates exist.
    pub fn config_paths_probe() -> (res: Probe)
        ensures
            is_paths_probe(res, mariadb_config_paths()),
    {
        Probe::PathsExist(args4("/etc/mysql/mariadb.cnf", "/etc/mysql/my.cnf", "/etc/my.cnf.d/mariadb-server.cnf", "/etc/my.cnf"))
    }

    /// The first option file candidate that exists, given which of them exist.
    pub fn primary_config_path(exists: &Vec<bool>) -> (res: Option<&'static str>)
        ensures
            match res {
                Some(p) => first_existing(mariadb_config_paths(), exists@) == Some(p@),
                None => first_existing(mariadb_config_paths(), exists@) is None,
            },
    {
        proof {
            reveal_with_fuel(first_existing, 6);
        }
        let n = exists.len();
        if n > 0 && exists[0] {
            return Some("/etc/mysql/mariadb.cnf");
        }
        if n > 1 && exists[1] {
            return Some("/etc/mysql/my.cnf");
        }
        if n > 2 && exists[2] {
            return Some("/etc/my.cnf.d/mariadb-server.cnf");
        }
        if n > 3 && exists[3] {
            return Some("/etc/my.cnf");
        }
        None
    }
}

} // verus!
