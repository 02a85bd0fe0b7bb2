use vstd::prelude::*;
use crate::error::{AppError, AppResult};
use crate::system::process::{
    args2, args3, args4, authorization_refused, authorization_refused_of, failure_details,
    arg_list, failure_details_of, found, is_command, lookup_asks, observed_found, which_probe, CommandOutput,
    CommandRequest, LookupQuery, Observation, Step,
};

verus! {

/// The statement that gives `root@localhost` an empty password with all privileges.
pub const ROOT_EMPTY_PASSWORD_SQL: &'static str = "ALTER USER 'root'@'localhost' IDENTIFIED VIA mysql_native_password USING PASSWORD(''); GRANT ALL PRIVILEGES ON *.* TO 'root'@'localhost' WITH GRANT OPTION; FLUSH PRIVILEGES;";

/// The client program to use: `mariadb` when present, else `mysql`, else none.
pub open spec fn client_binary(has_mariadb: bool, has_mysql: bool) -> Option<Seq<char>> {
    if has_mariadb {
        Some("mariadb"@)
    } else if has_mysql {
        Some("mysql"@)
    } else {
        None
    }
}

/// The command that checks a password-less root login, given which clients exist.
pub open spec fn root_check_plan(has_mariadb: bool, has_mysql: bool, res: Option<CommandRequest>) -> bool {
    match client_binary(has_mariadb, has_mysql) {
        Some(bin) => match res {
            Some(req) => is_command(req, bin, seq!["-u"@, "root"@, "-e"@, "SELECT 1;"@]),
            None => false,
        },
        None => res is None,
    }
}

/// The command that sets the empty root password, given which clients and
/// whether `pkexec` exist: through `pkexec` when it exists.
pub open spec fn root_setup_plan(
    has_mariadb: bool,
    has_mysql: bool,
    has_pkexec: bool,
    res: Result<CommandRequest, AppError>,
) -> bool {
    match client_binary(has_mariadb, has_mysql) {
        Some(bin) => match res {
            Ok(req) => if has_pkexec {
                is_command(req, "pkexec"@, seq![bin, "-e"@, ROOT_EMPTY_PASSWORD_SQL@])
            } else {
                is_command(req, bin, seq!["-e"@, ROOT_EMPTY_PASSWORD_SQL@])
            },
            Err(_) => false,
        },
        None => res matches Err(AppError::DatabaseNotInstalled),
    }
}

/// The result of the root set-up run.
pub open spec fn root_setup_outcome(outcome: Result<CommandOutput, String>, res: AppResult<()>) -> bool {
    match outcome {
        Ok(out) => if out.success {
            res is Ok
        } else if authorization_refused(out.code, failure_details(out)) {
            match res {
                Err(AppError::PermissionDenied(m)) => m@ == "Otorisasi PolicyKit dibatalkan."@,
                _ => false,
            }
        } else {
            match res {
                Err(AppError::ServiceActionFailed { service, action, details }) =>
                    service@ == "mariadb"@ && action@ == "setup root empty password"@
                        && details@ == failure_details(out),
                _ => false,
            }
        },
        Err(e) => match res {
            Err(AppError::IoError(m)) => m == e,
            _ => false,
        },
    }
}

pub struct DatabaseAuth;

impl DatabaseAuth {
    /// The client program to use (see `client_binary`).
    fn client(has_mariadb: bool, has_mysql: bool) -> (res: Option<&'static str>)
        ensures
            match res {
                Some(b) => client_binary(has_mariadb, has_mysql) == Some(b@),
                None => client_binary(has_mariadb, has_mysql) is None,
            },
    {
        if has_mariadb {
            Some("mariadb")
        } else if has_mysql {
            Some("mysql")
        } else {
            None
        }
    }

    /// Begins planning the password-less root login check: asks for the
    /// `mariadb` and `mysql` clients to be looked up; `root_check_advance` plans.
    pub fn root_check_command() -> (res: Step<LookupQuery, Option<CommandRequest>>)
        ensures
            lookup_asks(res, seq!["mariadb"@, "mysql"@]),
    {
        let names = arg_list(&["mariadb", "mysql"]);
        assert(seq!["mariadb", "mysql"].map_values(|p: &str| p@) =~= seq!["mariadb"@, "mysql"@]);
        Step::Need(LookupQuery, which_probe(names))
    }

    /// The check planned from the lookup of `mariadb` and `mysql` (see `root_check_plan`).
    pub fn root_check_advance(q: LookupQuery, obs: &Observation) -> (res: Step<LookupQuery, Option<CommandRequest>>)
        ensures
            res matches Step::Done(r) && root_check_plan(observed_found(*obs, 0), observed_found(*obs, 1), r),
    {
        Step::Done(Self::root_check_plan(found(obs, 0), found(obs, 1)))
    }

    /// See `root_check_plan`.
    pub fn root_check_plan(has_mariadb: bool, has_mysql: bool) -> (res: Option<CommandRequest>)
        ensures
            root_check_plan(has_mariadb, has_mysql, res),
    {
        match Self::client(has_mariadb, has_mysql) {
            Some(bin) => Some(CommandRequest {
                program: String::from_str(bin),
                args: args4("-u", "root", "-e", "SELECT 1;"),
            }),
            None => None,
        }
    }

    /// Whether root can log in locally with an empty password: the check run
    /// succeeded.
    pub fn test_root_empty_password(outcome: &Result<CommandOutput, String>) -> (res: bool)
        ensures
            res == (outcome matches Ok(out) && out.success),
    {
        match outcome {
            Ok(out) => out.success,
            Err(_) => false,
        }
    }

    /// Begins planning to set the root password to empty: asks for the
    /// `mariadb` and `mysql` clients and `pkexec` to be looked up;
    /// `root_setup_advance` plans.
    pub fn setup_root_command() -> (res: Step<LookupQuery, Result<CommandRequest, AppError>>)
        ensures
            lookup_asks(res, seq!["mariadb"@, "mysql"@, "pkexec"@]),
    {
        let names = arg_list(&["mariadb", "mysql", "pkexec"]);
        assert(seq!["mariadb", "mysql", "pkexec"].map_values(|p: &str| p@) =~= seq!["mariadb"@, "mysql"@, "pkexec"@]);
        Step::Need(LookupQuery, which_probe(names))
    }

    /// The set-up command planned from the lookup of `mariadb`, `mysql` and
    /// `pkexec` (see `root_setup_plan`).
    pub fn root_setup_advance(q: LookupQuery, obs: &Observation) -> (res: Step<LookupQuery, Result<CommandRequest, AppError>>)
        ensures
            res matches Step::Done(r) && root_setup_plan(
                observed_found(*obs, 0), observed_found(*obs, 1), observed_found(*obs, 2), r),
    {
        Step::Done(Self::root_setup_plan(found(obs, 0), found(obs, 1), found(obs, 2)))
    }

    /// See `root_setup_plan`.
    pub fn root_setup_plan(has_mariadb: bool, has_mysql: bool, has_pkexec: bool) -> (res: Result<CommandRequest, AppError>)
        ensures
            root_setup_plan(has_mariadb, has_mysql, has_pkexec, res),
    {
        match Self::client(has_mariadb, has_mysql) {
            Some(bin) => if has_pkexec {
                Ok(CommandRequest { program: String::from_str("pkexec"), args: args3(bin, "-e", ROOT_EMPTY_PASSWORD_SQL) })
            } else {
                let args = args2("-e", ROOT_EMPTY_PASSWORD_SQL);
                Ok(CommandRequest { program: String::from_str(bin), args })
            },
            None => Err(AppError::DatabaseNotInstalled),
        }
    }

    /// The result of the root set-up run (see `root_setup_outcome`).
    pub fn setup_root_empty_password(outcome: &Result<CommandOutput, String>) -> (res: AppResult<()>)
        ensures
            root_setup_outcome(*outcome, res),
    {
        match outcome {
            Ok(out) => {
                if out.success {
                    Ok(())
                } else {
                    let details = failure_details_of(out);
                    if authorization_refused_of(out.code, &details) {
                        Err(AppError::PermissionDenied(String::from_str("Otorisasi PolicyKit dibatalkan.")))
                    } else {
                        Err(AppError::ServiceActionFailed {
                            service: String::from_str("mariadb"),
                            action: String::from_str("setup root empty password"),
                            details,
                        })
                    }
                }
            },
            Err(e) => Err(AppError::IoError(e.clone())),
        }
    }
}

} // verus!
