use vstd::prelude::*;
use crate::error::AppError;
use crate::system::process::{args4, is_command, opt_str, CommandRequest};
use crate::text::{decimal, decimal_chars, string_of};

verus! {

/// The address the PHP server binds to: always the loopback address
/// `127.0.0.1`, whatever host is configured, so the server is never reachable
/// from other machines.
pub open spec fn safe_host(host: Seq<char>) -> Seq<char> {
    "127.0.0.1"@
}

/// `<host>:<port>`.
pub open spec fn host_port(host: Seq<char>, port: u16) -> Seq<char> {
    host + ":"@ + decimal(port as nat)
}

/// The PHP server binds to `127.0.0.1` only, whatever host is configured
/// (`localhost`, `0.0.0.0`, a LAN address or nothing).
pub proof fn lemma_bind_is_loopback(host: Seq<char>, port: u16)
    ensures
        safe_host(host) == "127.0.0.1"@,
        host_port(safe_host(host), port) == "127.0.0.1:"@ + decimal(port as nat),
{
    assert(("127.0.0.1"@ + ":"@) =~= "127.0.0.1:"@) by {
        reveal_strlit("127.0.0.1");
        reveal_strlit(":");
        reveal_strlit("127.0.0.1:");
    }
}

/// What pressing the phpMyAdmin server button does.
#[derive(Debug)]
pub enum ServerToggle {
    /// phpMyAdmin is not installed: nothing is started or stopped.
    NotInstalled,
    /// The server runs: stop it.
    Stop,
    /// The server is stopped: run this command.
    Start(CommandRequest),
}

/// The PHP binary and phpMyAdmin directory used when none is configured or found.
pub open spec fn or_default(o: Option<Seq<char>>, d: Seq<char>) -> Seq<char> {
    match o {
        Some(s) => s,
        None => d,
    }
}

/// What pressing the server button does: report that phpMyAdmin is missing,
/// stop a running server, or start one with the configured PHP binary (`php`
/// by default) serving the detected directory (empty when none was found).
pub open spec fn server_toggle_spec(
    installed: bool,
    running: bool,
    custom_php: Option<Seq<char>>,
    pma_path: Option<Seq<char>>,
    host: Seq<char>,
    port: u16,
    res: ServerToggle,
) -> bool {
    if !installed {
        res is NotInstalled
    } else if running {
        res is Stop
    } else {
        match res {
            ServerToggle::Start(req) => is_command(
                req,
                or_default(custom_php, "php"@),
                seq!["-S"@, host_port(safe_host(host), port), "-t"@, or_default(pma_path, ""@)],
            ),
            _ => false,
        }
    }
}

/// What the local phpMyAdmin server is started with and opened at.
pub struct LaunchPlan;

impl LaunchPlan {
    /// The address and port the PHP built-in server binds to.
    pub fn bind_target(host: &str, port: u16) -> (res: String)
        ensures
            res@ == host_port(safe_host(host@), port),
    {
        let mut s = String::from_str("127.0.0.1");
        s.append(":");
        s.append(string_of(&decimal_chars(port as u64)).as_str());
        s
    }

    /// The command that serves `pma_dir` with PHP's built-in server.
    pub fn server_command(php_bin: &str, pma_dir: &str, host: &str, port: u16) -> (res: CommandRequest)
        ensures
            is_command(res, php_bin@, seq!["-S"@, host_port(safe_host(host@), port), "-t"@, pma_dir@]),
    {
        let target = Self::bind_target(host, port);
        CommandRequest { program: String::from_str(php_bin), args: args4("-S", target.as_str(), "-t", pma_dir) }
    }

    /// What pressing the server button does (see `server_toggle_spec`).
    pub fn server_toggle(
        installed: bool,
        running: bool,
        custom_php: Option<&str>,
        pma_path: Option<&str>,
        host: &str,
        port: u16,
    ) -> (res: ServerToggle)
        ensures
            server_toggle_spec(installed, running, opt_str(custom_php), opt_str(pma_path), host@, port, res),
    {
        if !installed {
            return ServerToggle::NotInstalled;
        }
        if running {
            return ServerToggle::Stop;
        }
        let php_bin = match custom_php {
            Some(p) => p,
            None => "php",
        };
        let pma_dir = match pma_path {
            Some(d) => d,
            None => "",
        };
        ServerToggle::Start(Self::server_command(php_bin, pma_dir, host, port))
    }

    /// The address phpMyAdmin is opened at in a browser.
    pub fn browser_url(host: &str, port: u16) -> (res: String)
        ensures
            res@ == "http://"@ + host_port(host@, port),
    {
        let mut s = String::from_str("http://");
        s.append(host);
        s.append(":");
        s.append(string_of(&decimal_chars(port as u64)).as_str());
        s
    }

    /// The error when the PHP server cannot be started.
    pub fn launch_error(detail: &str) -> (res: AppError)
        ensures
            res matches AppError::PhpMyAdminLaunchFailed(m) && m@ == "Gagal mengeksekusi PHP server: "@ + detail@,
    {
        let mut m = String::from_str("Gagal mengeksekusi PHP server: ");
        m.append(detail);
        AppError::PhpMyAdminLaunchFailed(m)
    }

    /// The error when the browser cannot be opened.
    pub fn browser_error(detail: &str) -> (res: AppError)
        ensures
            res matches AppError::NetworkError(m) && m@ == "Gagal membuka browser: "@ + detail@,
    {
        let mut m = String::from_str("Gagal membuka browser: ");
        m.append(detail);
        AppError::NetworkError(m)
    }
}

} // verus!
