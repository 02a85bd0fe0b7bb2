use vstd::prelude::*;
use crate::error::AppError;
use crate::system::process::{is_command, CommandRequest, Step};
use crate::system::service::{ActionQuery, ServiceState, StatusQuery, SystemdManager};
use crate::text::decimal;

verus! {

/// The systemd unit of the database server.
pub struct DatabaseService {
    service_name: String,
}

impl View for DatabaseService {
    type V = Seq<char>;

    /// The unit's name.
    closed spec fn view(&self) -> Seq<char> {
        self.service_name@
    }
}

impl DatabaseService {
    pub fn new(service_name: String) -> (res: Self)
        ensures
            res@ == service_name@,
    {
        DatabaseService { service_name }
    }

    pub fn service_name(&self) -> (res: &str)
        ensures
            res@ == self@,
    {
        self.service_name.as_str()
    }

    pub fn set_service_name(&mut self, name: String)
        ensures
            final(self)@ == name@,
    {
        self.service_name = name;
    }

    /// Begins a status query of the unit (see `SystemdManager::get_status`).
    pub fn get_status(&self) -> (res: Step<StatusQuery, ServiceState>)
        ensures
            SystemdManager::status_started(self@, res),
    {
        SystemdManager::get_status(self.service_name.as_str())
    }

    /// Whether an observed state means the server runs.
    pub fn is_running(&self, observed: ServiceState) -> (res: bool)
        ensures
            res == (observed == ServiceState::Running),
    {
        observed == ServiceState::Running
    }

    /// Begins planning to start the unit (see `SystemdManager::execute_action`).
    pub fn start(&self) -> (res: Step<ActionQuery, Result<CommandRequest, AppError>>)
        ensures
            SystemdManager::action_lookup_spec(self@, "start"@, res),
    {
        SystemdManager::execute_action(self.service_name.as_str(), "start")
    }

    /// Begins planning to stop the unit.
    pub fn stop(&self) -> (res: Step<ActionQuery, Result<CommandRequest, AppError>>)
        ensures
            SystemdManager::action_lookup_spec(self@, "stop"@, res),
    {
        SystemdManager::execute_action(self.service_name.as_str(), "stop")
    }

    /// Begins planning to restart the unit.
    pub fn restart(&self) -> (res: Step<ActionQuery, Result<CommandRequest, AppError>>)
        ensures
            SystemdManager::action_lookup_spec(self@, "restart"@, res),
    {
        SystemdManager::execute_action(self.service_name.as_str(), "restart")
    }

    /// The command that reads the unit's last `lines` log lines.
    pub fn get_logs(&self, lines: usize) -> (res: CommandRequest)
        ensures
            is_command(res, "journalctl"@, seq!["-u"@, self@, "-n"@ + decimal(lines as nat), "--no-pager"@]),
    {
        SystemdManager::get_journal_logs(self.service_name.as_str(), lines)
    }
}

} // verus!
