use vstd::prelude::*;
use crate::error::{AppError, AppResult};
use crate::system::process::{
    args1, arg_list, is_which_probe, authorization_refused, authorization_refused_of, failure_details, failure_details_of, is_command,
    found, is_run, lemma_stdout_text_trimmed, lookup_asks, observed_found, observed_stdout, run_probe, spec_utf8_lossy, strings, utf8_lossy,
    which_probe, CommandOutput, CommandRequest, LookupQuery, Observation, SafeCommand, Step,
};
use crate::text::{
    is_ascii_lowercase_of, lemma_trim_end_tail, lemma_trim_start_head, trim_start,    chars_eq, chars_of, decimal, decimal_chars, lemma_trim_idempotent, lines, split_lines, starts_with, starts_with_chars,
    string_of, sub_chars, trim, trim_chars, views,
};

verus! {

/// State of a systemd unit as the application shows it.
#[derive(Debug, Clone, Copy, PartialEq, Eq, Structural)]
pub enum ServiceState {
    Running,
    Stopped,
    Starting,
    Stopping,
    Error,
    Unknown,
}

/// Display name of a state.
pub open spec fn state_name(s: ServiceState) -> Seq<char> {
    match s {
        ServiceState::Running => "Running"@,
        ServiceState::Stopped => "Stopped"@,
        ServiceState::Starting => "Starting"@,
        ServiceState::Stopping => "Stopping"@,
        ServiceState::Error => "Error"@,
        ServiceState::Unknown => "Unknown"@,
    }
}

/// CSS class of the badge that shows a state.
pub open spec fn state_badge_class(s: ServiceState) -> Seq<char> {
    match s {
        ServiceState::Running => "status-running"@,
        ServiceState::Stopped => "status-stopped"@,
        ServiceState::Starting => "status-starting"@,
        ServiceState::Stopping => "status-stopping"@,
        ServiceState::Error => "status-error"@,
        ServiceState::Unknown => "status-unknown"@,
    }
}

impl ServiceState {
    pub fn as_str(&self) -> (res: &'static str)
        ensures
            res@ == state_name(*self),
    {
        match self {
            ServiceState::Running => "Running",
            ServiceState::Stopped => "Stopped",
            ServiceState::Starting => "Starting",
            ServiceState::Stopping => "Stopping",
            ServiceState::Error => "Error",
            ServiceState::Unknown => "Unknown",
        }
    }

    pub fn badge_class(&self) -> (res: &'static str)
        ensures
            res@ == state_badge_class(*self),
    {
        match self {
            ServiceState::Running => "status-running",
            ServiceState::Stopped => "status-stopped",
            ServiceState::Starting => "status-starting",
            ServiceState::Stopping => "status-stopping",
            ServiceState::Error => "status-error",
            ServiceState::Unknown => "status-unknown",
        }
    }
}

/// The class of a state's badge is `status-` followed by the state's name
/// in lower case.
pub proof fn lemma_badge_class_is_lowercase_name(s: ServiceState)
    ensures
        state_badge_class(s) == "status-"@ + state_badge_class(s).skip(7),
        is_ascii_lowercase_of(state_badge_class(s).skip(7), state_name(s)),
{
    reveal_strlit("status-");
    match s {
        ServiceState::Running => {
            reveal_strlit("status-running");
            reveal_strlit("Running");
            assert(state_badge_class(s) =~= "status-"@ + state_badge_class(s).skip(7));
        },
        ServiceState::Stopped => {
            reveal_strlit("status-stopped");
            reveal_strlit("Stopped");
            assert(state_badge_class(s) =~= "status-"@ + state_badge_class(s).skip(7));
        },
        ServiceState::Starting => {
            reveal_strlit("status-starting");
            reveal_strlit("Starting");
            assert(state_badge_class(s) =~= "status-"@ + state_badge_class(s).skip(7));
        },
        ServiceState::Stopping => {
            reveal_strlit("status-stopping");
            reveal_strlit("Stopping");
            assert(state_badge_class(s) =~= "status-"@ + state_badge_class(s).skip(7));
        },
        ServiceState::Error => {
            reveal_strlit("status-error");
            reveal_strlit("Error");
            assert(state_badge_class(s) =~= "status-"@ + state_badge_class(s).skip(7));
        },
        ServiceState::Unknown => {
            reveal_strlit("status-unknown");
            reveal_strlit("Unknown");
            assert(state_badge_class(s) =~= "status-"@ + state_badge_class(s).skip(7));
        },
    }
}

/// The state that systemd's `ActiveState` and `SubState` (each trimmed) stand for.
pub open spec fn spec_parse_state(active: Seq<char>, sub: Seq<char>) -> ServiceState {
    let a = trim(active);
    if a == "active"@ {
        if trim(sub) == "reloading"@ {
            ServiceState::Starting
        } else {
            ServiceState::Running
        }
    } else if a == "inactive"@ {
        ServiceState::Stopped
    } else if a == "activating"@ {
        ServiceState::Starting
    } else if a == "deactivating"@ {
        ServiceState::Stopping
    } else if a == "failed"@ {
        ServiceState::Error
    } else {
        ServiceState::Unknown
    }
}

/// White space around systemd's answers does not change the state they stand for.
pub proof fn lemma_parse_state_trimmed(active: Seq<char>, sub: Seq<char>)
    ensures
        spec_parse_state(active, sub) == spec_parse_state(trim(active), trim(sub)),
{
    lemma_trim_idempotent(active);
    lemma_trim_idempotent(sub);
}

/// The state that an answer of `systemctl is-active` names, if it names one.
pub open spec fn state_from_is_active(t: Seq<char>) -> Option<ServiceState> {
    if t == "active"@ {
        Some(ServiceState::Running)
    } else if t == "inactive"@ {
        Some(ServiceState::Stopped)
    } else if t == "activating"@ {
        Some(ServiceState::Starting)
    } else if t == "deactivating"@ {
        Some(ServiceState::Stopping)
    } else if t == "failed"@ {
        Some(ServiceState::Error)
    } else {
        None
    }
}

/// A `systemctl is-active` answer means what the same word means as
/// `ActiveState` (with the sub-state `running`): a trimmed answer that names
/// a state names that state, and every word that `ActiveState` maps to a
/// known state is an answer that names it.
pub proof fn lemma_is_active_agrees_with_active_state(t: Seq<char>)
    requires
        trim(t) == t,
    ensures
        state_from_is_active(t) matches Some(s) ==> s == spec_parse_state(t, "running"@),
        spec_parse_state(t, "running"@) != ServiceState::Unknown
            ==> state_from_is_active(t) == Some(spec_parse_state(t, "running"@)),
{
    lemma_running_is_not_reloading();
}

/// The sub-state `running` is not `reloading`.
proof fn lemma_running_is_not_reloading()
    ensures
        trim("running"@) != "reloading"@,
{
    lemma_trim_start_head("running"@);
    lemma_trim_end_tail(trim_start("running"@));
    assert("running"@.len() == 7 && "reloading"@.len() == 9) by {
        reveal_strlit("running");
        reveal_strlit("reloading");
    }
}

/// The last `ActiveState=` and `SubState=` values among some lines of
/// `systemctl show` output (`unknown` where there is none).
pub open spec fn show_fields(ls: Seq<Seq<char>>) -> (Seq<char>, Seq<char>)
    decreases ls.len(),
{
    if ls.len() == 0 {
        ("unknown"@, "unknown"@)
    } else {
        let prev = show_fields(ls.drop_last());
        let l = ls.last();
        if starts_with(l, "ActiveState="@) {
            (l.skip("ActiveState="@.len() as int), prev.1)
        } else if starts_with(l, "SubState="@) {
            (prev.0, l.skip("SubState="@.len() as int))
        } else {
            prev
        }
    }
}

/// The state that the output of `systemctl show --property=ActiveState,SubState` gives.
pub open spec fn state_from_show(text: Seq<char>) -> ServiceState {
    let f = show_fields(lines(text));
    spec_parse_state(f.0, f.1)
}

/// Where a status query stands.
#[derive(Debug, Clone, Copy, PartialEq, Eq, Structural)]
pub enum StatusStage {
    /// Waiting to learn whether `systemctl` can be found.
    Lookup,
    /// Waiting for `systemctl is-active`.
    IsActive,
    /// Waiting for `systemctl show`.
    Show,
}

/// A status query under way.
#[derive(Debug)]
pub struct StatusQuery {
    pub service_name: String,
    pub stage: StatusStage,
}

/// The result of a privileged service action.
pub open spec fn spec_action_outcome(
    service: Seq<char>,
    action: Seq<char>,
    outcome: Result<CommandOutput, String>,
    res: AppResult<()>,
) -> bool {
    match outcome {
        Ok(out) => if out.success {
            res is Ok
        } else if authorization_refused(out.code, failure_details(out)) {
            match res {
                Err(AppError::PermissionDenied(m)) => m@ == "Otorisasi PolicyKit dibatalkan atau ditolak."@,
                _ => false,
            }
        } else {
            match res {
                Err(AppError::ServiceActionFailed { service: s, action: a, details: d }) =>
                    s@ == service && a@ == action && d@ == failure_details(out),
                _ => false,
            }
        },
        Err(e) => match res {
            Err(AppError::IoError(m)) => m == e,
            _ => false,
        },
    }
}

/// The text that `journalctl` output yields for display.
pub open spec fn spec_journal_text(service: Seq<char>, out: CommandOutput) -> Seq<char> {
    let stdout = spec_utf8_lossy(out.stdout@);
    let stderr = spec_utf8_lossy(out.stderr@);
    if trim(stdout).len() > 0 {
        stdout
    } else if trim(stderr).len() > 0 {
        stderr
    } else {
        "Belum ada log journalctl untuk service '"@ + service + "'."@
    }
}

/// A privileged action waiting for `systemctl` and `pkexec` to be looked up.
#[derive(Debug)]
pub struct ActionQuery {
    pub service_name: String,
    pub action: String,
}

/// `s` holds the characters of literal `lit`.
fn is_lit(s: &Vec<char>, lit: &str) -> (res: bool)
    ensures
        res == (s@ == lit@),
{
    chars_eq(s, &chars_of(lit))
}

pub struct SystemdManager;

impl SystemdManager {
    /// Begins checking whether `systemctl` can be found: asks for it to be
    /// looked up in `$PATH`; `availability_advance` gives the answer.
    pub fn is_available() -> (res: Step<LookupQuery, bool>)
        ensures
            lookup_asks(res, seq!["systemctl"@]),
    {
        let names = args1("systemctl");
        Step::Need(LookupQuery, which_probe(names))
    }

    /// Maps systemd's active state and sub-state to a `ServiceState`.
    pub fn parse_state(active_state: &str, sub_state: &str) -> (res: ServiceState)
        ensures
            res == spec_parse_state(active_state@, sub_state@),
    {
        let a = trim_chars(&chars_of(active_state));
        if is_lit(&a, "active") {
            let s = trim_chars(&chars_of(sub_state));
            if is_lit(&s, "reloading") {
                ServiceState::Starting
            } else {
                ServiceState::Running
            }
        } else if is_lit(&a, "inactive") {
            ServiceState::Stopped
        } else if is_lit(&a, "activating") {
            ServiceState::Starting
        } else if is_lit(&a, "deactivating") {
            ServiceState::Stopping
        } else if is_lit(&a, "failed") {
            ServiceState::Error
        } else {
            ServiceState::Unknown
        }
    }

    /// See `state_from_is_active`.
    pub fn state_from_is_active(text: &String) -> (res: Option<ServiceState>)
        ensures
            res == state_from_is_active(text@),
    {
        let t = chars_of(text.as_str());
        if is_lit(&t, "active") {
            Some(ServiceState::Running)
        } else if is_lit(&t, "inactive") {
            Some(ServiceState::Stopped)
        } else if is_lit(&t, "activating") {
            Some(ServiceState::Starting)
        } else if is_lit(&t, "deactivating") {
            Some(ServiceState::Stopping)
        } else if is_lit(&t, "failed") {
            Some(ServiceState::Error)
        } else {
            None
        }
    }

    /// See `state_from_show`.
    pub fn state_from_show(text: &String) -> (res: ServiceState)
        ensures
            res == state_from_show(text@),
    {
        let ls = split_lines(&chars_of(text.as_str()));
        let active_key = chars_of("ActiveState=");
        let sub_key = chars_of("SubState=");
        let mut active = chars_of("unknown");
        let mut sub = chars_of("unknown");
        let mut i: usize = 0;
        assert(views(ls@).take(0) =~= Seq::<Seq<char>>::empty());
        while i < ls.len()
            invariant
                i <= ls.len(),
                active_key@ == "ActiveState="@,
                sub_key@ == "SubState="@,
                (active@, sub@) == show_fields(views(ls@).take(i as int)),
            decreases ls.len() - i,
        {
            let l = &ls[i];
            let ghost pre = views(ls@).take(i + 1);
            assert(pre.drop_last() =~= views(ls@).take(i as int));
            assert(pre.last() == l@);
            if starts_with_chars(l, &active_key) {
                active = sub_chars(l, active_key.len(), l.len());
                assert(active@ =~= l@.skip("ActiveState="@.len() as int));
            } else if starts_with_chars(l, &sub_key) {
                sub = sub_chars(l, sub_key.len(), l.len());
                assert(sub@ =~= l@.skip("SubState="@.len() as int));
            }
            i += 1;
        }
        assert(views(ls@).take(ls.len() as int) =~= views(ls@));
        Self::parse_state(string_of(&active).as_str(), string_of(&sub).as_str())
    }

    /// Begins a status query of a unit: asks for `systemctl` to be looked up
    /// (see `status_started`).
    pub fn get_status(service_name: &str) -> (res: Step<StatusQuery, ServiceState>)
        ensures
            Self::status_started(service_name@, res),
    {
        let names = args1("systemctl");
        Step::Need(StatusQuery { service_name: String::from_str(service_name), stage: StatusStage::Lookup }, which_probe(names))
    }

    /// The first step of a status query, given whether `systemctl` exists.
    pub open spec fn status_start_spec(
        service_name: Seq<char>,
        available: bool,
        res: Step<StatusQuery, ServiceState>,
    ) -> bool {
        if !available {
            res == Step::<StatusQuery, ServiceState>::Done(ServiceState::Unknown)
        } else {
            Self::asks_is_active(service_name, res)
        }
    }

    /// `res` asks for `systemctl is-active <service_name>`.
    pub open spec fn asks_is_active(service_name: Seq<char>, res: Step<StatusQuery, ServiceState>) -> bool {
        match res {
            Step::Need(q, p) => q.service_name@ == service_name && q.stage == StatusStage::IsActive
                && is_run(p, "systemctl"@, seq!["is-active"@, service_name]),
            Step::Done(_) => false,
        }
    }

    /// `res` asks for `systemctl show <service_name> --property=ActiveState,SubState`.
    pub open spec fn asks_show(service_name: Seq<char>, res: Step<StatusQuery, ServiceState>) -> bool {
        match res {
            Step::Need(q, p) => q.service_name@ == service_name && q.stage == StatusStage::Show
                && is_run(p, "systemctl"@, seq!["show"@, service_name, "--property=ActiveState,SubState"@]),
            Step::Done(_) => false,
        }
    }

    /// The first step of a status query: it asks for `systemctl` to be looked up.
    pub open spec fn status_started(service_name: Seq<char>, res: Step<StatusQuery, ServiceState>) -> bool {
        match res {
            Step::Need(q, p) => q.service_name@ == service_name && q.stage == StatusStage::Lookup
                && is_which_probe(p, seq!["systemctl"@]),
            Step::Done(_) => false,
        }
    }

    /// See `status_start_spec`.
    pub fn status_start(service_name: &str, available: bool) -> (res: Step<StatusQuery, ServiceState>)
        ensures
            Self::status_start_spec(service_name@, available, res),
    {
        if !available {
            return Step::Done(ServiceState::Unknown);
        }
        let q = StatusQuery { service_name: String::from_str(service_name), stage: StatusStage::IsActive };
        let args = arg_list(&["is-active", service_name]);
        assert(seq!["is-active", service_name].map_values(|p: &str| p@) =~= seq!["is-active"@, service_name@]);
        Step::Need(q, run_probe("systemctl", args))
    }

    /// The next step of a status query after its probe was answered.
    pub open spec fn status_advance_spec(
        q: StatusQuery,
        obs: Observation,
        res: Step<StatusQuery, ServiceState>,
    ) -> bool {
        match q.stage {
            StatusStage::Lookup => Self::status_start_spec(q.service_name@, observed_found(obs, 0), res),
            StatusStage::IsActive => match observed_stdout(obs) {
                Some(t) => match state_from_is_active(t) {
                    Some(st) => res == Step::<StatusQuery, ServiceState>::Done(st),
                    None => Self::asks_show(q.service_name@, res),
                },
                None => Self::asks_show(q.service_name@, res),
            },
            StatusStage::Show => match obs {
                Observation::Command(Ok(out)) => if out.success {
                    res == Step::<StatusQuery, ServiceState>::Done(state_from_show(spec_utf8_lossy(out.stdout@)))
                } else {
                    res == Step::<StatusQuery, ServiceState>::Done(ServiceState::Unknown)
                },
                _ => res == Step::<StatusQuery, ServiceState>::Done(ServiceState::Unknown),
            },
        }
    }

    /// See `status_advance_spec`.
    pub fn status_advance(q: StatusQuery, obs: &Observation) -> (res: Step<StatusQuery, ServiceState>)
        ensures
            Self::status_advance_spec(q, *obs, res),
    {
        match q.stage {
            StatusStage::Lookup => Self::status_start(q.service_name.as_str(), found(obs, 0)),
            StatusStage::IsActive => {
                let out = SafeCommand::observed_stdout(obs);
                if let Some(t) = out {
                    if let Some(st) = Self::state_from_is_active(&t) {
                        return Step::Done(st);
                    }
                }
                let name = q.service_name.as_str();
                let args = arg_list(&["show", name, "--property=ActiveState,SubState"]);
                assert(seq!["show", name, "--property=ActiveState,SubState"].map_values(|p: &str| p@)
                    =~= seq!["show"@, q.service_name@, "--property=ActiveState,SubState"@]);
                let next = StatusQuery { service_name: q.service_name, stage: StatusStage::Show };
                Step::Need(next, run_probe("systemctl", args))
            },
            StatusStage::Show => match obs {
                Observation::Command(Ok(out)) => {
                    if out.success {
                        Step::Done(Self::state_from_show(&utf8_lossy(&out.stdout)))
                    } else {
                        Step::Done(ServiceState::Unknown)
                    }
                },
                _ => Step::Done(ServiceState::Unknown),
            },
        }
    }

    /// A status query asks for at most two commands: once `systemctl show` has
    /// been answered, whatever the answer, it ends.
    pub proof fn lemma_status_query_ends(q: StatusQuery, obs: Observation, res: Step<StatusQuery, ServiceState>)
        requires
            q.stage == StatusStage::Show,
            SystemdManager::status_advance_spec(q, obs, res),
        ensures
            res is Done,
    {
    }

    /// A status query whose `systemctl is-active` answer is a state word that
    /// `ActiveState` knows (`active`, `inactive`, `activating`,
    /// `deactivating`, `failed`) ends at once in the state that word stands
    /// for: `active` is `Running`, `inactive` is `Stopped`, and so on.
    pub proof fn lemma_is_active_answer_decides(q: StatusQuery, obs: Observation, res: Step<StatusQuery, ServiceState>)
        requires
            q.stage == StatusStage::IsActive,
            SystemdManager::status_advance_spec(q, obs, res),
            observed_stdout(obs) is Some,
            spec_parse_state(observed_stdout(obs).unwrap(), "running"@) != ServiceState::Unknown,
        ensures
            res == Step::<StatusQuery, ServiceState>::Done(spec_parse_state(observed_stdout(obs).unwrap(), "running"@)),
    {
        if let Observation::Command(r) = obs {
            lemma_stdout_text_trimmed(r);
        }
        lemma_is_active_agrees_with_active_state(observed_stdout(obs).unwrap());
    }

    /// The command of a privileged service action, given whether `systemctl`
    /// and `pkexec` exist.
    pub open spec fn action_plan_spec(
        service_name: Seq<char>,
        action: Seq<char>,
        available: bool,
        pkexec: bool,
        res: Result<CommandRequest, AppError>,
    ) -> bool {
        if !available {
            match res {
                Err(AppError::ServiceNotFound(m)) => m@ == "systemctl tidak ditemukan"@,
                _ => false,
            }
        } else if pkexec {
            match res {
                Ok(req) => is_command(req, "pkexec"@, seq!["systemctl"@, action, service_name]),
                Err(_) => false,
            }
        } else {
            match res {
                Ok(req) => is_command(req, "systemctl"@, seq![action, service_name]),
                Err(_) => false,
            }
        }
    }

    /// `res` asks for `systemctl` and `pkexec` to be looked up before `action`
    /// on `service_name` is planned.
    pub open spec fn action_lookup_spec(
        service_name: Seq<char>,
        action: Seq<char>,
        res: Step<ActionQuery, Result<CommandRequest, AppError>>,
    ) -> bool {
        match res {
            Step::Need(q, p) => q.service_name@ == service_name && q.action@ == action
                && is_which_probe(p, seq!["systemctl"@, "pkexec"@]),
            Step::Done(_) => false,
        }
    }

    /// Begins planning a privileged action (`start`, `stop`, `restart`) on a
    /// unit: asks for `systemctl` and `pkexec` to be looked up;
    /// `action_advance` then plans it.
    pub fn execute_action(service_name: &str, action: &str) -> (res: Step<ActionQuery, Result<CommandRequest, AppError>>)
        ensures
            Self::action_lookup_spec(service_name@, action@, res),
    {
        let names = arg_list(&["systemctl", "pkexec"]);
        assert(seq!["systemctl", "pkexec"].map_values(|p: &str| p@) =~= seq!["systemctl"@, "pkexec"@]);
        let q = ActionQuery { service_name: String::from_str(service_name), action: String::from_str(action) };
        Step::Need(q, which_probe(names))
    }

    /// Plans the action once `systemctl` (first) and `pkexec` (second) were
    /// looked up: through `pkexec` when it was found (see `action_plan_spec`).
    pub fn action_advance(q: ActionQuery, obs: &Observation) -> (res: Step<ActionQuery, Result<CommandRequest, AppError>>)
        ensures
            res matches Step::Done(r) && Self::action_plan_spec(q.service_name@, q.action@,
                observed_found(*obs, 0), observed_found(*obs, 1), r),
    {
        let available = found(obs, 0);
        let pkexec = found(obs, 1);
        Step::Done(Self::action_plan(q.service_name.as_str(), q.action.as_str(), available, pkexec))
    }

    /// See `action_plan_spec`.
    pub fn action_plan(service_name: &str, action: &str, available: bool, pkexec: bool) -> (res: Result<CommandRequest, AppError>)
        ensures
            Self::action_plan_spec(service_name@, action@, available, pkexec, res),
    {
        if !available {
            return Err(AppError::ServiceNotFound(String::from_str("systemctl tidak ditemukan")));
        }
        if pkexec {
            let args = arg_list(&["systemctl", action, service_name]);
            assert(seq!["systemctl", action, service_name].map_values(|p: &str| p@) =~= seq!["systemctl"@, action@, service_name@]);
            Ok(CommandRequest { program: String::from_str("pkexec"), args })
        } else {
            let args = arg_list(&[action, service_name]);
            assert(seq![action, service_name].map_values(|p: &str| p@) =~= seq![action@, service_name@]);
            Ok(CommandRequest { program: String::from_str("systemctl"), args })
        }
    }

    /// The result of a privileged action, from how its run ended.
    pub fn action_outcome(service_name: &str, action: &str, outcome: &Result<CommandOutput, String>) -> (res: AppResult<()>)
        ensures
            spec_action_outcome(service_name@, action@, *outcome, res),
    {
        match outcome {
            Ok(out) => {
                if out.success {
                    Ok(())
                } else {
                    let details = failure_details_of(out);
                    if authorization_refused_of(out.code, &details) {
                        Err(AppError::PermissionDenied(String::from_str("Otorisasi PolicyKit dibatalkan atau ditolak.")))
                    } else {
                        Err(AppError::ServiceActionFailed {
                            service: String::from_str(service_name),
                            action: String::from_str(action),
                            details,
                        })
                    }
                }
            },
            Err(e) => Err(AppError::IoError(e.clone())),
        }
    }

    /// The `journalctl` command that reads the last `lines` log lines of a unit.
    pub fn get_journal_logs(service_name: &str, lines: usize) -> (res: CommandRequest)
        ensures
            is_command(res, "journalctl"@, seq!["-u"@, service_name@, "-n"@ + decimal(lines as nat), "--no-pager"@]),
    {
        let mut n = String::from_str("-n");
        let digits = string_of(&decimal_chars(lines as u64));
        n.append(digits.as_str());
        let mut args = arg_list(&["-u", service_name]);
        assert(seq!["-u", service_name].map_values(|p: &str| p@) =~= seq!["-u"@, service_name@]);
        let ghost a0 = args@;
        args.push(n);
        let ghost a1 = args@;
        args.push(String::from_str("--no-pager"));
        assert(strings(args@) =~= seq!["-u"@, service_name@, "-n"@ + decimal(lines as nat), "--no-pager"@]) by {
            assert(strings(a1) =~= strings(a0).push(a1[2]@));
            assert(strings(args@) =~= strings(a1).push(args@[3]@));
        }
        CommandRequest { program: String::from_str("journalctl"), args }
    }

    /// The log text that a `journalctl` run yields: its standard output, or its
    /// standard error when the output is blank, or a note that there is no log.
    /// The exit status is not consulted.
    pub fn journal_logs_outcome(service_name: &str, outcome: &Result<CommandOutput, String>) -> (res: AppResult<String>)
        ensures
            match *outcome {
                Ok(out) => match res {
                    Ok(t) => t@ == spec_journal_text(service_name@, out),
                    Err(_) => false,
                },
                Err(e) => match res {
                    Err(AppError::IoError(m)) => m == e,
                    _ => false,
                },
            },
    {
        match outcome {
            Ok(out) => {
                let stdout = utf8_lossy(&out.stdout);
                if trim_chars(&chars_of(stdout.as_str())).len() == 0 {
                    let stderr = utf8_lossy(&out.stderr);
                    if trim_chars(&chars_of(stderr.as_str())).len() > 0 {
                        Ok(stderr)
                    } else {
                        let mut m = String::from_str("Belum ada log journalctl untuk service '");
                        m.append(service_name);
                        m.append("'.");
                        Ok(m)
                    }
                } else {
                    Ok(stdout)
                }
            },
            Err(e) => Err(AppError::IoError(e.clone())),
        }
    }
}

} // verus!
