use vstd::prelude::*;
use crate::error::{AppError, AppResult};
use crate::system::process::{args1, is_run, observed_stdout, opt_view, run_probe, Observation, Probe, SafeCommand, Step};
use crate::text::{
    chars_of, contains, contains_chars, decimal, decimal_chars, extend_chars, lines, split_lines,
    string_of, trim, trim_chars, views,
};

verus! {

/// The first line that contains `pat`.
pub open spec fn first_line_containing(ls: Seq<Seq<char>>, pat: Seq<char>) -> Option<Seq<char>>
    decreases ls.len(),
{
    if ls.len() == 0 {
        None
    } else if contains(ls[0], pat) {
        Some(ls[0])
    } else {
        first_line_containing(ls.drop_first(), pat)
    }
}

/// The text that `ss -tulpn` lines are searched for: `:<port>`.
pub open spec fn port_filter(port: u16) -> Seq<char> {
    ":"@ + decimal(port as nat)
}

/// The argument of `fuser`: `<port>/tcp`.
pub open spec fn fuser_spec(port: u16) -> Seq<char> {
    decimal(port as nat) + "/tcp"@
}

/// What an observation says of a port being in use (anything else counts as free).
pub open spec fn observed_in_use(obs: Observation) -> bool {
    match obs {
        Observation::InUse(b) => b,
        _ => false,
    }
}

/// The explanation of a port conflict.
pub open spec fn conflict_details(port: u16, process: Option<Seq<char>>) -> Seq<char> {
    "Port "@ + decimal(port as nat)
        + " aktif, tetapi server database tercatat mati. Kemungkinan proses lain sedang menggunakannya: "@
        + match process {
        Some(p) => p,
        None => "Proses tidak dikenal atau memerlukan izin admin untuk melihat PID"@,
    }
}

/// Where a port inquiry stands.
#[derive(Debug, Clone, Copy, PartialEq, Eq, Structural)]
pub enum PortStage {
    /// Waiting to learn whether the port is in use.
    InUse,
    /// Waiting for `ss -tulpn`.
    Sockets,
    /// Waiting for `fuser <port>/tcp`.
    Fuser,
}

/// A port inquiry under way.
#[derive(Debug)]
pub struct PortQuery {
    pub port: u16,
    pub stage: PortStage,
}

/// `res` asks, at `stage`, for `program` with `args`.
pub open spec fn port_asks<T>(res: Step<PortQuery, T>, port: u16, stage: PortStage, program: Seq<char>, args: Seq<Seq<char>>) -> bool {
    match res {
        Step::Need(q, p) => q.port == port && q.stage == stage && is_run(p, program, args),
        Step::Done(_) => false,
    }
}

/// The next step of a process lookup: the first `ss` line that mentions the
/// port (trimmed); failing that, `fuser`'s answer prefixed with `PID: `.
pub open spec fn process_advance_spec(q: PortQuery, obs: Observation, res: Step<PortQuery, Option<String>>) -> bool {
    match q.stage {
        PortStage::Fuser => match observed_stdout(obs) {
            Some(o) => res matches Step::Done(Some(t)) && t@ == "PID: "@ + trim(o),
            None => res matches Step::Done(None),
        },
        _ => {
            let found = match observed_stdout(obs) {
                Some(out) => first_line_containing(lines(out), port_filter(q.port)),
                None => None,
            };
            match found {
                Some(l) => res matches Step::Done(Some(t)) && t@ == trim(l),
                None => port_asks(res, q.port, PortStage::Fuser, "fuser"@, seq![fuser_spec(q.port)]),
            }
        },
    }
}

/// The next step of a conflict check.
pub open spec fn conflict_advance_spec(q: PortQuery, obs: Observation, res: Step<PortQuery, AppResult<()>>) -> bool {
    match q.stage {
        PortStage::InUse => if observed_in_use(obs) {
            port_asks(res, q.port, PortStage::Sockets, "ss"@, seq!["-tulpn"@])
        } else {
            res matches Step::Done(Ok(()))
        },
        PortStage::Sockets => {
            let found = match observed_stdout(obs) {
                Some(out) => first_line_containing(lines(out), port_filter(q.port)),
                None => None,
            };
            match found {
                Some(l) => is_conflict(res, q.port, Some(trim(l))),
                None => port_asks(res, q.port, PortStage::Fuser, "fuser"@, seq![fuser_spec(q.port)]),
            }
        },
        PortStage::Fuser => match observed_stdout(obs) {
            Some(o) => is_conflict(res, q.port, Some("PID: "@ + trim(o))),
            None => is_conflict(res, q.port, None),
        },
    }
}

/// `res` reports a conflict on `port` with what is known of the process.
pub open spec fn is_conflict(res: Step<PortQuery, AppResult<()>>, port: u16, process: Option<Seq<char>>) -> bool {
    match res {
        Step::Done(Err(AppError::PortConflict { port: p, details })) => p == port && details@ == conflict_details(port, process),
        _ => false,
    }
}

pub struct PortChecker;

impl PortChecker {
    /// `:<port>`.
    fn port_filter(port: u16) -> (res: Vec<char>)
        ensures
            res@ == port_filter(port),
    {
        let mut f = chars_of(":");
        extend_chars(&mut f, &decimal_chars(port as u64));
        f
    }

    /// The first line of `text` that contains `pat`, trimmed.
    fn first_line_containing(text: &String, pat: &Vec<char>) -> (res: Option<String>)
        ensures
            opt_view(res) == (match first_line_containing(lines(text@), pat@) {
                Some(l) => Some(trim(l)),
                None => None,
            }),
    {
        let ls = split_lines(&chars_of(text.as_str()));
        let mut i: usize = 0;
        assert(views(ls@).skip(0) =~= views(ls@));
        while i < ls.len()
            invariant
                i <= ls.len(),
                views(ls@) == lines(text@),
                first_line_containing(views(ls@).skip(i as int), pat@) == first_line_containing(lines(text@), pat@),
            decreases ls.len() - i,
        {
            let ghost rest = views(ls@).skip(i as int);
            assert(rest[0] == ls@[i as int]@);
            assert(rest.drop_first() =~= views(ls@).skip(i + 1));
            if contains_chars(&ls[i], pat) {
                return Some(string_of(&trim_chars(&ls[i])));
            }
            i += 1;
        }
        assert(views(ls@).skip(ls.len() as int) =~= Seq::<Seq<char>>::empty());
        None
    }

    /// `PID: <text trimmed>`.
    fn pid_text(o: &String) -> (res: String)
        ensures
            res@ == "PID: "@ + trim(o@),
    {
        let mut m = String::from_str("PID: ");
        let t = string_of(&trim_chars(&chars_of(o.as_str())));
        m.append(t.as_str());
        m
    }

    /// The probe `fuser <port>/tcp`.
    fn fuser_probe(port: u16) -> (res: Probe)
        ensures
            is_run(res, "fuser"@, seq![fuser_spec(port)]),
    {
        let mut spec = string_of(&decimal_chars(port as u64));
        spec.append("/tcp");
        let s = spec;
        let mut args: Vec<String> = Vec::new();
        args.push(s);
        assert(crate::system::process::strings(args@) =~= seq![fuser_spec(port)]);
        run_probe("fuser", args)
    }

    /// Begins looking up which process occupies a port: asks for `ss -tulpn`.
    pub fn find_process_on_port(port: u16) -> (res: Step<PortQuery, Option<String>>)
        ensures
            port_asks(res, port, PortStage::Sockets, "ss"@, seq!["-tulpn"@]),
    {
        Step::Need(PortQuery { port, stage: PortStage::Sockets }, run_probe("ss", args1("-tulpn")))
    }

    /// See `process_advance_spec`.
    pub fn process_advance(q: PortQuery, obs: &Observation) -> (res: Step<PortQuery, Option<String>>)
        ensures
            process_advance_spec(q, *obs, res),
    {
        let out = SafeCommand::observed_stdout(obs);
        match q.stage {
            PortStage::Fuser => match out {
                Some(o) => Step::Done(Some(Self::pid_text(&o))),
                None => Step::Done(None),
            },
            _ => {
                let found = match &out {
                    Some(o) => Self::first_line_containing(o, &Self::port_filter(q.port)),
                    None => None,
                };
                match found {
                    Some(l) => Step::Done(Some(l)),
                    None => Step::Need(PortQuery { port: q.port, stage: PortStage::Fuser }, Self::fuser_probe(q.port)),
                }
            },
        }
    }

    /// The conflict error for `port`.
    fn conflict(port: u16, process: Option<String>) -> (res: AppError)
        ensures
            res matches AppError::PortConflict { port: p, details } && p == port
                && details@ == conflict_details(port, opt_view(process)),
    {
        let mut d = String::from_str("Port ");
        d.append(string_of(&decimal_chars(port as u64)).as_str());
        d.append(" aktif, tetapi server database tercatat mati. Kemungkinan proses lain sedang menggunakannya: ");
        match process {
            Some(p) => d.append(p.as_str()),
            None => d.append("Proses tidak dikenal atau memerlukan izin admin untuk melihat PID"),
        }
        AppError::PortConflict { port, details: d }
    }

    /// Begins checking for a port conflict: none while the expected service
    /// runs; otherwise asks whether the port is in use.
    pub fn check_conflict(port: u16, is_expected_service_running: bool) -> (res: Step<PortQuery, AppResult<()>>)
        ensures
            if is_expected_service_running {
                res matches Step::Done(Ok(()))
            } else {
                res matches Step::Need(q, Probe::PortInUse(p)) && q.port == port && q.stage == PortStage::InUse && p == port
            },
    {
        if is_expected_service_running {
            return Step::Done(Ok(()));
        }
        Step::Need(PortQuery { port, stage: PortStage::InUse }, Probe::PortInUse(port))
    }

    /// See `conflict_advance_spec`.
    pub fn conflict_advance(q: PortQuery, obs: &Observation) -> (res: Step<PortQuery, AppResult<()>>)
        ensures
            conflict_advance_spec(q, *obs, res),
    {
        match q.stage {
            PortStage::InUse => {
                let in_use = match obs {
                    Observation::InUse(b) => *b,
                    _ => false,
                };
                if in_use {
                    Step::Need(PortQuery { port: q.port, stage: PortStage::Sockets }, run_probe("ss", args1("-tulpn")))
                } else {
                    Step::Done(Ok(()))
                }
            },
            _ => {
                let port = q.port;
                match Self::process_advance(q, obs) {
                    Step::Done(p) => Step::Done(Err(Self::conflict(port, p))),
                    Step::Need(q2, p) => Step::Need(q2, p),
                }
            },
        }
    }
}

} // verus!
