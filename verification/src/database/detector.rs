use vstd::prelude::*;
use crate::system::process::{
    args1, args2, args3, args4, is_paths_probe, is_run, observed_exists, probe_matches, ProbeSpec, observed_stdout, opt_view, run_probe, strings,
    lemma_stdout_text_trimmed, observed_path, resolved_path, which_probe, Observation, Probe, SafeCommand, Step,
};
use crate::text::{
    chars_eq, chars_of, contains, contains_chars, extend_chars, lines, parse_u16, parse_u16_chars,
    remove_all, remove_all_chars, split_lines, split_words, starts_with, starts_with_chars,
    string_of, take_at_most, trim, trim_chars, trim_end_char, trim_end_char_chars, views, words,
};

verus! {

/// Which database server is installed.
#[derive(Debug, Clone, Copy, PartialEq, Eq, Structural)]
pub enum DatabaseType {
    MariaDB,
    MySQL,
    NotInstalled,
}

/// Display name of a database type.
pub open spec fn database_type_name(t: DatabaseType) -> Seq<char> {
    match t {
        DatabaseType::MariaDB => "MariaDB"@,
        DatabaseType::MySQL => "MySQL"@,
        DatabaseType::NotInstalled => "None"@,
    }
}

impl DatabaseType {
    pub fn as_str(&self) -> (res: &'static str)
        ensures
            res@ == database_type_name(*self),
    {
        match self {
            DatabaseType::MariaDB => "MariaDB",
            DatabaseType::MySQL => "MySQL",
            DatabaseType::NotInstalled => "None",
        }
    }
}

/// What was found out about the installed database server.
#[derive(Debug, Clone)]
pub struct DatabaseInfo {
    pub db_type: DatabaseType,
    pub version: String,
    pub service_name: String,
    pub port: u16,
    pub data_dir: String,
    pub config_file: String,
    pub socket_path: String,
    pub executable_path: String,
    pub bind_address: String,
}

/// The content of a `DatabaseInfo`.
pub struct DatabaseInfoView {
    pub db_type: DatabaseType,
    pub version: Seq<char>,
    pub service_name: Seq<char>,
    pub port: u16,
    pub data_dir: Seq<char>,
    pub config_file: Seq<char>,
    pub socket_path: Seq<char>,
    pub executable_path: Seq<char>,
    pub bind_address: Seq<char>,
}

impl View for DatabaseInfo {
    type V = DatabaseInfoView;

    open spec fn view(&self) -> DatabaseInfoView {
        DatabaseInfoView {
            db_type: self.db_type,
            version: self.version@,
            service_name: self.service_name@,
            port: self.port,
            data_dir: self.data_dir@,
            config_file: self.config_file@,
            socket_path: self.socket_path@,
            executable_path: self.executable_path@,
            bind_address: self.bind_address@,
        }
    }
}

/// The information shown when no server is installed.
pub open spec fn default_database_info() -> DatabaseInfoView {
    DatabaseInfoView {
        db_type: DatabaseType::NotInstalled,
        version: "Not installed"@,
        service_name: "mariadb.service"@,
        port: 3306,
        data_dir: "Unknown"@,
        config_file: "Unknown"@,
        socket_path: "Unknown"@,
        executable_path: "Unknown"@,
        bind_address: "127.0.0.1"@,
    }
}

impl Default for DatabaseInfo {
    fn default() -> (res: Self)
        ensures
            res@ == default_database_info(),
    {
        DatabaseInfo {
            db_type: DatabaseType::NotInstalled,
            version: String::from_str("Not installed"),
            service_name: String::from_str("mariadb.service"),
            port: 3306,
            data_dir: String::from_str("Unknown"),
            config_file: String::from_str("Unknown"),
            socket_path: String::from_str("Unknown"),
            executable_path: String::from_str("Unknown"),
            bind_address: String::from_str("127.0.0.1"),
        }
    }
}

/// A word of `--version` output that names a MariaDB version.
pub open spec fn is_mariadb_word(w: Seq<char>) -> bool {
    contains(w, "MariaDB"@)
}

/// A word of `--version` output that names a MySQL 5.7, 8 or 9 version.
pub open spec fn is_mysql_word(w: Seq<char>) -> bool {
    starts_with(w, "8."@) || starts_with(w, "5.7"@) || starts_with(w, "9."@)
}

/// The version that one word names: `MariaDB <v>` for a word containing
/// `MariaDB` (trailing commas and every `-MariaDB` removed), else
/// `MySQL <v>` for a MySQL version word (trailing commas removed).
pub open spec fn word_version(w: Seq<char>) -> Option<Seq<char>> {
    if is_mariadb_word(w) {
        Some("MariaDB "@ + remove_all(trim_end_char(w, ','), "-MariaDB"@))
    } else if is_mysql_word(w) {
        Some("MySQL "@ + trim_end_char(w, ','))
    } else {
        None
    }
}

/// The version named by the first word that names one.
pub open spec fn version_from_words(ws: Seq<Seq<char>>) -> Option<Seq<char>>
    decreases ws.len(),
{
    if ws.len() == 0 {
        None
    } else {
        match word_version(ws[0]) {
            Some(v) => Some(v),
            None => version_from_words(ws.drop_first()),
        }
    }
}

/// The first line of a text (the text itself if it has no line).
pub open spec fn first_line(s: Seq<char>) -> Seq<char> {
    if lines(s).len() > 0 {
        lines(s)[0]
    } else {
        s
    }
}

/// The version text that `--version` output yields: none for empty output;
/// else `MariaDB <v>` or `MySQL <v>` from the first word that names a version
/// (trailing commas and `-MariaDB` removed); else the first 40 characters of
/// the trimmed first line.
pub open spec fn spec_parse_version(raw: Seq<char>) -> Option<Seq<char>> {
    if raw.len() == 0 {
        None
    } else {
        match version_from_words(words(raw)) {
            Some(v) => Some(v),
            None => Some(take_at_most(trim(first_line(raw)), 40)),
        }
    }
}

/// Server settings read from `--help --verbose` output.
#[derive(Debug)]
pub struct ServerDefaults {
    pub port: u16,
    pub data_dir: String,
    pub socket: String,
    pub bind_address: String,
}

/// The content of `ServerDefaults`: port, data directory, socket, bind address.
pub open spec fn defaults_view(d: ServerDefaults) -> (u16, Seq<char>, Seq<char>, Seq<char>) {
    (d.port, d.data_dir@, d.socket@, d.bind_address@)
}

/// The settings assumed when the server does not report them.
pub open spec fn initial_defaults() -> (u16, Seq<char>, Seq<char>, Seq<char>) {
    (3306, "/var/lib/mysql"@, "/run/mysqld/mysqld.sock"@, "127.0.0.1"@)
}

/// The settings after one line of `--help --verbose` output: a line of at
/// least two words whose first is `port` (value a non-zero `u16`),
/// `datadir`, `socket` or `bind-address` sets that setting to the second word.
pub open spec fn apply_default_line(
    d: (u16, Seq<char>, Seq<char>, Seq<char>),
    l: Seq<char>,
) -> (u16, Seq<char>, Seq<char>, Seq<char>) {
    let ws = words(l);
    if ws.len() >= 2 {
        if ws[0] == "port"@ {
            match parse_u16(ws[1]) {
                Some(p) => if p > 0 { (p, d.1, d.2, d.3) } else { d },
                None => d,
            }
        } else if ws[0] == "datadir"@ {
            (d.0, ws[1], d.2, d.3)
        } else if ws[0] == "socket"@ {
            (d.0, d.1, ws[1], d.3)
        } else if ws[0] == "bind-address"@ {
            (d.0, d.1, d.2, ws[1])
        } else {
            d
        }
    } else {
        d
    }
}

/// The settings after some lines, each applied in order.
pub open spec fn defaults_after(
    ls: Seq<Seq<char>>,
    init: (u16, Seq<char>, Seq<char>, Seq<char>),
) -> (u16, Seq<char>, Seq<char>, Seq<char>)
    decreases ls.len(),
{
    if ls.len() == 0 {
        init
    } else {
        apply_default_line(defaults_after(ls.drop_last(), init), ls.last())
    }
}

/// The settings that `--help --verbose` output gives.
pub open spec fn spec_extract_defaults(out: Seq<char>) -> (u16, Seq<char>, Seq<char>, Seq<char>) {
    defaults_after(lines(out), initial_defaults())
}

/// The first candidate whose existence flag is set (a missing flag counts as unset).
pub open spec fn first_existing(cands: Seq<Seq<char>>, flags: Seq<bool>) -> Option<Seq<char>>
    decreases cands.len(),
{
    if cands.len() == 0 {
        None
    } else if flags.len() > 0 && flags[0] {
        Some(cands[0])
    } else {
        first_existing(cands.drop_first(), if flags.len() > 0 { flags.drop_first() } else { flags })
    }
}

/// The settings never end up with port 0: a port value of 0 is ignored.
pub proof fn lemma_defaults_port_positive(ls: Seq<Seq<char>>, init: (u16, Seq<char>, Seq<char>, Seq<char>))
    requires
        init.0 > 0,
    ensures
        defaults_after(ls, init).0 > 0,
    decreases ls.len(),
{
    if ls.len() > 0 {
        lemma_defaults_port_positive(ls.drop_last(), init);
    }
}

/// The port read from `--help --verbose` output is never 0.
pub proof fn lemma_extract_defaults_port(out: Seq<char>)
    ensures
        spec_extract_defaults(out).0 > 0,
{
    lemma_defaults_port_positive(lines(out), initial_defaults());
}

/// The option file chosen is a candidate whose flag is set, and no earlier
/// candidate's flag is set; with none set, there is no choice.
pub proof fn lemma_first_existing(cands: Seq<Seq<char>>, flags: Seq<bool>)
    ensures
        first_existing(cands, flags) matches Some(c) ==> exists|i: int|
            0 <= i < cands.len() && i < flags.len() && flags[i] && #[trigger] cands[i] == c
                && forall|j: int| 0 <= j < i ==> !flags[j],
        first_existing(cands, flags) is None ==> forall|i: int|
            0 <= i < cands.len() && i < flags.len() ==> !#[trigger] flags[i],
    decreases cands.len(),
{
    if cands.len() > 0 && !(flags.len() > 0 && flags[0]) {
        let f2 = if flags.len() > 0 { flags.drop_first() } else { flags };
        lemma_first_existing(cands.drop_first(), f2);
        if let Some(c) = first_existing(cands, flags) {
            let k = choose|k: int| 0 <= k < cands.drop_first().len() && k < f2.len() && f2[k]
                && #[trigger] cands.drop_first()[k] == c && forall|j: int| 0 <= j < k ==> !f2[j];
            assert(cands[k + 1] == c);
            assert forall|j: int| 0 <= j < k + 1 implies !flags[j] by {
                if j > 0 {
                    assert(flags[j] == f2[j - 1]);
                }
            }
        } else {
            assert forall|i: int| 0 <= i < cands.len() && i < flags.len() implies !#[trigger] flags[i] by {
                if i > 0 {
                    assert(flags[i] == f2[i - 1]);
                    assert(cands.drop_first().len() == cands.len() - 1);
                }
            }
        }
    } else if cands.len() > 0 {
        assert(cands[0] == cands[0]);
    }
}

/// `s` holds the characters of literal `lit`.
fn is_lit(s: &Vec<char>, lit: &str) -> (res: bool)
    ensures
        res == (s@ == lit@),
{
    chars_eq(s, &chars_of(lit))
}

pub struct DatabaseDetector;

impl DatabaseDetector {
    /// See `version_from_words`.
    fn version_from_word(w: &Vec<char>) -> (res: Option<Vec<char>>)
        ensures
            word_version(w@) == (match res { Some(v) => Some(v@), None => None::<Seq<char>> }),
    {
        if contains_chars(w, &chars_of("MariaDB")) {
            let mut v = chars_of("MariaDB ");
            let cleaned = remove_all_chars(&trim_end_char_chars(w, ','), &chars_of("-MariaDB"));
            extend_chars(&mut v, &cleaned);
            return Some(v);
        }
        if starts_with_chars(w, &chars_of("8.")) || starts_with_chars(w, &chars_of("5.7"))
            || starts_with_chars(w, &chars_of("9.")) {
            let mut v = chars_of("MySQL ");
            extend_chars(&mut v, &trim_end_char_chars(w, ','));
            return Some(v);
        }
        None
    }

    /// Extracts a clean version text from `--version` output.
    pub fn parse_version(raw: &str) -> (res: Option<String>)
        ensures
            res.is_some() == spec_parse_version(raw@).is_some(),
            res.is_some() ==> res.unwrap()@ == spec_parse_version(raw@).unwrap(),
            res.is_none() <==> raw@.len() == 0,
    {
        let r = chars_of(raw);
        if r.len() == 0 {
            return None;
        }
        let ws = split_words(&r);
        let mut i: usize = 0;
        assert(views(ws@).skip(0) =~= views(ws@));
        while i < ws.len()
            invariant
                i <= ws.len(),
                version_from_words(views(ws@).skip(i as int)) == version_from_words(words(r@)),
                views(ws@) == words(r@),
                r@ == raw@,
                r@.len() > 0,
            decreases ws.len() - i,
        {
            let ghost rest = views(ws@).skip(i as int);
            assert(rest[0] == ws@[i as int]@);
            assert(rest.drop_first() =~= views(ws@).skip(i + 1));
            match Self::version_from_word(&ws[i]) {
                Some(v) => {
                    return Some(string_of(&v));
                },
                None => {},
            }
            i += 1;
        }
        assert(views(ws@).skip(ws.len() as int) =~= Seq::<Seq<char>>::empty());
        let ls = split_lines(&r);
        let line = if ls.len() > 0 { trim_chars(&ls[0]) } else { trim_chars(&r) };
        let mut out: Vec<char> = Vec::new();
        let mut k: usize = 0;
        while k < line.len() && k < 40
            invariant
                k <= line.len(),
                k <= 40,
                out@ == line@.take(k as int),
            decreases line.len() - k,
        {
            out.push(line[k]);
            k += 1;
            assert(out@ =~= line@.take(k as int));
        }
        assert(out@ == take_at_most(line@, 40)) by {
            if line@.len() <= 40 {
                assert(line@.take(line@.len() as int) =~= line@);
            }
        }
        Some(string_of(&out))
    }

    /// Reads port, data directory, socket and bind address from a server's
    /// `--help --verbose` output; what it does not report keeps its default.
    pub fn extract_defaults(out: &String) -> (res: ServerDefaults)
        ensures
            defaults_view(res) == spec_extract_defaults(out@),
    {
        let ls = split_lines(&chars_of(out.as_str()));
        let mut port: u16 = 3306;
        let mut data_dir = chars_of("/var/lib/mysql");
        let mut socket = chars_of("/run/mysqld/mysqld.sock");
        let mut bind = chars_of("127.0.0.1");
        let mut i: usize = 0;
        assert(views(ls@).take(0) =~= Seq::<Seq<char>>::empty());
        while i < ls.len()
            invariant
                i <= ls.len(),
                (port, data_dir@, socket@, bind@) == defaults_after(views(ls@).take(i as int), initial_defaults()),
            decreases ls.len() - i,
        {
            let ghost pre = views(ls@).take(i + 1);
            assert(pre.drop_last() =~= views(ls@).take(i as int));
            assert(pre.last() == ls@[i as int]@);
            let ws = split_words(&ls[i]);
            if ws.len() >= 2 {
                assert(views(ws@)[0] == ws@[0]@ && views(ws@)[1] == ws@[1]@);
                let key = &ws[0];
                if is_lit(key, "port") {
                    match parse_u16_chars(&ws[1]) {
                        Some(p) => {
                            if p > 0 {
                                port = p;
                            }
                        },
                        None => {},
                    }
                } else if is_lit(key, "datadir") {
                    data_dir = ws[1].clone();
                } else if is_lit(key, "socket") {
                    socket = ws[1].clone();
                } else if is_lit(key, "bind-address") {
                    bind = ws[1].clone();
                }
            }
            i += 1;
        }
        assert(views(ls@).take(ls.len() as int) =~= views(ls@));
        ServerDefaults {
            port,
            data_dir: string_of(&data_dir),
            socket: string_of(&socket),
            bind_address: string_of(&bind),
        }
    }

    /// The first candidate path that exists, given which of them exist.
    pub fn find_config_file(candidates: &[&str], exists: &Vec<bool>) -> (res: Option<String>)
        ensures
            res.is_some() == first_existing(candidates@.map_values(|c: &str| c@), exists@).is_some(),
            res.is_some() ==> res.unwrap()@ == first_existing(candidates@.map_values(|c: &str| c@), exists@).unwrap(),
    {
        let ghost cs = candidates@.map_values(|c: &str| c@);
        let mut i: usize = 0;
        assert(cs.skip(0) =~= cs);
        assert(exists@.skip(0) =~= exists@);
        while i < candidates.len()
            invariant
                i <= candidates.len(),
                cs == candidates@.map_values(|c: &str| c@),
                first_existing(cs.skip(i as int), if i <= exists.len() { exists@.skip(i as int) } else { Seq::<bool>::empty() })
                    == first_existing(cs, exists@),
            decreases candidates.len() - i,
        {
            let ghost fl = if i <= exists.len() { exists@.skip(i as int) } else { Seq::<bool>::empty() };
            let ghost rest = cs.skip(i as int);
            assert(rest[0] == candidates@[i as int]@);
            assert(rest.drop_first() =~= cs.skip(i + 1));
            if i < exists.len() && exists[i] {
                assert(fl[0] == exists@[i as int]);
                return Some(String::from_str(candidates[i]));
            }
            proof {
                if i < exists.len() {
                    assert(fl.drop_first() =~= exists@.skip(i + 1));
                } else if i == exists.len() {
                    assert(fl =~= Seq::<bool>::empty());
                }
            }
            i += 1;
        }
        assert(cs.skip(candidates.len() as int) =~= Seq::<Seq<char>>::empty());
        None
    }
}


/// Where a detection run stands: which probe it waits for.
#[derive(Debug, Clone, Copy, PartialEq, Eq, Structural)]
pub enum DetectStage {
    /// The lookup of `mariadbd`, `mariadb`, `mysqld` and `mysql` in `$PATH`.
    Binaries,
    /// `mariadb --version`.
    MariaDbClientVersion,
    /// `mariadbd --version`.
    MariaDbServerVersion,
    /// `mariadbd --help --verbose`.
    MariaDbDefaults,
    /// `mysqld --help --verbose`, after `mariadbd` reported nothing.
    MariaDbMysqldDefaults,
    /// Existence of the MariaDB option file candidates.
    MariaDbConfig,
    /// `systemctl status mariadb.service`.
    MariaDbServiceUnit,
    /// `systemctl status mysql.service`.
    MySqlServiceUnit,
    /// `mysql --version`.
    MySqlVersion,
    /// `mysqld --help --verbose`.
    MySqlDefaults,
    /// Existence of the MySQL option file candidates.
    MySqlConfig,
}

/// A detection run under way: its stage and what it has found so far.
#[derive(Debug)]
pub struct DetectQuery {
    pub stage: DetectStage,
    pub info: DatabaseInfo,
}

/// The executables that `$PATH` resolves for the server and client programs
/// (`None` where a program is not found or was not looked up).
#[derive(Debug)]
pub struct BinaryProbes {
    pub mariadbd: Option<String>,
    pub mariadb: Option<String>,
    pub mysqld: Option<String>,
    pub mysql: Option<String>,
}

/// The executables found for `mariadbd`, `mariadb`, `mysqld` and `mysql`, as text.
pub type ProbesView = (Option<Seq<char>>, Option<Seq<char>>, Option<Seq<char>>, Option<Seq<char>>);

/// The content of `BinaryProbes`.
pub open spec fn probes_view(p: BinaryProbes) -> ProbesView {
    (opt_view(p.mariadbd), opt_view(p.mariadb), opt_view(p.mysqld), opt_view(p.mysql))
}

/// The executables that a lookup of `mariadbd`, `mariadb`, `mysqld` and
/// `mysql` (in that order) reports.
pub open spec fn observed_probes(obs: Observation) -> ProbesView {
    (observed_path(obs, 0), observed_path(obs, 1), observed_path(obs, 2), observed_path(obs, 3))
}

/// The first path found, else `fallback`.
pub open spec fn path_or(a: Option<Seq<char>>, b: Option<Seq<char>>, fallback: Seq<char>) -> Seq<char> {
    match a {
        Some(p) => p,
        None => match b {
            Some(p) => p,
            None => fallback,
        },
    }
}

/// The version that `--version` output yields, else `fallback`.
pub open spec fn version_or(raw: Option<Seq<char>>, fallback: Seq<char>) -> Seq<char> {
    match raw {
        Some(r) => match spec_parse_version(r) {
            Some(v) => v,
            None => fallback,
        },
        None => fallback,
    }
}

/// `info` with the settings `d` (port, data directory, socket, bind address).
pub open spec fn with_defaults(info: DatabaseInfoView, d: (u16, Seq<char>, Seq<char>, Seq<char>)) -> DatabaseInfoView {
    DatabaseInfoView { port: d.0, data_dir: d.1, socket_path: d.2, bind_address: d.3, ..info }
}

/// The settings that optional `--help --verbose` output gives.
pub open spec fn defaults_or_initial(out: Option<Seq<char>>) -> (u16, Seq<char>, Seq<char>, Seq<char>) {
    match out {
        Some(o) => spec_extract_defaults(o),
        None => initial_defaults(),
    }
}

/// The option file candidates of a MariaDB installation, in order of preference.
pub open spec fn mariadb_config_candidates() -> Seq<Seq<char>> {
    seq!["/etc/mysql/mariadb.cnf"@, "/etc/mysql/my.cnf"@, "/etc/my.cnf.d/server.cnf"@, "/etc/my.cnf"@]
}

/// The option file candidates of a MySQL installation, in order of preference.
pub open spec fn mysql_config_candidates() -> Seq<Seq<char>> {
    seq!["/etc/mysql/my.cnf"@, "/etc/mysql/mysql.cnf"@, "/etc/my.cnf"@]
}

/// `res` waits at `stage`, having found `info`, for a probe that satisfies `probe_ok`.
pub open spec fn detect_asks(
    res: Step<DetectQuery, DatabaseInfo>,
    stage: DetectStage,
    info: DatabaseInfoView,
    probe: ProbeSpec,
) -> bool {
    match res {
        Step::Need(q, p) => q.stage == stage && q.info@ == info && probe_matches(p, probe),
        Step::Done(_) => false,
    }
}

/// `res` ends the detection with `info`.
pub open spec fn detect_finishes(res: Step<DetectQuery, DatabaseInfo>, info: DatabaseInfoView) -> bool {
    match res {
        Step::Done(d) => d@ == info,
        Step::Need(_, _) => false,
    }
}

/// The information a MariaDB run starts from.
pub open spec fn mariadb_start_info(p: ProbesView) -> DatabaseInfoView {
    DatabaseInfoView {
        db_type: DatabaseType::MariaDB,
        executable_path: path_or(p.0, p.1, "/usr/sbin/mariadbd"@),
        ..default_database_info()
    }
}

/// The information a MySQL run starts from.
pub open spec fn mysql_start_info(p: ProbesView) -> DatabaseInfoView {
    DatabaseInfoView {
        db_type: DatabaseType::MySQL,
        service_name: "mysql.service"@,
        executable_path: path_or(p.2, p.3, "/usr/sbin/mysqld"@),
        ..default_database_info()
    }
}

/// The first step of a detection: MariaDB takes precedence over MySQL; with
/// neither, the default information.
pub open spec fn detect_start_spec(p: ProbesView, res: Step<DetectQuery, DatabaseInfo>) -> bool {
    if p.0 is Some || p.1 is Some {
        detect_asks(res, DetectStage::MariaDbClientVersion, mariadb_start_info(p),
            ProbeSpec::Run("mariadb"@, seq!["--version"@]))
    } else if p.2 is Some || p.3 is Some {
        detect_asks(res, DetectStage::MySqlVersion, mysql_start_info(p),
            ProbeSpec::Run("mysql"@, seq!["--version"@]))
    } else {
        detect_finishes(res, default_database_info())
    }
}

/// The next step of a detection after its probe was answered.
pub open spec fn detect_advance_spec(q: DetectQuery, obs: Observation, res: Step<DetectQuery, DatabaseInfo>) -> bool {
    let info = q.info@;
    let out = observed_stdout(obs);
    match q.stage {
        DetectStage::Binaries => detect_start_spec(observed_probes(obs), res),
        DetectStage::MariaDbClientVersion => match out {
            Some(raw) => detect_asks(res, DetectStage::MariaDbDefaults,
                DatabaseInfoView { version: version_or(Some(raw), "MariaDB (version unknown)"@), ..info },
                ProbeSpec::Run("mariadbd"@, seq!["--help"@, "--verbose"@])),
            None => detect_asks(res, DetectStage::MariaDbServerVersion, info,
                ProbeSpec::Run("mariadbd"@, seq!["--version"@])),
        },
        DetectStage::MariaDbServerVersion => detect_asks(res, DetectStage::MariaDbDefaults,
            DatabaseInfoView { version: version_or(out, "MariaDB (version unknown)"@), ..info },
            ProbeSpec::Run("mariadbd"@, seq!["--help"@, "--verbose"@])),
        DetectStage::MariaDbDefaults => match out {
            Some(o) => detect_asks(res, DetectStage::MariaDbConfig, with_defaults(info, spec_extract_defaults(o)),
                ProbeSpec::Paths(mariadb_config_candidates())),
            None => detect_asks(res, DetectStage::MariaDbMysqldDefaults, info,
                ProbeSpec::Run("mysqld"@, seq!["--help"@, "--verbose"@])),
        },
        DetectStage::MariaDbMysqldDefaults => detect_asks(res, DetectStage::MariaDbConfig,
            with_defaults(info, defaults_or_initial(out)),
            ProbeSpec::Paths(mariadb_config_candidates())),
        DetectStage::MariaDbConfig => detect_asks(res, DetectStage::MariaDbServiceUnit,
            DatabaseInfoView {
                config_file: match first_existing(mariadb_config_candidates(), observed_exists(obs)) {
                    Some(c) => c,
                    None => "/etc/mysql/mariadb.cnf"@,
                },
                ..info
            },
            ProbeSpec::Run("systemctl"@, seq!["status"@, "mariadb.service"@])),
        DetectStage::MariaDbServiceUnit => match out {
            Some(_) => detect_finishes(res, DatabaseInfoView { service_name: "mariadb.service"@, ..info }),
            None => detect_asks(res, DetectStage::MySqlServiceUnit, info,
                ProbeSpec::Run("systemctl"@, seq!["status"@, "mysql.service"@])),
        },
        DetectStage::MySqlServiceUnit => match out {
            Some(_) => detect_finishes(res, DatabaseInfoView { service_name: "mysql.service"@, ..info }),
            None => detect_finishes(res, DatabaseInfoView { service_name: "mariadb.service"@, ..info }),
        },
        DetectStage::MySqlVersion => {
            let raw = match out {
                Some(r) => r,
                None => Seq::<char>::empty(),
            };
            if contains(raw, "MariaDB"@) {
                detect_finishes(res, default_database_info())
            } else {
                detect_asks(res, DetectStage::MySqlDefaults,
                    DatabaseInfoView { version: version_or(Some(raw), "MySQL (version unknown)"@), ..info },
                    ProbeSpec::Run("mysqld"@, seq!["--help"@, "--verbose"@]))
            }
        },
        DetectStage::MySqlDefaults => detect_asks(res, DetectStage::MySqlConfig,
            with_defaults(info, defaults_or_initial(out)),
            ProbeSpec::Paths(mysql_config_candidates())),
        DetectStage::MySqlConfig => detect_finishes(res, DatabaseInfoView {
            config_file: match first_existing(mysql_config_candidates(), observed_exists(obs)) {
                Some(c) => c,
                None => "/etc/mysql/my.cnf"@,
            },
            ..info
        }),
    }
}

impl DatabaseDetector {
    /// Starts detecting MariaDB or MySQL: asks for the server and client
    /// programs `mariadbd`, `mariadb`, `mysqld` and `mysql` to be looked up;
    /// `detect_advance` takes the first step from what was found.
    pub fn detect() -> (res: Step<DetectQuery, DatabaseInfo>)
        ensures
            detect_asks(res, DetectStage::Binaries, default_database_info(),
                ProbeSpec::Which(seq!["mariadbd"@, "mariadb"@, "mysqld"@, "mysql"@])),
    {
        let probe = which_probe(args4("mariadbd", "mariadb", "mysqld", "mysql"));
        Step::Need(DetectQuery { stage: DetectStage::Binaries, info: DatabaseInfo::default() }, probe)
    }

    /// See `detect_start_spec`.
    pub fn detect_start(p: BinaryProbes) -> (res: Step<DetectQuery, DatabaseInfo>)
        ensures
            detect_start_spec(probes_view(p), res),
    {
        let ghost gp = probes_view(p);
        if p.mariadbd.is_some() || p.mariadb.is_some() {
            let mut info = DatabaseInfo::default();
            info.db_type = DatabaseType::MariaDB;
            info.executable_path = match p.mariadbd {
                Some(path) => path,
                None => match p.mariadb {
                    Some(path) => path,
                    None => String::from_str("/usr/sbin/mariadbd"),
                },
            };
            let probe = run_probe("mariadb", args1("--version"));
            assert(info@ == mariadb_start_info(gp));
            Step::Need(DetectQuery { stage: DetectStage::MariaDbClientVersion, info }, probe)
        } else if p.mysqld.is_some() || p.mysql.is_some() {
            let mut info = DatabaseInfo::default();
            info.db_type = DatabaseType::MySQL;
            info.service_name = String::from_str("mysql.service");
            info.executable_path = match p.mysqld {
                Some(path) => path,
                None => match p.mysql {
                    Some(path) => path,
                    None => String::from_str("/usr/sbin/mysqld"),
                },
            };
            let probe = run_probe("mysql", args1("--version"));
            assert(info@ == mysql_start_info(gp));
            Step::Need(DetectQuery { stage: DetectStage::MySqlVersion, info }, probe)
        } else {
            Step::Done(DatabaseInfo::default())
        }
    }

    /// The version that optional `--version` output yields, else `fallback`.
    fn version_or(raw: &Option<String>, fallback: &str) -> (res: String)
        ensures
            res@ == version_or(opt_view(*raw), fallback@),
    {
        match raw {
            Some(r) => match Self::parse_version(r.as_str()) {
                Some(v) => v,
                None => String::from_str(fallback),
            },
            None => String::from_str(fallback),
        }
    }

    /// Copies server settings into the information found so far.
    fn set_defaults(info: &mut DatabaseInfo, d: ServerDefaults)
        ensures
            final(info)@ == with_defaults(old(info)@, defaults_view(d)),
    {
        info.port = d.port;
        info.data_dir = d.data_dir;
        info.socket_path = d.socket;
        info.bind_address = d.bind_address;
    }

    /// The settings that optional `--help --verbose` output gives.
    fn defaults_or_initial(out: &Option<String>) -> (res: ServerDefaults)
        ensures
            defaults_view(res) == defaults_or_initial(opt_view(*out)),
    {
        match out {
            Some(o) => Self::extract_defaults(o),
            None => ServerDefaults {
                port: 3306,
                data_dir: String::from_str("/var/lib/mysql"),
                socket: String::from_str("/run/mysqld/mysqld.sock"),
                bind_address: String::from_str("127.0.0.1"),
            },
        }
    }


    /// See `detect_advance_spec`.
    pub fn detect_advance(q: DetectQuery, obs: &Observation) -> (res: Step<DetectQuery, DatabaseInfo>)
        ensures
            detect_advance_spec(q, *obs, res),
    {
        let ghost gq = q;
        let ghost gout = observed_stdout(*obs);
        let out = SafeCommand::observed_stdout(obs);
        assert(opt_view(out) == gout);
        let mut info = q.info;
        match q.stage {
            DetectStage::Binaries => {
                let p = BinaryProbes {
                    mariadbd: resolved_path(obs, 0),
                    mariadb: resolved_path(obs, 1),
                    mysqld: resolved_path(obs, 2),
                    mysql: resolved_path(obs, 3),
                };
                Self::detect_start(p)
            },
            DetectStage::MariaDbClientVersion => {
                if out.is_some() {
                    info.version = Self::version_or(&out, "MariaDB (version unknown)");
                    let probe = run_probe("mariadbd", args2("--help", "--verbose"));
                    Step::Need(DetectQuery { stage: DetectStage::MariaDbDefaults, info }, probe)
                } else {
                    let probe = run_probe("mariadbd", args1("--version"));
                    Step::Need(DetectQuery { stage: DetectStage::MariaDbServerVersion, info }, probe)
                }
            },
            DetectStage::MariaDbServerVersion => {
                info.version = Self::version_or(&out, "MariaDB (version unknown)");
                let probe = run_probe("mariadbd", args2("--help", "--verbose"));
                Step::Need(DetectQuery { stage: DetectStage::MariaDbDefaults, info }, probe)
            },
            DetectStage::MariaDbDefaults => {
                if out.is_some() {
                    Self::set_defaults(&mut info, Self::defaults_or_initial(&out));
                    let probe = Probe::PathsExist(args4("/etc/mysql/mariadb.cnf", "/etc/mysql/my.cnf", "/etc/my.cnf.d/server.cnf", "/etc/my.cnf"));
                    Step::Need(DetectQuery { stage: DetectStage::MariaDbConfig, info }, probe)
                } else {
                    let probe = run_probe("mysqld", args2("--help", "--verbose"));
                    Step::Need(DetectQuery { stage: DetectStage::MariaDbMysqldDefaults, info }, probe)
                }
            },
            DetectStage::MariaDbMysqldDefaults => {
                Self::set_defaults(&mut info, Self::defaults_or_initial(&out));
                let probe = Probe::PathsExist(args4("/etc/mysql/mariadb.cnf", "/etc/mysql/my.cnf", "/etc/my.cnf.d/server.cnf", "/etc/my.cnf"));
                Step::Need(DetectQuery { stage: DetectStage::MariaDbConfig, info }, probe)
            },
            DetectStage::MariaDbConfig => {
                let empty: Vec<bool> = Vec::new();
                let flags = match obs {
                    Observation::Exists(v) => v,
                    _ => &empty,
                };
                assert(flags@ == observed_exists(*obs));
                proof { Self::lemma_mariadb_candidates(); }
                info.config_file = match Self::find_config_file(&["/etc/mysql/mariadb.cnf", "/etc/mysql/my.cnf", "/etc/my.cnf.d/server.cnf", "/etc/my.cnf"], flags) {
                    Some(c) => c,
                    None => String::from_str("/etc/mysql/mariadb.cnf"),
                };
                let probe = run_probe("systemctl", args2("status", "mariadb.service"));
                Step::Need(DetectQuery { stage: DetectStage::MariaDbServiceUnit, info }, probe)
            },
            DetectStage::MariaDbServiceUnit => {
                if out.is_some() {
                    info.service_name = String::from_str("mariadb.service");
                    Step::Done(info)
                } else {
                    let probe = run_probe("systemctl", args2("status", "mysql.service"));
                    Step::Need(DetectQuery { stage: DetectStage::MySqlServiceUnit, info }, probe)
                }
            },
            DetectStage::MySqlServiceUnit => {
                if out.is_some() {
                    info.service_name = String::from_str("mysql.service");
                } else {
                    info.service_name = String::from_str("mariadb.service");
                }
                Step::Done(info)
            },
            DetectStage::MySqlVersion => {
                let raw = match &out {
                    Some(r) => chars_of(r.as_str()),
                    None => Vec::new(),
                };
                if contains_chars(&raw, &chars_of("MariaDB")) {
                    return Step::Done(DatabaseInfo::default());
                }
                let raw_s = Some(string_of(&raw));
                info.version = Self::version_or(&raw_s, "MySQL (version unknown)");
                let probe = run_probe("mysqld", args2("--help", "--verbose"));
                Step::Need(DetectQuery { stage: DetectStage::MySqlDefaults, info }, probe)
            },
            DetectStage::MySqlDefaults => {
                Self::set_defaults(&mut info, Self::defaults_or_initial(&out));
                let probe = Probe::PathsExist(args3("/etc/mysql/my.cnf", "/etc/mysql/mysql.cnf", "/etc/my.cnf"));
                Step::Need(DetectQuery { stage: DetectStage::MySqlConfig, info }, probe)
            },
            DetectStage::MySqlConfig => {
                let empty: Vec<bool> = Vec::new();
                let flags = match obs {
                    Observation::Exists(v) => v,
                    _ => &empty,
                };
                assert(flags@ == observed_exists(*obs));
                proof { Self::lemma_mysql_candidates(); }
                info.config_file = match Self::find_config_file(&["/etc/mysql/my.cnf", "/etc/mysql/mysql.cnf", "/etc/my.cnf"], flags) {
                    Some(c) => c,
                    None => String::from_str("/etc/mysql/my.cnf"),
                };
                Step::Done(info)
            },
        }
    }

    proof fn lemma_mariadb_candidates()
        ensures
            seq!["/etc/mysql/mariadb.cnf", "/etc/mysql/my.cnf", "/etc/my.cnf.d/server.cnf", "/etc/my.cnf"].map_values(|p: &str| p@)
                == mariadb_config_candidates(),
    {
        assert(seq!["/etc/mysql/mariadb.cnf", "/etc/mysql/my.cnf", "/etc/my.cnf.d/server.cnf", "/etc/my.cnf"].map_values(|p: &str| p@)
            =~= mariadb_config_candidates());
    }

    proof fn lemma_mysql_candidates()
        ensures
            seq!["/etc/mysql/my.cnf", "/etc/mysql/mysql.cnf", "/etc/my.cnf"].map_values(|p: &str| p@) == mysql_config_candidates(),
    {
        assert(seq!["/etc/mysql/my.cnf", "/etc/mysql/mysql.cnf", "/etc/my.cnf"].map_values(|p: &str| p@) =~= mysql_config_candidates());
    }
}

/// The version that a detection carries forward is the one its `--version`
/// output names: when the MariaDB client or server, or the MySQL client (not
/// a MariaDB in disguise), printed something, the version is what
/// `parse_version` makes of it, never a fallback; the fallback
/// `MariaDB (version unknown)` is taken only when neither MariaDB program
/// printed anything.
pub proof fn lemma_detect_version_from_output(q: DetectQuery, obs: Observation, res: Step<DetectQuery, DatabaseInfo>)
    requires
        detect_advance_spec(q, obs, res),
        q.stage == DetectStage::MariaDbClientVersion || q.stage == DetectStage::MariaDbServerVersion
            || q.stage == DetectStage::MySqlVersion,
    ensures
        observed_stdout(obs) matches Some(o) ==> {
            &&& spec_parse_version(o) is Some
            &&& (q.stage != DetectStage::MySqlVersion || !contains(o, "MariaDB"@)) ==>
                    (res matches Step::Need(q2, _) && q2.info.version@ == spec_parse_version(o).unwrap())
        },
        (q.stage == DetectStage::MariaDbServerVersion && observed_stdout(obs) is None) ==>
            (res matches Step::Need(q2, _) && q2.info.version@ == "MariaDB (version unknown)"@),
        (q.stage == DetectStage::MariaDbClientVersion && observed_stdout(obs) is None) ==>
            (res matches Step::Need(q2, _) && q2.info.version@ == q.info.version@
                && q2.stage == DetectStage::MariaDbServerVersion),
{
    if let Observation::Command(r) = obs {
        lemma_stdout_text_trimmed(r);
    }
}

/// Every step of a detection carries a non-zero port, and so does its result.
pub open spec fn detect_port_ok(res: Step<DetectQuery, DatabaseInfo>) -> bool {
    match res {
        Step::Need(q, _) => q.info.port > 0,
        Step::Done(i) => i.port > 0,
    }
}

/// The first step of a detection has a non-zero port.
pub proof fn lemma_detect_start_port(p: ProbesView, res: Step<DetectQuery, DatabaseInfo>)
    requires
        detect_start_spec(p, res),
    ensures
        detect_port_ok(res),
{
}

/// Each further step keeps the port non-zero: a detection never reports port 0.
pub proof fn lemma_detect_advance_port(q: DetectQuery, obs: Observation, res: Step<DetectQuery, DatabaseInfo>)
    requires
        q.info.port > 0,
        detect_advance_spec(q, obs, res),
    ensures
        detect_port_ok(res),
{
    let out = observed_stdout(obs);
    if let Some(o) = out {
        lemma_extract_defaults_port(o);
    }
}

} // verus!
