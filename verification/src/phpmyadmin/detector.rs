use vstd::prelude::*;
use crate::database::detector::first_existing;
use crate::system::process::{
    args1, is_run, observed_stdout, opt_str, opt_view, probe_matches, run_probe, strings, Observation, Probe,
    ProbeSpec, SafeCommand, Step, found, observed_found, which_probe,
};
use crate::text::{
    chars_of, contains, contains_chars, lines, path_join, path_join_str, split_char, split_lines,
    split_on_char, starts_with, starts_with_chars, string_of, sub_chars, trim, trim_chars, views,
};

verus! {

/// What was found out about PHP and phpMyAdmin.
#[derive(Debug, Clone)]
pub struct PhpMyAdminInfo {
    pub php_installed: bool,
    pub php_version: String,
    pub php_extensions_ok: bool,
    pub missing_extensions: Vec<String>,
    pub pma_installed: bool,
    pub pma_version: Option<String>,
    pub pma_path: Option<String>,
}

/// The content of a `PhpMyAdminInfo`.
pub struct PhpMyAdminInfoView {
    pub php_installed: bool,
    pub php_version: Seq<char>,
    pub php_extensions_ok: bool,
    pub missing_extensions: Seq<Seq<char>>,
    pub pma_installed: bool,
    pub pma_version: Option<Seq<char>>,
    pub pma_path: Option<Seq<char>>,
}

impl View for PhpMyAdminInfo {
    type V = PhpMyAdminInfoView;

    open spec fn view(&self) -> PhpMyAdminInfoView {
        PhpMyAdminInfoView {
            php_installed: self.php_installed,
            php_version: self.php_version@,
            php_extensions_ok: self.php_extensions_ok,
            missing_extensions: strings(self.missing_extensions@),
            pma_installed: self.pma_installed,
            pma_version: opt_view(self.pma_version),
            pma_path: opt_view(self.pma_path),
        }
    }
}

/// The information before anything is found.
pub open spec fn default_pma_info() -> PhpMyAdminInfoView {
    PhpMyAdminInfoView {
        php_installed: false,
        php_version: "Not installed"@,
        php_extensions_ok: false,
        missing_extensions: Seq::empty(),
        pma_installed: false,
        pma_version: None,
        pma_path: None,
    }
}

impl Default for PhpMyAdminInfo {
    fn default() -> (res: Self)
        ensures
            res@ == default_pma_info(),
    {
        let res = PhpMyAdminInfo {
            php_installed: false,
            php_version: String::from_str("Not installed"),
            php_extensions_ok: false,
            missing_extensions: Vec::new(),
            pma_installed: false,
            pma_version: None,
            pma_path: None,
        };
        assert(strings(res.missing_extensions@) =~= Seq::<Seq<char>>::empty());
        res
    }
}

/// The PHP extensions that phpMyAdmin needs.
pub open spec fn required_extensions() -> Seq<Seq<char>> {
    seq!["mysqli"@, "mbstring"@, "session"@, "json"@]
}

/// The required extensions that the `php -m` output does not mention, in order.
pub open spec fn missing_extensions(modules: Seq<char>, reqs: Seq<Seq<char>>) -> Seq<Seq<char>>
    decreases reqs.len(),
{
    if reqs.len() == 0 {
        seq![]
    } else {
        let prev = missing_extensions(modules, reqs.drop_last());
        if contains(modules, reqs.last()) {
            prev
        } else {
            prev.push(reqs.last())
        }
    }
}

/// An extension is reported missing exactly when it is required and the
/// module list does not mention it; nothing is missing exactly when every
/// required extension is mentioned.
pub proof fn lemma_missing_extensions(modules: Seq<char>, reqs: Seq<Seq<char>>)
    ensures
        forall|r: Seq<char>| #[trigger] missing_extensions(modules, reqs).contains(r)
            <==> (reqs.contains(r) && !contains(modules, r)),
        (missing_extensions(modules, reqs).len() == 0)
            <==> (forall|i: int| 0 <= i < reqs.len() ==> contains(modules, #[trigger] reqs[i])),
    decreases reqs.len(),
{
    if reqs.len() > 0 {
        let pre = reqs.drop_last();
        lemma_missing_extensions(modules, pre);
        let prev = missing_extensions(modules, pre);
        assert(reqs =~= pre.push(reqs.last()));
        assert forall|r: Seq<char>| #[trigger] missing_extensions(modules, reqs).contains(r)
            <==> (reqs.contains(r) && !contains(modules, r)) by {
            if reqs.contains(r) {
                let k = choose|k: int| 0 <= k < reqs.len() && reqs[k] == r;
                if k < reqs.len() - 1 {
                    assert(pre[k] == r);
                }
            }
            if pre.contains(r) {
                let k = choose|k: int| 0 <= k < pre.len() && pre[k] == r;
                assert(reqs[k] == r);
            }
            if !contains(modules, reqs.last()) {
                let cur = prev.push(reqs.last());
                if cur.contains(r) {
                    let k = choose|k: int| 0 <= k < cur.len() && cur[k] == r;
                    if k < prev.len() {
                        assert(prev[k] == r);
                    }
                }
                if prev.contains(r) {
                    let k = choose|k: int| 0 <= k < prev.len() && prev[k] == r;
                    assert(cur[k] == r);
                }
                assert(cur[prev.len() as int] == reqs.last());
            }
        }
        if !contains(modules, reqs.last()) {
            assert(!contains(modules, reqs[reqs.len() - 1]));
        } else {
            assert((forall|i: int| 0 <= i < reqs.len() ==> contains(modules, #[trigger] reqs[i]))
                <==> (forall|i: int| 0 <= i < pre.len() ==> contains(modules, #[trigger] pre[i]))) by {
                assert forall|i: int| 0 <= i < pre.len() implies pre[i] == reqs[i] by {}
            }
        }
    }
}

/// After the module step of a detection that got `php -m` output, the PHP
/// extensions count as complete exactly when `mysqli`, `mbstring`, `session`
/// and `json` all occur in that output, which is exactly when no extension
/// is listed as missing; an extension is listed as missing exactly when it
/// is one of those four and does not occur in the output.
pub proof fn lemma_modules_step(q: PmaQuery, obs: Observation, res: Step<PmaQuery, PhpMyAdminInfo>)
    requires
        q.stage == PmaStage::PhpModules,
        pma_advance_spec(q, obs, res),
        observed_stdout(obs) is Some,
    ensures
        res matches Step::Need(q2, _) && {
            let m = observed_stdout(obs).unwrap();
            &&& q2.info@.php_extensions_ok == (contains(m, "mysqli"@) && contains(m, "mbstring"@)
                    && contains(m, "session"@) && contains(m, "json"@))
            &&& q2.info@.php_extensions_ok == (q2.info@.missing_extensions.len() == 0)
            &&& forall|r: Seq<char>| #[trigger] q2.info@.missing_extensions.contains(r)
                    <==> (required_extensions().contains(r) && !contains(m, r))
        },
{
    let m = observed_stdout(obs).unwrap();
    lemma_missing_extensions(m, required_extensions());
    let reqs = required_extensions();
    assert(reqs[0] == "mysqli"@ && reqs[1] == "mbstring"@ && reqs[2] == "session"@ && reqs[3] == "json"@);
}

/// The directories searched for phpMyAdmin, in order: the custom one, the
/// application's own, then the distribution locations.
pub open spec fn pma_candidates(custom: Option<Seq<char>>, local: Seq<char>) -> Seq<Seq<char>> {
    let fixed = seq![local, "/usr/share/phpmyadmin"@, "/var/www/html/phpmyadmin"@, "/var/www/phpmyadmin"@];
    match custom {
        Some(c) => seq![c] + fixed,
        None => fixed,
    }
}

/// The `index.php` path of each candidate directory.
pub open spec fn index_paths(cands: Seq<Seq<char>>) -> Seq<Seq<char>> {
    cands.map_values(|c: Seq<char>| path_join(c, "index.php"@))
}

/// The version that a `RELEASE-DATE-<version>` entry name gives, from the first such entry.
pub open spec fn release_date_version(names: Seq<Seq<char>>) -> Option<Seq<char>>
    decreases names.len(),
{
    if names.len() == 0 {
        None
    } else if starts_with(names[0], "RELEASE-DATE-"@) {
        Some(names[0].skip("RELEASE-DATE-"@.len() as int))
    } else {
        release_date_version(names.drop_first())
    }
}

/// The version that `package.json` lines give: from the first line that
/// contains `"version":` and has at least four `"`-separated pieces, the fourth piece.
pub open spec fn package_json_version(ls: Seq<Seq<char>>) -> Option<Seq<char>>
    decreases ls.len(),
{
    if ls.len() == 0 {
        None
    } else if contains(ls[0], "\"version\":"@) && split_char(ls[0], '"').len() >= 4 {
        Some(split_char(ls[0], '"')[3])
    } else {
        package_json_version(ls.drop_first())
    }
}

/// Where a PHP/phpMyAdmin detection stands.
#[derive(Debug, Clone, Copy, PartialEq, Eq, Structural)]
pub enum PmaStage {
    /// The lookup of the PHP program in `$PATH`.
    PhpLookup,
    /// `php --version`.
    PhpVersion,
    /// `php -m`.
    PhpModules,
    /// Existence of each candidate's `index.php`.
    Directories,
    /// The entries of the phpMyAdmin directory.
    Listing,
    /// The content of its `package.json`.
    PackageJson,
}

/// A PHP/phpMyAdmin detection under way.
#[derive(Debug)]
pub struct PmaQuery {
    pub stage: PmaStage,
    pub info: PhpMyAdminInfo,
    /// The PHP program in use.
    pub php_bin: String,
    /// The candidate phpMyAdmin directories.
    pub candidates: Vec<String>,
}

/// `res` waits at `stage` with `info`, the same PHP program and candidates as `q`, for `probe`.
pub open spec fn pma_asks(
    res: Step<PmaQuery, PhpMyAdminInfo>,
    stage: PmaStage,
    info: PhpMyAdminInfoView,
    php_bin: Seq<char>,
    cands: Seq<Seq<char>>,
    probe: ProbeSpec,
) -> bool {
    match res {
        Step::Need(q, p) => q.stage == stage && q.info@ == info && q.php_bin@ == php_bin
            && strings(q.candidates@) == cands && probe_matches(p, probe),
        Step::Done(_) => false,
    }
}

/// `res` ends the detection with `info`.
pub open spec fn pma_finishes(res: Step<PmaQuery, PhpMyAdminInfo>, info: PhpMyAdminInfoView) -> bool {
    match res {
        Step::Done(i) => i@ == info,
        Step::Need(_, _) => false,
    }
}

/// `res` asks, with `info` so far, for the existence of the candidates' `index.php`.
pub open spec fn asks_directories(res: Step<PmaQuery, PhpMyAdminInfo>, info: PhpMyAdminInfoView, php_bin: Seq<char>, cands: Seq<Seq<char>>) -> bool {
    pma_asks(res, PmaStage::Directories, info, php_bin, cands, ProbeSpec::Paths(index_paths(cands)))
}

/// The PHP program in use: the configured one, else `php`.
pub open spec fn php_program(custom_php: Option<Seq<char>>) -> Seq<char> {
    match custom_php {
        Some(p) => p,
        None => "php"@,
    }
}

/// The step after learning whether the PHP program exists: asks for
/// `<php> --version` when it does, else goes straight to the phpMyAdmin directories.
pub open spec fn pma_begin_spec(php: Seq<char>, cands: Seq<Seq<char>>, php_found: bool, res: Step<PmaQuery, PhpMyAdminInfo>) -> bool {
    if php_found {
        pma_asks(res, PmaStage::PhpVersion, PhpMyAdminInfoView { php_installed: true, ..default_pma_info() },
            php, cands, ProbeSpec::Run(php, seq!["--version"@]))
    } else {
        asks_directories(res, default_pma_info(), php, cands)
    }
}

/// The detection's step once the PHP program's presence is known (see `pma_begin_spec`).
pub open spec fn pma_start_spec(
    custom_php: Option<Seq<char>>,
    custom_pma: Option<Seq<char>>,
    php_found: bool,
    local_dir: Seq<char>,
    res: Step<PmaQuery, PhpMyAdminInfo>,
) -> bool {
    pma_begin_spec(php_program(custom_php), pma_candidates(custom_pma, local_dir), php_found, res)
}

/// The next step of a detection after its probe was answered.
pub open spec fn pma_advance_spec(q: PmaQuery, obs: Observation, res: Step<PmaQuery, PhpMyAdminInfo>) -> bool {
    let info = q.info@;
    let php = q.php_bin@;
    let cands = strings(q.candidates@);
    match q.stage {
        PmaStage::PhpLookup => pma_begin_spec(php, cands, observed_found(obs, 0), res),
        PmaStage::PhpVersion => {
            let next = match observed_stdout(obs) {
                Some(o) => if lines(o).len() > 0 {
                    PhpMyAdminInfoView { php_version: trim(lines(o)[0]), ..info }
                } else {
                    info
                },
                None => info,
            };
            pma_asks(res, PmaStage::PhpModules, next, php, cands, ProbeSpec::Run(php, seq!["-m"@]))
        },
        PmaStage::PhpModules => {
            let next = match observed_stdout(obs) {
                Some(m) => PhpMyAdminInfoView {
                    php_extensions_ok: missing_extensions(m, required_extensions()).len() == 0,
                    missing_extensions: missing_extensions(m, required_extensions()),
                    ..info
                },
                None => info,
            };
            asks_directories(res, next, php, cands)
        },
        PmaStage::Directories => {
            let flags = match obs {
                Observation::Exists(v) => v@,
                _ => Seq::<bool>::empty(),
            };
            match first_existing(cands, flags) {
                Some(dir) => match res {
                    Step::Need(q2, p) => q2.stage == PmaStage::Listing
                        && q2.info@ == (PhpMyAdminInfoView { pma_installed: true, pma_path: Some(dir), ..info })
                        && q2.php_bin@ == php && strings(q2.candidates@) == cands
                        && (p matches Probe::ListDir(d) && d@ == dir),
                    Step::Done(_) => false,
                },
                None => pma_finishes(res, info),
            }
        },
        PmaStage::Listing => {
            let names = match obs {
                Observation::Listing(Some(v)) => strings(v@),
                _ => Seq::<Seq<char>>::empty(),
            };
            match release_date_version(names) {
                Some(v) => pma_finishes(res, PhpMyAdminInfoView { pma_version: Some(v), ..info }),
                None => match info.pma_path {
                    Some(dir) => match res {
                        Step::Need(q2, p) => q2.stage == PmaStage::PackageJson && q2.info@ == info
                            && q2.php_bin@ == php && strings(q2.candidates@) == cands
                            && (p matches Probe::ReadFile(f) && f@ == path_join(dir, "package.json"@)),
                        Step::Done(_) => false,
                    },
                    None => pma_finishes(res, PhpMyAdminInfoView { pma_version: Some("5.x"@), ..info }),
                },
            }
        },
        PmaStage::PackageJson => {
            let found = match obs {
                Observation::Contents(Some(c)) => package_json_version(lines(c@)),
                _ => None,
            };
            pma_finishes(res, PhpMyAdminInfoView {
                pma_version: Some(match found { Some(v) => v, None => "5.x"@ }),
                ..info
            })
        },
    }
}

/// The application's own phpMyAdmin directory under a data directory
/// (`.` when there is none): `<data>/mysqldesk/phpmyadmin`.
pub open spec fn local_pma_dir_spec(data_dir: Option<Seq<char>>) -> Seq<char> {
    path_join(path_join(match data_dir { Some(d) => d, None => "."@ }, "mysqldesk"@), "phpmyadmin"@)
}

/// The user's data directory as text (`dirs::data_dir`), if it is known.
/// It depends on the environment, so nothing is stated of it.
#[verifier::external_body]
fn data_dir() -> Option<String> {
    match dirs::data_dir() {
        Some(p) => Some(p.to_string_lossy().to_string()),
        None => None,
    }
}

pub struct PhpMyAdminDetector;

impl PhpMyAdminDetector {
    /// The application's own phpMyAdmin directory under a data directory
    /// (`.` when there is none).
    pub fn local_pma_dir(data_dir: Option<String>) -> (res: String)
        ensures
            res@ == local_pma_dir_spec(opt_view(data_dir)),
    {
        let base = match data_dir {
            Some(d) => d,
            None => String::from_str("."),
        };
        let app = path_join_str(base.as_str(), "mysqldesk");
        path_join_str(app.as_str(), "phpmyadmin")
    }

    /// The application's own phpMyAdmin directory (see `local_pma_dir`).
    pub fn default_local_pma_dir() -> (res: String)
        ensures
            exists|d: Option<Seq<char>>| res@ == #[trigger] local_pma_dir_spec(d),
    {
        let d = data_dir();
        let ghost gd = opt_view(d);
        let res = Self::local_pma_dir(d);
        assert(res@ == local_pma_dir_spec(gd));
        res
    }

    /// Starts detecting PHP and phpMyAdmin: finds the application's
    /// phpMyAdmin directory and asks for the PHP program (the configured one,
    /// else `php`) to be looked up in `$PATH`.
    pub fn detect(custom_php: Option<&str>, custom_pma: Option<&str>) -> (res: Step<PmaQuery, PhpMyAdminInfo>)
        ensures
            exists|data: Option<Seq<char>>| #[trigger] pma_asks(res, PmaStage::PhpLookup, default_pma_info(),
                php_program(opt_str(custom_php)),
                pma_candidates(opt_str(custom_pma), local_pma_dir_spec(data)),
                ProbeSpec::Which(seq![php_program(opt_str(custom_php))])),
    {
        let php_bin = match custom_php {
            Some(p) => p,
            None => "php",
        };
        let local = Self::default_local_pma_dir();
        let ghost data = choose|d: Option<Seq<char>>| local@ == #[trigger] local_pma_dir_spec(d);
        let cands = Self::candidates(custom_pma, &local);
        let probe = which_probe(args1(php_bin));
        let res = Step::Need(
            PmaQuery { stage: PmaStage::PhpLookup, info: PhpMyAdminInfo::default(), php_bin: String::from_str(php_bin), candidates: cands },
            probe,
        );
        assert(pma_asks(res, PmaStage::PhpLookup, default_pma_info(), php_program(opt_str(custom_php)),
            pma_candidates(opt_str(custom_pma), local_pma_dir_spec(data)),
            ProbeSpec::Which(seq![php_program(opt_str(custom_php))])));
        res
    }

    /// The candidate directories (see `pma_candidates`).
    fn candidates(custom_pma: Option<&str>, local: &String) -> (res: Vec<String>)
        ensures
            strings(res@) == pma_candidates(opt_str(custom_pma), local@),
    {
        let mut v: Vec<String> = Vec::new();
        match custom_pma {
            Some(c) => v.push(String::from_str(c)),
            None => {},
        }
        let ghost v0 = v@;
        v.push(local.clone());
        v.push(String::from_str("/usr/share/phpmyadmin"));
        v.push(String::from_str("/var/www/html/phpmyadmin"));
        v.push(String::from_str("/var/www/phpmyadmin"));
        assert(strings(v@) =~= pma_candidates(opt_str(custom_pma), local@)) by {
            assert(v@ =~= v0 + seq![v@[v0.len() as int], v@[v0.len() + 1 as int], v@[v0.len() + 2 as int], v@[v0.len() + 3 as int]]);
        }
        v
    }

    /// The probe for each candidate's `index.php`.
    fn index_probe(cands: &Vec<String>) -> (res: Probe)
        ensures
            probe_matches(res, ProbeSpec::Paths(index_paths(strings(cands@)))),
    {
        let mut paths: Vec<String> = Vec::new();
        let mut i: usize = 0;
        while i < cands.len()
            invariant
                i <= cands.len(),
                strings(paths@) == index_paths(strings(cands@)).take(i as int),
            decreases cands.len() - i,
        {
            let p = path_join_str(cands[i].as_str(), "index.php");
            let ghost before = paths@;
            paths.push(p);
            assert(strings(paths@) =~= strings(before).push(p@));
            assert(index_paths(strings(cands@)).take(i + 1) =~= index_paths(strings(cands@)).take(i as int).push(
                path_join(cands@[i as int]@, "index.php"@)));
            i += 1;
        }
        assert(index_paths(strings(cands@)).take(cands.len() as int) =~= index_paths(strings(cands@)));
        Probe::PathsExist(paths)
    }

    /// See `pma_start_spec`.
    pub fn detect_start(custom_php: Option<&str>, custom_pma: Option<&str>, php_found: bool, local_dir: &String) -> (res: Step<PmaQuery, PhpMyAdminInfo>)
        ensures
            pma_start_spec(
                opt_str(custom_php),
                opt_str(custom_pma),
                php_found, local_dir@, res),
    {
        let php_bin = match custom_php {
            Some(p) => p,
            None => "php",
        };
        let cands = Self::candidates(custom_pma, local_dir);
        Self::begin(String::from_str(php_bin), cands, php_found)
    }

    /// See `pma_begin_spec`.
    fn begin(php_bin: String, cands: Vec<String>, php_found: bool) -> (res: Step<PmaQuery, PhpMyAdminInfo>)
        ensures
            pma_begin_spec(php_bin@, strings(cands@), php_found, res),
    {
        let mut info = PhpMyAdminInfo::default();
        if php_found {
            info.php_installed = true;
            let probe = run_probe(php_bin.as_str(), args1("--version"));
            Step::Need(PmaQuery { stage: PmaStage::PhpVersion, info, php_bin, candidates: cands }, probe)
        } else {
            let probe = Self::index_probe(&cands);
            Step::Need(PmaQuery { stage: PmaStage::Directories, info, php_bin, candidates: cands }, probe)
        }
    }

    /// See `missing_extensions`.
    fn missing_of(modules: &String) -> (res: Vec<String>)
        ensures
            strings(res@) == missing_extensions(modules@, required_extensions()),
    {
        let m = chars_of(modules.as_str());
        let reqs: [&str; 4] = ["mysqli", "mbstring", "session", "json"];
        let ghost rv = seq!["mysqli"@, "mbstring"@, "session"@, "json"@];
        let mut missing: Vec<String> = Vec::new();
        let mut i: usize = 0;
        assert(rv.take(0) =~= Seq::<Seq<char>>::empty());
        while i < 4
            invariant
                i <= 4,
                m@ == modules@,
                rv == required_extensions(),
                forall|k: int| 0 <= k < 4 ==> #[trigger] reqs@[k]@ == rv[k],
                strings(missing@) == missing_extensions(modules@, rv.take(i as int)),
            decreases 4 - i,
        {
            let r = reqs[i];
            assert(rv.take(i + 1).drop_last() =~= rv.take(i as int));
            assert(rv.take(i + 1).last() == r@);
            if !contains_chars(&m, &chars_of(r)) {
                let ghost before = missing@;
                let item = String::from_str(r);
                missing.push(item);
                assert(strings(missing@) =~= strings(before).push(item@));
            }
            i += 1;
        }
        assert(rv.take(4) =~= rv);
        missing
    }

    /// The first `RELEASE-DATE-` entry's version (see `release_date_version`).
    fn release_date_of(names: &Vec<String>) -> (res: Option<String>)
        ensures
            opt_view(res) == release_date_version(strings(names@)),
    {
        let prefix = chars_of("RELEASE-DATE-");
        let mut i: usize = 0;
        assert(strings(names@).skip(0) =~= strings(names@));
        while i < names.len()
            invariant
                i <= names.len(),
                prefix@ == "RELEASE-DATE-"@,
                release_date_version(strings(names@).skip(i as int)) == release_date_version(strings(names@)),
            decreases names.len() - i,
        {
            let ghost rest = strings(names@).skip(i as int);
            assert(rest[0] == names@[i as int]@);
            assert(rest.drop_first() =~= strings(names@).skip(i + 1));
            let n = chars_of(names[i].as_str());
            if starts_with_chars(&n, &prefix) {
                let v = sub_chars(&n, prefix.len(), n.len());
                assert(v@ =~= n@.skip("RELEASE-DATE-"@.len() as int));
                return Some(string_of(&v));
            }
            i += 1;
        }
        assert(strings(names@).skip(names.len() as int) =~= Seq::<Seq<char>>::empty());
        None
    }

    /// The version in `package.json` text (see `package_json_version`).
    fn package_json_of(content: &String) -> (res: Option<String>)
        ensures
            opt_view(res) == package_json_version(lines(content@)),
    {
        let ls = split_lines(&chars_of(content.as_str()));
        let key = chars_of("\"version\":");
        let mut i: usize = 0;
        assert(views(ls@).skip(0) =~= views(ls@));
        while i < ls.len()
            invariant
                i <= ls.len(),
                key@ == "\"version\":"@,
                views(ls@) == lines(content@),
                package_json_version(views(ls@).skip(i as int)) == package_json_version(lines(content@)),
            decreases ls.len() - i,
        {
            let ghost rest = views(ls@).skip(i as int);
            assert(rest[0] == ls@[i as int]@);
            assert(rest.drop_first() =~= views(ls@).skip(i + 1));
            if contains_chars(&ls[i], &key) {
                let parts = split_on_char(&ls[i], '"');
                if parts.len() >= 4 {
                    assert(views(parts@)[3] == parts@[3]@);
                    return Some(string_of(&parts[3]));
                }
            }
            i += 1;
        }
        assert(views(ls@).skip(ls.len() as int) =~= Seq::<Seq<char>>::empty());
        None
    }

    /// See `pma_advance_spec`.
    pub fn detect_advance(q: PmaQuery, obs: &Observation) -> (res: Step<PmaQuery, PhpMyAdminInfo>)
        ensures
            pma_advance_spec(q, *obs, res),
    {
        let ghost gq = q;
        let mut info = q.info;
        let php_bin = q.php_bin;
        let cands = q.candidates;
        match q.stage {
            PmaStage::PhpLookup => Self::begin(php_bin, cands, found(obs, 0)),
            PmaStage::PhpVersion => {
                match SafeCommand::observed_stdout(obs) {
                    Some(o) => {
                        let ls = split_lines(&chars_of(o.as_str()));
                        if ls.len() > 0 {
                            assert(views(ls@)[0] == ls@[0]@);
                            info.php_version = string_of(&trim_chars(&ls[0]));
                        }
                    },
                    None => {},
                }
                let probe = run_probe(php_bin.as_str(), args1("-m"));
                Step::Need(PmaQuery { stage: PmaStage::PhpModules, info, php_bin, candidates: cands }, probe)
            },
            PmaStage::PhpModules => {
                match SafeCommand::observed_stdout(obs) {
                    Some(m) => {
                        let missing = Self::missing_of(&m);
                        info.php_extensions_ok = missing.len() == 0;
                        info.missing_extensions = missing;
                    },
                    None => {},
                }
                let probe = Self::index_probe(&cands);
                Step::Need(PmaQuery { stage: PmaStage::Directories, info, php_bin, candidates: cands }, probe)
            },
            PmaStage::Directories => {
                let empty: Vec<bool> = Vec::new();
                let flags = match obs {
                    Observation::Exists(v) => v,
                    _ => &empty,
                };
                let found = Self::first_existing_of(&cands, flags);
                match found {
                    Some(dir) => {
                        info.pma_installed = true;
                        info.pma_path = Some(dir.clone());
                        Step::Need(PmaQuery { stage: PmaStage::Listing, info, php_bin, candidates: cands }, Probe::ListDir(dir))
                    },
                    None => Step::Done(info),
                }
            },
            PmaStage::Listing => {
                let empty: Vec<String> = Vec::new();
                let names = match obs {
                    Observation::Listing(Some(v)) => v,
                    _ => &empty,
                };
                match Self::release_date_of(names) {
                    Some(v) => {
                        info.pma_version = Some(v);
                        Step::Done(info)
                    },
                    None => {
                        let pkg = match &info.pma_path {
                            Some(dir) => Some(path_join_str(dir.as_str(), "package.json")),
                            None => None,
                        };
                        match pkg {
                            Some(f) => Step::Need(PmaQuery { stage: PmaStage::PackageJson, info, php_bin, candidates: cands }, Probe::ReadFile(f)),
                            None => {
                                info.pma_version = Some(String::from_str("5.x"));
                                Step::Done(info)
                            },
                        }
                    },
                }
            },
            PmaStage::PackageJson => {
                let found = match obs {
                    Observation::Contents(Some(c)) => Self::package_json_of(c),
                    _ => None,
                };
                info.pma_version = match found {
                    Some(v) => Some(v),
                    None => Some(String::from_str("5.x")),
                };
                Step::Done(info)
            },
        }
    }

    /// The first candidate whose flag is set (see `first_existing`).
    fn first_existing_of(cands: &Vec<String>, flags: &Vec<bool>) -> (res: Option<String>)
        ensures
            opt_view(res) == first_existing(strings(cands@), flags@),
    {
        let ghost cs = strings(cands@);
        let mut i: usize = 0;
        assert(cs.skip(0) =~= cs);
        assert(flags@.skip(0) =~= flags@);
        while i < cands.len()
            invariant
                i <= cands.len(),
                cs == strings(cands@),
                first_existing(cs.skip(i as int), if i <= flags.len() { flags@.skip(i as int) } else { Seq::<bool>::empty() })
                    == first_existing(cs, flags@),
            decreases cands.len() - i,
        {
            let ghost fl = if i <= flags.len() { flags@.skip(i as int) } else { Seq::<bool>::empty() };
            let ghost rest = cs.skip(i as int);
            assert(rest[0] == cands@[i as int]@);
            assert(rest.drop_first() =~= cs.skip(i + 1));
            if i < flags.len() && flags[i] {
                assert(fl[0] == flags@[i as int]);
                return Some(cands[i].clone());
            }
            proof {
                if i < flags.len() {
                    assert(fl.drop_first() =~= flags@.skip(i + 1));
                } else if i == flags.len() {
                    assert(fl =~= Seq::<bool>::empty());
                }
            }
            i += 1;
        }
        assert(cs.skip(cands.len() as int) =~= Seq::<Seq<char>>::empty());
        None
    }
}

} // verus!
