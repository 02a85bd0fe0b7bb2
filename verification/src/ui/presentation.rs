use vstd::prelude::*;
use crate::database::detector::DatabaseType;
use crate::system::service::{state_name, ServiceState};
use crate::text::{
    chars_of, contains, contains_chars, decimal, decimal_chars, join, join_chars, lines, split_lines,
    string_of, trim, trim_chars, views,
};

verus! {

/// The label of a status badge: `● <state>`.
pub open spec fn badge_label(state: ServiceState) -> Seq<char> {
    "● "@ + state_name(state)
}

/// The state shown for the local phpMyAdmin server.
pub open spec fn spec_phpmyadmin_state(installed: bool, running: bool) -> ServiceState {
    if !installed {
        ServiceState::Unknown
    } else if running {
        ServiceState::Running
    } else {
        ServiceState::Stopped
    }
}

/// Which of the start, stop and restart buttons can be pressed.
#[derive(Debug, Clone, Copy, PartialEq, Eq, Structural)]
pub struct ActionButtons {
    pub start: bool,
    pub stop: bool,
    pub restart: bool,
}

/// The text a string is compared in when logs are filtered (`str::to_lowercase`).
pub uninterp spec fn spec_lowercase(s: Seq<char>) -> Seq<char>;

/// `str::to_lowercase`: the Unicode lower-case mapping of a text. Stated: the
/// result is a function of the text alone; the mapping itself is not written out.
#[verifier::external_body]
fn lowercase(s: &str) -> (res: String)
    ensures
        res@ == spec_lowercase(s@),
{
    s.to_lowercase()
}

/// The lines that contain the query, both compared in lower case.
pub open spec fn matching_lines(ls: Seq<Seq<char>>, query: Seq<char>) -> Seq<Seq<char>>
    decreases ls.len(),
{
    if ls.len() == 0 {
        seq![]
    } else {
        let prev = matching_lines(ls.drop_last(), query);
        if contains(spec_lowercase(ls.last()), spec_lowercase(query)) {
            prev.push(ls.last())
        } else {
            prev
        }
    }
}

/// The log text shown for a search query: everything when the query is
/// blank, else the matching lines joined by `\n`.
pub open spec fn spec_filter_log(raw: Seq<char>, query: Seq<char>) -> Seq<char> {
    if trim(query).len() == 0 {
        raw
    } else {
        join(matching_lines(lines(raw), query), "\n"@)
    }
}

/// A line matches a search query when its lower-case form contains the
/// query's lower-case form.
pub open spec fn line_matches(query: Seq<char>) -> spec_fn(Seq<char>) -> bool {
    |l: Seq<char>| contains(spec_lowercase(l), spec_lowercase(query))
}

/// `matching_lines` keeps exactly the lines that match, in order.
proof fn lemma_matching_lines_filter(ls: Seq<Seq<char>>, query: Seq<char>)
    ensures
        matching_lines(ls, query) == ls.filter(line_matches(query)),
    decreases ls.len(),
{
    reveal(Seq::filter);
    if ls.len() > 0 {
        lemma_matching_lines_filter(ls.drop_last(), query);
    }
}

/// The log shown for a search query: everything for a blank query; else
/// every line of the raw text that matches the query (see `line_matches`),
/// all of them, in their order, joined by `\n`, and no other line.
pub proof fn lemma_filter_log_keeps_matching_lines(raw: Seq<char>, query: Seq<char>)
    ensures
        trim(query).len() == 0 ==> spec_filter_log(raw, query) == raw,
        trim(query).len() > 0 ==> spec_filter_log(raw, query)
            == join(lines(raw).filter(line_matches(query)), "\n"@),
        forall|i: int| 0 <= i < lines(raw).len() && line_matches(query)(#[trigger] lines(raw)[i])
            ==> lines(raw).filter(line_matches(query)).contains(lines(raw)[i]),
        forall|l: Seq<char>| #[trigger] lines(raw).filter(line_matches(query)).contains(l)
            ==> lines(raw).contains(l) && line_matches(query)(l),
{
    lemma_matching_lines_filter(lines(raw), query);
    assert forall|i: int| 0 <= i < lines(raw).len() && line_matches(query)(#[trigger] lines(raw)[i])
        implies lines(raw).filter(line_matches(query)).contains(lines(raw)[i]) by {
        lines(raw).lemma_filter_contains(line_matches(query), i);
    }
    assert forall|l: Seq<char>| #[trigger] lines(raw).filter(line_matches(query)).contains(l)
        implies lines(raw).contains(l) && line_matches(query)(l) by {
        lines(raw).lemma_filter_contains_rev(line_matches(query), l);
    }
}

/// The connection guide of the server page.
pub open spec fn spec_connection_guide(port: u16, socket: Seq<char>) -> Seq<char> {
    "Koneksi via Terminal CLI:\n  mariadb -h 127.0.0.1 -P "@ + decimal(port as nat)
        + " -u root -p\natau via UNIX socket:\n  mariadb -S "@ + socket
        + "\n\nURL Koneksi Aplikasi (JDBC / PDO):\n  mysql://localhost:"@ + decimal(port as nat) + "/your_database"@
}

pub struct Presentation;

impl Presentation {
    /// The label of a status badge.
    pub fn badge_label(state: ServiceState) -> (res: String)
        ensures
            res@ == badge_label(state),
    {
        let mut s = String::from_str("● ");
        s.append(state.as_str());
        s
    }

    /// The mark of a detection row (`✓` or `✕`) and its CSS class.
    pub fn detection_mark(detected: bool) -> (res: (&'static str, &'static str))
        ensures
            detected ==> res.0@ == "✓"@ && res.1@ == "status-running"@,
            !detected ==> res.0@ == "✕"@ && res.1@ == "status-error"@,
    {
        if detected {
            ("✓", "status-running")
        } else {
            ("✕", "status-error")
        }
    }

    /// The state shown for the local phpMyAdmin server: unknown when it is not
    /// installed, else running or stopped.
    pub fn phpmyadmin_state(installed: bool, running: bool) -> (res: ServiceState)
        ensures
            res == spec_phpmyadmin_state(installed, running),
    {
        if !installed {
            ServiceState::Unknown
        } else if running {
            ServiceState::Running
        } else {
            ServiceState::Stopped
        }
    }

    /// The database action buttons for a state: a running server cannot be
    /// started, a stopped one cannot be stopped or restarted, otherwise all
    /// can be pressed.
    pub fn action_buttons(state: ServiceState) -> (res: ActionButtons)
        ensures
            res.start == (state != ServiceState::Running),
            res.stop == (state != ServiceState::Stopped),
            res.restart == (state != ServiceState::Stopped),
    {
        match state {
            ServiceState::Running => ActionButtons { start: false, stop: true, restart: true },
            ServiceState::Stopped => ActionButtons { start: true, stop: false, restart: false },
            _ => ActionButtons { start: true, stop: true, restart: true },
        }
    }

    /// The badge of the root account check: its label and CSS class.
    pub fn root_auth_badge(root_ok: bool) -> (res: (&'static str, &'static str))
        ensures
            root_ok ==> res.0@ == "● Root Password Kosong Aktif"@ && res.1@ == "status-running"@,
            !root_ok ==> res.0@ == "● Perlu Konfigurasi Root"@ && res.1@ == "status-starting"@,
    {
        if root_ok {
            ("● Root Password Kosong Aktif", "status-running")
        } else {
            ("● Perlu Konfigurasi Root", "status-starting")
        }
    }

    /// The label of the phpMyAdmin server button.
    pub fn server_button_label(running: bool) -> (res: &'static str)
        ensures
            running ==> res@ == "Stop Server"@,
            !running ==> res@ == "Start Server"@,
    {
        if running {
            "Stop Server"
        } else {
            "Start Server"
        }
    }

    /// The detection rows of the dashboard: text and whether it was detected.
    pub fn detection_rows(db_type: DatabaseType, php_installed: bool, pma_installed: bool) -> (res: Vec<(&'static str, bool)>)
        ensures
            res@.len() == 5,
            res@[0].1 == (db_type == DatabaseType::MariaDB),
            res@[0].0@ == (if db_type == DatabaseType::MariaDB { "MariaDB Server Terdeteksi"@ } else { "MariaDB Tidak Terpasang"@ }),
            res@[1].1 == (db_type == DatabaseType::MySQL),
            res@[1].0@ == (if db_type == DatabaseType::MySQL { "MySQL Server Terdeteksi"@ } else { "MySQL Tidak Terpasang"@ }),
            res@[2].1 && res@[2].0@ == "systemd Service Manager Terdeteksi"@,
            res@[3].1 == php_installed,
            res@[3].0@ == (if php_installed { "Runtime PHP CLI Terdeteksi"@ } else { "Runtime PHP Tidak Ditemukan"@ }),
            res@[4].1 == pma_installed,
            res@[4].0@ == (if pma_installed { "phpMyAdmin Terpasang"@ } else { "phpMyAdmin Belum Dipasang"@ }),
    {
        let has_mariadb = db_type == DatabaseType::MariaDB;
        let has_mysql = db_type == DatabaseType::MySQL;
        let mut rows: Vec<(&'static str, bool)> = Vec::new();
        rows.push((if has_mariadb { "MariaDB Server Terdeteksi" } else { "MariaDB Tidak Terpasang" }, has_mariadb));
        rows.push((if has_mysql { "MySQL Server Terdeteksi" } else { "MySQL Tidak Terpasang" }, has_mysql));
        rows.push(("systemd Service Manager Terdeteksi", true));
        rows.push((if php_installed { "Runtime PHP CLI Terdeteksi" } else { "Runtime PHP Tidak Ditemukan" }, php_installed));
        rows.push((if pma_installed { "phpMyAdmin Terpasang" } else { "phpMyAdmin Belum Dipasang" }, pma_installed));
        rows
    }

    /// The connection guide of the server page.
    pub fn connection_guide(port: u16, socket: &str) -> (res: String)
        ensures
            res@ == spec_connection_guide(port, socket@),
    {
        let p = string_of(&decimal_chars(port as u64));
        let mut s = String::from_str("Koneksi via Terminal CLI:\n  mariadb -h 127.0.0.1 -P ");
        s.append(p.as_str());
        s.append(" -u root -p\natau via UNIX socket:\n  mariadb -S ");
        s.append(socket);
        s.append("\n\nURL Koneksi Aplikasi (JDBC / PDO):\n  mysql://localhost:");
        s.append(p.as_str());
        s.append("/your_database");
        s
    }

    /// The log text shown for a search query (see `spec_filter_log`).
    pub fn filter_log(raw: &str, query: &str) -> (res: String)
        ensures
            res@ == spec_filter_log(raw@, query@),
    {
        if trim_chars(&chars_of(query)).len() == 0 {
            return String::from_str(raw);
        }
        let q = chars_of(lowercase(query).as_str());
        let ls = split_lines(&chars_of(raw));
        let mut kept: Vec<Vec<char>> = Vec::new();
        let mut i: usize = 0;
        assert(views(ls@).take(0) =~= Seq::<Seq<char>>::empty());
        while i < ls.len()
            invariant
                i <= ls.len(),
                q@ == spec_lowercase(query@),
                views(kept@) == matching_lines(views(ls@).take(i as int), query@),
            decreases ls.len() - i,
        {
            let ghost pre = views(ls@).take(i + 1);
            assert(pre.drop_last() =~= views(ls@).take(i as int));
            assert(pre.last() == ls@[i as int]@);
            let line = string_of(&ls[i]);
            let lower = chars_of(lowercase(line.as_str()).as_str());
            if contains_chars(&lower, &q) {
                let ghost before = kept@;
                let l = ls[i].clone();
                kept.push(l);
                assert(views(kept@) =~= views(before).push(l@));
            }
            i += 1;
        }
        assert(views(ls@).take(ls.len() as int) =~= views(ls@));
        string_of(&join_chars(&kept, &chars_of("\n")))
    }
}

} // verus!
