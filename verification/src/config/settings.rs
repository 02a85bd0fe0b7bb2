use vstd::prelude::*;
use crate::system::process::opt_view;
use crate::text::{chars_of, path_join, path_join_str, string_of, trim, trim_chars};

verus! {

/// The application's preferences.
#[derive(Debug, Clone)]
pub struct AppSettings {
    pub db_port: u16,
    pub phpmyadmin_port: u16,
    pub phpmyadmin_host: String,
    /// `system`, `dark` or `light`.
    pub theme: String,
    pub auto_refresh_interval_secs: u64,
    pub custom_php_path: Option<String>,
    pub custom_pma_path: Option<String>,
}

impl Default for AppSettings {
    fn default() -> (res: Self)
        ensures
            res.db_port == 3306,
            res.phpmyadmin_port == 8080,
            res.phpmyadmin_host@ == "127.0.0.1"@,
            res.theme@ == "system"@,
            res.auto_refresh_interval_secs == 3,
            res.custom_php_path is None,
            res.custom_pma_path is None,
    {
        AppSettings {
            db_port: 3306,
            phpmyadmin_port: 8080,
            phpmyadmin_host: String::from_str("127.0.0.1"),
            theme: String::from_str("system"),
            auto_refresh_interval_secs: 3,
            custom_php_path: None,
            custom_pma_path: None,
        }
    }
}

/// The settings file under a configuration directory (`.` when there is
/// none): `<config>/mysqldesk/settings.json`.
pub open spec fn settings_file_spec(config_dir: Option<Seq<char>>) -> Seq<char> {
    path_join(path_join(match config_dir { Some(d) => d, None => "."@ }, "mysqldesk"@), "settings.json"@)
}

/// The colour scheme that a theme asks for.
#[derive(Debug, Clone, Copy, PartialEq, Eq, Structural)]
pub enum ColorSchemeChoice {
    /// Follow the system.
    Default,
    ForceDark,
    ForceLight,
}

/// The theme a stored value stands for: `dark`, `light`, anything else `system`.
pub open spec fn normalized_theme(theme: Seq<char>) -> Seq<char> {
    if theme == "dark"@ {
        "dark"@
    } else if theme == "light"@ {
        "light"@
    } else {
        "system"@
    }
}

/// Position of a theme in the theme list (system, dark, light).
pub open spec fn spec_theme_index(theme: Seq<char>) -> u32 {
    if theme == "dark"@ {
        1
    } else if theme == "light"@ {
        2
    } else {
        0
    }
}

/// The theme at a position of the theme list (an unknown position means system).
pub open spec fn spec_theme_at(index: u32) -> Seq<char> {
    if index == 1 {
        "dark"@
    } else if index == 2 {
        "light"@
    } else {
        "system"@
    }
}

/// The colour scheme of a theme.
pub open spec fn spec_color_scheme(theme: Seq<char>) -> ColorSchemeChoice {
    if theme == "dark"@ {
        ColorSchemeChoice::ForceDark
    } else if theme == "light"@ {
        ColorSchemeChoice::ForceLight
    } else {
        ColorSchemeChoice::Default
    }
}

/// The configuration directory as text (`dirs::config_dir`), if it is known.
/// It depends on the environment, so nothing is stated of it.
#[verifier::external_body]
fn config_dir() -> Option<String> {
    match dirs::config_dir() {
        Some(p) => Some(p.to_string_lossy().to_string()),
        None => None,
    }
}

/// `s` equals literal `lit`.
fn eq_lit(s: &str, lit: &str) -> (res: bool)
    ensures
        res == (s@ == lit@),
{
    crate::text::chars_eq(&chars_of(s), &chars_of(lit))
}

impl AppSettings {
    /// The settings file under a configuration directory (see `settings_file_spec`).
    pub fn settings_file(config_dir: Option<String>) -> (res: String)
        ensures
            res@ == settings_file_spec(opt_view(config_dir)),
    {
        let base = match config_dir {
            Some(d) => d,
            None => String::from_str("."),
        };
        let app = path_join_str(base.as_str(), "mysqldesk");
        path_join_str(app.as_str(), "settings.json")
    }

    /// Where the settings are stored (see `settings_file_spec`).
    pub fn config_path() -> (res: String)
        ensures
            exists|d: Option<Seq<char>>| res@ == #[trigger] settings_file_spec(d),
    {
        let d = config_dir();
        let ghost gd = opt_view(d);
        let res = Self::settings_file(d);
        assert(res@ == settings_file_spec(gd));
        res
    }

    /// Position of the saved theme in the theme list.
    pub fn theme_index(&self) -> (res: u32)
        ensures
            res == spec_theme_index(self.theme@),
    {
        let t = self.theme.as_str();
        if eq_lit(t, "dark") {
            1
        } else if eq_lit(t, "light") {
            2
        } else {
            0
        }
    }

    /// The colour scheme of the saved theme.
    pub fn color_scheme(&self) -> (res: ColorSchemeChoice)
        ensures
            res == spec_color_scheme(self.theme@),
    {
        let t = self.theme.as_str();
        if eq_lit(t, "dark") {
            ColorSchemeChoice::ForceDark
        } else if eq_lit(t, "light") {
            ColorSchemeChoice::ForceLight
        } else {
            ColorSchemeChoice::Default
        }
    }

    /// Takes the values of the settings form: the theme at the chosen
    /// position of the theme list, the ports, host and refresh interval as
    /// given, and the custom PHP path that the entry's text gives (see
    /// `custom_path_from_entry`); the custom phpMyAdmin path stays.
    pub fn apply_form(
        &mut self,
        theme_index: u32,
        db_port: u16,
        phpmyadmin_port: u16,
        phpmyadmin_host: String,
        refresh_secs: u64,
        php_path_entry: &str,
    )
        ensures
            final(self).theme@ == spec_theme_at(theme_index),
            final(self).db_port == db_port,
            final(self).phpmyadmin_port == phpmyadmin_port,
            final(self).phpmyadmin_host@ == phpmyadmin_host@,
            final(self).auto_refresh_interval_secs == refresh_secs,
            opt_view(final(self).custom_php_path)
                == (if trim(php_path_entry@).len() == 0 { None } else { Some(trim(php_path_entry@)) }),
            opt_view(final(self).custom_pma_path) == opt_view(old(self).custom_pma_path),
    {
        self.theme = String::from_str(theme_at(theme_index));
        self.db_port = db_port;
        self.phpmyadmin_port = phpmyadmin_port;
        self.phpmyadmin_host = phpmyadmin_host;
        self.auto_refresh_interval_secs = refresh_secs;
        self.custom_php_path = custom_path_from_entry(php_path_entry);
    }

    /// The interval of the status refresh, at least one second.
    pub fn refresh_interval(&self) -> (res: u64)
        ensures
            res == if self.auto_refresh_interval_secs >= 1 { self.auto_refresh_interval_secs } else { 1 },
    {
        if self.auto_refresh_interval_secs >= 1 {
            self.auto_refresh_interval_secs
        } else {
            1
        }
    }
}

/// The theme at a position of the theme list.
pub fn theme_at(index: u32) -> (res: &'static str)
    ensures
        res@ == spec_theme_at(index),
{
    if index == 1 {
        "dark"
    } else if index == 2 {
        "light"
    } else {
        "system"
    }
}

/// The custom PHP path that an entry's text gives: none when it is blank,
/// else the trimmed text.
pub fn custom_path_from_entry(text: &str) -> (res: Option<String>)
    ensures
        opt_view(res) == (if trim(text@).len() == 0 { None } else { Some(trim(text@)) }),
{
    let t = trim_chars(&chars_of(text));
    if t.len() == 0 {
        None
    } else {
        Some(string_of(&t))
    }
}

/// The three theme names differ from each other.
proof fn lemma_theme_names_distinct()
    ensures
        "dark"@ != "light"@,
        "dark"@ != "system"@,
        "light"@ != "system"@,
{
    assert("dark"@ != "light"@) by {
        reveal_strlit("dark");
        reveal_strlit("light");
        assert("dark"@.len() != "light"@.len());
    }
    assert("dark"@ != "system"@) by {
        reveal_strlit("dark");
        reveal_strlit("system");
        assert("dark"@.len() != "system"@.len());
    }
    assert("light"@ != "system"@) by {
        reveal_strlit("light");
        reveal_strlit("system");
        assert("light"@.len() != "system"@.len());
    }
}

/// Choosing the theme shown for a saved theme gives that theme back,
/// normalized: `dark` and `light` stay, anything else becomes `system`.
pub proof fn lemma_theme_roundtrip(theme: Seq<char>)
    ensures
        spec_theme_at(spec_theme_index(theme)) == normalized_theme(theme),
        spec_color_scheme(spec_theme_at(spec_theme_index(theme))) == spec_color_scheme(theme),
{
    lemma_theme_names_distinct();
}

/// Every position of the theme list is shown again after saving its theme.
pub proof fn lemma_theme_index_roundtrip(index: u32)
    requires
        index <= 2,
    ensures
        spec_theme_index(spec_theme_at(index)) == index,
{
    lemma_theme_names_distinct();
}

} // verus!
