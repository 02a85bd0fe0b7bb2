use mysqldesk::config::settings::{custom_path_from_entry, theme_at, ColorSchemeChoice};
use mysqldesk::config::AppSettings;

#[test]
fn test_default_settings() {
    let settings = AppSettings::default();
    assert_eq!(settings.db_port, 3306);
    assert_eq!(settings.phpmyadmin_port, 8080);
    assert_eq!(settings.phpmyadmin_host, "127.0.0.1");
    assert_eq!(settings.theme, "system");
    assert_eq!(settings.auto_refresh_interval_secs, 3);
    assert!(settings.custom_php_path.is_none());
    assert!(settings.custom_pma_path.is_none());
}

#[test]
fn theme_choice_roundtrip() {
    let mut s = AppSettings::default();
    for (theme, index, scheme) in [
        ("dark", 1, ColorSchemeChoice::ForceDark),
        ("light", 2, ColorSchemeChoice::ForceLight),
        ("system", 0, ColorSchemeChoice::Default),
        ("neon", 0, ColorSchemeChoice::Default),
    ] {
        s.theme = theme.to_string();
        assert_eq!(s.theme_index(), index);
        assert_eq!(s.color_scheme(), scheme);
    }
    assert_eq!(theme_at(1), "dark");
    assert_eq!(theme_at(2), "light");
    assert_eq!(theme_at(0), "system");
    assert_eq!(theme_at(7), "system");
}

#[test]
fn settings_paths_and_entries() {
    assert_eq!(AppSettings::settings_file(Some("/home/a/.config".to_string())), "/home/a/.config/mysqldesk/settings.json");
    assert_eq!(AppSettings::settings_file(Some("/cfg/".to_string())), "/cfg/mysqldesk/settings.json");
    assert_eq!(AppSettings::settings_file(None), "./mysqldesk/settings.json");
    assert!(AppSettings::config_path().ends_with("mysqldesk/settings.json"));
    assert_eq!(custom_path_from_entry("   "), None);
    assert_eq!(custom_path_from_entry(" /usr/bin/php8.2 "), Some("/usr/bin/php8.2".to_string()));
    let mut s = AppSettings::default();
    s.auto_refresh_interval_secs = 0;
    assert_eq!(s.refresh_interval(), 1);
    s.auto_refresh_interval_secs = 9;
    assert_eq!(s.refresh_interval(), 9);
}
