use git_projects_core::l10n::{get_embedded_locale, locale_from_setting, DEFAULT_LOCALE};
use git_projects_core::{ScanConfig, NAME, VERSION};

#[test]
fn test_version_is_set() {
    assert!(!VERSION.is_empty());
    assert_eq!(NAME, "git-projects-core");
}

#[test]
fn test_default_locale() {
    assert_eq!(DEFAULT_LOCALE, "en");
}

#[test]
fn test_scan_config_default() {
    let config = ScanConfig::default();
    assert_eq!(config.max_depth, Some(3));
    assert!(!config.follow_symlinks);
    assert!(config.include_submodules);
    assert!(!config.root_paths.is_empty());
}

#[test]
fn locale_from_settings() {
    assert_eq!(locale_from_setting(Some("de_DE.UTF-8")), "de");
    assert_eq!(locale_from_setting(Some("en_US.UTF-8")), "en");
    assert_eq!(locale_from_setting(Some("fr")), "fr");
    assert_eq!(locale_from_setting(Some("PT_br")), "pt");
    assert_eq!(locale_from_setting(None), "en");
}

#[test]
fn no_embedded_locales() {
    assert_eq!(get_embedded_locale("en"), None);
    assert_eq!(get_embedded_locale("de"), None);
}
