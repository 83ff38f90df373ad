use driveguard::localization::Localization;

#[test]
fn english_texts_and_fallback() {
    let mut loc = Localization::new("en");
    assert_eq!(loc.get("app_name"), "DriveGuard");
    assert_eq!(loc.get("no_such_key"), "[Missing: no_such_key]");
    loc.set_locale("uk");
    assert_eq!(loc.current_locale, "uk");
    assert_eq!(loc.get("app_name"), "DriveGuard");
    loc.set_locale("fr");
    assert_eq!(loc.current_locale, "uk");
}

#[test]
fn unknown_locale_falls_back_to_english() {
    let loc = Localization::new("de");
    assert_eq!(loc.get("button_cancel"), "Cancel");
}

#[test]
fn placeholders_are_filled() {
    let loc = Localization::new("en");
    assert_eq!(loc.get_formatted("update_version_info", &["0.2.0", "0.1.0"]), "Version 0.2.0 is now available (you have 0.1.0)");
    assert_eq!(loc.get_formatted("backup_starting", &["E:"]), "Backup for drive E: is about to start");
    assert_eq!(loc.get_formatted("files_copied", &[]), "{0} files copied");
    assert_eq!(loc.get_formatted("files_copied", &["{1}", "3"]), "3 files copied");
}
