use idlescreen::self_update::{parse_dnf_list_version, versions_equalish};

#[test]
fn parse_dnf5_list_available() {
    let text = "\
Installed packages
trance.x86_64 0.3.32-1 crateria

Available packages
trance.x86_64 0.3.29-1 crateria
trance.x86_64 0.3.33-1 crateria
";
    assert_eq!(
        parse_dnf_list_version(text, true).as_deref(),
        Some("0.3.33-1")
    );
    assert_eq!(
        parse_dnf_list_version(text, false).as_deref(),
        Some("0.3.32-1")
    );
}

#[test]
fn versions_equalish_ignores_arch() {
    assert!(versions_equalish("0.3.33-1", "0.3.33-1"));
    assert!(versions_equalish("0.3.33-1.x86_64", "0.3.33-1"));
    assert!(!versions_equalish("0.3.32-1", "0.3.33-1"));
}

#[test]
fn dnf_output_without_the_section_has_no_version() {
    let text = "Updating and loading repositories:\nRepositories loaded.\nInstalled packages\ntrance.x86_64 0.3.32-1 @System\n";
    assert_eq!(parse_dnf_list_version(text, true), None);
    assert_eq!(parse_dnf_list_version(text, false).as_deref(), Some("0.3.32-1"));
    assert_eq!(parse_dnf_list_version("", false), None);
}

#[test]
fn dnf_fields_may_be_separated_by_runs_of_spaces_and_tabs() {
    let text = "Available packages\n  trance.noarch \t 1.2.3-4.fc40\t repo\nlonely\n";
    assert_eq!(parse_dnf_list_version(text, true).as_deref(), Some("1.2.3-4.fc40"));
}

#[test]
fn versions_equalish_cases() {
    assert!(versions_equalish("1.2.3-4.fc40.x86_64", "1.2.3-4"));
    assert!(versions_equalish("1.2.3", "1.2.3"));
    assert!(!versions_equalish("1.2.3", "1.2.4"));
    assert!(!versions_equalish("1.2.3-1", "1.2.3-10"));
}
