use guilauncher::feed::{
    check_self_update, find_update_asset, is_update_package, resolve_update_decision,
    update_outcome, Asset, Release, Unavailable, UpdateDecision, UpdateOutcome, PACKAGE_SUFFIX,
    PROGRAM_TOKEN,
};

fn asset(name: &str) -> Asset {
    Asset { name: name.to_string(), download_url: format!("https://example.invalid/{}", name) }
}

fn release(version: &str, names: &[&str]) -> Release {
    Release {
        version_name: version.to_string(),
        assets: names.iter().map(|n| asset(n)).collect(),
    }
}

#[test]
fn same_version_without_force_is_up_to_date() {
    let decision = resolve_update_decision("1.2.3", release("1.2.3", &["guilauncher.zip"]), false);
    assert_eq!(decision, UpdateDecision::UpToDate);
}

#[test]
fn same_version_with_force_updates() {
    let decision = resolve_update_decision("1.2.3", release("1.2.3", &["guilauncher.zip"]), true);
    assert_eq!(decision, UpdateDecision::UpdateTo(release("1.2.3", &["guilauncher.zip"])));
}

#[test]
fn different_version_updates_with_and_without_force() {
    for force in [false, true] {
        let decision = resolve_update_decision("1.2.3", release("1.2.4", &[]), force);
        assert_eq!(decision, UpdateDecision::UpdateTo(release("1.2.4", &[])));
    }
}

#[test]
fn whitespace_only_difference_updates() {
    let decision = resolve_update_decision("1.2.3", release("1.2.3 ", &[]), false);
    assert_eq!(decision, UpdateDecision::UpdateTo(release("1.2.3 ", &[])));
    let decision = resolve_update_decision(" 1.2.3", release("1.2.3", &[]), false);
    assert_eq!(decision, UpdateDecision::UpdateTo(release("1.2.3", &[])));
}

#[test]
fn versions_are_not_compared_by_meaning() {
    let older = resolve_update_decision("2.0.0", release("1.0.0", &[]), false);
    assert_eq!(older, UpdateDecision::UpdateTo(release("1.0.0", &[])));
    let prefixed = resolve_update_decision("1.0.0", release("v1.0.0", &[]), false);
    assert_eq!(prefixed, UpdateDecision::UpdateTo(release("v1.0.0", &[])));
    let cased = resolve_update_decision("1.0.0-RC", release("1.0.0-rc", &[]), false);
    assert_eq!(cased, UpdateDecision::UpdateTo(release("1.0.0-rc", &[])));
}

#[test]
fn empty_version_names_are_equal() {
    assert_eq!(resolve_update_decision("", release("", &[]), false), UpdateDecision::UpToDate);
}

#[test]
fn unavailable_feed_gives_no_decision() {
    assert_eq!(check_self_update(false, "1.0.0", Err(Unavailable)), None);
    assert_eq!(check_self_update(true, "1.0.0", Err(Unavailable)), None);
}

#[test]
fn available_feed_gives_the_decision() {
    assert_eq!(
        check_self_update(false, "1.0.0", Ok(release("1.0.0", &[]))),
        Some(UpdateDecision::UpToDate)
    );
    assert_eq!(
        check_self_update(true, "1.0.0", Ok(release("1.0.0", &[]))),
        Some(UpdateDecision::UpdateTo(release("1.0.0", &[])))
    );
    assert_eq!(
        check_self_update(false, "1.0.0", Ok(release("1.1.0", &[]))),
        Some(UpdateDecision::UpdateTo(release("1.1.0", &[])))
    );
}

#[test]
fn package_rule_constants() {
    assert_eq!(PROGRAM_TOKEN, "guilauncher");
    assert_eq!(PACKAGE_SUFFIX, ".zip");
}

#[test]
fn update_package_needs_token_and_suffix() {
    assert!(is_update_package("guilauncher.zip"));
    assert!(is_update_package("rlbot-guilauncher-x86_64.zip"));
    assert!(is_update_package("guilauncher.ZIP"));
    assert!(is_update_package("guilauncher.Zip"));
    assert!(!is_update_package("guilauncher.exe"));
    assert!(!is_update_package("guilauncher.tar.xz"));
    assert!(!is_update_package("guilauncher"));
    assert!(!is_update_package("launcher.zip"));
    assert!(!is_update_package("GUILAUNCHER.zip"));
    assert!(!is_update_package("guilauncher.zip.sha256"));
    assert!(!is_update_package(".zip"));
    assert!(!is_update_package(""));
}

#[test]
fn first_update_package_is_found() {
    let latest = release(
        "2.0.0",
        &["notes.txt", "guilauncher.exe", "guilauncher-win.ZIP", "guilauncher-other.zip"],
    );
    assert_eq!(find_update_asset(&latest), Some(2));
}

#[test]
fn first_of_several_packages_wins() {
    let latest = release("2.0.0", &["guilauncher-a.zip", "guilauncher-b.zip"]);
    assert_eq!(find_update_asset(&latest), Some(0));
}

#[test]
fn release_without_package_has_none() {
    assert_eq!(find_update_asset(&release("2.0.0", &[])), None);
    assert_eq!(find_update_asset(&release("2.0.0", &["source.zip", "guilauncher.msi"])), None);
}

#[test]
fn outcome_names_the_reason_when_nothing_is_downloaded() {
    assert_eq!(update_outcome(false, "1.0.0", &Err(Unavailable)), UpdateOutcome::Unavailable);
    assert_eq!(update_outcome(true, "1.0.0", &Err(Unavailable)), UpdateOutcome::Unavailable);
    assert_eq!(
        update_outcome(false, "1.0.0", &Ok(release("1.0.0", &["guilauncher.zip"]))),
        UpdateOutcome::UpToDate
    );
    assert_eq!(
        update_outcome(false, "1.0.0", &Ok(release("1.1.0", &["notes.txt"]))),
        UpdateOutcome::NoUpdatePackage
    );
    assert_eq!(
        update_outcome(true, "1.0.0", &Ok(release("1.0.0", &[]))),
        UpdateOutcome::NoUpdatePackage
    );
}

#[test]
fn outcome_gives_the_address_of_the_first_package() {
    let latest = Ok(release("1.1.0", &["notes.txt", "guilauncher-a.ZIP", "guilauncher-b.zip"]));
    assert_eq!(
        update_outcome(false, "1.0.0", &latest),
        UpdateOutcome::Download("https://example.invalid/guilauncher-a.ZIP".to_string())
    );
    let forced = Ok(release("1.0.0", &["guilauncher.zip"]));
    assert_eq!(
        update_outcome(true, "1.0.0", &forced),
        UpdateOutcome::Download("https://example.invalid/guilauncher.zip".to_string())
    );
    assert_eq!(forced, Ok(release("1.0.0", &["guilauncher.zip"])));
}
