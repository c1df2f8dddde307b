use lazydb::uninstall::{
    accept_root, after_plan, blocked_report, cancel, candidate_launcher, confirms, execution_report,
    format_report, installation_root, json_consent, next_removal, no_installation,
    plan_installation, remove_path_block, AfterPlan, CandidateState, Installation, ProfileCleanup,
    RemovalOutcome, RemovalStep, ShellProfile,
};
use sha2::Digest;

fn installation(root: &str) -> Installation {
    Installation {
        config_dir: root.to_owned(),
        root: root.to_owned(),
        launcher: "/home/u/.local/bin/lazydb".to_owned(),
        shell_profiles: vec![ShellProfile { path: "/home/u/.bashrc".to_owned(), block_sha256: "00".to_owned() }],
    }
}

#[test]
fn removes_only_an_intact_lazydb_path_block() {
    let profile = "export PATH=\"/usr/local/bin:$PATH\"\n# >>> LazyDB installer >>>\nexport PATH=/tmp/lazydb:$PATH\n# <<< LazyDB installer <<<\n# user config\n";
    let block = "# >>> LazyDB installer >>>\nexport PATH=/tmp/lazydb:$PATH\n# <<< LazyDB installer <<<\n";
    let digest: String = sha2::Sha256::digest(block.as_bytes())
        .iter()
        .map(|byte| format!("{byte:02x}"))
        .collect();
    assert_eq!(
        remove_path_block(profile, &digest).as_deref(),
        Some("export PATH=\"/usr/local/bin:$PATH\"\n# user config\n")
    );
}

#[test]
fn leaves_duplicate_or_incomplete_path_blocks_unchanged() {
    for contents in [
        "# >>> LazyDB installer >>>\n# <<< LazyDB installer <<<\n# >>> LazyDB installer >>>\n# <<< LazyDB installer <<<\n",
        "# >>> LazyDB installer >>>\nexport PATH=/tmp/lazydb:$PATH\n",
    ] {
        assert_eq!(remove_path_block(contents, "bad"), None);
    }
}

#[test]
fn path_block_with_a_wrong_digest_stays() {
    let profile = "# >>> LazyDB installer >>>\nexport PATH=/x:$PATH\n# <<< LazyDB installer <<<\n";
    assert_eq!(remove_path_block(profile, "0000"), None);
}

#[test]
fn discovers_native_installation_and_plans_data_preservation() {
    let root = "/home/u/.config/lazydb";
    let found = installation_root("/home/u/.local/bin/lazydb", Ok(format!("{root}/current/lazydb"))).unwrap();
    assert_eq!(found, root);
    assert!(accept_root(root, &found, true).is_ok());
    let report = plan_installation(&installation(root), vec![format!("{root}/releases/0.1.0")], false);
    assert_eq!(report.manager, "native");
    assert_eq!(report.actions.len(), 4);
    assert!(report.preserved.iter().any(|path| path.ends_with("credential.key")));
}

#[test]
fn rejects_launcher_pointing_outside_recorded_installation_root() {
    let found = installation_root("/home/u/.local/bin/lazydb", Ok("/home/u/external/current/lazydb".to_owned())).unwrap();
    let error = accept_root("/home/u/.config/lazydb", &found, true).unwrap_err();
    assert!(error.contains("not the recorded config directory"));
}

#[test]
fn rejects_non_native_installation_state() {
    let mut errors = Vec::new();
    let state = CandidateState::Recorded { native: false, launcher: "/tmp/lazydb".to_owned(), shell_profiles: Vec::new() };
    assert!(candidate_launcher("/home/u/config", state, &mut errors).is_none());
    assert_eq!(errors, vec!["/home/u/config/install.json: installation manager is not native"]);
    assert_eq!(no_installation(&errors), "/home/u/config/install.json: installation manager is not native");
    assert_eq!(no_installation(&Vec::new()), "no native LazyDB installation was found");
}

#[test]
fn launcher_links_must_pass_through_current() {
    assert_eq!(
        installation_root("/bin/lazydb", Ok("/opt/lazydb/releases/1/lazydb".to_owned())),
        Err("native launcher does not point through current: /opt/lazydb/releases/1/lazydb".to_owned())
    );
    assert_eq!(
        installation_root("/bin/lazydb", Err("not a link".to_owned())),
        Err("native launcher /bin/lazydb is not a readable symlink: not a link".to_owned())
    );
    assert_eq!(installation_root("/usr/bin/lazydb", Ok("../lib/current/lazydb".to_owned())), Ok("/usr/bin/../lib".to_owned()));
}

#[test]
fn execution_stops_at_the_first_failed_removal() {
    let root = "/home/u/.config/lazydb";
    let plan = plan_installation(&installation(root), Vec::new(), false);
    let report = execution_report(
        &installation(root),
        plan,
        &[RemovalOutcome::Removed, RemovalOutcome::Failed("permission denied".to_owned())],
        None,
    );
    assert_eq!(report.status, "failed");
    let statuses: Vec<&str> = report.actions.iter().map(|a| a.status).collect();
    assert_eq!(statuses, vec!["completed", "failed"]);
    assert_eq!(report.warnings, vec!["failed to remove an installation entry: permission denied"]);
}

#[test]
fn completed_execution_reports_the_path_block() {
    let root = "/home/u/.config/lazydb";
    let plan = plan_installation(&installation(root), Vec::new(), false);
    let report = execution_report(
        &installation(root),
        plan,
        &[RemovalOutcome::Removed, RemovalOutcome::Missing, RemovalOutcome::Removed],
        Some(("/home/u/.bashrc".to_owned(), ProfileCleanup::Removed)),
    );
    assert_eq!(report.status, "complete");
    let statuses: Vec<&str> = report.actions.iter().map(|a| a.status).collect();
    assert_eq!(statuses, vec!["completed", "skipped", "completed", "completed"]);
    assert_eq!(report.actions[3].kind, "shell-profile");
    assert_eq!(report.warnings.len(), 2);
    let text = format_report(&report);
    assert!(text.starts_with("LazyDB uninstall complete"));

    let plan = plan_installation(&installation(root), Vec::new(), false);
    let report = execution_report(
        &installation(root),
        plan,
        &[RemovalOutcome::Removed, RemovalOutcome::Removed, RemovalOutcome::Removed],
        Some(("/home/u/.bashrc".to_owned(), ProfileCleanup::Unchanged)),
    );
    assert_eq!(report.warnings.last().unwrap(), "PATH configuration was not changed: /home/u/.bashrc");
}

#[test]
fn executes_default_uninstall_and_preserves_user_data() {
    let root = "/home/u/.config/lazydb";
    let release = format!("{root}/releases/0.1.0");
    let plan = plan_installation(&installation(root), vec![release.clone()], false);
    let removed: Vec<&str> = plan.actions.iter().map(|a| a.path.as_str()).collect();
    assert_eq!(
        removed,
        vec![
            "/home/u/.local/bin/lazydb",
            "/home/u/.config/lazydb/current",
            "/home/u/.config/lazydb/install.json",
            release.as_str(),
        ]
    );
    let outcomes = vec![RemovalOutcome::Removed; plan.actions.len()];
    let report = execution_report(&installation(root), plan, &outcomes, None);
    assert_eq!(report.status, "complete");
    assert!(report.actions.iter().all(|a| a.status == "completed" && a.kind != "data"));
    for name in ["connections.toml", "credential.key", "settings.toml", "workspace.toml", "sql", "update-check.json"] {
        assert!(report.preserved.contains(&format!("{root}/{name}")), "{name} should be preserved");
    }
}

#[test]
fn purge_removes_allowlisted_data_but_keeps_unknown_files() {
    let root = "/home/u/.config/lazydb";
    let plan = plan_installation(&installation(root), vec![format!("{root}/releases/0.1.0")], true);
    let outcomes = vec![RemovalOutcome::Removed; plan.actions.len()];
    let report = execution_report(&installation(root), plan, &outcomes, None);
    assert_eq!(report.status, "complete");
    for name in ["connections.toml", "credential.key", "settings.toml", "workspace.toml", "update-check.json"] {
        let path = format!("{root}/{name}");
        assert!(
            report.actions.iter().any(|a| a.kind == "data" && a.path == path && a.status == "completed"),
            "{name} should be purged"
        );
    }
    assert_eq!(report.preserved, vec![format!("{root}/sql")]);
    assert!(!report.actions.iter().any(|a| a.path.ends_with("user-data.db")));
}

#[test]
fn removal_steps_go_through_the_plan_and_stop_at_a_failure() {
    let root = "/home/u/.config/lazydb";
    let plan = plan_installation(&installation(root), vec![format!("{root}/releases/0.1.0")], false);
    assert_eq!(next_removal(&plan, &[]), RemovalStep::Remove { index: 0, whole_tree: false });
    let three = vec![RemovalOutcome::Removed, RemovalOutcome::Missing, RemovalOutcome::Removed];
    assert_eq!(next_removal(&plan, &three), RemovalStep::Remove { index: 3, whole_tree: true });
    let mut all = three.clone();
    all.push(RemovalOutcome::Removed);
    assert_eq!(next_removal(&plan, &all), RemovalStep::Finish { clean_profile: true });
    let failed = vec![RemovalOutcome::Removed, RemovalOutcome::Failed("busy".to_owned())];
    assert_eq!(next_removal(&plan, &failed), RemovalStep::Finish { clean_profile: false });
}

#[test]
fn json_and_confirmation_decisions() {
    assert_eq!(json_consent(true, false, false), Err("--json uninstall requires --yes or --dry-run"));
    assert_eq!(json_consent(true, true, false), Ok(()));
    assert_eq!(json_consent(false, false, false), Ok(()));
    let root = "/home/u/.config/lazydb";
    let mut plan = plan_installation(&installation(root), Vec::new(), false);
    assert_eq!(after_plan(&plan, false, false), AfterPlan::Ask);
    assert_eq!(after_plan(&plan, false, true), AfterPlan::Execute);
    assert_eq!(after_plan(&plan, true, true), AfterPlan::Report);
    for answer in ["y\n", " YES \n", "Yes", "\ty"] {
        assert!(confirms(answer), "{answer:?}");
    }
    for answer in ["", "n\n", "yeah", "y e s", "ye"] {
        assert!(!confirms(answer), "{answer:?}");
    }
    cancel(&mut plan);
    assert_eq!(plan.status, "cancelled");
    assert_eq!(after_plan(&plan, false, false), AfterPlan::Report);
    let blocked = blocked_report("HOME is not set".to_owned());
    assert_eq!(blocked.status, "blocked");
    assert_eq!(blocked.manager, "unknown");
    assert_eq!(blocked.warnings, vec!["HOME is not set"]);
    assert!(format_report(&blocked).starts_with("LazyDB uninstall blocked\n"));
}
