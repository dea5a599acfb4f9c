use rustic_vault::app::{App, Command, FolderPurpose, Message, Screen};
use rustic_vault::config::AppConfig;
use rustic_vault::profile::Profile;
use rustic_vault::repo::{BackupSummary, ForgetPruneSummary, RepoInfo, SnapshotInfo};
use rustic_vault::theme::ThemeChoice;

fn strings(items: &[&str]) -> Vec<String> {
    items.iter().map(|s| s.to_string()).collect()
}

fn profile(name: &str) -> Profile {
    let mut p = Profile::new(name.to_string());
    p.paths = strings(&["/home/me/docs"]);
    p.tags = strings(&["laptop"]);
    p
}

fn unlocked_app() -> App {
    App::new(
        "/vault".to_string(),
        AppConfig::default(),
        vec![profile("alpha"), profile("beta")],
        true,
        Some("  secret \n".to_string()),
    )
}

#[test]
fn start_without_repository_opens_first_run() {
    let app = App::new("/vault".to_string(), AppConfig::default(), vec![], false, None);
    assert!(app.screen == Screen::FirstRun);
    assert!(!app.password_unlocked);
    assert_eq!(app.password, "");
    assert_eq!(app.first_run_password, app.first_run_generated);
    assert_eq!(app.first_run_generated.chars().count(), 24);
    assert!(!app.shows_password_prompt());
    assert!(app.can_initialize());
}

#[test]
fn start_with_saved_password_unlocks() {
    let app = unlocked_app();
    assert!(app.screen == Screen::Home);
    assert!(app.password_unlocked);
    assert_eq!(app.password, "secret");
    assert!(!app.shows_password_prompt());
    assert_eq!(app.title(), "Rustic Vault");
    assert!(app.theme() == ThemeChoice::Dark);
    assert_eq!(app.repo_path(), "/vault/../repo");
    assert_eq!(app.profiles_dir(), "/vault/profiles");
    assert_eq!(app.password_path(), "/vault/../.password");
    let locked = App::new("/vault".to_string(), AppConfig::default(), vec![], true, None);
    assert!(locked.shows_password_prompt());
}

#[test]
fn first_run_creates_the_repository() {
    let mut app = App::new("/vault".to_string(), AppConfig::default(), vec![], false, None);
    assert!(app.update(Message::FirstRunToggleCustomPassword(true)).is_empty());
    assert_eq!(app.first_run_password, "");
    assert!(!app.can_initialize());
    app.update(Message::FirstRunPasswordChanged("hunter2".to_string()));
    let cmds = app.update(Message::FirstRunInit);
    assert!(app.busy);
    assert_eq!(app.status, "Initializing repository...");
    assert_eq!(cmds.len(), 2);
    assert!(matches!(&cmds[0], Command::WriteFile { path, contents } if path == "/vault/../.password" && contents == "hunter2"));
    assert!(matches!(&cmds[1], Command::InitRepo { repo_path, password } if repo_path == "/vault/../repo" && password == "hunter2"));
    let cmds = app.update(Message::FirstRunInitResult(Ok(())));
    assert!(!app.busy);
    assert!(app.password_unlocked);
    assert_eq!(app.password, "hunter2");
    assert!(app.screen == Screen::Home);
    assert_eq!(app.status, "Repository initialized successfully!");
    assert_eq!(cmds.len(), 1);
    assert!(matches!(&cmds[0], Command::SaveConfig { base, config } if base == "/vault" && config.save_password && config.password_file.as_deref() == Some("../.password")));
}

#[test]
fn first_run_without_saving_the_password() {
    let mut app = App::new("/vault".to_string(), AppConfig::default(), vec![], false, None);
    app.update(Message::FirstRunToggleSavePassword(false));
    let generated = app.first_run_generated.clone();
    let cmds = app.update(Message::FirstRunInit);
    assert_eq!(cmds.len(), 1);
    assert!(matches!(&cmds[0], Command::InitRepo { password, .. } if *password == generated));
    let cmds = app.update(Message::FirstRunInitResult(Ok(())));
    assert!(matches!(&cmds[0], Command::SaveConfig { config, .. } if !config.save_password && config.password_file.is_none()));
    let mut other = App::new("/vault".to_string(), AppConfig::default(), vec![], false, None);
    other.update(Message::FirstRunInitResult(Err("disk full".to_string())));
    assert_eq!(other.status, "Init failed: disk full");
    assert!(other.screen == Screen::FirstRun);
}

#[test]
fn regenerating_and_toggling_the_first_run_password() {
    let mut app = App::new("/vault".to_string(), AppConfig::default(), vec![], false, None);
    let before = app.first_run_generated.clone();
    app.update(Message::FirstRunGeneratePassword);
    assert_ne!(app.first_run_generated, before);
    assert_eq!(app.first_run_password, app.first_run_generated);
    app.update(Message::FirstRunToggleCustomPassword(true));
    app.update(Message::FirstRunPasswordChanged("mine".to_string()));
    app.update(Message::FirstRunGeneratePassword);
    assert_eq!(app.first_run_password, "mine");
    app.update(Message::FirstRunToggleCustomPassword(false));
    assert_eq!(app.first_run_password, app.first_run_generated);
}

#[test]
fn editing_without_changes_keeps_the_profile() {
    let mut app = unlocked_app();
    let before: Vec<(String, Vec<String>, Vec<String>, Option<u32>)> = app.profiles.iter().map(|p| (p.id.clone(), p.excludes.clone(), p.tags.clone(), p.retention.keep_daily)).collect();
    app.update(Message::GoProfileEditor(Some(1)));
    assert!(app.screen == Screen::ProfileEditor);
    assert_eq!(app.editor_excludes_text, "node_modules, .cache, __pycache__, *.tmp, .git");
    assert_eq!(app.editor_tags_text, "laptop");
    assert_eq!(app.editor_keep_last, "5");
    assert_eq!(app.editor_keep_monthly, "12");
    let cmds = app.update(Message::ProfileSave);
    assert_eq!(cmds.len(), 1);
    assert!(matches!(&cmds[0], Command::SaveProfile { profiles_dir, profile } if profiles_dir == "/vault/profiles" && profile.name == "beta"));
    let after: Vec<(String, Vec<String>, Vec<String>, Option<u32>)> = app.profiles.iter().map(|p| (p.id.clone(), p.excludes.clone(), p.tags.clone(), p.retention.keep_daily)).collect();
    assert_eq!(before, after);
    app.update(Message::ProfileSaveResult(Ok(())));
    assert!(app.screen == Screen::Home);
    assert_eq!(app.status, "Profile saved.");
}

#[test]
fn editing_a_new_profile_adds_it() {
    let mut app = unlocked_app();
    app.update(Message::GoProfileEditor(None));
    assert_eq!(app.editor_profile.as_ref().unwrap().name, "New Profile");
    app.update(Message::ProfileNameChanged("gamma".to_string()));
    app.update(Message::ProfileExcludesChanged(" target ,, *.o".to_string()));
    app.update(Message::ProfileTagsChanged("".to_string()));
    app.update(Message::ProfileKeepLastChanged("3".to_string()));
    app.update(Message::ProfileKeepDailyChanged("".to_string()));
    app.update(Message::ProfileKeepWeeklyChanged("x".to_string()));
    app.update(Message::ProfileKeepMonthlyChanged("+2".to_string()));
    app.update(Message::ProfileFolderPicked(Some("/data".to_string())));
    app.update(Message::ProfileFolderPicked(Some("/data".to_string())));
    app.update(Message::ProfileFolderPicked(Some("/more".to_string())));
    app.update(Message::ProfileRemoveFolder(0));
    app.update(Message::ProfileRemoveFolder(5));
    app.update(Message::ProfileSave);
    assert_eq!(app.profiles.len(), 3);
    let p = &app.profiles[2];
    assert_eq!(p.name, "gamma");
    assert_eq!(p.excludes, strings(&["target", "*.o"]));
    assert!(p.tags.is_empty());
    assert_eq!(p.paths, strings(&["/more"]));
    assert_eq!((p.retention.keep_last, p.retention.keep_daily, p.retention.keep_weekly, p.retention.keep_monthly), (Some(3), None, None, Some(2)));
    app.update(Message::ProfileSaveResult(Err("read-only".to_string())));
    assert_eq!(app.status, "Save failed: read-only");
    app.update(Message::ProfileCancel);
    assert!(app.editor_profile.is_none());
    assert!(app.screen == Screen::Home);
    let cmds = app.update(Message::ProfileAddFolder);
    assert!(matches!(&cmds[0], Command::PickFolder { purpose: FolderPurpose::AddSource }));
}

#[test]
fn deleting_a_profile() {
    let mut app = unlocked_app();
    let id = app.profiles[0].id.clone();
    app.update(Message::SelectProfile(0));
    let cmds = app.update(Message::DeleteProfile(0));
    assert_eq!(app.profiles.len(), 1);
    assert_eq!(app.profiles[0].name, "beta");
    assert_eq!(app.selected_profile, None);
    assert!(matches!(&cmds[0], Command::DeleteProfileFile { profiles_dir, id: i } if profiles_dir == "/vault/profiles" && *i == id));
    assert!(app.update(Message::DeleteProfile(9)).is_empty());
    assert_eq!(app.profiles.len(), 1);
    app.update(Message::DeleteProfileResult(Err("gone".to_string())));
    assert_eq!(app.status, "Delete failed: gone");
}

#[test]
fn running_a_backup() {
    let mut app = unlocked_app();
    app.update(Message::SelectProfile(0));
    let cmds = app.update(Message::GoBackup(0));
    assert!(app.screen == Screen::Backup);
    assert!(app.backup_running);
    assert!(matches!(&cmds[0], Command::RunBackup { repo_path, password, paths, tags, .. } if repo_path == "/vault/../repo" && password == "secret" && *paths == strings(&["/home/me/docs"]) && *tags == strings(&["laptop"])));
    assert_eq!(app.backup_profile_name(), "alpha");
    let summary = BackupSummary { snapshot_id: "abcdef0123".to_string(), files_new: 3, files_changed: 1, files_unmodified: 10, data_added: 5, total_bytes_processed: 9 };
    let cmds = app.update(Message::BackupResult(Ok(summary)));
    assert!(!app.backup_running);
    assert_eq!(app.status, "Backup complete! 3 new, 1 changed, 10 unchanged");
    assert!(app.profiles[0].last_backup.is_some());
    assert!(app.profiles[1].last_backup.is_none());
    assert!(matches!(&cmds[0], Command::StoreProfile { profile, .. } if profile.name == "alpha" && profile.last_backup.is_some()));
    app.update(Message::GoHome);
    assert!(app.backup_summary.is_none());
    app.update(Message::BackupResult(Err("locked".to_string())));
    assert_eq!(app.status, "Backup failed: locked");
}

#[test]
fn snapshots_list_restore_delete_and_prune() {
    let mut app = unlocked_app();
    let cmds = app.update(Message::GoSnapshots);
    assert!(app.snapshots_loading);
    assert!(matches!(&cmds[0], Command::ListSnapshots { repo_path, password } if repo_path == "/vault/../repo" && password == "secret"));
    let snap = SnapshotInfo::new("0123456789".to_string(), "t".to_string(), "h".to_string(), vec![], vec![], None);
    app.update(Message::SnapshotsLoaded(Ok(vec![snap])));
    assert!(!app.snapshots_loading);
    assert_eq!(app.snapshots.len(), 1);
    app.update(Message::SnapshotsLoaded(Err("bad".to_string())));
    assert_eq!(app.status, "Failed to load snapshots: bad");

    let cmds = app.update(Message::SnapshotRestore("0123456789".to_string()));
    assert!(matches!(&cmds[0], Command::PickFolder { purpose: FolderPurpose::RestoreTarget }));
    let cmds = app.update(Message::SnapshotRestoreFolderPicked(Some("/restore".to_string())));
    assert!(app.busy);
    assert_eq!(app.status, "Restoring...");
    assert!(app.restore_snapshot_id.is_none());
    assert!(matches!(&cmds[0], Command::RestoreSnapshot { snapshot_id, target, .. } if snapshot_id == "0123456789" && target == "/restore"));
    app.update(Message::SnapshotRestoreResult(Ok(())));
    assert_eq!(app.status, "Restore complete!");
    app.update(Message::SnapshotRestore("x".to_string()));
    assert!(app.update(Message::SnapshotRestoreFolderPicked(None)).is_empty());
    assert!(app.restore_snapshot_id.is_none());

    let cmds = app.update(Message::SnapshotDelete("0123456789".to_string()));
    assert_eq!(app.status, "Deleting snapshot...");
    assert!(matches!(&cmds[0], Command::DeleteSnapshot { snapshot_id, .. } if snapshot_id == "0123456789"));
    let cmds = app.update(Message::SnapshotDeleteResult(Ok(())));
    assert_eq!(app.status, "Snapshot deleted.");
    assert!(matches!(&cmds[0], Command::ListSnapshots { .. }));

    app.update(Message::SelectProfile(1));
    app.profiles[1].retention.keep_daily = Some(2);
    let cmds = app.update(Message::SnapshotForgetPrune);
    assert_eq!(app.status, "Applying retention policy and pruning...");
    assert!(matches!(&cmds[0], Command::ForgetPrune { retention, .. } if retention.keep_daily == Some(2)));
    app.update(Message::SelectProfile(7));
    let cmds = app.update(Message::SnapshotForgetPrune);
    assert!(matches!(&cmds[0], Command::ForgetPrune { retention, .. } if retention.keep_daily == Some(7)));
    let summary = ForgetPruneSummary::from_counts(5, 2);
    let cmds = app.update(Message::SnapshotForgetPruneResult(Ok(summary)));
    assert_eq!(app.status, "Pruned: 2 removed, 3 kept");
    assert!(matches!(&cmds[0], Command::ListSnapshots { .. }));
    app.update(Message::SnapshotForgetPruneResult(Err("no".to_string())));
    assert_eq!(app.status, "Prune failed: no");
}

#[test]
fn settings_messages() {
    let mut app = unlocked_app();
    app.password_visible = true;
    let cmds = app.update(Message::GoSettings);
    assert!(app.screen == Screen::Settings);
    assert!(!app.password_visible);
    assert!(matches!(&cmds[0], Command::LoadRepoInfo { .. }));
    app.update(Message::SettingsRepoInfoLoaded(Ok(RepoInfo { snapshot_count: 4 })));
    assert_eq!(app.repo_info.unwrap().snapshot_count, 4);
    app.update(Message::SettingsShowPassword);
    assert!(app.password_visible);
    app.update(Message::SettingsShowPassword);
    assert!(!app.password_visible);
    let cmds = app.update(Message::SettingsToggleSavePassword(false));
    assert!(!app.config.save_password);
    assert!(app.config.password_file.is_none());
    assert!(matches!(&cmds[0], Command::RemoveFile { path } if path == "/vault/../.password"));
    assert!(matches!(&cmds[1], Command::SaveConfig { .. }));
    app.update(Message::SettingsPasswordChanged("new".to_string()));
    let cmds = app.update(Message::SettingsChangePassword);
    assert_eq!(cmds.len(), 1);
    assert!(matches!(&cmds[0], Command::ChangeRepoKey { repo_path, old_password, new_password }
        if repo_path == "/vault/../repo" && old_password == "secret" && new_password == "new"));
    assert_eq!(app.password, "secret");
    assert!(app.busy);
    assert_eq!(app.status, "Changing password...");
    let cmds = app.update(Message::SettingsChangePasswordResult(Ok(())));
    assert!(cmds.is_empty());
    assert!(!app.busy);
    assert_eq!(app.password, "new");
    assert_eq!(app.settings_new_password, "");
    assert!(app.pending_password.is_none());
    assert_eq!(app.status, "Password changed.");
    let cmds = app.update(Message::SettingsToggleSavePassword(true));
    assert!(matches!(&cmds[0], Command::WriteFile { contents, .. } if contents == "new"));
    let cmds = app.update(Message::SettingsThemeSelected("Nord".to_string()));
    assert!(app.theme() == ThemeChoice::Nord);
    assert!(matches!(&cmds[0], Command::SaveConfig { config, .. } if config.theme == "Nord"));
    app.update(Message::SettingsRepoInfoLoaded(Err("x".to_string())));
    assert_eq!(app.status, "Repo info error: x");
}

#[test]
fn prompt_and_status_messages() {
    let mut app = App::new("/vault".to_string(), AppConfig::default(), vec![], true, None);
    app.update(Message::PasswordPromptChanged("pw".to_string()));
    app.update(Message::PasswordPromptSubmit);
    assert!(app.password_unlocked);
    assert_eq!(app.password, "pw");
    app.update(Message::StatusMessage("hello".to_string()));
    assert_eq!(app.status, "hello");
    app.update(Message::ClearStatus);
    assert_eq!(app.status, "");
    assert!(app.update(Message::BackupStarted).is_empty());
    assert!(app.update(Message::RefreshSnapshots).len() == 1);
}

#[test]
fn profile_ids_stay_distinct_across_edits() {
    let mut app = unlocked_app();
    for name in ["one", "two"] {
        app.update(Message::GoProfileEditor(None));
        app.update(Message::ProfileNameChanged(name.to_string()));
        app.update(Message::ProfileSave);
    }
    app.update(Message::GoProfileEditor(Some(0)));
    app.update(Message::ProfileNameChanged("renamed".to_string()));
    app.update(Message::ProfileSave);
    app.update(Message::DeleteProfile(1));
    let ids: Vec<&String> = app.profiles.iter().map(|p| &p.id).collect();
    for i in 0..ids.len() {
        for j in 0..ids.len() {
            if i != j {
                assert_ne!(ids[i], ids[j]);
            }
        }
    }
    assert_eq!(app.profiles.len(), 3);
    assert_eq!(app.profiles[0].name, "renamed");
}

#[test]
fn showing_the_password_twice_changes_nothing() {
    let mut app = unlocked_app();
    let before = (app.password_visible, app.status.clone(), app.screen);
    assert!(app.update(Message::SettingsShowPassword).is_empty());
    assert!(app.update(Message::SettingsShowPassword).is_empty());
    assert_eq!((app.password_visible, app.status.clone(), app.screen), before);
}

#[test]
fn password_change_writes_the_saved_password_after_the_key_change() {
    let mut app = unlocked_app();
    assert!(app.config.save_password);
    app.update(Message::SettingsPasswordChanged("fresh".to_string()));
    let cmds = app.update(Message::SettingsChangePassword);
    assert!(matches!(&cmds[0], Command::ChangeRepoKey { .. }));
    assert_eq!(app.pending_password.as_deref(), Some("fresh"));
    let cmds = app.update(Message::SettingsChangePasswordResult(Ok(())));
    assert_eq!(cmds.len(), 1);
    assert!(matches!(&cmds[0], Command::WriteFile { path, contents }
        if path == "/vault/../.password" && contents == "fresh"));
    assert_eq!(app.password, "fresh");
}

#[test]
fn failed_password_change_keeps_the_old_password() {
    let mut app = unlocked_app();
    app.update(Message::SettingsPasswordChanged("fresh".to_string()));
    app.update(Message::SettingsChangePassword);
    let cmds = app.update(Message::SettingsChangePasswordResult(Err("wrong key".to_string())));
    assert!(cmds.is_empty());
    assert!(!app.busy);
    assert_eq!(app.password, "secret");
    assert_eq!(app.settings_new_password, "fresh");
    assert!(app.pending_password.is_none());
    assert_eq!(app.status, "Password change failed: wrong key");
}

#[test]
fn busy_flag_follows_long_work() {
    let mut app = unlocked_app();
    app.update(Message::SnapshotDelete("abc".to_string()));
    assert!(app.busy);
    app.update(Message::StatusMessage("x".to_string()));
    assert!(app.busy);
    app.update(Message::SnapshotDeleteResult(Ok(())));
    assert!(!app.busy);
    app.update(Message::SnapshotRestoreFolderPicked(Some("/tmp/out".to_string())));
    assert!(!app.busy);
    app.update(Message::SnapshotRestore("abc".to_string()));
    app.update(Message::SnapshotRestoreFolderPicked(Some("/tmp/out".to_string())));
    assert!(app.busy);
    app.update(Message::SnapshotRestoreResult(Err("x".to_string())));
    assert!(!app.busy);
    app.update(Message::SnapshotForgetPrune);
    assert!(app.busy);
    app.update(Message::SnapshotForgetPruneResult(Err("x".to_string())));
    assert!(!app.busy);
}

#[test]
fn picking_a_folder_already_there_as_a_path_keeps_one_entry() {
    let mut app = unlocked_app();
    app.update(Message::GoProfileEditor(None));
    app.update(Message::ProfileFolderPicked(Some("/home/u/docs".to_string())));
    app.update(Message::ProfileFolderPicked(Some("/home/u/docs/".to_string())));
    app.update(Message::ProfileFolderPicked(Some("/home/u//docs".to_string())));
    assert_eq!(app.editor_profile.as_ref().unwrap().paths, strings(&["/home/u/docs"]));
    app.update(Message::ProfileFolderPicked(Some("/home/u/docs2".to_string())));
    app.update(Message::ProfileFolderPicked(None));
    assert_eq!(app.editor_profile.as_ref().unwrap().paths, strings(&["/home/u/docs", "/home/u/docs2"]));
}
