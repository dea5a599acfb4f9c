//! The screens of the application and how each message moves between them:
//! a state machine that returns, besides the new state, the outside work to
//! perform (reading and writing files, talking to the repository, asking
//! the user for a folder).

use vstd::prelude::*;
use crate::config::{AppConfig, ConfigView, default_password_file};
use crate::paths::{contains_path, has_path, join_path, path_join, resolved};
use crate::password::{generate_password, is_generated_password};
use crate::profile::{
    Profile, ProfileView, RetentionPolicy, Timestamp, default_excludes, is_uuid_v4_text,
    profile_views,
};
use crate::repo::{BackupSummary, ForgetPruneSummary, RepoInfo, SnapshotInfo};
use crate::text::{
    decimal, decimal_string, join, join_strings, list_items, list_separator, parse_list,
    parse_u32, parse_u32_spec, trim, trimmed, chars_of, views, copy_strings,
};
use crate::theme::{ThemeChoice, theme_from_name, theme_name_of};

verus! {

/// The screens of the application.
#[derive(Clone, Copy, Debug, PartialEq, Eq, Structural)]
pub enum Screen {
    FirstRun,
    Home,
    ProfileEditor,
    Backup,
    Snapshots,
    Settings,
}

/// What a folder that the user picks is for.
#[derive(Clone, Copy, PartialEq, Eq, Structural)]
pub enum FolderPurpose {
    /// A folder to add to the profile being edited.
    AddSource,
    /// The folder to restore a snapshot into.
    RestoreTarget,
}

/// What happens in the application: the user's actions and the results of
/// outside work.
#[derive(Debug)]
pub enum Message {
    // Navigation
    GoHome,
    GoSettings,
    GoSnapshots,
    /// `None` opens a new profile, `Some(i)` the profile at index `i`.
    GoProfileEditor(Option<usize>),
    /// Runs a backup of the profile at the index.
    GoBackup(usize),
    // First run
    FirstRunPasswordChanged(String),
    FirstRunToggleCustomPassword(bool),
    FirstRunToggleSavePassword(bool),
    FirstRunGeneratePassword,
    FirstRunInit,
    FirstRunInitResult(Result<(), String>),
    // Home
    SelectProfile(usize),
    DeleteProfile(usize),
    DeleteProfileResult(Result<(), String>),
    // Profile editor
    ProfileNameChanged(String),
    ProfileAddFolder,
    ProfileFolderPicked(Option<String>),
    ProfileRemoveFolder(usize),
    ProfileExcludesChanged(String),
    ProfileTagsChanged(String),
    ProfileKeepLastChanged(String),
    ProfileKeepDailyChanged(String),
    ProfileKeepWeeklyChanged(String),
    ProfileKeepMonthlyChanged(String),
    ProfileSave,
    ProfileSaveResult(Result<(), String>),
    ProfileCancel,
    // Backup
    BackupStarted,
    BackupResult(Result<BackupSummary, String>),
    // Snapshots
    SnapshotsLoaded(Result<Vec<SnapshotInfo>, String>),
    SnapshotRestore(String),
    SnapshotRestoreFolderPicked(Option<String>),
    SnapshotRestoreResult(Result<(), String>),
    SnapshotDelete(String),
    SnapshotDeleteResult(Result<(), String>),
    SnapshotForgetPrune,
    SnapshotForgetPruneResult(Result<ForgetPruneSummary, String>),
    RefreshSnapshots,
    // Settings
    SettingsToggleSavePassword(bool),
    SettingsThemeSelected(String),
    SettingsPasswordChanged(String),
    SettingsChangePassword,
    SettingsChangePasswordResult(Result<(), String>),
    SettingsShowPassword,
    SettingsRepoInfoLoaded(Result<RepoInfo, String>),
    // Password prompt
    PasswordPromptChanged(String),
    PasswordPromptSubmit,
    // Status
    StatusMessage(String),
    ClearStatus,
}

/// Outside work that a message asks for, in the order it is to be done.
/// The ones that report back say which message carries their result.
pub enum Command {
    /// Open the repository and count its snapshots; reports
    /// `SettingsRepoInfoLoaded`.
    LoadRepoInfo { repo_path: String, password: String },
    /// List the snapshots; reports `SnapshotsLoaded`.
    ListSnapshots { repo_path: String, password: String },
    /// Back up the profile's folders, recording this machine's host name;
    /// reports `BackupResult`.
    RunBackup {
        repo_path: String,
        password: String,
        paths: Vec<String>,
        excludes: Vec<String>,
        tags: Vec<String>,
    },
    /// Create a repository; reports `FirstRunInitResult`.
    InitRepo { repo_path: String, password: String },
    /// Write a file now; the outcome is not reported.
    WriteFile { path: String, contents: String },
    /// Remove a file now; the outcome is not reported.
    RemoveFile { path: String },
    /// Save the settings into the base directory now; the outcome is not
    /// reported.
    SaveConfig { base: String, config: AppConfig },
    /// Remove a profile's file; reports `DeleteProfileResult`.
    DeleteProfileFile { profiles_dir: String, id: String },
    /// Save a profile's file; reports `ProfileSaveResult`.
    SaveProfile { profiles_dir: String, profile: Profile },
    /// Save a profile's file now; the outcome is not reported.
    StoreProfile { profiles_dir: String, profile: Profile },
    /// Ask the user for a folder; reports `ProfileFolderPicked` or
    /// `SnapshotRestoreFolderPicked`.
    PickFolder { purpose: FolderPurpose },
    /// Restore a snapshot into a folder; reports `SnapshotRestoreResult`.
    RestoreSnapshot { repo_path: String, password: String, snapshot_id: String, target: String },
    /// Forget one snapshot; reports `SnapshotDeleteResult`.
    DeleteSnapshot { repo_path: String, password: String, snapshot_id: String },
    /// Apply a retention policy and prune; reports
    /// `SnapshotForgetPruneResult`.
    ForgetPrune { repo_path: String, password: String, retention: RetentionPolicy },
    /// Give the repository a key for the new password and remove the key of
    /// the old one, so that every snapshot stays readable under the new
    /// password; reports `SettingsChangePasswordResult`.
    ChangeRepoKey { repo_path: String, old_password: String, new_password: String },
}

/// A command, as plain values.
pub enum CommandView {
    LoadRepoInfo { repo_path: Seq<char>, password: Seq<char> },
    ListSnapshots { repo_path: Seq<char>, password: Seq<char> },
    RunBackup {
        repo_path: Seq<char>,
        password: Seq<char>,
        paths: Seq<Seq<char>>,
        excludes: Seq<Seq<char>>,
        tags: Seq<Seq<char>>,
    },
    InitRepo { repo_path: Seq<char>, password: Seq<char> },
    WriteFile { path: Seq<char>, contents: Seq<char> },
    RemoveFile { path: Seq<char> },
    SaveConfig { base: Seq<char>, config: ConfigView },
    DeleteProfileFile { profiles_dir: Seq<char>, id: Seq<char> },
    SaveProfile { profiles_dir: Seq<char>, profile: ProfileView },
    StoreProfile { profiles_dir: Seq<char>, profile: ProfileView },
    PickFolder { purpose: FolderPurpose },
    RestoreSnapshot {
        repo_path: Seq<char>,
        password: Seq<char>,
        snapshot_id: Seq<char>,
        target: Seq<char>,
    },
    DeleteSnapshot { repo_path: Seq<char>, password: Seq<char>, snapshot_id: Seq<char> },
    ForgetPrune { repo_path: Seq<char>, password: Seq<char>, retention: RetentionPolicy },
    ChangeRepoKey { repo_path: Seq<char>, old_password: Seq<char>, new_password: Seq<char> },
}

impl View for Command {
    type V = CommandView;

    open spec fn view(&self) -> CommandView {
        match self {
            Command::LoadRepoInfo { repo_path, password } => CommandView::LoadRepoInfo {
                repo_path: repo_path@,
                password: password@,
            },
            Command::ListSnapshots { repo_path, password } => CommandView::ListSnapshots {
                repo_path: repo_path@,
                password: password@,
            },
            Command::RunBackup { repo_path, password, paths, excludes, tags } =>
                CommandView::RunBackup {
                repo_path: repo_path@,
                password: password@,
                paths: views(paths@),
                excludes: views(excludes@),
                tags: views(tags@),
            },
            Command::InitRepo { repo_path, password } => CommandView::InitRepo {
                repo_path: repo_path@,
                password: password@,
            },
            Command::WriteFile { path, contents } => CommandView::WriteFile {
                path: path@,
                contents: contents@,
            },
            Command::RemoveFile { path } => CommandView::RemoveFile { path: path@ },
            Command::SaveConfig { base, config } => CommandView::SaveConfig {
                base: base@,
                config: config@,
            },
            Command::DeleteProfileFile { profiles_dir, id } => CommandView::DeleteProfileFile {
                profiles_dir: profiles_dir@,
                id: id@,
            },
            Command::SaveProfile { profiles_dir, profile } => CommandView::SaveProfile {
                profiles_dir: profiles_dir@,
                profile: profile@,
            },
            Command::StoreProfile { profiles_dir, profile } => CommandView::StoreProfile {
                profiles_dir: profiles_dir@,
                profile: profile@,
            },
            Command::PickFolder { purpose } => CommandView::PickFolder { purpose: *purpose },
            Command::RestoreSnapshot { repo_path, password, snapshot_id, target } =>
                CommandView::RestoreSnapshot {
                repo_path: repo_path@,
                password: password@,
                snapshot_id: snapshot_id@,
                target: target@,
            },
            Command::DeleteSnapshot { repo_path, password, snapshot_id } =>
                CommandView::DeleteSnapshot {
                repo_path: repo_path@,
                password: password@,
                snapshot_id: snapshot_id@,
            },
            Command::ForgetPrune { repo_path, password, retention } => CommandView::ForgetPrune {
                repo_path: repo_path@,
                password: password@,
                retention: *retention,
            },
            Command::ChangeRepoKey { repo_path, old_password, new_password } =>
                CommandView::ChangeRepoKey {
                repo_path: repo_path@,
                old_password: old_password@,
                new_password: new_password@,
            },
        }
    }
}

/// The views of a list of commands.
pub open spec fn command_views(cmds: Seq<Command>) -> Seq<CommandView> {
    cmds.map_values(|c: Command| c@)
}

/// A backup summary, as plain values.
pub struct SummaryView {
    pub snapshot_id: Seq<char>,
    pub files_new: u64,
    pub files_changed: u64,
    pub files_unmodified: u64,
    pub data_added: u64,
    pub total_bytes_processed: u64,
}

/// The view of a backup summary.
pub open spec fn summary_view(s: BackupSummary) -> SummaryView {
    SummaryView {
        snapshot_id: s.snapshot_id@,
        files_new: s.files_new,
        files_changed: s.files_changed,
        files_unmodified: s.files_unmodified,
        data_added: s.data_added,
        total_bytes_processed: s.total_bytes_processed,
    }
}

/// The state of the application.
pub struct App {
    pub base_path: String,
    pub config: AppConfig,
    pub screen: Screen,
    pub profiles: Vec<Profile>,
    pub selected_profile: Option<usize>,
    // Password management
    pub password: String,
    pub password_unlocked: bool,
    pub password_visible: bool,
    // First run
    pub first_run_password: String,
    pub first_run_custom_password: bool,
    pub first_run_save_password: bool,
    pub first_run_generated: String,
    // Profile editor
    pub editor_profile: Option<Profile>,
    pub editor_excludes_text: String,
    pub editor_tags_text: String,
    pub editor_keep_last: String,
    pub editor_keep_daily: String,
    pub editor_keep_weekly: String,
    pub editor_keep_monthly: String,
    // Backup
    pub backup_running: bool,
    pub backup_summary: Option<BackupSummary>,
    // Snapshots
    pub snapshots: Vec<SnapshotInfo>,
    pub snapshots_loading: bool,
    pub restore_snapshot_id: Option<String>,
    // Settings
    pub settings_new_password: String,
    /// The password that a key change under way will give the repository.
    pub pending_password: Option<String>,
    pub repo_info: Option<RepoInfo>,
    // Status bar
    pub status: String,
    pub busy: bool,
}

/// The state of the application, as plain values.
pub struct AppView {
    pub base_path: Seq<char>,
    pub config: ConfigView,
    pub screen: Screen,
    pub profiles: Seq<ProfileView>,
    pub selected_profile: Option<usize>,
    pub password: Seq<char>,
    pub password_unlocked: bool,
    pub password_visible: bool,
    pub first_run_password: Seq<char>,
    pub first_run_custom_password: bool,
    pub first_run_save_password: bool,
    pub first_run_generated: Seq<char>,
    pub editor_profile: Option<ProfileView>,
    pub editor_excludes_text: Seq<char>,
    pub editor_tags_text: Seq<char>,
    pub editor_keep_last: Seq<char>,
    pub editor_keep_daily: Seq<char>,
    pub editor_keep_weekly: Seq<char>,
    pub editor_keep_monthly: Seq<char>,
    pub backup_running: bool,
    pub backup_summary: Option<SummaryView>,
    pub snapshots: Seq<SnapshotInfo>,
    pub snapshots_loading: bool,
    pub restore_snapshot_id: Option<Seq<char>>,
    pub settings_new_password: Seq<char>,
    pub pending_password: Option<Seq<char>>,
    pub repo_info: Option<RepoInfo>,
    pub status: Seq<char>,
    pub busy: bool,
}

impl View for App {
    type V = AppView;

    open spec fn view(&self) -> AppView {
        AppView {
            base_path: self.base_path@,
            config: self.config@,
            screen: self.screen,
            profiles: profile_views(self.profiles@),
            selected_profile: self.selected_profile,
            password: self.password@,
            password_unlocked: self.password_unlocked,
            password_visible: self.password_visible,
            first_run_password: self.first_run_password@,
            first_run_custom_password: self.first_run_custom_password,
            first_run_save_password: self.first_run_save_password,
            first_run_generated: self.first_run_generated@,
            editor_profile: match self.editor_profile {
                Some(p) => Some(p@),
                None => None,
            },
            editor_excludes_text: self.editor_excludes_text@,
            editor_tags_text: self.editor_tags_text@,
            editor_keep_last: self.editor_keep_last@,
            editor_keep_daily: self.editor_keep_daily@,
            editor_keep_weekly: self.editor_keep_weekly@,
            editor_keep_monthly: self.editor_keep_monthly@,
            backup_running: self.backup_running,
            backup_summary: match self.backup_summary {
                Some(s) => Some(summary_view(s)),
                None => None,
            },
            snapshots: self.snapshots@,
            snapshots_loading: self.snapshots_loading,
            restore_snapshot_id: match self.restore_snapshot_id {
                Some(s) => Some(s@),
                None => None,
            },
            settings_new_password: self.settings_new_password@,
            pending_password: match self.pending_password {
                Some(p) => Some(p@),
                None => None,
            },
            repo_info: self.repo_info,
            status: self.status@,
            busy: self.busy,
        }
    }
}

/// The text an editor field shows for a count: its decimal notation, or
/// nothing when it is not set.
pub open spec fn keep_text(n: Option<u32>) -> Seq<char> {
    match n {
        Some(k) => decimal(k as nat),
        None => seq![],
    }
}

/// The default retention policy.
pub open spec fn default_retention() -> RetentionPolicy {
    RetentionPolicy {
        keep_last: Some(5u32),
        keep_daily: Some(7u32),
        keep_weekly: Some(4u32),
        keep_monthly: Some(12u32),
    }
}

/// A profile as `Profile::new` makes it, with the given name.
pub open spec fn is_fresh_profile(p: ProfileView, name: Seq<char>) -> bool {
    &&& is_uuid_v4_text(p.id)
    &&& p.name == name
    &&& p.paths.len() == 0
    &&& p.excludes == default_excludes()
    &&& p.tags.len() == 0
    &&& p.retention == default_retention()
    &&& p.last_backup.is_none()
}

/// Whether some profile in `ps` has the id `id`.
pub open spec fn has_id(ps: Seq<ProfileView>, id: Seq<char>) -> bool {
    exists|k: int| 0 <= k < ps.len() && #[trigger] ps[k].id == id
}

/// The first index of a profile with the id `id` in `ps`.
pub open spec fn first_with_id(ps: Seq<ProfileView>, id: Seq<char>) -> int {
    choose|k: int|
        0 <= k < ps.len() && ps[k].id == id && forall|j: int|
            0 <= j < k ==> #[trigger] ps[j].id != id
}

/// `ps` with `p` in place of the first profile with its id, or with `p`
/// added at the end when there is none.
pub open spec fn upserted(ps: Seq<ProfileView>, p: ProfileView) -> Seq<ProfileView> {
    if has_id(ps, p.id) {
        ps.update(first_with_id(ps, p.id), p)
    } else {
        ps.push(p)
    }
}

/// No two profiles share an id.
pub open spec fn unique_ids(ps: Seq<ProfileView>) -> bool {
    forall|i: int, j: int| 0 <= i < ps.len() && 0 <= j < ps.len() && i != j ==> #[trigger] ps[i].id
        != #[trigger] ps[j].id
}

/// The retention policy that the editor's count fields give.
pub open spec fn edited_retention(s: AppView) -> RetentionPolicy {
    RetentionPolicy {
        keep_last: parse_u32_spec(s.editor_keep_last),
        keep_daily: parse_u32_spec(s.editor_keep_daily),
        keep_weekly: parse_u32_spec(s.editor_keep_weekly),
        keep_monthly: parse_u32_spec(s.editor_keep_monthly),
    }
}

/// The profile being edited with the editor's fields read into it.
pub open spec fn edited_profile(s: AppView, e: ProfileView) -> ProfileView {
    ProfileView {
        excludes: list_items(s.editor_excludes_text),
        tags: list_items(s.editor_tags_text),
        retention: edited_retention(s),
        ..e
    }
}

/// The status line after a backup.
pub open spec fn backup_status(b: BackupSummary) -> Seq<char> {
    "Backup complete! "@ + decimal(b.files_new as nat) + " new, "@ + decimal(b.files_changed as nat)
        + " changed, "@ + decimal(b.files_unmodified as nat) + " unchanged"@
}

/// The status line after a forget and prune.
pub open spec fn prune_status(p: ForgetPruneSummary) -> Seq<char> {
    "Pruned: "@ + decimal(p.snapshots_removed as nat) + " removed, "@ + decimal(
        p.snapshots_kept as nat,
    ) + " kept"@
}

impl AppView {
    /// The repository's path.
    pub open spec fn repo_path(self) -> Seq<char> {
        resolved(self.base_path, self.config.repo_path)
    }

    /// The directory the profiles are stored in.
    pub open spec fn profiles_dir(self) -> Seq<char> {
        path_join(self.base_path, "profiles"@)
    }

    /// Where a saved password is written.
    pub open spec fn password_path(self) -> Seq<char> {
        path_join(self.base_path, default_password_file())
    }

    /// The command that lists the snapshots.
    pub open spec fn list_command(self) -> CommandView {
        CommandView::ListSnapshots { repo_path: self.repo_path(), password: self.password }
    }

    /// The editor opened on `p`: its lists joined with `, `, its counts in
    /// decimal.
    pub open spec fn opened_editor(self, p: ProfileView) -> AppView {
        AppView {
            screen: Screen::ProfileEditor,
            editor_profile: Some(p),
            editor_excludes_text: join(p.excludes, list_separator()),
            editor_tags_text: join(p.tags, list_separator()),
            editor_keep_last: keep_text(p.retention.keep_last),
            editor_keep_daily: keep_text(p.retention.keep_daily),
            editor_keep_weekly: keep_text(p.retention.keep_weekly),
            editor_keep_monthly: keep_text(p.retention.keep_monthly),
            ..self
        }
    }

    /// The retention policy that forget and prune applies: the selected
    /// profile's, or the default one.
    pub open spec fn prune_retention(self) -> RetentionPolicy {
        match self.selected_profile {
            Some(i) => if i < self.profiles.len() {
                self.profiles[i as int].retention
            } else {
                default_retention()
            },
            None => default_retention(),
        }
    }

    /// The settings after the first run chose whether to save the password.
    pub open spec fn first_run_config(self) -> ConfigView {
        ConfigView {
            save_password: self.first_run_save_password,
            password_file: if self.first_run_save_password {
                Some(default_password_file())
            } else {
                None
            },
            ..self.config
        }
    }

    /// The settings after saving the password was switched on or off.
    pub open spec fn saving_config(self, save: bool) -> ConfigView {
        ConfigView {
            save_password: save,
            password_file: if save {
                Some(default_password_file())
            } else {
                None
            },
            ..self.config
        }
    }
}

/// What a message does: `t` is the state after `msg` arrived in state `s`,
/// and `cmds` the outside work it asks for, in order.
pub open spec fn step(s: AppView, msg: Message, t: AppView, cmds: Seq<CommandView>) -> bool {
    match msg {
        Message::GoHome => t == AppView { screen: Screen::Home, backup_summary: None, ..s }
            && cmds == Seq::<CommandView>::empty(),
        Message::GoSettings => t == AppView {
            screen: Screen::Settings,
            settings_new_password: seq![],
            password_visible: false,
            ..s
        } && cmds == seq![
            CommandView::LoadRepoInfo { repo_path: s.repo_path(), password: s.password },
        ],
        Message::GoSnapshots => t == AppView {
            screen: Screen::Snapshots,
            snapshots_loading: true,
            ..s
        } && cmds == seq![s.list_command()],
        Message::GoProfileEditor(idx) => cmds == Seq::<CommandView>::empty() && match idx {
            Some(i) => if i < s.profiles.len() {
                t == s.opened_editor(s.profiles[i as int])
            } else {
                t == AppView { screen: Screen::ProfileEditor, ..s }
            },
            None => t.editor_profile matches Some(p) && is_fresh_profile(p, "New Profile"@) && t
                == s.opened_editor(p),
        },
        Message::GoBackup(i) => t == AppView {
            screen: Screen::Backup,
            backup_running: true,
            backup_summary: None,
            ..s
        } && cmds == seq![
            CommandView::RunBackup {
                repo_path: s.repo_path(),
                password: s.password,
                paths: s.profiles[i as int].paths,
                excludes: s.profiles[i as int].excludes,
                tags: s.profiles[i as int].tags,
            },
        ],
        Message::FirstRunPasswordChanged(pw) => t == AppView { first_run_password: pw@, ..s }
            && cmds == Seq::<CommandView>::empty(),
        Message::FirstRunToggleCustomPassword(custom) => t == AppView {
            first_run_custom_password: custom,
            first_run_password: if !custom {
                s.first_run_generated
            } else {
                seq![]
            },
            ..s
        } && cmds == Seq::<CommandView>::empty(),
        Message::FirstRunToggleSavePassword(save) => t == AppView {
            first_run_save_password: save,
            ..s
        } && cmds == Seq::<CommandView>::empty(),
        Message::FirstRunGeneratePassword => is_generated_password(t.first_run_generated) && t
            == AppView {
            first_run_generated: t.first_run_generated,
            first_run_password: if !s.first_run_custom_password {
                t.first_run_generated
            } else {
                s.first_run_password
            },
            ..s
        } && cmds == Seq::<CommandView>::empty(),
        Message::FirstRunInit => t == AppView {
            busy: true,
            status: "Initializing repository..."@,
            ..s
        } && cmds == (if s.first_run_save_password {
            seq![
                CommandView::WriteFile {
                    path: s.password_path(),
                    contents: s.first_run_password,
                },
            ]
        } else {
            Seq::<CommandView>::empty()
        }) + seq![
            CommandView::InitRepo { repo_path: s.repo_path(), password: s.first_run_password },
        ],
        Message::FirstRunInitResult(r) => match r {
            Ok(_) => t == AppView {
                busy: false,
                password: s.first_run_password,
                password_unlocked: true,
                config: s.first_run_config(),
                screen: Screen::Home,
                status: "Repository initialized successfully!"@,
                ..s
            } && cmds == seq![
                CommandView::SaveConfig { base: s.base_path, config: s.first_run_config() },
            ],
            Err(e) => t == AppView { busy: false, status: "Init failed: "@ + e@, ..s } && cmds
                == Seq::<CommandView>::empty(),
        },
        Message::SelectProfile(i) => t == AppView { selected_profile: Some(i), ..s } && cmds
            == Seq::<CommandView>::empty(),
        Message::DeleteProfile(i) => if i < s.profiles.len() {
            t == AppView {
                profiles: s.profiles.remove(i as int),
                selected_profile: if s.selected_profile == Some(i) {
                    None
                } else {
                    s.selected_profile
                },
                ..s
            } && cmds == seq![
                CommandView::DeleteProfileFile {
                    profiles_dir: s.profiles_dir(),
                    id: s.profiles[i as int].id,
                },
            ]
        } else {
            t == s && cmds == Seq::<CommandView>::empty()
        },
        Message::DeleteProfileResult(r) => cmds == Seq::<CommandView>::empty() && match r {
            Ok(_) => t == s,
            Err(e) => t == AppView { status: "Delete failed: "@ + e@, ..s },
        },
        Message::ProfileNameChanged(name) => cmds == Seq::<CommandView>::empty()
            && match s.editor_profile {
            Some(p) => t == AppView { editor_profile: Some(ProfileView { name: name@, ..p }), ..s },
            None => t == s,
        },
        Message::ProfileAddFolder => t == s && cmds == seq![
            CommandView::PickFolder { purpose: FolderPurpose::AddSource },
        ],
        Message::ProfileFolderPicked(path) => cmds == Seq::<CommandView>::empty() && match (
            path,
            s.editor_profile,
        ) {
            (Some(x), Some(p)) => t == AppView {
                editor_profile: Some(
                    ProfileView {
                        paths: if has_path(p.paths, x@) {
                            p.paths
                        } else {
                            p.paths.push(x@)
                        },
                        ..p
                    },
                ),
                ..s
            },
            _ => t == s,
        },
        Message::ProfileRemoveFolder(i) => cmds == Seq::<CommandView>::empty()
            && match s.editor_profile {
            Some(p) => if i < p.paths.len() {
                t == AppView {
                    editor_profile: Some(ProfileView { paths: p.paths.remove(i as int), ..p }),
                    ..s
                }
            } else {
                t == s
            },
            None => t == s,
        },
        Message::ProfileExcludesChanged(x) => t == AppView { editor_excludes_text: x@, ..s }
            && cmds == Seq::<CommandView>::empty(),
        Message::ProfileTagsChanged(x) => t == AppView { editor_tags_text: x@, ..s } && cmds
            == Seq::<CommandView>::empty(),
        Message::ProfileKeepLastChanged(x) => t == AppView { editor_keep_last: x@, ..s } && cmds
            == Seq::<CommandView>::empty(),
        Message::ProfileKeepDailyChanged(x) => t == AppView { editor_keep_daily: x@, ..s }
            && cmds == Seq::<CommandView>::empty(),
        Message::ProfileKeepWeeklyChanged(x) => t == AppView { editor_keep_weekly: x@, ..s }
            && cmds == Seq::<CommandView>::empty(),
        Message::ProfileKeepMonthlyChanged(x) => t == AppView { editor_keep_monthly: x@, ..s }
            && cmds == Seq::<CommandView>::empty(),
        Message::ProfileSave => match s.editor_profile {
            Some(e) => t == AppView {
                editor_profile: Some(edited_profile(s, e)),
                profiles: upserted(s.profiles, edited_profile(s, e)),
                ..s
            } && cmds == seq![
                CommandView::SaveProfile {
                    profiles_dir: s.profiles_dir(),
                    profile: edited_profile(s, e),
                },
            ],
            None => t == s && cmds == Seq::<CommandView>::empty(),
        },
        Message::ProfileSaveResult(r) => cmds == Seq::<CommandView>::empty() && match r {
            Ok(_) => t == AppView { screen: Screen::Home, status: "Profile saved."@, ..s },
            Err(e) => t == AppView { status: "Save failed: "@ + e@, ..s },
        },
        Message::ProfileCancel => t == AppView {
            screen: Screen::Home,
            editor_profile: None,
            ..s
        } && cmds == Seq::<CommandView>::empty(),
        Message::BackupStarted => t == s && cmds == Seq::<CommandView>::empty(),
        Message::BackupResult(r) => match r {
            Ok(b) => {
                let done = AppView {
                    backup_running: false,
                    status: backup_status(b),
                    backup_summary: Some(summary_view(b)),
                    ..s
                };
                match s.selected_profile {
                    Some(i) => if i < s.profiles.len() {
                        &&& t == AppView {
                            profiles: s.profiles.update(
                                i as int,
                                ProfileView {
                                    last_backup: t.profiles[i as int].last_backup,
                                    ..s.profiles[i as int]
                                },
                            ),
                            ..done
                        }
                        &&& t.profiles[i as int].last_backup.is_some()
                        &&& cmds == seq![
                            CommandView::StoreProfile {
                                profiles_dir: s.profiles_dir(),
                                profile: t.profiles[i as int],
                            },
                        ]
                    } else {
                        t == done && cmds == Seq::<CommandView>::empty()
                    },
                    None => t == done && cmds == Seq::<CommandView>::empty(),
                }
            },
            Err(e) => t == AppView {
                backup_running: false,
                status: "Backup failed: "@ + e@,
                ..s
            } && cmds == Seq::<CommandView>::empty(),
        },
        Message::SnapshotsLoaded(r) => cmds == Seq::<CommandView>::empty() && match r {
            Ok(snaps) => t == AppView { snapshots_loading: false, snapshots: snaps@, ..s },
            Err(e) => t == AppView {
                snapshots_loading: false,
                status: "Failed to load snapshots: "@ + e@,
                ..s
            },
        },
        Message::SnapshotRestore(id) => t == AppView { restore_snapshot_id: Some(id@), ..s }
            && cmds == seq![CommandView::PickFolder { purpose: FolderPurpose::RestoreTarget }],
        Message::SnapshotRestoreFolderPicked(path) => match (path, s.restore_snapshot_id) {
            (Some(x), Some(id)) => t == AppView {
                restore_snapshot_id: None,
                busy: true,
                status: "Restoring..."@,
                ..s
            } && cmds == seq![
                CommandView::RestoreSnapshot {
                    repo_path: s.repo_path(),
                    password: s.password,
                    snapshot_id: id,
                    target: x@,
                },
            ],
            _ => t == AppView { restore_snapshot_id: None, ..s } && cmds
                == Seq::<CommandView>::empty(),
        },
        Message::SnapshotRestoreResult(r) => cmds == Seq::<CommandView>::empty() && match r {
            Ok(_) => t == AppView { busy: false, status: "Restore complete!"@, ..s },
            Err(e) => t == AppView { busy: false, status: "Restore failed: "@ + e@, ..s },
        },
        Message::SnapshotDelete(id) => t == AppView {
            busy: true,
            status: "Deleting snapshot..."@,
            ..s
        } && cmds == seq![
            CommandView::DeleteSnapshot {
                repo_path: s.repo_path(),
                password: s.password,
                snapshot_id: id@,
            },
        ],
        Message::SnapshotDeleteResult(r) => match r {
            Ok(_) => t == AppView {
                busy: false,
                status: "Snapshot deleted."@,
                snapshots_loading: true,
                ..s
            } && cmds == seq![s.list_command()],
            Err(e) => t == AppView { busy: false, status: "Delete failed: "@ + e@, ..s } && cmds
                == Seq::<CommandView>::empty(),
        },
        Message::SnapshotForgetPrune => t == AppView {
            busy: true,
            status: "Applying retention policy and pruning..."@,
            ..s
        } && cmds == seq![
            CommandView::ForgetPrune {
                repo_path: s.repo_path(),
                password: s.password,
                retention: s.prune_retention(),
            },
        ],
        Message::SnapshotForgetPruneResult(r) => match r {
            Ok(p) => t == AppView {
                busy: false,
                status: prune_status(p),
                snapshots_loading: true,
                ..s
            } && cmds == seq![s.list_command()],
            Err(e) => t == AppView { busy: false, status: "Prune failed: "@ + e@, ..s } && cmds
                == Seq::<CommandView>::empty(),
        },
        Message::RefreshSnapshots => t == AppView { snapshots_loading: true, ..s } && cmds
            == seq![s.list_command()],
        Message::SettingsToggleSavePassword(save) => t == AppView {
            config: s.saving_config(save),
            ..s
        } && cmds == seq![
            if save {
                CommandView::WriteFile { path: s.password_path(), contents: s.password }
            } else {
                CommandView::RemoveFile { path: s.password_path() }
            },
            CommandView::SaveConfig { base: s.base_path, config: s.saving_config(save) },
        ],
        Message::SettingsThemeSelected(theme) => t == AppView {
            config: ConfigView { theme: theme@, ..s.config },
            ..s
        } && cmds == seq![
            CommandView::SaveConfig {
                base: s.base_path,
                config: ConfigView { theme: theme@, ..s.config },
            },
        ],
        Message::SettingsPasswordChanged(pw) => t == AppView {
            settings_new_password: pw@,
            ..s
        } && cmds == Seq::<CommandView>::empty(),
        Message::SettingsChangePassword => t == AppView {
            pending_password: Some(s.settings_new_password),
            busy: true,
            status: "Changing password..."@,
            ..s
        } && cmds == seq![
            CommandView::ChangeRepoKey {
                repo_path: s.repo_path(),
                old_password: s.password,
                new_password: s.settings_new_password,
            },
        ],
        Message::SettingsChangePasswordResult(r) => match r {
            Ok(_) => match s.pending_password {
                Some(p) => t == AppView {
                    password: p,
                    settings_new_password: seq![],
                    pending_password: None,
                    busy: false,
                    status: "Password changed."@,
                    ..s
                } && cmds == if s.config.save_password {
                    seq![CommandView::WriteFile { path: s.password_path(), contents: p }]
                } else {
                    Seq::<CommandView>::empty()
                },
                None => t == AppView { busy: false, ..s } && cmds == Seq::<CommandView>::empty(),
            },
            Err(e) => t == AppView {
                pending_password: None,
                busy: false,
                status: "Password change failed: "@ + e@,
                ..s
            } && cmds == Seq::<CommandView>::empty(),
        },
        Message::SettingsShowPassword => t == AppView {
            password_visible: !s.password_visible,
            ..s
        } && cmds == Seq::<CommandView>::empty(),
        Message::SettingsRepoInfoLoaded(r) => cmds == Seq::<CommandView>::empty() && match r {
            Ok(info) => t == AppView { repo_info: Some(info), ..s },
            Err(e) => t == AppView { status: "Repo info error: "@ + e@, ..s },
        },
        Message::PasswordPromptChanged(pw) => t == AppView { password: pw@, ..s } && cmds
            == Seq::<CommandView>::empty(),
        Message::PasswordPromptSubmit => t == AppView { password_unlocked: true, ..s } && cmds
            == Seq::<CommandView>::empty(),
        Message::StatusMessage(m) => t == AppView { status: m@, ..s } && cmds
            == Seq::<CommandView>::empty(),
        Message::ClearStatus => t == AppView { status: seq![], ..s } && cmds
            == Seq::<CommandView>::empty(),
    }
}

/// What a message needs of the state it arrives in: a backup names a
/// profile that exists.
pub open spec fn accepts(s: AppView, msg: Message) -> bool {
    match msg {
        Message::GoBackup(i) => i < s.profiles.len(),
        _ => true,
    }
}

/// `prefix` followed by `text`.
fn prefixed(prefix: &str, text: &str) -> (res: String)
    ensures
        res@ == prefix@ + text@,
{
    let mut s = prefix.to_string();
    s.append(text);
    s
}

/// The editor text of a count.
fn keep_field(n: Option<u32>) -> (res: String)
    ensures
        res@ == keep_text(n),
{
    match n {
        Some(k) => decimal_string(k as u64),
        None => String::new(),
    }
}

/// Calls `chrono::Utc::now`. The time depends on the clock; nothing is
/// stated of it.
#[verifier::external_body]
fn current_time() -> (res: Timestamp) {
    let now = chrono::Utc::now();
    Timestamp { secs: now.timestamp(), nanos: now.timestamp_subsec_nanos() }
}

/// The first index of a profile with the id `id`, if there is one.
fn position_of_id(ps: &Vec<Profile>, id: &String) -> (res: Option<usize>)
    ensures
        match res {
            Some(k) => k < ps@.len() && has_id(profile_views(ps@), id@) && k == first_with_id(
                profile_views(ps@),
                id@,
            ),
            None => !has_id(profile_views(ps@), id@),
        },
{
    let ghost pv = profile_views(ps@);
    let mut i: usize = 0;
    while i < ps.len()
        invariant
            pv == profile_views(ps@),
            i <= ps@.len(),
            forall|j: int| 0 <= j < i ==> #[trigger] pv[j].id != id@,
        decreases ps@.len() - i,
    {
        if ps[i].id == *id {
            assert(pv[i as int].id == id@);
            assert(has_id(pv, id@));
            let ghost c = first_with_id(pv, id@);
            assert(c == i as int) by {
                if c < i {
                    assert(pv[c].id != id@);
                } else if c > i {
                    assert(pv[i as int].id != id@);
                }
            }
            return Some(i);
        }
        i = i + 1;
    }
    assert(!has_id(pv, id@)) by {
        if has_id(pv, id@) {
            let k = choose|k: int| 0 <= k < pv.len() && #[trigger] pv[k].id == id@;
            assert(pv[k].id != id@);
        }
    }
    None
}

impl App {
    /// The state the application starts in. The caller has read the
    /// settings and the profiles, checked whether the repository exists, and
    /// read the saved password file if there is one. Without a repository
    /// the first run screen opens; a saved password, trimmed, unlocks the
    /// application. A fresh password is generated for the first run.
    pub fn new(
        base_path: String,
        config: AppConfig,
        profiles: Vec<Profile>,
        repo_exists: bool,
        stored_password: Option<String>,
    ) -> (res: App)
        ensures
            res.base_path == base_path,
            res.config == config,
            res.profiles == profiles,
            res.screen == if repo_exists {
                Screen::Home
            } else {
                Screen::FirstRun
            },
            res.selected_profile.is_none(),
            res.password@ == match stored_password {
                Some(p) => trim(p@),
                None => seq![],
            },
            res.password_unlocked == stored_password.is_some(),
            !res.password_visible,
            is_generated_password(res.first_run_generated@),
            res.first_run_password@ == res.first_run_generated@,
            !res.first_run_custom_password,
            res.first_run_save_password,
            res.editor_profile.is_none(),
            res.editor_excludes_text@.len() == 0,
            res.editor_tags_text@.len() == 0,
            res.editor_keep_last@.len() == 0,
            res.editor_keep_daily@.len() == 0,
            res.editor_keep_weekly@.len() == 0,
            res.editor_keep_monthly@.len() == 0,
            !res.backup_running,
            res.backup_summary.is_none(),
            res.snapshots@.len() == 0,
            !res.snapshots_loading,
            res.restore_snapshot_id.is_none(),
            res.settings_new_password@.len() == 0,
            res.pending_password.is_none(),
            res.repo_info.is_none(),
            res.status@.len() == 0,
            !res.busy,
    {
        let (password, password_unlocked) = match stored_password {
            Some(p) => {
                let c = chars_of(p.as_str());
                (trimmed(c.as_slice()), true)
            },
            None => (String::new(), false),
        };
        let screen = if !repo_exists {
            Screen::FirstRun
        } else {
            Screen::Home
        };
        let generated = generate_password();
        App {
            base_path,
            config,
            screen,
            profiles,
            selected_profile: None,
            password,
            password_unlocked,
            password_visible: false,
            first_run_password: generated.clone(),
            first_run_custom_password: false,
            first_run_save_password: true,
            first_run_generated: generated,
            editor_profile: None,
            editor_excludes_text: String::new(),
            editor_tags_text: String::new(),
            editor_keep_last: String::new(),
            editor_keep_daily: String::new(),
            editor_keep_weekly: String::new(),
            editor_keep_monthly: String::new(),
            backup_running: false,
            backup_summary: None,
            snapshots: Vec::new(),
            snapshots_loading: false,
            restore_snapshot_id: None,
            settings_new_password: String::new(),
            pending_password: None,
            repo_info: None,
            status: String::new(),
            busy: false,
        }
    }

    /// The application's title.
    pub fn title(&self) -> (res: String)
        ensures
            res@ == "Rustic Vault"@,
    {
        "Rustic Vault".to_string()
    }

    /// The theme named in the settings.
    pub fn theme(&self) -> (res: ThemeChoice)
        ensures
            theme_name_of(res) == self.config.theme@ || (res == ThemeChoice::Dark && forall|
                t: ThemeChoice,
            | theme_name_of(t) != self.config.theme@),
    {
        theme_from_name(self.config.theme.as_str())
    }

    /// The directory the profiles are stored in.
    pub fn profiles_dir(&self) -> (res: String)
        ensures
            res@ == self@.profiles_dir(),
    {
        join_path(self.base_path.as_str(), "profiles")
    }

    /// The repository's path.
    pub fn repo_path(&self) -> (res: String)
        ensures
            res@ == self@.repo_path(),
    {
        self.config.resolve_repo_path(self.base_path.as_str())
    }

    /// Where a saved password is written.
    pub fn password_path(&self) -> (res: String)
        ensures
            res@ == self@.password_path(),
    {
        join_path(self.base_path.as_str(), "../.password")
    }

    /// Whether the password prompt stands in front of every screen but the
    /// first run.
    pub fn shows_password_prompt(&self) -> (res: bool)
        ensures
            res == (!self.password_unlocked && self.screen != Screen::FirstRun),
    {
        !self.password_unlocked && self.screen != Screen::FirstRun
    }

    fn list_command(&self) -> (res: Command)
        ensures
            res@ == self@.list_command(),
    {
        Command::ListSnapshots { repo_path: self.repo_path(), password: self.password.clone() }
    }

    fn open_editor(&mut self, p: Profile)
        ensures
            final(self)@ == old(self)@.opened_editor(p@),
    {
        proof {
            reveal_strlit(", ");
            assert(", "@ =~= list_separator());
        }
        self.screen = Screen::ProfileEditor;
        self.editor_excludes_text = join_strings(&p.excludes, ", ");
        self.editor_tags_text = join_strings(&p.tags, ", ");
        self.editor_keep_last = keep_field(p.retention.keep_last);
        self.editor_keep_daily = keep_field(p.retention.keep_daily);
        self.editor_keep_weekly = keep_field(p.retention.keep_weekly);
        self.editor_keep_monthly = keep_field(p.retention.keep_monthly);
        self.editor_profile = Some(p);
    }

    fn on_go_home(&mut self) -> (cmds: Vec<Command>)
        ensures
            step(old(self)@, Message::GoHome, final(self)@, command_views(cmds@)),
    {
        let mut cmds: Vec<Command> = Vec::new();
        self.screen = Screen::Home;
        self.backup_summary = None;
        proof {
            lemma_command_views(cmds@);
        }
        cmds
    }

    fn on_go_settings(&mut self) -> (cmds: Vec<Command>)
        ensures
            step(old(self)@, Message::GoSettings, final(self)@, command_views(cmds@)),
    {
        let mut cmds: Vec<Command> = Vec::new();
        self.screen = Screen::Settings;
        self.settings_new_password = String::new();
        self.password_visible = false;
        let repo_path = self.repo_path();
        cmds.push(Command::LoadRepoInfo { repo_path, password: self.password.clone() });
        proof {
            lemma_command_views(cmds@);
        }
        cmds
    }

    fn on_go_snapshots(&mut self) -> (cmds: Vec<Command>)
        ensures
            step(old(self)@, Message::GoSnapshots, final(self)@, command_views(cmds@)),
    {
        let mut cmds: Vec<Command> = Vec::new();
        self.screen = Screen::Snapshots;
        self.snapshots_loading = true;
        cmds.push(self.list_command());
        proof {
            lemma_command_views(cmds@);
        }
        cmds
    }

    fn on_go_profile_editor(&mut self, idx: Option<usize>) -> (cmds: Vec<Command>)
        ensures
            step(old(self)@, Message::GoProfileEditor(idx), final(self)@, command_views(cmds@)),
    {
        let mut cmds: Vec<Command> = Vec::new();
        match idx {
            Some(i) => {
                if i < self.profiles.len() {
                    let p = self.profiles[i].duplicate();
                    self.open_editor(p);
                } else {
                    self.screen = Screen::ProfileEditor;
                }
            },
            None => {
                let p = Profile::new("New Profile".to_string());
                self.open_editor(p);
            },
        }
        proof {
            lemma_command_views(cmds@);
        }
        cmds
    }

    fn on_go_backup(&mut self, idx: usize) -> (cmds: Vec<Command>)
        requires
            idx < old(self).profiles@.len(),
        ensures
            step(old(self)@, Message::GoBackup(idx), final(self)@, command_views(cmds@)),
    {
        let mut cmds: Vec<Command> = Vec::new();
        self.screen = Screen::Backup;
        self.backup_running = true;
        self.backup_summary = None;
        let repo_path = self.repo_path();
        let p = &self.profiles[idx];
        cmds.push(
            Command::RunBackup {
                repo_path,
                password: self.password.clone(),
                paths: copy_strings(&p.paths),
                excludes: copy_strings(&p.excludes),
                tags: copy_strings(&p.tags),
            },
        );
        proof {
            lemma_command_views(cmds@);
        }
        cmds
    }

    fn on_first_run_password_changed(&mut self, pw: String) -> (cmds: Vec<Command>)
        ensures
            step(
                old(self)@,
                Message::FirstRunPasswordChanged(pw),
                final(self)@,
                command_views(cmds@),
            ),
    {
        let mut cmds: Vec<Command> = Vec::new();
        self.first_run_password = pw;
        proof {
            lemma_command_views(cmds@);
        }
        cmds
    }

    fn on_first_run_toggle_custom(&mut self, custom: bool) -> (cmds: Vec<Command>)
        ensures
            step(
                old(self)@,
                Message::FirstRunToggleCustomPassword(custom),
                final(self)@,
                command_views(cmds@),
            ),
    {
        let mut cmds: Vec<Command> = Vec::new();
        self.first_run_custom_password = custom;
        if !custom {
            self.first_run_password = self.first_run_generated.clone();
        } else {
            self.first_run_password = String::new();
        }
        proof {
            lemma_command_views(cmds@);
        }
        cmds
    }

    fn on_first_run_toggle_save(&mut self, save: bool) -> (cmds: Vec<Command>)
        ensures
            step(
                old(self)@,
                Message::FirstRunToggleSavePassword(save),
                final(self)@,
                command_views(cmds@),
            ),
    {
        let mut cmds: Vec<Command> = Vec::new();
        self.first_run_save_password = save;
        proof {
            lemma_command_views(cmds@);
        }
        cmds
    }

    fn on_first_run_generate(&mut self) -> (cmds: Vec<Command>)
        ensures
            step(old(self)@, Message::FirstRunGeneratePassword, final(self)@, command_views(cmds@)),
    {
        let mut cmds: Vec<Command> = Vec::new();
        self.first_run_generated = generate_password();
        if !self.first_run_custom_password {
            self.first_run_password = self.first_run_generated.clone();
        }
        proof {
            lemma_command_views(cmds@);
        }
        cmds
    }

    fn on_first_run_init(&mut self) -> (cmds: Vec<Command>)
        ensures
            step(old(self)@, Message::FirstRunInit, final(self)@, command_views(cmds@)),
    {
        let mut cmds: Vec<Command> = Vec::new();
        self.busy = true;
        self.status = "Initializing repository...".to_string();
        let repo_path = self.repo_path();
        if self.first_run_save_password {
            let path = self.password_path();
            cmds.push(Command::WriteFile { path, contents: self.first_run_password.clone() });
        }
        cmds.push(Command::InitRepo { repo_path, password: self.first_run_password.clone() });
        proof {
            lemma_command_views(cmds@);
            if cmds@.len() == 2 {
                assert(seq![cmds@[0]@] + seq![cmds@[1]@] =~= seq![cmds@[0]@, cmds@[1]@]);
            } else {
                assert(Seq::<CommandView>::empty() + seq![cmds@[0]@] =~= seq![cmds@[0]@]);
            }
        }
        cmds
    }

    fn on_first_run_init_result(&mut self, result: Result<(), String>) -> (cmds: Vec<Command>)
        ensures
            step(
                old(self)@,
                Message::FirstRunInitResult(result),
                final(self)@,
                command_views(cmds@),
            ),
    {
        let mut cmds: Vec<Command> = Vec::new();
        self.busy = false;
        match result {
            Ok(()) => {
                self.password = self.first_run_password.clone();
                self.password_unlocked = true;
                self.config.save_password = self.first_run_save_password;
                if self.first_run_save_password {
                    self.config.password_file = Some("../.password".to_string());
                } else {
                    self.config.password_file = None;
                }
                cmds.push(
                    Command::SaveConfig {
                        base: self.base_path.clone(),
                        config: self.config.duplicate(),
                    },
                );
                self.screen = Screen::Home;
                self.status = "Repository initialized successfully!".to_string();
            },
            Err(e) => {
                self.status = prefixed("Init failed: ", e.as_str());
            },
        }
        proof {
            lemma_command_views(cmds@);
        }
        cmds
    }

    fn on_select_profile(&mut self, idx: usize) -> (cmds: Vec<Command>)
        ensures
            step(old(self)@, Message::SelectProfile(idx), final(self)@, command_views(cmds@)),
    {
        let mut cmds: Vec<Command> = Vec::new();
        self.selected_profile = Some(idx);
        proof {
            lemma_command_views(cmds@);
        }
        cmds
    }

    fn on_delete_profile(&mut self, idx: usize) -> (cmds: Vec<Command>)
        ensures
            step(old(self)@, Message::DeleteProfile(idx), final(self)@, command_views(cmds@)),
    {
        let mut cmds: Vec<Command> = Vec::new();
        if idx < self.profiles.len() {
            let profiles_dir = self.profiles_dir();
            let id = self.profiles[idx].id.clone();
            let ghost before = self.profiles@;
            self.profiles.remove(idx);
            assert(profile_views(self.profiles@) =~= profile_views(before).remove(idx as int));
            if self.selected_profile == Some(idx) {
                self.selected_profile = None;
            }
            cmds.push(Command::DeleteProfileFile { profiles_dir, id });
        }
        proof {
            lemma_command_views(cmds@);
        }
        cmds
    }

    fn on_delete_profile_result(&mut self, result: Result<(), String>) -> (cmds: Vec<Command>)
        ensures
            step(
                old(self)@,
                Message::DeleteProfileResult(result),
                final(self)@,
                command_views(cmds@),
            ),
    {
        let mut cmds: Vec<Command> = Vec::new();
        if let Err(e) = result {
            self.status = prefixed("Delete failed: ", e.as_str());
        }
        proof {
            lemma_command_views(cmds@);
        }
        cmds
    }

    fn on_profile_name_changed(&mut self, name: String) -> (cmds: Vec<Command>)
        ensures
            step(old(self)@, Message::ProfileNameChanged(name), final(self)@, command_views(cmds@)),
    {
        let mut cmds: Vec<Command> = Vec::new();
        if let Some(mut p) = self.editor_profile.take() {
            p.name = name;
            self.editor_profile = Some(p);
        }
        proof {
            lemma_command_views(cmds@);
        }
        cmds
    }

    fn on_profile_add_folder(&mut self) -> (cmds: Vec<Command>)
        ensures
            step(old(self)@, Message::ProfileAddFolder, final(self)@, command_views(cmds@)),
    {
        let mut cmds: Vec<Command> = Vec::new();
        cmds.push(Command::PickFolder { purpose: FolderPurpose::AddSource });
        proof {
            lemma_command_views(cmds@);
        }
        cmds
    }

    fn on_profile_folder_picked(&mut self, path: Option<String>) -> (cmds: Vec<Command>)
        ensures
            step(
                old(self)@,
                Message::ProfileFolderPicked(path),
                final(self)@,
                command_views(cmds@),
            ),
    {
        let mut cmds: Vec<Command> = Vec::new();
        if let Some(x) = path {
            if let Some(mut p) = self.editor_profile.take() {
                if !contains_path(&p.paths, &x) {
                    let ghost before = p.paths@;
                    p.paths.push(x);
                    assert(views(p.paths@) =~= views(before).push(p.paths@.last()@));
                }
                self.editor_profile = Some(p);
            }
        }
        proof {
            lemma_command_views(cmds@);
        }
        cmds
    }

    fn on_profile_remove_folder(&mut self, idx: usize) -> (cmds: Vec<Command>)
        ensures
            step(old(self)@, Message::ProfileRemoveFolder(idx), final(self)@, command_views(cmds@)),
    {
        let mut cmds: Vec<Command> = Vec::new();
        if let Some(mut p) = self.editor_profile.take() {
            if idx < p.paths.len() {
                let ghost before = p.paths@;
                p.paths.remove(idx);
                assert(views(p.paths@) =~= views(before).remove(idx as int));
            }
            self.editor_profile = Some(p);
        }
        proof {
            lemma_command_views(cmds@);
        }
        cmds
    }

    fn on_profile_excludes_changed(&mut self, x: String) -> (cmds: Vec<Command>)
        ensures
            step(
                old(self)@,
                Message::ProfileExcludesChanged(x),
                final(self)@,
                command_views(cmds@),
            ),
    {
        let mut cmds: Vec<Command> = Vec::new();
        self.editor_excludes_text = x;
        proof {
            lemma_command_views(cmds@);
        }
        cmds
    }

    fn on_profile_tags_changed(&mut self, x: String) -> (cmds: Vec<Command>)
        ensures
            step(old(self)@, Message::ProfileTagsChanged(x), final(self)@, command_views(cmds@)),
    {
        let mut cmds: Vec<Command> = Vec::new();
        self.editor_tags_text = x;
        proof {
            lemma_command_views(cmds@);
        }
        cmds
    }

    fn on_profile_keep_last_changed(&mut self, x: String) -> (cmds: Vec<Command>)
        ensures
            step(
                old(self)@,
                Message::ProfileKeepLastChanged(x),
                final(self)@,
                command_views(cmds@),
            ),
    {
        let mut cmds: Vec<Command> = Vec::new();
        self.editor_keep_last = x;
        proof {
            lemma_command_views(cmds@);
        }
        cmds
    }

    fn on_profile_keep_daily_changed(&mut self, x: String) -> (cmds: Vec<Command>)
        ensures
            step(
                old(self)@,
                Message::ProfileKeepDailyChanged(x),
                final(self)@,
                command_views(cmds@),
            ),
    {
        let mut cmds: Vec<Command> = Vec::new();
        self.editor_keep_daily = x;
        proof {
            lemma_command_views(cmds@);
        }
        cmds
    }

    fn on_profile_keep_weekly_changed(&mut self, x: String) -> (cmds: Vec<Command>)
        ensures
            step(
                old(self)@,
                Message::ProfileKeepWeeklyChanged(x),
                final(self)@,
                command_views(cmds@),
            ),
    {
        let mut cmds: Vec<Command> = Vec::new();
        self.editor_keep_weekly = x;
        proof {
            lemma_command_views(cmds@);
        }
        cmds
    }

    fn on_profile_keep_monthly_changed(&mut self, x: String) -> (cmds: Vec<Command>)
        ensures
            step(
                old(self)@,
                Message::ProfileKeepMonthlyChanged(x),
                final(self)@,
                command_views(cmds@),
            ),
    {
        let mut cmds: Vec<Command> = Vec::new();
        self.editor_keep_monthly = x;
        proof {
            lemma_command_views(cmds@);
        }
        cmds
    }

    /// The profile `p` with the editor's fields read into it.
    fn read_editor(&self, p: Profile) -> (res: Profile)
        ensures
            res@ == edited_profile(self@, p@),
    {
        let mut p = p;
        p.excludes = parse_list(self.editor_excludes_text.as_str());
        p.tags = parse_list(self.editor_tags_text.as_str());
        p.retention = RetentionPolicy {
            keep_last: parse_u32(self.editor_keep_last.as_str()),
            keep_daily: parse_u32(self.editor_keep_daily.as_str()),
            keep_weekly: parse_u32(self.editor_keep_weekly.as_str()),
            keep_monthly: parse_u32(self.editor_keep_monthly.as_str()),
        };
        p
    }

    fn on_profile_save(&mut self) -> (cmds: Vec<Command>)
        ensures
            step(old(self)@, Message::ProfileSave, final(self)@, command_views(cmds@)),
    {
        let mut cmds: Vec<Command> = Vec::new();
        let profiles_dir = self.profiles_dir();
        if let Some(e) = self.editor_profile.take() {
            let p = self.read_editor(e);
            upsert_profile(&mut self.profiles, &p);
            let saved = p.duplicate();
            self.editor_profile = Some(p);
            cmds.push(Command::SaveProfile { profiles_dir, profile: saved });
        }
        proof {
            lemma_command_views(cmds@);
        }
        cmds
    }

    fn on_profile_save_result(&mut self, result: Result<(), String>) -> (cmds: Vec<Command>)
        ensures
            step(
                old(self)@,
                Message::ProfileSaveResult(result),
                final(self)@,
                command_views(cmds@),
            ),
    {
        let mut cmds: Vec<Command> = Vec::new();
        match result {
            Ok(()) => {
                self.screen = Screen::Home;
                self.status = "Profile saved.".to_string();
            },
            Err(e) => {
                self.status = prefixed("Save failed: ", e.as_str());
            },
        }
        proof {
            lemma_command_views(cmds@);
        }
        cmds
    }

    fn on_profile_cancel(&mut self) -> (cmds: Vec<Command>)
        ensures
            step(old(self)@, Message::ProfileCancel, final(self)@, command_views(cmds@)),
    {
        let mut cmds: Vec<Command> = Vec::new();
        self.screen = Screen::Home;
        self.editor_profile = None;
        proof {
            lemma_command_views(cmds@);
        }
        cmds
    }

    fn on_backup_started(&mut self) -> (cmds: Vec<Command>)
        ensures
            step(old(self)@, Message::BackupStarted, final(self)@, command_views(cmds@)),
    {
        let mut cmds: Vec<Command> = Vec::new();
        proof {
            lemma_command_views(cmds@);
        }
        cmds
    }

    fn on_backup_result(&mut self, result: Result<BackupSummary, String>) -> (cmds: Vec<Command>)
        ensures
            step(old(self)@, Message::BackupResult(result), final(self)@, command_views(cmds@)),
    {
        match result {
            Ok(summary) => {
                let now = current_time();
                self.record_backup(summary, now)
            },
            Err(e) => {
                let cmds: Vec<Command> = Vec::new();
                self.backup_running = false;
                self.status = prefixed("Backup failed: ", e.as_str());
                proof {
                    lemma_command_views(cmds@);
                }
                cmds
            },
        }
    }

    /// Records a finished backup that ended at `now`: the backup stops
    /// running, its summary is shown, and the selected profile, if there is
    /// one, notes `now` as its last backup and is stored.
    pub fn record_backup(&mut self, summary: BackupSummary, now: Timestamp) -> (cmds: Vec<Command>)
        ensures
            step(
                old(self)@,
                Message::BackupResult(Ok(summary)),
                final(self)@,
                command_views(cmds@),
            ),
            match old(self).selected_profile {
                Some(i) => i < old(self).profiles@.len() ==> {
                    let p = ProfileView {
                        last_backup: Some(now),
                        ..old(self)@.profiles[i as int]
                    };
                    &&& final(self)@.profiles == old(self)@.profiles.update(i as int, p)
                    &&& command_views(cmds@) == seq![
                        CommandView::StoreProfile { profiles_dir: old(self)@.profiles_dir(), profile: p },
                    ]
                },
                None => true,
            },
    {
        let mut cmds: Vec<Command> = Vec::new();
        self.backup_running = false;
        let profiles_dir = self.profiles_dir();
        if let Some(idx) = self.selected_profile {
            if idx < self.profiles.len() {
                let mut p = self.profiles[idx].duplicate();
                p.last_backup = Some(now);
                let ghost before = self.profiles@;
                self.profiles.set(idx, p.duplicate());
                assert(profile_views(self.profiles@) =~= profile_views(before).update(
                    idx as int,
                    p@,
                ));
                cmds.push(Command::StoreProfile { profiles_dir, profile: p });
            }
        }
        self.status = backup_status_text(&summary);
        self.backup_summary = Some(summary);
        proof {
            lemma_command_views(cmds@);
        }
        cmds
    }

    fn on_snapshots_loaded(
        &mut self,
        result: Result<Vec<SnapshotInfo>, String>,
    ) -> (cmds: Vec<Command>)
        ensures
            step(old(self)@, Message::SnapshotsLoaded(result), final(self)@, command_views(cmds@)),
    {
        let mut cmds: Vec<Command> = Vec::new();
        self.snapshots_loading = false;
        match result {
            Ok(snaps) => {
                self.snapshots = snaps;
            },
            Err(e) => {
                self.status = prefixed("Failed to load snapshots: ", e.as_str());
            },
        }
        proof {
            lemma_command_views(cmds@);
        }
        cmds
    }

    fn on_snapshot_restore(&mut self, id: String) -> (cmds: Vec<Command>)
        ensures
            step(old(self)@, Message::SnapshotRestore(id), final(self)@, command_views(cmds@)),
    {
        let mut cmds: Vec<Command> = Vec::new();
        self.restore_snapshot_id = Some(id);
        cmds.push(Command::PickFolder { purpose: FolderPurpose::RestoreTarget });
        proof {
            lemma_command_views(cmds@);
        }
        cmds
    }

    fn on_snapshot_restore_folder_picked(&mut self, path: Option<String>) -> (cmds: Vec<Command>)
        ensures
            step(
                old(self)@,
                Message::SnapshotRestoreFolderPicked(path),
                final(self)@,
                command_views(cmds@),
            ),
    {
        let mut cmds: Vec<Command> = Vec::new();
        let pending = self.restore_snapshot_id.take();
        match (path, pending) {
            (Some(target), Some(snapshot_id)) => {
                self.busy = true;
                self.status = "Restoring...".to_string();
                let repo_path = self.repo_path();
                cmds.push(
                    Command::RestoreSnapshot {
                        repo_path,
                        password: self.password.clone(),
                        snapshot_id,
                        target,
                    },
                );
            },
            _ => {},
        }
        proof {
            lemma_command_views(cmds@);
        }
        cmds
    }

    fn on_snapshot_restore_result(&mut self, result: Result<(), String>) -> (cmds: Vec<Command>)
        ensures
            step(
                old(self)@,
                Message::SnapshotRestoreResult(result),
                final(self)@,
                command_views(cmds@),
            ),
    {
        let mut cmds: Vec<Command> = Vec::new();
        self.busy = false;
        match result {
            Ok(()) => {
                self.status = "Restore complete!".to_string();
            },
            Err(e) => {
                self.status = prefixed("Restore failed: ", e.as_str());
            },
        }
        proof {
            lemma_command_views(cmds@);
        }
        cmds
    }

    fn on_snapshot_delete(&mut self, id: String) -> (cmds: Vec<Command>)
        ensures
            step(old(self)@, Message::SnapshotDelete(id), final(self)@, command_views(cmds@)),
    {
        let mut cmds: Vec<Command> = Vec::new();
        self.busy = true;
        self.status = "Deleting snapshot...".to_string();
        let repo_path = self.repo_path();
        cmds.push(
            Command::DeleteSnapshot { repo_path, password: self.password.clone(), snapshot_id: id },
        );
        proof {
            lemma_command_views(cmds@);
        }
        cmds
    }

    fn on_snapshot_delete_result(&mut self, result: Result<(), String>) -> (cmds: Vec<Command>)
        ensures
            step(
                old(self)@,
                Message::SnapshotDeleteResult(result),
                final(self)@,
                command_views(cmds@),
            ),
    {
        let mut cmds: Vec<Command> = Vec::new();
        self.busy = false;
        match result {
            Ok(()) => {
                self.status = "Snapshot deleted.".to_string();
                self.snapshots_loading = true;
                cmds.push(self.list_command());
            },
            Err(e) => {
                self.status = prefixed("Delete failed: ", e.as_str());
            },
        }
        proof {
            lemma_command_views(cmds@);
        }
        cmds
    }

    fn on_snapshot_forget_prune(&mut self) -> (cmds: Vec<Command>)
        ensures
            step(old(self)@, Message::SnapshotForgetPrune, final(self)@, command_views(cmds@)),
    {
        let mut cmds: Vec<Command> = Vec::new();
        let retention = match self.selected_profile {
            Some(i) => {
                if i < self.profiles.len() {
                    self.profiles[i].retention
                } else {
                    RetentionPolicy::default()
                }
            },
            None => RetentionPolicy::default(),
        };
        self.busy = true;
        self.status = "Applying retention policy and pruning...".to_string();
        let repo_path = self.repo_path();
        cmds.push(Command::ForgetPrune { repo_path, password: self.password.clone(), retention });
        proof {
            lemma_command_views(cmds@);
        }
        cmds
    }

    fn on_snapshot_forget_prune_result(
        &mut self,
        result: Result<ForgetPruneSummary, String>,
    ) -> (cmds: Vec<Command>)
        ensures
            step(
                old(self)@,
                Message::SnapshotForgetPruneResult(result),
                final(self)@,
                command_views(cmds@),
            ),
    {
        let mut cmds: Vec<Command> = Vec::new();
        self.busy = false;
        match result {
            Ok(summary) => {
                self.status = prune_status_text(summary);
                self.snapshots_loading = true;
                cmds.push(self.list_command());
            },
            Err(e) => {
                self.status = prefixed("Prune failed: ", e.as_str());
            },
        }
        proof {
            lemma_command_views(cmds@);
        }
        cmds
    }

    fn on_refresh_snapshots(&mut self) -> (cmds: Vec<Command>)
        ensures
            step(old(self)@, Message::RefreshSnapshots, final(self)@, command_views(cmds@)),
    {
        let mut cmds: Vec<Command> = Vec::new();
        self.snapshots_loading = true;
        cmds.push(self.list_command());
        proof {
            lemma_command_views(cmds@);
        }
        cmds
    }

    fn on_settings_toggle_save_password(&mut self, save: bool) -> (cmds: Vec<Command>)
        ensures
            step(
                old(self)@,
                Message::SettingsToggleSavePassword(save),
                final(self)@,
                command_views(cmds@),
            ),
    {
        let mut cmds: Vec<Command> = Vec::new();
        self.config.save_password = save;
        let path = self.password_path();
        if save {
            self.config.password_file = Some("../.password".to_string());
            cmds.push(Command::WriteFile { path, contents: self.password.clone() });
        } else {
            self.config.password_file = None;
            cmds.push(Command::RemoveFile { path });
        }
        cmds.push(
            Command::SaveConfig { base: self.base_path.clone(), config: self.config.duplicate() },
        );
        proof {
            lemma_command_views(cmds@);
        }
        cmds
    }

    fn on_settings_theme_selected(&mut self, theme: String) -> (cmds: Vec<Command>)
        ensures
            step(
                old(self)@,
                Message::SettingsThemeSelected(theme),
                final(self)@,
                command_views(cmds@),
            ),
    {
        let mut cmds: Vec<Command> = Vec::new();
        self.config.theme = theme;
        cmds.push(
            Command::SaveConfig { base: self.base_path.clone(), config: self.config.duplicate() },
        );
        proof {
            lemma_command_views(cmds@);
        }
        cmds
    }

    fn on_settings_password_changed(&mut self, pw: String) -> (cmds: Vec<Command>)
        ensures
            step(
                old(self)@,
                Message::SettingsPasswordChanged(pw),
                final(self)@,
                command_views(cmds@),
            ),
    {
        let mut cmds: Vec<Command> = Vec::new();
        self.settings_new_password = pw;
        proof {
            lemma_command_views(cmds@);
        }
        cmds
    }

    fn on_settings_change_password(&mut self) -> (cmds: Vec<Command>)
        ensures
            step(old(self)@, Message::SettingsChangePassword, final(self)@, command_views(cmds@)),
    {
        let mut cmds: Vec<Command> = Vec::new();
        let repo_path = self.repo_path();
        cmds.push(
            Command::ChangeRepoKey {
                repo_path,
                old_password: self.password.clone(),
                new_password: self.settings_new_password.clone(),
            },
        );
        self.pending_password = Some(self.settings_new_password.clone());
        self.busy = true;
        self.status = "Changing password...".to_string();
        proof {
            lemma_command_views(cmds@);
        }
        cmds
    }

    fn on_settings_change_password_result(
        &mut self,
        result: Result<(), String>,
    ) -> (cmds: Vec<Command>)
        ensures
            step(
                old(self)@,
                Message::SettingsChangePasswordResult(result),
                final(self)@,
                command_views(cmds@),
            ),
    {
        let mut cmds: Vec<Command> = Vec::new();
        self.busy = false;
        match result {
            Ok(_) => {
                match self.pending_password.take() {
                    Some(p) => {
                        if self.config.save_password {
                            let path = self.password_path();
                            cmds.push(Command::WriteFile { path, contents: p.clone() });
                        }
                        self.password = p;
                        self.settings_new_password = String::new();
                        self.status = "Password changed.".to_string();
                    },
                    None => {},
                }
            },
            Err(e) => {
                self.pending_password = None;
                self.status = prefixed("Password change failed: ", e.as_str());
            },
        }
        proof {
            lemma_command_views(cmds@);
        }
        cmds
    }

    fn on_settings_show_password(&mut self) -> (cmds: Vec<Command>)
        ensures
            step(old(self)@, Message::SettingsShowPassword, final(self)@, command_views(cmds@)),
    {
        let mut cmds: Vec<Command> = Vec::new();
        self.password_visible = !self.password_visible;
        proof {
            lemma_command_views(cmds@);
        }
        cmds
    }

    fn on_settings_repo_info_loaded(
        &mut self,
        result: Result<RepoInfo, String>,
    ) -> (cmds: Vec<Command>)
        ensures
            step(
                old(self)@,
                Message::SettingsRepoInfoLoaded(result),
                final(self)@,
                command_views(cmds@),
            ),
    {
        let mut cmds: Vec<Command> = Vec::new();
        match result {
            Ok(info) => {
                self.repo_info = Some(info);
            },
            Err(e) => {
                self.status = prefixed("Repo info error: ", e.as_str());
            },
        }
        proof {
            lemma_command_views(cmds@);
        }
        cmds
    }

    fn on_password_prompt_changed(&mut self, pw: String) -> (cmds: Vec<Command>)
        ensures
            step(
                old(self)@,
                Message::PasswordPromptChanged(pw),
                final(self)@,
                command_views(cmds@),
            ),
    {
        let mut cmds: Vec<Command> = Vec::new();
        self.password = pw;
        proof {
            lemma_command_views(cmds@);
        }
        cmds
    }

    fn on_password_prompt_submit(&mut self) -> (cmds: Vec<Command>)
        ensures
            step(old(self)@, Message::PasswordPromptSubmit, final(self)@, command_views(cmds@)),
    {
        let mut cmds: Vec<Command> = Vec::new();
        self.password_unlocked = true;
        proof {
            lemma_command_views(cmds@);
        }
        cmds
    }

    fn on_status_message(&mut self, text: String) -> (cmds: Vec<Command>)
        ensures
            step(old(self)@, Message::StatusMessage(text), final(self)@, command_views(cmds@)),
    {
        let mut cmds: Vec<Command> = Vec::new();
        self.status = text;
        proof {
            lemma_command_views(cmds@);
        }
        cmds
    }

    fn on_clear_status(&mut self) -> (cmds: Vec<Command>)
        ensures
            step(old(self)@, Message::ClearStatus, final(self)@, command_views(cmds@)),
    {
        let mut cmds: Vec<Command> = Vec::new();
        self.status = String::new();
        proof {
            lemma_command_views(cmds@);
        }
        cmds
    }

    /// Handles a message: the state moves on as `step` says, and the
    /// outside work to perform comes back in order.
    pub fn update(&mut self, message: Message) -> (cmds: Vec<Command>)
        requires
            accepts(old(self)@, message),
        ensures
            step(old(self)@, message, final(self)@, command_views(cmds@)),
    {
        match message {
            Message::GoHome => self.on_go_home(),
            Message::GoSettings => self.on_go_settings(),
            Message::GoSnapshots => self.on_go_snapshots(),
            Message::GoProfileEditor(idx) => self.on_go_profile_editor(idx),
            Message::GoBackup(idx) => self.on_go_backup(idx),
            Message::FirstRunPasswordChanged(pw) => self.on_first_run_password_changed(pw),
            Message::FirstRunToggleCustomPassword(custom) => {
                self.on_first_run_toggle_custom(custom)
            },
            Message::FirstRunToggleSavePassword(save) => self.on_first_run_toggle_save(save),
            Message::FirstRunGeneratePassword => self.on_first_run_generate(),
            Message::FirstRunInit => self.on_first_run_init(),
            Message::FirstRunInitResult(result) => self.on_first_run_init_result(result),
            Message::SelectProfile(idx) => self.on_select_profile(idx),
            Message::DeleteProfile(idx) => self.on_delete_profile(idx),
            Message::DeleteProfileResult(result) => self.on_delete_profile_result(result),
            Message::ProfileNameChanged(name) => self.on_profile_name_changed(name),
            Message::ProfileAddFolder => self.on_profile_add_folder(),
            Message::ProfileFolderPicked(path) => self.on_profile_folder_picked(path),
            Message::ProfileRemoveFolder(idx) => self.on_profile_remove_folder(idx),
            Message::ProfileExcludesChanged(x) => self.on_profile_excludes_changed(x),
            Message::ProfileTagsChanged(x) => self.on_profile_tags_changed(x),
            Message::ProfileKeepLastChanged(x) => self.on_profile_keep_last_changed(x),
            Message::ProfileKeepDailyChanged(x) => self.on_profile_keep_daily_changed(x),
            Message::ProfileKeepWeeklyChanged(x) => self.on_profile_keep_weekly_changed(x),
            Message::ProfileKeepMonthlyChanged(x) => self.on_profile_keep_monthly_changed(x),
            Message::ProfileSave => self.on_profile_save(),
            Message::ProfileSaveResult(result) => self.on_profile_save_result(result),
            Message::ProfileCancel => self.on_profile_cancel(),
            Message::BackupStarted => self.on_backup_started(),
            Message::BackupResult(result) => self.on_backup_result(result),
            Message::SnapshotsLoaded(result) => self.on_snapshots_loaded(result),
            Message::SnapshotRestore(id) => self.on_snapshot_restore(id),
            Message::SnapshotRestoreFolderPicked(path) => {
                self.on_snapshot_restore_folder_picked(path)
            },
            Message::SnapshotRestoreResult(result) => self.on_snapshot_restore_result(result),
            Message::SnapshotDelete(id) => self.on_snapshot_delete(id),
            Message::SnapshotDeleteResult(result) => self.on_snapshot_delete_result(result),
            Message::SnapshotForgetPrune => self.on_snapshot_forget_prune(),
            Message::SnapshotForgetPruneResult(result) => {
                self.on_snapshot_forget_prune_result(result)
            },
            Message::RefreshSnapshots => self.on_refresh_snapshots(),
            Message::SettingsToggleSavePassword(save) => {
                self.on_settings_toggle_save_password(save)
            },
            Message::SettingsThemeSelected(theme) => self.on_settings_theme_selected(theme),
            Message::SettingsPasswordChanged(pw) => self.on_settings_password_changed(pw),
            Message::SettingsChangePassword => self.on_settings_change_password(),
            Message::SettingsChangePasswordResult(result) => {
                self.on_settings_change_password_result(result)
            },
            Message::SettingsShowPassword => self.on_settings_show_password(),
            Message::SettingsRepoInfoLoaded(result) => self.on_settings_repo_info_loaded(result),
            Message::PasswordPromptChanged(pw) => self.on_password_prompt_changed(pw),
            Message::PasswordPromptSubmit => self.on_password_prompt_submit(),
            Message::StatusMessage(text) => self.on_status_message(text),
            Message::ClearStatus => self.on_clear_status(),
        }
    }
}

/// Puts `p` in place of the first profile with its id, or adds it at the
/// end.
fn upsert_profile(profiles: &mut Vec<Profile>, p: &Profile)
    ensures
        profile_views(final(profiles)@) == upserted(profile_views(old(profiles)@), p@),
{
    let ghost before = profiles@;
    match position_of_id(profiles, &p.id) {
        Some(k) => {
            profiles.set(k, p.duplicate());
            assert(profile_views(profiles@) =~= profile_views(before).update(k as int, p@));
        },
        None => {
            profiles.push(p.duplicate());
            assert(profile_views(profiles@) =~= profile_views(before).push(p@));
        },
    }
}

proof fn lemma_command_views(cmds: Seq<Command>)
    ensures
        cmds.len() == 0 ==> command_views(cmds) == Seq::<CommandView>::empty(),
        cmds.len() == 1 ==> command_views(cmds) == seq![cmds[0]@],
        cmds.len() == 2 ==> command_views(cmds) == seq![cmds[0]@, cmds[1]@],
{
    if cmds.len() == 0 {
        assert(command_views(cmds) =~= Seq::<CommandView>::empty());
    } else if cmds.len() == 1 {
        assert(command_views(cmds) =~= seq![cmds[0]@]);
    } else if cmds.len() == 2 {
        assert(command_views(cmds) =~= seq![cmds[0]@, cmds[1]@]);
    }
}

/// The status line after a backup.
fn backup_status_text(b: &BackupSummary) -> (res: String)
    ensures
        res@ == backup_status(*b),
{
    let mut s = "Backup complete! ".to_string();
    s.append(decimal_string(b.files_new).as_str());
    s.append(" new, ");
    s.append(decimal_string(b.files_changed).as_str());
    s.append(" changed, ");
    s.append(decimal_string(b.files_unmodified).as_str());
    s.append(" unchanged");
    s
}

/// The status line after a forget and prune.
fn prune_status_text(p: ForgetPruneSummary) -> (res: String)
    ensures
        res@ == prune_status(p),
{
    let mut s = "Pruned: ".to_string();
    s.append(decimal_string(p.snapshots_removed as u64).as_str());
    s.append(" removed, ");
    s.append(decimal_string(p.snapshots_kept as u64).as_str());
    s.append(" kept");
    s
}

} // verus!
