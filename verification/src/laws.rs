//! Properties of the application that span several messages.

use vstd::prelude::*;
use crate::app::{
    AppView, CommandView, Message, Screen, edited_profile, first_with_id, has_id, keep_text, step,
    unique_ids, upserted,
};
use crate::display::password_line_text;
use crate::paths::{distinct_paths, has_path, path_eq};
use crate::profile::{ProfileView, RetentionPolicy};
use crate::text::{
    clean_item, lemma_list_round_trip, lemma_u32_round_trip, list_items, parse_u32_spec,
};

verus! {

proof fn lemma_upsert_keeps_ids_unique(ps: Seq<ProfileView>, p: ProfileView)
    requires
        unique_ids(ps),
    ensures
        unique_ids(upserted(ps, p)),
{
    let r = upserted(ps, p);
    if has_id(ps, p.id) {
        let k = first_with_id(ps, p.id);
        assert(0 <= k < ps.len() && ps[k].id == p.id);
        assert forall|i: int, j: int|
            0 <= i < r.len() && 0 <= j < r.len() && i != j implies #[trigger] r[i].id
            != #[trigger] r[j].id by {
            assert(r[i].id == ps[i].id);
            assert(r[j].id == ps[j].id);
        }
    } else {
        assert forall|i: int, j: int|
            0 <= i < r.len() && 0 <= j < r.len() && i != j implies #[trigger] r[i].id
            != #[trigger] r[j].id by {
            if i == ps.len() as int {
                assert(ps[j].id != p.id);
            } else if j == ps.len() as int {
                assert(ps[i].id != p.id);
            }
        }
    }
}

/// No message gives two profiles the same id: every message keeps the ids
/// of the profiles distinct if they were distinct before.
pub proof fn lemma_update_keeps_ids_unique(
    s: AppView,
    msg: Message,
    t: AppView,
    cmds: Seq<CommandView>,
)
    requires
        step(s, msg, t, cmds),
        unique_ids(s.profiles),
    ensures
        unique_ids(t.profiles),
{
    match msg {
        Message::DeleteProfile(i) => {
            if i < s.profiles.len() {
                let r = s.profiles.remove(i as int);
                assert forall|a: int, b: int|
                    0 <= a < r.len() && 0 <= b < r.len() && a != b implies #[trigger] r[a].id
                    != #[trigger] r[b].id by {
                    let a2 = if a < i {
                        a
                    } else {
                        a + 1
                    };
                    let b2 = if b < i {
                        b
                    } else {
                        b + 1
                    };
                    assert(r[a] == s.profiles[a2]);
                    assert(r[b] == s.profiles[b2]);
                }
            }
        },
        Message::ProfileSave => {
            match s.editor_profile {
                Some(e) => lemma_upsert_keeps_ids_unique(s.profiles, edited_profile(s, e)),
                None => {},
            }
        },
        Message::BackupResult(r) => {
            match r {
                Ok(b) => {
                    match s.selected_profile {
                        Some(i) => {
                            if i < s.profiles.len() {
                                assert forall|a: int, c: int|
                                    0 <= a < t.profiles.len() && 0 <= c < t.profiles.len() && a
                                        != c implies #[trigger] t.profiles[a].id
                                    != #[trigger] t.profiles[c].id by {
                                    assert(t.profiles[a].id == s.profiles[a].id);
                                    assert(t.profiles[c].id == s.profiles[c].id);
                                }
                            }
                        },
                        None => {},
                    }
                },
                Err(_) => {},
            }
        },
        _ => {},
    }
}

/// Reading back a count that the editor wrote gives the count.
proof fn lemma_keep_round_trip(n: Option<u32>)
    ensures
        parse_u32_spec(keep_text(n)) == n,
{
    match n {
        Some(k) => lemma_u32_round_trip(k),
        None => {},
    }
}

/// Opening a profile in the editor and saving it without changing anything
/// leaves the profiles as they were, provided the ids are distinct and
/// each exclude pattern and tag survives the editor's list field (is not
/// empty, has no white space at either end and holds no comma).
pub proof fn lemma_edit_without_changes(
    s0: AppView,
    i: usize,
    s1: AppView,
    c1: Seq<CommandView>,
    s2: AppView,
    c2: Seq<CommandView>,
)
    requires
        i < s0.profiles.len(),
        unique_ids(s0.profiles),
        forall|k: int|
            0 <= k < s0.profiles[i as int].excludes.len() ==> clean_item(
                #[trigger] s0.profiles[i as int].excludes[k],
            ),
        forall|k: int|
            0 <= k < s0.profiles[i as int].tags.len() ==> clean_item(
                #[trigger] s0.profiles[i as int].tags[k],
            ),
        step(s0, Message::GoProfileEditor(Some(i)), s1, c1),
        step(s1, Message::ProfileSave, s2, c2),
    ensures
        s2.profiles == s0.profiles,
        s2.editor_profile == Some(s0.profiles[i as int]),
{
    let p = s0.profiles[i as int];
    assert(s1 == s0.opened_editor(p));
    lemma_list_round_trip(p.excludes);
    lemma_list_round_trip(p.tags);
    lemma_keep_round_trip(p.retention.keep_last);
    lemma_keep_round_trip(p.retention.keep_daily);
    lemma_keep_round_trip(p.retention.keep_weekly);
    lemma_keep_round_trip(p.retention.keep_monthly);
    let q = edited_profile(s1, p);
    assert(q.retention == p.retention);
    assert(q == p);
    assert(has_id(s0.profiles, p.id));
    let k = first_with_id(s0.profiles, p.id);
    assert(0 <= k < s0.profiles.len() && s0.profiles[k].id == p.id);
    assert(k == i as int);
    assert(upserted(s0.profiles, q) =~= s0.profiles);
}

/// Showing the password twice leaves the state as it was, and asks for no
/// outside work.
pub proof fn lemma_show_password_twice(
    s: AppView,
    t: AppView,
    c1: Seq<CommandView>,
    u: AppView,
    c2: Seq<CommandView>,
)
    requires
        step(s, Message::SettingsShowPassword, t, c1),
        step(t, Message::SettingsShowPassword, u, c2),
    ensures
        u == s,
        c1.len() == 0,
        c2.len() == 0,
{
}

/// Whether the application is busy after a message: the messages that start
/// long outside work set the flag, the messages that carry its result clear
/// it, and every other message leaves it as it was.
pub open spec fn busy_after(s: AppView, msg: Message) -> bool {
    match msg {
        Message::FirstRunInit => true,
        Message::SnapshotDelete(_) => true,
        Message::SnapshotForgetPrune => true,
        Message::SnapshotRestoreFolderPicked(path) => if path.is_some()
            && s.restore_snapshot_id.is_some() {
            true
        } else {
            s.busy
        },
        Message::SettingsChangePassword => true,
        Message::FirstRunInitResult(_) => false,
        Message::SnapshotRestoreResult(_) => false,
        Message::SnapshotDeleteResult(_) => false,
        Message::SnapshotForgetPruneResult(_) => false,
        Message::SettingsChangePasswordResult(_) => false,
        _ => s.busy,
    }
}

/// The busy flag is set only by the messages that start long outside work
/// (creating the repository, deleting a snapshot, pruning, restoring into a
/// chosen folder, changing the password), cleared only by the messages that
/// report their outcome, and kept by every other message.
pub proof fn lemma_busy_flag(s: AppView, msg: Message, t: AppView, cmds: Seq<CommandView>)
    requires
        step(s, msg, t, cmds),
    ensures
        t.busy == busy_after(s, msg),
{
}

/// While the password is hidden, the settings show the same password line
/// whatever the password is.
pub proof fn lemma_hidden_password_mask(a: Seq<char>, b: Seq<char>)
    ensures
        password_line_text(false, a) == password_line_text(false, b),
{
}

/// Picking a folder for the profile being edited keeps its folders distinct
/// as paths: a folder that is already there as a path (however it is
/// written) leaves the list as it was, any other is appended once.
pub proof fn lemma_folder_pick_keeps_paths_distinct(
    s: AppView,
    x: String,
    p: ProfileView,
    t: AppView,
    cmds: Seq<CommandView>,
)
    requires
        s.editor_profile == Some(p),
        distinct_paths(p.paths),
        step(s, Message::ProfileFolderPicked(Some(x)), t, cmds),
    ensures
        t.editor_profile is Some,
        distinct_paths(t.editor_profile->0.paths),
        has_path(p.paths, x@) ==> t.editor_profile->0.paths == p.paths,
        !has_path(p.paths, x@) ==> t.editor_profile->0.paths == p.paths.push(x@),
        cmds.len() == 0,
{
    if !has_path(p.paths, x@) {
        let r = p.paths.push(x@);
        assert forall|i: int, j: int| 0 <= i < j < r.len() implies !path_eq(
            #[trigger] r[i],
            #[trigger] r[j],
        ) by {
            if j == p.paths.len() as int {
                assert(r[i] == p.paths[i]);
                assert(r[j] == x@);
            } else {
                assert(r[i] == p.paths[i]);
                assert(r[j] == p.paths[j]);
            }
        }
    }
}

/// A backup request sends the repository exactly the profile's folders,
/// exclude patterns and tags, with the repository's path and the password,
/// and nothing else.
pub proof fn lemma_backup_sends_the_profile(
    s: AppView,
    i: usize,
    t: AppView,
    cmds: Seq<CommandView>,
)
    requires
        i < s.profiles.len(),
        step(s, Message::GoBackup(i), t, cmds),
    ensures
        cmds.len() == 1,
        cmds[0] matches CommandView::RunBackup { repo_path, password, paths, excludes, tags } && {
            &&& repo_path == s.repo_path()
            &&& password == s.password
            &&& paths == s.profiles[i as int].paths
            &&& excludes == s.profiles[i as int].excludes
            &&& tags == s.profiles[i as int].tags
        },
        t.backup_running,
        t.screen == Screen::Backup,
        t.profiles == s.profiles,
{
}

/// Forget and prune applies the selected profile's retention policy; with
/// no profile selected, or a selection past the end, it keeps the 5 most
/// recent, 7 daily, 4 weekly and 12 monthly snapshots.
pub proof fn lemma_prune_retention(s: AppView, t: AppView, cmds: Seq<CommandView>)
    requires
        step(s, Message::SnapshotForgetPrune, t, cmds),
    ensures
        cmds.len() == 1,
        cmds[0] matches CommandView::ForgetPrune { repo_path, password, retention } && {
            &&& repo_path == s.repo_path()
            &&& password == s.password
            &&& retention == match s.selected_profile {
                Some(i) => if i < s.profiles.len() {
                    s.profiles[i as int].retention
                } else {
                    RetentionPolicy {
                        keep_last: Some(5u32),
                        keep_daily: Some(7u32),
                        keep_weekly: Some(4u32),
                        keep_monthly: Some(12u32),
                    }
                },
                None => RetentionPolicy {
                    keep_last: Some(5u32),
                    keep_daily: Some(7u32),
                    keep_weekly: Some(4u32),
                    keep_monthly: Some(12u32),
                },
            }
        },
{
}

/// Where a profile has the id, a first one with it exists.
proof fn lemma_first_with_id(ps: Seq<ProfileView>, id: Seq<char>)
    requires
        has_id(ps, id),
    ensures
        0 <= first_with_id(ps, id) < ps.len(),
        ps[first_with_id(ps, id)].id == id,
    decreases ps.len(),
{
    let k = lemma_first_index(ps, id);
    assert(0 <= k < ps.len() && ps[k].id == id && forall|j: int|
        0 <= j < k ==> #[trigger] ps[j].id != id);
}

/// An index of a profile with the id before which none has it.
proof fn lemma_first_index(ps: Seq<ProfileView>, id: Seq<char>) -> (k: int)
    requires
        has_id(ps, id),
    ensures
        0 <= k < ps.len(),
        ps[k].id == id,
        forall|j: int| 0 <= j < k ==> #[trigger] ps[j].id != id,
    decreases ps.len(),
{
    if ps[0].id == id {
        0
    } else {
        let rest = ps.drop_first();
        let w = choose|k: int| 0 <= k < ps.len() && #[trigger] ps[k].id == id;
        assert(rest[w - 1].id == id);
        let k = lemma_first_index(rest, id);
        assert forall|j: int| 0 <= j < k + 1 implies #[trigger] ps[j].id != id by {
            if j > 0 {
                assert(ps[j] == rest[j - 1]);
            }
        }
        assert(ps[k + 1] == rest[k]);
        k + 1
    }
}

/// Saving the editor writes to the profile directory the very profile that
/// the list and the editor then hold: the edited profile, with its exclude
/// patterns and tags read from the comma separated fields and its counts
/// parsed from the count fields; its id, name, folders and last backup are
/// those of the profile being edited.
pub proof fn lemma_profile_save_writes_the_edit(
    s: AppView,
    e: ProfileView,
    t: AppView,
    cmds: Seq<CommandView>,
)
    requires
        s.editor_profile == Some(e),
        step(s, Message::ProfileSave, t, cmds),
    ensures
        cmds.len() == 1,
        cmds[0] matches CommandView::SaveProfile { profiles_dir, profile } && {
            &&& profiles_dir == s.profiles_dir()
            &&& t.editor_profile == Some(profile)
            &&& exists|k: int| 0 <= k < t.profiles.len() && t.profiles[k] == profile
            &&& profile.id == e.id
            &&& profile.name == e.name
            &&& profile.paths == e.paths
            &&& profile.last_backup == e.last_backup
            &&& profile.excludes == list_items(s.editor_excludes_text)
            &&& profile.tags == list_items(s.editor_tags_text)
            &&& profile.retention.keep_last == parse_u32_spec(s.editor_keep_last)
            &&& profile.retention.keep_daily == parse_u32_spec(s.editor_keep_daily)
            &&& profile.retention.keep_weekly == parse_u32_spec(s.editor_keep_weekly)
            &&& profile.retention.keep_monthly == parse_u32_spec(s.editor_keep_monthly)
        },
{
    let q = edited_profile(s, e);
    if has_id(s.profiles, q.id) {
        lemma_first_with_id(s.profiles, q.id);
        let k = first_with_id(s.profiles, q.id);
        assert(t.profiles[k] == q);
    } else {
        assert(t.profiles[s.profiles.len() as int] == q);
    }
}

/// Every settings file that a message writes holds the settings as they
/// stand after the message, in the application's base directory.
pub proof fn lemma_saved_config_is_current(
    s: AppView,
    msg: Message,
    t: AppView,
    cmds: Seq<CommandView>,
)
    requires
        step(s, msg, t, cmds),
    ensures
        forall|k: int|
            0 <= k < cmds.len() ==> (#[trigger] cmds[k] matches CommandView::SaveConfig {
                base,
                config,
            } ==> base == s.base_path && config == t.config),
{
}

/// Switching the saving of the password on or off records the choice in the
/// settings: the password file is `../.password` when it is on and none when
/// it is off; the repository and the theme stay. The saved password file is
/// written or removed first, then the settings are saved.
pub proof fn lemma_toggle_save_password(
    s: AppView,
    save: bool,
    t: AppView,
    cmds: Seq<CommandView>,
)
    requires
        step(s, Message::SettingsToggleSavePassword(save), t, cmds),
    ensures
        t.config.save_password == save,
        t.config.password_file == if save {
            Some("../.password"@)
        } else {
            None
        },
        t.config.repo_path == s.config.repo_path,
        t.config.theme == s.config.theme,
        cmds.len() == 2,
        cmds[0] == if save {
            CommandView::WriteFile { path: s.password_path(), contents: s.password }
        } else {
            CommandView::RemoveFile { path: s.password_path() }
        },
        cmds[1] == (CommandView::SaveConfig { base: s.base_path, config: t.config }),
{
}

} // verus!
