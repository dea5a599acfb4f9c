use rustic_vault::config::AppConfig;
use rustic_vault::display::{is_profile_file, list_or_none, password_line, save_password_label, shown_password, tags_line};
use rustic_vault::password::{generate_password, password_from_draws};
use rustic_vault::paths::{is_absolute_path, join_path, resolve_path};
use rustic_vault::profile::{sort_by_name, Profile, RetentionPolicy};
use rustic_vault::progress::{BackupProgressState, ProgressKind};
use rustic_vault::repo::{
    backup_plan, keep_counts, short_id, BackupSummary, ForgetPruneSummary, SnapshotInfo,
    SummaryCounts,
};
use rustic_vault::theme::{all_themes, theme_from_name, theme_name, ThemeChoice};
use rustic_vault::update::{release_update, strip_tag_prefix};

fn strings(items: &[&str]) -> Vec<String> {
    items.iter().map(|s| s.to_string()).collect()
}

#[test]
fn paths_resolve_against_the_base() {
    assert!(!is_absolute_path(""));
    assert!(is_absolute_path("/repo"));
    assert!(!is_absolute_path("../repo"));
    assert_eq!(join_path("/etc", "passwd"), "/etc/passwd");
    assert_eq!(resolve_path("/base", "/abs/repo"), "/abs/repo");
    assert_eq!(resolve_path("/base", "../repo"), "/base/../repo");
}

#[test]
fn default_config_and_its_paths() {
    let c = AppConfig::default();
    assert_eq!(c.repo_path, "../repo");
    assert_eq!(c.password_file.as_deref(), Some("../.password"));
    assert_eq!(c.theme, "Dark");
    assert!(c.save_password);
    assert_eq!(AppConfig::config_path("/vault"), "/vault/config.json");
    assert_eq!(c.resolve_repo_path("/vault"), "/vault/../repo");
    assert_eq!(c.resolve_password_path("/vault").as_deref(), Some("/vault/../.password"));
    let mut d = c.duplicate();
    d.password_file = None;
    assert_eq!(d.resolve_password_path("/vault"), None);
    d.repo_path = "/srv/backup".to_string();
    assert_eq!(d.resolve_repo_path("/vault"), "/srv/backup");
}

#[test]
fn retention_summary_and_count() {
    let p = RetentionPolicy::default();
    assert_eq!(p.estimated_count(), 28);
    assert_eq!(p.summary(), "Keep ~28 snapshots: 5 most recent + 7 daily + 4 weekly + 12 monthly");
    let none = RetentionPolicy { keep_last: None, keep_daily: None, keep_weekly: None, keep_monthly: None };
    assert_eq!(none.estimated_count(), 0);
    assert_eq!(none.summary(), "No retention policy set");
    let some = RetentionPolicy { keep_last: None, keep_daily: Some(3), keep_weekly: None, keep_monthly: Some(0) };
    assert_eq!(some.estimated_count(), 3);
    assert_eq!(some.summary(), "Keep ~3 snapshots: 3 daily + 0 monthly");
}

#[test]
fn new_profile_has_defaults_and_a_uuid() {
    let p = Profile::new("Laptop".to_string());
    assert_eq!(p.name, "Laptop");
    assert_eq!(p.id.len(), 36);
    let c: Vec<char> = p.id.chars().collect();
    for (i, ch) in c.iter().enumerate() {
        if [8, 13, 18, 23].contains(&i) {
            assert_eq!(*ch, '-');
        } else {
            assert!(ch.is_ascii_hexdigit() && !ch.is_ascii_uppercase());
        }
    }
    assert_eq!(c[14], '4');
    assert!(p.paths.is_empty());
    assert_eq!(p.excludes, strings(&["node_modules", ".cache", "__pycache__", "*.tmp", ".git"]));
    assert!(p.tags.is_empty());
    assert_eq!(p.retention.keep_last, Some(5));
    assert!(p.last_backup.is_none());
    let q = Profile::new("Laptop".to_string());
    assert_ne!(p.id, q.id);
    assert_eq!(Profile::file_path("/vault/profiles", "abc"), "/vault/profiles/abc.json");
}

#[test]
fn profiles_sort_by_name() {
    let names = ["work", "Home", "archive", "home", "Work"];
    let ps: Vec<Profile> = names.iter().map(|n| Profile::new(n.to_string())).collect();
    let sorted = sort_by_name(ps);
    let got: Vec<String> = sorted.iter().map(|p| p.name.clone()).collect();
    assert_eq!(got, strings(&["Home", "Work", "archive", "home", "work"]));
}

#[test]
fn progress_counts_only_counted_phases() {
    let mut s = BackupProgressState::new();
    assert_eq!((s.total(), s.current()), (0, 0));
    assert_eq!(s.phase_text(), "Starting...");
    let counted = s.start_phase(ProgressKind::Bytes, "backing up");
    assert!(counted);
    s.set_length(counted, 100);
    s.inc(counted, 30);
    s.inc(counted, 5);
    assert_eq!((s.total(), s.current()), (100, 35));
    assert_eq!(s.phase_text(), "backing up");
    let spin = s.start_phase(ProgressKind::Spinner, "finding");
    assert!(!spin);
    s.set_length(spin, 7);
    s.inc(spin, 7);
    assert_eq!((s.total(), s.current()), (100, 35));
    assert_eq!(s.phase_text(), "finding");
    let counter = s.start_phase(ProgressKind::Counter, "files");
    assert_eq!((s.total(), s.current()), (0, 0));
    s.inc(counter, u64::MAX);
    s.inc(counter, 2);
    assert_eq!(s.current(), 1);
    s.set_title("done");
    assert_eq!(s.phase_text(), "done");
}

#[test]
fn snapshot_records_and_summaries() {
    assert_eq!(short_id("0123456789abcdef"), "01234567");
    assert_eq!(short_id("abc"), "abc");
    assert_eq!(short_id("01234567"), "01234567");
    let info = SnapshotInfo::new(
        "fedcba9876543210".to_string(),
        "2024-01-01".to_string(),
        "host".to_string(),
        strings(&["/home"]),
        vec![],
        Some(10),
    );
    assert_eq!(info.short_id, "fedcba98");
    assert_eq!(info.summary_size, Some(10));
    let b = BackupSummary::from_counts("id".to_string(), None);
    assert_eq!((b.files_new, b.files_changed, b.files_unmodified, b.data_added, b.total_bytes_processed), (0, 0, 0, 0, 0));
    let c = SummaryCounts { files_new: 1, files_changed: 2, files_unmodified: 3, data_added: 4, total_bytes_processed: 5 };
    let b = BackupSummary::from_counts("id".to_string(), Some(c));
    assert_eq!((b.files_new, b.files_changed, b.files_unmodified, b.data_added, b.total_bytes_processed), (1, 2, 3, 4, 5));
    let f = ForgetPruneSummary::from_counts(10, 4);
    assert_eq!((f.snapshots_removed, f.snapshots_kept), (4, 6));
}

#[test]
fn keep_counts_cast_like_as_i32() {
    let p = RetentionPolicy { keep_last: Some(u32::MAX), keep_daily: Some(7), keep_weekly: None, keep_monthly: Some(2147483648) };
    let k = keep_counts(&p);
    assert_eq!(k.last, Some(-1));
    assert_eq!(k.daily, Some(7));
    assert_eq!(k.weekly, None);
    assert_eq!(k.monthly, Some(i32::MIN));
}

#[test]
fn backup_plan_joins_sources_and_tags() {
    let plan = backup_plan(&strings(&["/a", "/b c"]), &strings(&["x", "y"]), Some("box".to_string()));
    assert_eq!(plan.sources, "/a,/b c");
    assert_eq!(plan.tags.as_deref(), Some("x,y"));
    assert_eq!(plan.host.as_deref(), Some("box"));
    let plan = backup_plan(&strings(&["/a"]), &vec![], None);
    assert_eq!(plan.tags, None);
    assert_eq!(plan.host, None);
}

#[test]
fn release_update_decides_on_newer_versions() {
    assert_eq!(strip_tag_prefix("v1.2.3"), "1.2.3");
    assert_eq!(strip_tag_prefix("vv1"), "v1");
    assert_eq!(strip_tag_prefix("1.0.0"), "1.0.0");
    let u = release_update("v0.2.0", "https://example.org/r".to_string(), "0.1.0").unwrap();
    assert_eq!(u.current, "0.1.0");
    assert_eq!(u.latest, "0.2.0");
    assert_eq!(u.url, "https://example.org/r");
    assert!(release_update("v0.1.0", String::new(), "0.1.0").is_none());
    assert!(release_update("0.0.9", String::new(), "0.1.0").is_none());
    assert!(release_update("latest", String::new(), "0.1.0").is_none());
    assert!(release_update("v1.0.0", String::new(), "not-a-version").is_none());
    assert!(release_update("1.0.0", String::new(), "1.0.0-rc.1").is_some());
}

#[test]
fn themes_map_by_name() {
    assert!(theme_from_name("Nord") == ThemeChoice::Nord);
    assert!(theme_from_name("Ferra") == ThemeChoice::Ferra);
    assert!(theme_from_name("nope") == ThemeChoice::Dark);
    assert!(theme_from_name("") == ThemeChoice::Dark);
    let all = all_themes();
    assert_eq!(all.len(), 22);
    for t in all {
        assert!(theme_from_name(&theme_name(t)) == t);
    }
    assert_eq!(theme_name(ThemeChoice::CatppuccinMocha), "CatppuccinMocha");
}

#[test]
fn generated_passwords_use_the_charset() {
    let p = generate_password();
    assert_eq!(p.chars().count(), 24);
    assert!(p.chars().all(|c| c.is_ascii_alphanumeric()));
    assert_ne!(generate_password(), generate_password());
}

#[test]
fn passwords_from_draws_pick_each_character() {
    let draws: Vec<usize> = (0..24).collect();
    assert_eq!(password_from_draws(&draws), "ABCDEFGHIJKLMNOPQRSTUVWX");
    let mut draws = vec![0usize; 24];
    draws[0] = 61;
    draws[1] = 52;
    draws[2] = 26;
    draws[23] = 25;
    assert_eq!(password_from_draws(&draws), "90aAAAAAAAAAAAAAAAAAAAAZ");
}

#[test]
fn hidden_password_line_is_the_same_for_every_password() {
    assert_eq!(password_line(false, &"one".to_string()), password_line(false, &"two".to_string()));
    assert_eq!(password_line(false, &"one".to_string()), "Password: ••••••••••••");
    assert_eq!(password_line(true, &"one".to_string()), "Password: one");
}

#[test]
fn display_texts() {
    assert_eq!(list_or_none(&vec![]), "None");
    assert_eq!(list_or_none(&strings(&["a", "b"])), "a, b");
    assert_eq!(tags_line(&vec![]), "");
    assert_eq!(tags_line(&strings(&["laptop", "docs"])), "Tags: laptop, docs");
    assert_eq!(save_password_label(true), "[x] Save password to disk");
    assert_eq!(save_password_label(false), "[ ] Save password to disk");
    assert_eq!(shown_password(true, &"pw".to_string()), "pw");
    assert_eq!(shown_password(false, &"pw".to_string()), "••••••••••••");
    assert!(is_profile_file("/p/abc.json"));
    assert!(!is_profile_file("/p/abc.json.bak"));
    assert!(!is_profile_file("/p/.json"));
    assert!(!is_profile_file("/p/json"));
}

#[test]
fn sorting_keeps_equal_names_in_order() {
    let mut ps: Vec<Profile> = ["b", "a", "b", "a", "c"].iter().map(|n| Profile::new(n.to_string())).collect();
    let ids: Vec<String> = ps.iter().map(|p| p.id.clone()).collect();
    ps[0].tags = strings(&["first b"]);
    let sorted = sort_by_name(ps);
    let got: Vec<&String> = sorted.iter().map(|p| &p.id).collect();
    assert_eq!(got, vec![&ids[1], &ids[3], &ids[0], &ids[2], &ids[4]]);
    assert_eq!(sorted[2].tags, strings(&["first b"]));
}

#[test]
fn running_version_is_no_update() {
    assert!(release_update("v0.1.0", String::new(), "0.1.0").is_none());
    assert!(release_update("1.2.3-beta+build", String::new(), "1.2.3-beta+build").is_none());
}
