//! The texts that the screens show, decided from the state.

use vstd::prelude::*;
use crate::app::App;
use crate::paths::{extension_of, path_extension};
use crate::text::{join, join_strings, list_separator, same_text, views};

verus! {

/// The items joined with `, `, or `None` when there are none.
pub open spec fn list_or_none_text(items: Seq<Seq<char>>) -> Seq<char> {
    if items.len() == 0 {
        "None"@
    } else {
        join(items, list_separator())
    }
}

/// How a profile's exclude patterns or tags are listed.
pub fn list_or_none(items: &Vec<String>) -> (res: String)
    ensures
        res@ == list_or_none_text(views(items@)),
{
    proof {
        reveal_strlit(", ");
        assert(", "@ =~= list_separator());
    }
    if items.len() == 0 {
        "None".to_string()
    } else {
        join_strings(items, ", ")
    }
}

/// The tag line of a snapshot: nothing without tags, else `Tags: ` and the
/// tags joined with `, `.
pub fn tags_line(tags: &Vec<String>) -> (res: String)
    ensures
        res@ == if tags@.len() == 0 {
            seq![]
        } else {
            "Tags: "@ + join(views(tags@), list_separator())
        },
{
    proof {
        reveal_strlit(", ");
        assert(", "@ =~= list_separator());
    }
    if tags.len() == 0 {
        String::new()
    } else {
        let mut s = "Tags: ".to_string();
        s.append(join_strings(tags, ", ").as_str());
        s
    }
}

/// The label of the switch that saves the password to disk.
pub fn save_password_label(checked: bool) -> (res: String)
    ensures
        res@ == if checked {
            "[x] Save password to disk"@
        } else {
            "[ ] Save password to disk"@
        },
{
    if checked {
        "[x] Save password to disk".to_string()
    } else {
        "[ ] Save password to disk".to_string()
    }
}

/// The password as the settings show it: itself when visible, else a mask.
pub fn shown_password(visible: bool, password: &String) -> (res: String)
    ensures
        res@ == if visible {
            password@
        } else {
            "••••••••••••"@
        },
{
    if visible {
        password.clone()
    } else {
        "••••••••••••".to_string()
    }
}

/// The password line of the settings: `Password: ` and the password as
/// shown.
pub open spec fn password_line_text(visible: bool, password: Seq<char>) -> Seq<char> {
    "Password: "@ + if visible {
        password
    } else {
        "••••••••••••"@
    }
}

/// The password line of the settings.
pub fn password_line(visible: bool, password: &String) -> (res: String)
    ensures
        res@ == password_line_text(visible, password@),
{
    let mut line = "Password: ".to_string();
    let shown = shown_password(visible, password);
    line.append(shown.as_str());
    line
}

/// Whether a file holds a profile: its extension is `json`.
pub fn is_profile_file(path: &str) -> (res: bool)
    ensures
        res == (path_extension(path@) == Some("json"@)),
{
    match extension_of(path) {
        Some(e) => same_text(e.as_str(), "json"),
        None => false,
    }
}

impl App {
    /// Whether the first run can create the repository: a password is set
    /// and nothing else is running.
    pub fn can_initialize(&self) -> (res: bool)
        ensures
            res == (self.first_run_password@.len() > 0 && !self.busy),
    {
        self.first_run_password.unicode_len() > 0 && !self.busy
    }

    /// The name of the profile being backed up, or `Unknown`.
    pub fn backup_profile_name(&self) -> (res: String)
        ensures
            res@ == match self.selected_profile {
                Some(i) => if i < self.profiles@.len() {
                    self.profiles@[i as int].name@
                } else {
                    "Unknown"@
                },
                None => "Unknown"@,
            },
    {
        match self.selected_profile {
            Some(i) => {
                if i < self.profiles.len() {
                    self.profiles[i].name.clone()
                } else {
                    "Unknown".to_string()
                }
            },
            None => "Unknown".to_string(),
        }
    }
}

} // verus!
