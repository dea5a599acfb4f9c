# rustic_vault

A backup front end for restic-compatible repositories, built around a
library whose behaviour is stated in contracts and proved with Verus.

## Layout

- `src/` — the verified library.
  - `text.rs`: decimal numbers, `u32` parsing, trimming, comma separated
    lists, joining and text order, with the round trips the profile editor
    relies on.
  - `paths.rs`: paths held as text; absolute, join and extension are
    `std::path` calls behind small trusted wrappers.
  - `config.rs`: the settings and how their paths resolve.
  - `profile.rs`: profiles, retention policies and their summary, ordering
    profiles by name.
  - `progress.rs`: the counters a running backup reports into.
  - `repo.rs`: what repository operations report and how their requests
    are shaped.
  - `update.rs`: whether a published release is newer (via `semver`).
  - `theme.rs`, `password.rs`, `display.rs`: themes, generated passwords and
    the texts the screens show.
  - `app.rs`: the application's state machine. `App::update` takes a
    `Message`, moves the state as the spec function `step` says, and returns
    the outside work to do as a list of `Command`s.
  - `laws.rs`: properties that span several messages.
- `app/` — the program: reading and writing files, the repository
  operations through `rustic_core`, the release check, and the iced window
  that turns commands into tasks.
- `tests/` — tests of the library.
