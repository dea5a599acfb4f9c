//! Progress accounting for a running backup.

use vstd::prelude::*;

verus! {

/// The kinds of progress that the repository reports.
#[derive(Clone, Copy, Debug, PartialEq, Eq, Structural)]
pub enum ProgressKind {
    /// Only started and finished, never advanced.
    Spinner,
    /// Counts items.
    Counter,
    /// Counts bytes.
    Bytes,
}

/// Whether a phase of this kind is counted (its length and advances are
/// recorded).
pub open spec fn is_counted(kind: ProgressKind) -> bool {
    kind == ProgressKind::Counter || kind == ProgressKind::Bytes
}

/// Whether a phase of this kind is counted.
pub fn tracks_progress(kind: ProgressKind) -> (res: bool)
    ensures
        res == is_counted(kind),
{
    match kind {
        ProgressKind::Spinner => false,
        ProgressKind::Counter => true,
        ProgressKind::Bytes => true,
    }
}

/// What the progress state holds, as plain values.
pub struct ProgressView {
    pub total: u64,
    pub current: u64,
    pub phase: Seq<char>,
}

/// The progress of a backup: the length of the current counted phase, how
/// far it has come, and the title of the current phase.
#[derive(Debug)]
pub struct BackupProgressState {
    total: u64,
    current: u64,
    phase: String,
}

impl View for BackupProgressState {
    type V = ProgressView;

    closed spec fn view(&self) -> ProgressView {
        ProgressView { total: self.total, current: self.current, phase: self.phase@ }
    }
}

impl BackupProgressState {
    /// Nothing counted yet, in the phase `Starting...`.
    pub fn new() -> (res: BackupProgressState)
        ensures
            res@.total == 0,
            res@.current == 0,
            res@.phase == "Starting..."@,
    {
        BackupProgressState { total: 0, current: 0, phase: "Starting...".to_string() }
    }

    /// The length of the current counted phase.
    pub fn total(&self) -> (res: u64)
        ensures
            res == self@.total,
    {
        self.total
    }

    /// How far the current counted phase has come.
    pub fn current(&self) -> (res: u64)
        ensures
            res == self@.current,
    {
        self.current
    }

    /// The title of the current phase.
    pub fn phase_text(&self) -> (res: String)
        ensures
            res@ == self@.phase,
    {
        self.phase.clone()
    }

    /// A new phase starts: a counted one starts again from zero; the phase
    /// title becomes `prefix`. Returns whether the phase is counted.
    pub fn start_phase(&mut self, kind: ProgressKind, prefix: &str) -> (counted: bool)
        ensures
            counted == is_counted(kind),
            final(self)@.phase == prefix@,
            counted ==> final(self)@.total == 0 && final(self)@.current == 0,
            !counted ==> final(self)@.total == old(self)@.total && final(self)@.current == old(
                self,
            )@.current,
    {
        let counted = tracks_progress(kind);
        if counted {
            self.current = 0;
            self.total = 0;
        }
        self.phase = prefix.to_string();
        counted
    }

    /// The length of a phase becomes known; only counted phases record it.
    pub fn set_length(&mut self, counted: bool, len: u64)
        ensures
            final(self)@.total == if counted {
                len
            } else {
                old(self)@.total
            },
            final(self)@.current == old(self)@.current,
            final(self)@.phase == old(self)@.phase,
    {
        if counted {
            self.total = len;
        }
    }

    /// The phase gets a new title.
    pub fn set_title(&mut self, title: &str)
        ensures
            final(self)@.phase == title@,
            final(self)@.total == old(self)@.total,
            final(self)@.current == old(self)@.current,
    {
        self.phase = title.to_string();
    }

    /// A counted phase advances by `inc`, wrapping around as an atomic
    /// add does; other phases are not counted.
    pub fn inc(&mut self, counted: bool, inc: u64)
        ensures
            final(self)@.current == if counted {
                (old(self)@.current + inc) % 0x1_0000_0000_0000_0000
            } else {
                old(self)@.current as int
            },
            final(self)@.total == old(self)@.total,
            final(self)@.phase == old(self)@.phase,
    {
        if counted {
            self.current = self.current.wrapping_add(inc);
        }
    }
}

} // verus!
