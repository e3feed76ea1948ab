//! Flags that the desktop shell keeps for the session, and the steps of
//! moving a legacy autostart entry to a scheduled task.
use vstd::prelude::*;

verus! {

/// Flags shared by the shell's commands during one run.
#[derive(Clone, Copy, Debug, PartialEq, Eq, Structural)]
pub struct ShellFlags {
    /// Closing the main window hides it to the tray instead.
    pub minimize_to_tray: bool,
    /// Loading the engine's library failed in a way that suggests a missing
    /// Visual C++ runtime, and the front end has not been told yet.
    pub vcredist_missing: bool,
}

impl ShellFlags {
    pub fn new() -> (r: ShellFlags)
        ensures
            !r.minimize_to_tray,
            !r.vcredist_missing,
    {
        ShellFlags { minimize_to_tray: false, vcredist_missing: false }
    }

    pub fn set_minimize_to_tray(&mut self, enabled: bool)
        ensures
            final(self).minimize_to_tray == enabled,
            final(self).vcredist_missing == old(self).vcredist_missing,
    {
        self.minimize_to_tray = enabled;
    }

    pub fn get_minimize_to_tray(&self) -> (r: bool)
        ensures
            r == self.minimize_to_tray,
    {
        self.minimize_to_tray
    }

    pub fn set_vcredist_missing(&mut self, missing: bool)
        ensures
            final(self).vcredist_missing == missing,
            final(self).minimize_to_tray == old(self).minimize_to_tray,
    {
        self.vcredist_missing = missing;
    }

    /// Reports the runtime marker once: it is cleared as it is read.
    pub fn check_vcredist_missing(&mut self) -> (r: bool)
        ensures
            r == old(self).vcredist_missing,
            !final(self).vcredist_missing,
            final(self).minimize_to_tray == old(self).minimize_to_tray,
    {
        let r = self.vcredist_missing;
        self.vcredist_missing = false;
        r
    }
}

/// What the migration of a legacy autostart entry does next.
#[derive(Clone, Copy, Debug, PartialEq, Eq, Structural)]
pub enum MigrationStep {
    /// Look for the legacy registry entry.
    QueryLegacyEntry,
    /// Create the scheduled task that replaces it.
    CreateScheduledTask,
    /// Delete the legacy entry.
    RemoveLegacyEntry,
    Done,
}

/// What the last step found.
#[derive(Clone, Copy, Debug, PartialEq, Eq, Structural)]
pub enum MigrationEvent {
    Start,
    LegacyEntryFound(bool),
    TaskCreated(bool),
    LegacyEntryRemoved,
}

/// The next step of the migration: a legacy entry is looked for, replaced
/// by a scheduled task, and removed only once that task exists.
pub fn migrate_legacy_autostart(event: MigrationEvent) -> (r: MigrationStep)
    ensures
        event == MigrationEvent::Start ==> r == MigrationStep::QueryLegacyEntry,
        r == MigrationStep::CreateScheduledTask <==> event == MigrationEvent::LegacyEntryFound(
            true,
        ),
        r == MigrationStep::RemoveLegacyEntry <==> event == MigrationEvent::TaskCreated(true),
        event != MigrationEvent::Start && event != MigrationEvent::LegacyEntryFound(true) && event
            != MigrationEvent::TaskCreated(true) ==> r == MigrationStep::Done,
{
    match event {
        MigrationEvent::Start => MigrationStep::QueryLegacyEntry,
        MigrationEvent::LegacyEntryFound(true) => MigrationStep::CreateScheduledTask,
        MigrationEvent::TaskCreated(true) => MigrationStep::RemoveLegacyEntry,
        _ => MigrationStep::Done,
    }
}

} // verus!
