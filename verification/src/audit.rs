//! The security audit log: an append-only history of timestamped messages.
//!
//! Entries keep the order in which they were recorded. Their timestamps need
//! not rise along that order: a clock can tie or step back.

use vstd::prelude::*;
use crate::clock::unix_seconds;

verus! {

/// A single audit log entry.
#[derive(Debug, Clone, PartialEq, Eq)]
pub struct AuditLog {
    /// When the entry was recorded, in seconds since the Unix epoch.
    pub timestamp: u64,
    /// What was recorded.
    pub message: String,
}

/// What an entry is: its stamp and the text of its message.
pub ghost struct AuditLogView {
    pub timestamp: u64,
    pub message: Seq<char>,
}

impl View for AuditLog {
    type V = AuditLogView;

    open spec fn view(&self) -> AuditLogView {
        AuditLogView { timestamp: self.timestamp, message: self.message@ }
    }
}

/// A run of entries, each taken by its view.
pub open spec fn history(entries: Seq<AuditLog>) -> Seq<AuditLogView> {
    entries.map_values(|e: AuditLog| e@)
}

/// Maintains a log of security events for auditing purposes.
pub struct SecurityAuditor {
    logs: Vec<AuditLog>,
}

impl View for SecurityAuditor {
    type V = Seq<AuditLogView>;

    closed spec fn view(&self) -> Seq<AuditLogView> {
        history(self.logs@)
    }
}

impl SecurityAuditor {
    /// Creates an empty log.
    pub fn new() -> (r: Self)
        ensures
            r@ == Seq::<AuditLogView>::empty(),
    {
        SecurityAuditor { logs: Vec::new() }
    }

    /// Appends `message` with the stamp `now`. Earlier entries stay as they
    /// are, whatever their stamps.
    pub fn log_at(&mut self, message: &str, now: u64)
        ensures
            final(self)@ == old(self)@.push(AuditLogView { timestamp: now, message: message@ }),
    {
        self.logs.push(AuditLog { timestamp: now, message: message.to_owned() });
    }

    /// Appends `message`, stamped with the clock's reading at the moment of
    /// the call. Whatever the reading, the log grows by exactly this entry
    /// at its end.
    pub fn log(&mut self, message: &str)
        ensures
            final(self)@.len() == old(self)@.len() + 1,
            final(self)@.drop_last() == old(self)@,
            final(self)@.last().message == message@,
    {
        let now = unix_seconds();
        self.log_at(message, now);
    }

    /// The whole history, oldest entry first.
    pub fn logs(&self) -> (r: &[AuditLog])
        ensures
            history(r@) == self@,
            r@.len() == self@.len(),
            forall|i: int| 0 <= i < r@.len() ==> (#[trigger] r@[i])@ == self@[i],
    {
        self.logs.as_slice()
    }
}

impl Default for SecurityAuditor {
    fn default() -> (r: Self)
        ensures
            r@ == Seq::<AuditLogView>::empty(),
    {
        SecurityAuditor::new()
    }
}

} // verus!
