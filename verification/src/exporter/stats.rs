//! Counters that an exporter keeps while it writes records.
use crate::text::{decimal, decimal_text};
use vstd::prelude::*;

verus! {

/// What one exporter has done so far.
#[derive(Clone, Copy, Debug, PartialEq, Eq)]
pub struct ExportStats {
    /// Records written.
    pub exported: usize,
    /// Records left out on purpose.
    pub skipped: usize,
    /// Records that could not be written.
    pub failed: usize,
    /// Batches flushed to the target.
    pub flush_operations: usize,
    /// Size of the last flushed batch.
    pub last_flush_size: usize,
}

impl ExportStats {
    /// All counters zero.
    pub open spec fn is_zero(self) -> bool {
        &&& self.exported == 0
        &&& self.skipped == 0
        &&& self.failed == 0
        &&& self.flush_operations == 0
        &&& self.last_flush_size == 0
    }

    /// The number of records handled: written, skipped or failed.
    pub open spec fn spec_total(self) -> int {
        self.exported + self.skipped + self.failed
    }

    /// Fresh counters.
    pub fn new() -> (s: Self)
        ensures
            s.is_zero(),
            s.spec_total() == 0,
    {
        ExportStats { exported: 0, skipped: 0, failed: 0, flush_operations: 0, last_flush_size: 0 }
    }

    /// Counts one more written record.
    pub fn record_success(&mut self)
        requires
            old(self).exported < usize::MAX,
        ensures
            final(self).exported == old(self).exported + 1,
            final(self).skipped == old(self).skipped,
            final(self).failed == old(self).failed,
            final(self).flush_operations == old(self).flush_operations,
            final(self).last_flush_size == old(self).last_flush_size,
            final(self).spec_total() == old(self).spec_total() + 1,
    {
        self.exported = self.exported + 1;
    }

    /// The number of records handled: written, skipped or failed.
    pub fn total(&self) -> (t: usize)
        requires
            self.spec_total() <= usize::MAX,
        ensures
            t == self.spec_total(),
    {
        self.exported + self.skipped + self.failed
    }
}

/// The log line of an exporter's counters: its name, the written, failed and skipped
/// records and their total, and, once batches were flushed, how many and the size of
/// the last one.
pub open spec fn stats_line_text(s: ExportStats, name: Seq<char>) -> Seq<char> {
    let flush = if s.flush_operations > 0 {
        " | flushed: "@ + decimal(s.flush_operations as int) + " times (recent "@ + decimal(s.last_flush_size as int)
            + " entries)"@
    } else {
        Seq::empty()
    };
    "Export stats: "@ + name + " => success: "@ + decimal(s.exported as int) + ", failed: "@ + decimal(
        s.failed as int,
    ) + ", skipped: "@ + decimal(s.skipped as int) + " (total: "@ + decimal(s.spec_total()) + ")"@ + flush
}

impl ExportStats {
    /// The log line of the counters; see [`stats_line_text`].
    pub fn summary_line(&self, name: &str) -> (line: String)
        requires
            self.spec_total() <= usize::MAX,
        ensures
            line@ == stats_line_text(*self, name@),
    {
        let mut line = "Export stats: ".to_owned();
        line.append(name);
        line.append(" => success: ");
        line.append(decimal_text(self.exported as i128).as_str());
        line.append(", failed: ");
        line.append(decimal_text(self.failed as i128).as_str());
        line.append(", skipped: ");
        line.append(decimal_text(self.skipped as i128).as_str());
        line.append(" (total: ");
        line.append(decimal_text(self.total() as i128).as_str());
        line.append(")");
        if self.flush_operations > 0 {
            line.append(" | flushed: ");
            line.append(decimal_text(self.flush_operations as i128).as_str());
            line.append(" times (recent ");
            line.append(decimal_text(self.last_flush_size as i128).as_str());
            line.append(" entries)");
        }
        line
    }
}

impl Default for ExportStats {
    fn default() -> (s: Self)
        ensures
            s.is_zero(),
    {
        ExportStats::new()
    }
}

} // verus!
