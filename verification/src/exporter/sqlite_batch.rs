//! Batching of the SQLite exporter: periodic commits, the cache of multi-row
//! statements, and the clearing of a missing table.
use crate::exporter::fields::valid_indices;
use crate::exporter::sql_builder::{build_multi_row_insert_sql, multi_row_insert_sql};
use crate::features::filters::str_contains;
use std::collections::HashMap;
use vstd::prelude::*;

verus! {

/// Counts one more inserted row and says whether the open transaction is committed now:
/// after every `batch_size` rows.
pub fn batch_commit_due(row_count: &mut usize, batch_size: usize) -> (commit: bool)
    requires
        batch_size > 0,
        *old(row_count) < usize::MAX,
    ensures
        *final(row_count) == *old(row_count) + 1,
        commit == (*final(row_count) % batch_size == 0),
{
    *row_count = *row_count + 1;
    *row_count % batch_size == 0
}

/// Whether an error clearing a table only says that the table does not exist (which is
/// not worth a warning).
pub fn is_missing_table_message(msg: &str) -> (b: bool)
    ensures
        b == crate::features::filters::text_contains(msg@, "no such table"@),
{
    str_contains(msg, "no such table")
}

/// The multi-row INSERT statements built so far for one table and column list, by row
/// count.
pub struct InsertCache {
    table: String,
    indices: Vec<usize>,
    statements: HashMap<usize, String>,
}

impl InsertCache {
    /// The table the statements insert into.
    pub closed spec fn table(&self) -> Seq<char> {
        self.table@
    }

    /// The columns the statements fill.
    pub closed spec fn indices(&self) -> Seq<usize> {
        self.indices@
    }

    /// Every cached statement is the INSERT of its row count into the cache's table
    /// and columns.
    pub closed spec fn wf(&self) -> bool {
        &&& valid_indices(self.indices@)
        &&& self.indices@.len() > 0
        &&& forall|rows: usize| #[trigger] self.statements@.contains_key(rows) ==> rows > 0
            && self.statements@[rows]@ == multi_row_insert_sql(self.table@, self.indices@, rows as nat)
    }

    /// An empty cache for a table and column list.
    pub fn new(table: String, indices: Vec<usize>) -> (c: Self)
        requires
            valid_indices(indices@),
            indices@.len() > 0,
        ensures
            c.wf(),
            c.table() == table@,
            c.indices() == indices@,
    {
        InsertCache { table, indices, statements: HashMap::new() }
    }

    /// The INSERT statement of `rows` rows, built once and then taken from the cache.
    pub fn statement(&mut self, rows: usize) -> (sql: String)
        requires
            old(self).wf(),
            rows > 0,
        ensures
            final(self).wf(),
            final(self).table() == old(self).table(),
            final(self).indices() == old(self).indices(),
            sql@ == multi_row_insert_sql(old(self).table(), old(self).indices(), rows as nat),
    {
        match self.statements.get(&rows) {
            Some(s) => {
                return s.clone();
            },
            None => {},
        }
        let built = build_multi_row_insert_sql(self.table.as_str(), self.indices.as_slice(), rows);
        let copy = built.clone();
        self.statements.insert(rows, built);
        copy
    }
}

} // verus!
