//! Export formats: the column set, SQL statements, CSV rows and export counters.
pub mod fields;
pub mod sql_builder;
pub mod stats;
pub mod util;
pub mod record;
pub mod csv_row;
pub mod csv_layout;
pub mod companion;
pub mod csv_split;
pub mod sql_values;
pub mod parquet_columns;
pub mod sqlite_batch;
pub mod choice;
