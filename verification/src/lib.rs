//! Streams DaMeng SQL logs through filtering into export backends.
//!
//! The verified library holds the decisions of the tool: error classification,
//! record filters, CSV row and SQL statement construction, and the planning of
//! parallel work. Reading files, talking to SQLite or Parquet and printing stay
//! outside it.

pub mod std_decls;
pub mod text;
pub mod error;
pub mod infrastructure;
pub mod features;
pub mod exporter;
pub mod engine;
pub mod logging;
pub mod input;
pub mod timestamp;
pub mod driver_records;
