//! Planning of a run: parallelism, file chunks and the transaction pre-scan.
pub mod memory_budget;
pub mod chunk;
pub mod prescan;
pub mod record_loop;
pub mod report;
pub mod routing;
