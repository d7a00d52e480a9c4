//! Error types of the newer export pipeline (Parquet and CSV backends).
pub mod error;
