//! Which exporter a run uses.
use crate::error::{ConfigError, Error};
use vstd::prelude::*;

verus! {

/// The export backend of a run.
#[derive(Clone, Copy, Debug, PartialEq, Eq)]
pub enum ExporterChoice {
    Parquet,
    Csv,
    Sqlite,
}

impl ExporterChoice {
    /// The name shown for the backend.
    pub fn name(&self) -> (s: &'static str)
        ensures
            s@ == (match *self {
                ExporterChoice::Parquet => "Parquet"@,
                ExporterChoice::Csv => "CSV"@,
                ExporterChoice::Sqlite => "SQLite"@,
            }),
    {
        match self {
            ExporterChoice::Parquet => "Parquet",
            ExporterChoice::Csv => "CSV",
            ExporterChoice::Sqlite => "SQLite",
        }
    }

    /// Whether the backend writes the performance columns: the CSV backend as
    /// configured, the others always.
    pub fn include_performance_metrics(&self, csv_setting: bool) -> (b: bool)
        ensures
            b == (match *self {
                ExporterChoice::Csv => csv_setting,
                _ => true,
            }),
    {
        match self {
            ExporterChoice::Csv => csv_setting,
            _ => true,
        }
    }
}

/// The configured backend: Parquet before CSV before SQLite; with none configured, the
/// configuration error that no exporter is enabled.
pub fn choose_exporter(has_parquet: bool, has_csv: bool, has_sqlite: bool) -> (r: Result<ExporterChoice, Error>)
    ensures
        has_parquet ==> r == Ok::<ExporterChoice, Error>(ExporterChoice::Parquet),
        !has_parquet && has_csv ==> r == Ok::<ExporterChoice, Error>(ExporterChoice::Csv),
        !has_parquet && !has_csv && has_sqlite ==> r == Ok::<ExporterChoice, Error>(ExporterChoice::Sqlite),
        !has_parquet && !has_csv && !has_sqlite ==> r matches Err(Error::Config(ConfigError::NoExporters)),
{
    if has_parquet {
        Ok(ExporterChoice::Parquet)
    } else if has_csv {
        Ok(ExporterChoice::Csv)
    } else if has_sqlite {
        Ok(ExporterChoice::Sqlite)
    } else {
        Err(Error::Config(ConfigError::NoExporters))
    }
}

} // verus!
