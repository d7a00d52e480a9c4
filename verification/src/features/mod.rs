//! Record filters: configured include/exclude lists and their compiled forms.
pub mod filters;
pub mod pattern;
