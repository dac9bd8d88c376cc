//! Discovery and dispatch logic of a bulk loader that brings script, tabular
//! and line-record files into a database at most once each.
//!
//! A [`LoadRun`] decides, file by file, whether to skip a file or hand it to
//! its loader, and which history entry records a successful load; the caller
//! performs the scanning, the loading and the appends that it asks for.
pub mod history;
pub mod naming;
pub mod records;
pub mod run;
pub mod source_type;

pub use history::{find_previous, history_entry, SurelloHistoryEntry};
pub use naming::collection_name;
pub use records::{plan_csv, plan_json_lines, Fields, LoadError, LoadPlan};
pub use run::{LoadRun, RunAction, RunEvent, RunFailure, RunStatus};
pub use source_type::{determine_target, file_extension, SurelloSourceType};
