//! A small text processor: it counts the items it is given and reports, for
//! each one, its size in bytes, the moment it was handled and its number.

pub mod clock;
pub mod decimal;
pub mod processor;
pub mod record;
pub mod run;

pub use crate::processor::{NodeRunnerProcessor, ProcessorStats};
pub use crate::record::{ProcessData, ProcessResult};
pub use crate::run::run_once;
