//! A periodic web-content monitor: the decisions that each monitored target
//! makes on a scrape cycle, the alert policy and the per-target error budget.

pub mod alert;
pub mod decimal;
pub mod error;
pub mod extract;
pub mod logline;
pub mod lookout;
pub mod matcher;
pub mod supervisor;

