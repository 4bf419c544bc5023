//! Execution engine for single-file programs: resource-usage conversion, wait-status
//! classification, build-cache decisions and the supervision state machine that an
//! outer driver steps through.

pub mod rusage;
pub mod wait;
pub mod backends;
pub mod conf;
pub mod text;
