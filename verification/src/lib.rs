//! Compressing a video until it fits a size budget, by re-encoding it at
//! progressively coarser quality levels.
//!
//! The crate holds the decisions only: which level to try, when to stop, how a
//! failure ends the job, where the result is written and how the encoder is
//! called and found. Running the encoder and touching the file system is left
//! to the caller, who performs each action the policy asks for and reports
//! back what happened.

pub mod invoker;
pub mod job;
pub mod locator;
pub mod output_path;
pub mod paths;
pub mod policy;
pub mod quality;
pub mod run;
