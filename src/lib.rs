//! Start or stop one compute instance and wait until it gets there.
//!
//! The library holds the decisions: how an observed state is classified,
//! how the replies of the remote API are checked, and what a run does next
//! after each event. Talking to the remote API is left to the caller.
pub mod config;
pub mod ec2;
pub mod instance;
pub mod run;
pub mod ssm;
pub mod state;
