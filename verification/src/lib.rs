//! The decisions of a daemon that applies one lid policy: on AC the machine keeps running, and on
//! battery with the lid closed it suspends.
//!
//! The library does no input or output. Two state machines, [`supervisor::Supervisor`] for the
//! process and [`daemon::Daemon`] for a run on the bus, say which piece of outside work is due and
//! take the report on it. The rules they follow stand in modules of their own; [`moves`] holds
//! what is proved of single events, and [`trace`] what is proved of whole runs.

pub mod bus;
pub mod cli;
pub mod daemon;
pub mod epoch;
pub mod evaluate;
pub mod moves;
pub mod policy;
pub mod properties;
pub mod supervisor;
pub mod text;
pub mod trace;
