//! What can be relied on: laws that tie operations together, over all inputs.
pub mod attributes;
pub mod bus;
pub mod clock;
pub mod driver;
pub mod drives;
pub mod faults;
pub mod files;
pub mod listing;
pub mod mounting;
pub mod parts;
pub mod program;
pub mod queue;
pub mod refresh;
pub mod service;
pub mod status;
pub mod units;
pub mod words;
