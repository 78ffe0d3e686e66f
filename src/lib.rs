//! Core of a terminal host monitor: the metrics model, the built-in
//! threshold checks, the bounded alert feed and the main loop's decisions.
use vstd::prelude::*;

pub mod decimal;
pub mod metrics;
pub mod alert;
pub mod scheduler;
pub mod processes;
pub mod rules;
