//! A verified batch loader for newline-delimited JSON log records: a
//! pure parser, a batch accumulator, the multi-row insert statement of
//! the sink, and the driver that wires them together and keeps the run
//! counters. The caller supplies the line source and the database
//! connection; every decision in between is proved.

use vstd::prelude::*;

pub mod accum;
pub mod parse;
pub mod pipeline;
pub mod record;
pub mod sink;
