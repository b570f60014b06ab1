//! A request-dispatch harness: it plans a batch of HTTP GET requests under one
//! of three concurrency strategies, decides step by step what the driver does
//! next, and renders one output line per request plus a start and an end line.

pub mod error;
pub mod run;
pub mod strategy;
pub mod target;
pub mod text;
