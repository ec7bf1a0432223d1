//! A task scheduler's decision logic: trigger computation, the run queue,
//! the scheduler's state machine, retries, templating and request policy.
#![allow(unused_imports)]

pub mod text;
pub mod model;
pub mod queue;
pub mod instant;
pub mod trigger;
pub mod engine;
pub mod executor;
pub mod runner;
pub mod access;
pub mod notify;
pub mod config;
pub mod rows;
pub mod query;
pub mod web;
