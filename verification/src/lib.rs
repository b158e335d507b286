//! Receipts into expense sheets.
//!
//! A folder of receipt images becomes rows of an expense sheet and an
//! exported PDF. This library holds everything that decides something,
//! each function with a contract that Verus proves:
//!
//! - [`worker`]: the background worker as a state machine — one command at
//!   a time, each job through its stages in order — with the laws that hold
//!   of every run in [`worker::laws`] and the texts and cells of a commit in
//!   [`worker::plan`];
//! - [`google`]: the addresses of the calls to the document store, the
//!   shapes of its answers and the decisions taken on them;
//! - [`app`]: the state of the front end and what events and keys do to it;
//! - [`jobs`], [`config`], [`events`], [`wizard`], [`shortcuts`], [`input`]:
//!   the data that the others work on;
//! - [`text`]: building and taking apart text.
//!
//! The library touches neither terminal, network nor disk. Whoever uses it
//! reads keys and answers, hands them over as plain values, and carries out
//! what comes back.

pub mod app;
pub mod config;
pub mod events;
pub mod google;
pub mod input;
pub mod jobs;
pub mod shortcuts;
pub mod text;
pub mod wizard;
pub mod worker;
