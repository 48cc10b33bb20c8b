//! The logic of a FreeSWITCH module, verified.
//!
//! A module talks to the FreeSWITCH core by C calls: it hands over texts, numbers and addresses, and
//! gets back statuses, numbers and addresses. This crate holds everything around those calls. Each
//! operation takes the call itself as its last arguments, as a function from plain values to plain
//! values. Its contract says which values the call is handed, on which inputs it is not made at all,
//! and what the operation returns for each answer. A call that is made at most once is taken as an
//! `FnOnce`, and its `requires` is asked for with the values that it is handed and only where it is
//! made, so that no other call can be.
//!
//! - An object of the core is an [`handle::Address`]; types such as [`session::Session`] or
//!   [`channel::Channel`] wrap one that is not null.
//! - Text is checked and copied into a [`command::CText`] before the core sees it. Text that holds a
//!   NUL character is refused.
//! - A status is turned into a [`status::Result`], and an error keeps the status.
//!
//! Stages that work on samples ([`dsp`], [`resample`]) take the arithmetic on floating point numbers
//! in the same way, and hold the buffering, the order and the decisions.

pub mod buffer;
pub mod caller;
pub mod channel;
pub mod codec;
pub mod command;
pub mod console;
pub mod core_db;
pub mod decimal;
pub mod dsp;
pub mod endpoint;
pub mod estimators;
pub mod event;
pub mod file;
pub mod framing;
pub mod globals;
pub mod handle;
pub mod ivr;
pub mod jitterbuffer;
pub mod limit;
pub mod logging;
pub mod media;
pub mod module;
pub mod nat_mapping;
pub mod network_list;
pub mod packetizer;
pub mod plc;
pub mod pool;
pub mod regex;
pub mod resample;
pub mod rtp;
pub mod scheduler;
pub mod session;
pub mod status;
