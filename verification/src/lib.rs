//! Connection lifecycle management for a serial device.
//!
//! The heart of the crate is [`serial::Serial`], the manager of one serial connection
//! at a time. It is a state machine: it decides, and the application around it acts.
//! The application opens the port, runs one task for each direction, and waits where
//! waiting is due; the manager tells it what state the connection is in, keeps the two
//! bounded channels between the consumer and the tasks, and discards whatever a task of
//! a past connection still reports.
//!
//! - [`config`] holds the line settings of a port.
//! - [`loader`] reads the list of permitted baud rates.
//! - [`token`] and [`channel`] are the parts that a connection is made of.
//! - [`model`] is the state machine in mathematical terms, [`serial`] the manager that
//!   implements it, and [`tasks`] the read loop and the write loop as step functions.
//! - [`laws`] states and proves what holds of every manager.
//! - [`ui`] is what a control panel holds and decides.

pub mod channel;
pub mod config;
pub mod laws;
pub mod loader;
pub mod model;
pub mod serial;
pub mod tasks;
pub mod token;
pub mod ui;
