//! A latest-value push core: one writer derives scalar readings from a sensor
//! feed and stores each into a single-slot cell; any number of independent
//! streaming sessions poll the cell and emit the current value (or a sentinel
//! when nothing has arrived yet) as JSON events.

pub mod cell;
pub mod codec;
pub mod config;
pub mod fmt;
pub mod ingress;
pub mod protocol;
pub mod reading;
pub mod session;
