//! A validated UTC instant and the message boundary between a host and its
//! application engine.

pub mod boundary;
pub mod calendar;
pub mod error;
pub mod instant;
