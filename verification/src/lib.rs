//! A verified view-state controller for a single-page school timetable
//! viewer.
//!
//! The library owns the pure logic of the page: the stage state machine
//! (loading, searching, viewing), the handling of user and completion
//! messages, the stale-completion guard for asynchronous requests, the
//! persistence and rehydration of the last selection, and the timetable
//! grid lookup. All I/O (browser storage, the remote timetable service,
//! rendering) is performed by an unverified shell that feeds plain values
//! in and carries the returned effects out.

pub mod controller;
pub mod grid;
pub mod laws;
pub mod selection;
