//! Core of a single-page search interface over a catalog of template
//! records.
//!
//! The crate is organised as a pure state/update engine:
//!
//! * [`query`] holds the optional text filters and the updates that edit
//!   them one field at a time;
//! * [`records`] holds the catalog records and the result page the search
//!   endpoint answers with;
//! * [`machine`] is the view-state machine: a pure reducer from the current
//!   state and one event to the next state, plus the classification of a
//!   transport outcome into an event;
//! * [`render`] derives the displayed form and table from a state, as plain
//!   data.
//!
//! All I/O (the HTTP call, logging, the rendering host) lives outside this
//! crate and communicates with it through plain values.

pub mod machine;
pub mod query;
pub mod records;
pub mod render;
