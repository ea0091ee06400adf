//! Event model, per-device event bus and assistant pipeline of a voice
//! assistant front end.
//!
//! A client uploads audio; the audio is transcribed, a language model picks
//! between a direct answer, a code-writing task and an image-drawing task, and
//! the progress and the results of the run are published as events on the bus
//! of the client's device, from which every live subscriber receives them.
//!
//! The modules, leaf first:
//!
//! - [`text`]: small operations on text;
//! - [`event`]: the closed set of events and their constructors;
//! - [`render`]: the markup body of each event;
//! - [`wire`]: the record that carries an event over a live stream;
//! - [`tools`]: the tool catalog and the requests put to the language model;
//! - [`paths`]: where generated media is stored and served;
//! - [`pipeline`]: the state machine of one assistant run;
//! - [`trace`]: what every run publishes, proved of the state machine;
//! - [`bus`] and [`registry`]: the per-device broadcast channel and the map
//!   from device identifiers to channels;
//! - [`handler`]: opening a device's stream and starting a run on its bus;
//! - [`config`]: command-line settings and the request context;
//! - [`outside`]: the calls into other crates, with the contracts that the
//!   rest of the library relies on without proof.

pub mod bus;
pub mod config;
pub mod event;
pub mod handler;
pub mod outside;
pub mod paths;
pub mod pipeline;
pub mod registry;
pub mod render;
pub mod text;
pub mod tools;
pub mod trace;
pub mod wire;
