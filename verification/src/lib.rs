//! Where a profile's browser is, and how to talk to it over the Chrome DevTools
//! Protocol (CDP).
//!
//! What the client makes of each thing that happens, and every text it sends or
//! answers with, stands here and is verified. A caller performs the step it was
//! told to take, reports what happened, and is told the next one. The caller
//! owns the sockets and the HTTP requests, reads the clock, gives each read of a
//! socket the time that it was told to, and writes the log.

pub mod clock;
pub mod command;
pub mod connection;
pub mod discovery;
pub mod discovery_laws;
pub mod error;
pub mod json;
pub mod laws;
pub mod listing_laws;
pub mod message_laws;
pub mod model_laws;
pub mod outcome_laws;
pub mod run_laws;
pub mod step_laws;
pub mod target;
pub mod text;
