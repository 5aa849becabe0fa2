//! The state of a clipboard manager for compositors that speak the
//! data-control protocol, and the decisions it takes.
//!
//! The manager reads whatever another client offers for the clipboard or the
//! primary selection, byte by byte and content type by content type, and once
//! it holds all of it takes the selection over and serves the bytes itself, so
//! that they outlive the client they came from.
//!
//! Nothing here talks to the compositor or reads a pipe. A handler takes the
//! state and a plain description of what happened, changes the state, and
//! hands back what is to be done. [`model`] says as mathematics what each
//! handler does, and [`laws`] holds what follows for every run.

pub mod assoc;
pub mod buffer;
pub mod device;
pub mod event;
pub mod laws;
pub mod mime;
pub mod model;
pub mod offer;
pub mod pipe;
pub mod registry;
pub mod selection;
pub mod text;
pub mod tracker;
