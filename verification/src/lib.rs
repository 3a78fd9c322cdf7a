//! A small object/interface/endpoint registration layer for a D-Bus style
//! message bus, with a verified dispatch path.
//!
//! The library models bus objects as plain data: an [`object::Object`] exposes
//! named [`interface::Interface`]s, each a named, insertion-ordered collection
//! of [`endpoint::Endpoint`]s (properties, methods, signals). Incoming calls
//! are routed by [`object::Object::process`]; introspection XML is produced by
//! the `render` methods. Transport, wire-format marshalling and the connection
//! handshake are left to an external bus client around this library.

pub mod connection;
pub mod endpoint;
pub mod interface;
pub mod message;
pub mod name_map;
pub mod object;
pub mod variant;

pub use variant::Variant;
