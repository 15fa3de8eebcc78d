//! Sans-I/O core of a bridge between remote chat channels and the local
//! buffers of an interactive host: naming, surfaces, the guarded channel
//! state and the decisions around bulk loads and outgoing messages.
//!
//! Nothing here performs I/O. Every operation returns what the host has to
//! do, and takes as an argument what the host or the network answered.

pub mod channel;
pub mod lifecycle;
pub mod model;
pub mod naming;
pub mod outside;
pub mod send;
pub mod state;
pub mod surface;
