//! The verified core of a small game engine. Its main part is the binary
//! packet transport: a named, variable-length envelope, a cursor that reads
//! hand-packed fields out of its payload, the wire form of the envelope, and
//! the decisions of a session that relays packages between a peer and a
//! broadcast channel. Beside it stand the key names of the persistent store,
//! the channels between the engine's threads, and the integer work of the
//! resource loaders.

pub mod endian;
pub mod errors;
pub mod package;
pub mod codec;
pub mod framing;
pub mod defaults;
pub mod session;
pub mod server;
pub mod texture;
pub mod text;
pub mod keys;
pub mod resources;
pub mod channel;
pub mod atlas;
pub mod threads;
