//! Client-side logic for a blob store made of a master server, which hands out
//! file ids and knows where volumes live, and volume servers, which hold the
//! bytes. The crate parses and formats file ids and server addresses, builds
//! every request URL with its query string, and maps each reply status to the
//! operation's result.

/// Decimal numbers and percent-encoding of query values.
pub mod text;

/// Query strings built from optional fields.
pub mod query;

/// Holds universal structs like the [FID](crate::utils::FID) and [Locations](crate::utils::Location)
pub mod utils;

/// Contains the [master](crate::master::Master) struct: addresses and requests of the master server
pub mod master;

/// Contains the [volume](crate::volume::Volume) struct: addresses and requests of a volume server
pub mod volume;
