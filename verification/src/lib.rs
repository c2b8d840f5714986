//! Donet message bus core: the Message Director's channel-subscription
//! registry, range-subscription registry, post-remove registry, datagram
//! codec and routing/federation algorithm, together with the wire opcode
//! catalog, the schema parameter data model, and the service bootstrap
//! plans that the daemon executes.

pub mod channels;
pub mod codec;
pub mod config;
pub mod datagram;
pub mod dcparameter;
pub mod director;
pub mod postremoves;
pub mod protocol;
pub mod ranges;
pub mod service_factory;
