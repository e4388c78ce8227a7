//! Event fan-out for a multi-tenant chat service.
//!
//! A change notification from the data store is decoded into an [`event::Event`],
//! resolved to the users who must see it, and published to each recipient's
//! broadcast channel, which the streaming endpoint of that user reads.
pub mod delivery;
pub mod event;
pub mod listener;
pub mod model;
pub mod registry;
pub mod resolver;
