//! Entity residency and relation-transfer subsystem of a multiplayer
//! simulation server: the mount/ride relation state machine, the possession
//! protocol that migrates a live network session between entities, and the
//! lantern-equip synchronization that derives a light-emitter component from
//! equipment state.

pub mod comp;
pub mod store;
pub mod interaction;
pub mod character;
pub mod laws;
