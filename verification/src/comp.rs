//! Identifiers and component types of the simulation's entity store.
//!
//! Entities are referenced two ways: a transient, generation-tagged handle
//! that is invalidated when the entity is destroyed, and a stable identifier
//! that outlives handle churn and is the only identifier safe to carry inside
//! another entity's relation component or across the network.

use vstd::prelude::*;

verus! {

/// Stable identifier: globally unique, network-visible, valid across handle
/// churn.
#[derive(Clone, Copy, PartialEq, Eq, Structural, Debug)]
pub struct Uid(pub u64);

/// Transient entity handle: process-local slot index plus a generation tag.
/// A positive generation marks a handle minted for a live entity; destroying
/// an entity negates the slot's generation, so stale handles fail the
/// membership check against the store.
#[derive(Clone, Copy, PartialEq, Eq, Structural, Debug)]
pub struct Entity {
    pub index: usize,
    pub generation: i64,
}

impl Entity {
    /// Generation-side liveness check: a handle whose generation tag is not
    /// positive was minted for an already-destroyed entity.
    pub fn gen_alive(&self) -> (b: bool)
        ensures
            b == (self.generation > 0),
    {
        self.generation > 0
    }
}

/// A 3D point per entity; read-only to this subsystem, used for range checks.
#[derive(Clone, Copy, PartialEq, Eq, Structural, Debug)]
pub struct Pos {
    pub x: i32,
    pub y: i32,
    pub z: i32,
}

/// Attached to the mount entity: either free or ridden by exactly one rider,
/// recorded by the rider's stable id.
#[derive(Clone, Copy, PartialEq, Eq, Structural, Debug)]
pub enum MountState {
    Unmounted,
    MountedBy(Uid),
}

/// Attached to the rider entity: holds the mount's stable id.
#[derive(Clone, Copy, PartialEq, Eq, Structural, Debug)]
pub struct Mounting(pub Uid);

#[derive(Clone, Copy, PartialEq, Eq, Structural, Debug)]
pub struct Rgb {
    pub r: u8,
    pub g: u8,
    pub b: u8,
}

/// Visual light-emission component. Strength and flicker are fixed-point
/// values in thousandths of the render unit.
#[derive(Clone, Copy, PartialEq, Eq, Structural, Debug)]
pub struct LightEmitter {
    pub col: Rgb,
    pub strength: u32,
    pub flicker: u32,
    pub animated: bool,
}

/// Parameters of an equipped lantern item: emission color and strength
/// (thousandths of the render unit).
#[derive(Clone, Copy, PartialEq, Eq, Structural, Debug)]
pub struct Lantern {
    pub col: Rgb,
    pub strength: u32,
}

/// An ability granted by a tool item.
#[derive(Clone, Copy, PartialEq, Eq, Structural, Debug)]
pub struct Ability(pub u64);

/// A wieldable tool and its ordered ability list.
#[derive(Clone, PartialEq, Eq, Debug)]
pub struct Tool {
    pub abilities: Vec<Ability>,
}

#[derive(Clone, PartialEq, Eq, Debug)]
pub enum ItemKind {
    Tool(Tool),
    Lantern(Lantern),
    Utility,
}

#[derive(Clone, PartialEq, Eq, Debug)]
pub struct Item {
    pub kind: ItemKind,
}

/// An equipped item together with the ability slots it fills.
#[derive(Clone, PartialEq, Eq, Debug)]
pub struct ItemConfig {
    pub item: Item,
    pub ability1: Option<Ability>,
    pub ability2: Option<Ability>,
    pub ability3: Option<Ability>,
    pub block_ability: Option<Ability>,
    pub dodge_ability: Option<Ability>,
}

/// Equipment slot set of an entity.
#[derive(Clone, PartialEq, Eq, Debug)]
pub struct Loadout {
    pub active_item: Option<ItemConfig>,
    pub second_item: Option<ItemConfig>,
    pub lantern: Option<Item>,
}

impl Default for Loadout {
    fn default() -> (r: Loadout)
        ensures
            r.active_item is None,
            r.second_item is None,
            r.lantern is None,
    {
        Loadout { active_item: None, second_item: None, lantern: None }
    }
}

/// Session handle: marks an entity as owned by a connected client. The token
/// stands for the client connection, which this subsystem never inspects.
#[derive(Clone, Copy, PartialEq, Eq, Structural, Debug)]
pub struct Client {
    pub token: u64,
}

/// Typed message-delivery endpoints bound to a session; exactly one of each
/// accompanies a session handle and they always move together with it.
#[derive(Clone, Copy, PartialEq, Eq, Structural, Debug)]
pub struct GeneralStream {
    pub channel: u64,
}

#[derive(Clone, Copy, PartialEq, Eq, Structural, Debug)]
pub struct PingStream {
    pub channel: u64,
}

#[derive(Clone, Copy, PartialEq, Eq, Structural, Debug)]
pub struct RegisterStream {
    pub channel: u64,
}

#[derive(Clone, Copy, PartialEq, Eq, Structural, Debug)]
pub struct CharacterScreenStream {
    pub channel: u64,
}

#[derive(Clone, Copy, PartialEq, Eq, Structural, Debug)]
pub struct InGameStream {
    pub channel: u64,
}

/// Player marker; optional, independently transferable.
#[derive(Clone, Copy, PartialEq, Eq, Structural, Debug)]
pub struct Player {
    pub alias_id: u64,
}

/// Region-subscription marker; optional, independently transferable.
#[derive(Clone, Copy, PartialEq, Eq, Structural, Debug)]
pub struct RegionSubscription {
    pub regions: u64,
}

/// Admin flag; optional, independently transferable.
#[derive(Clone, Copy, PartialEq, Eq, Structural, Debug)]
pub struct Admin;

/// Waypoint; optional, independently transferable.
#[derive(Clone, Copy, PartialEq, Eq, Structural, Debug)]
pub struct Waypoint {
    pub pos: Pos,
}

/// Autonomous-behavior component: drives non-networked actors; must be absent
/// from any entity that owns a session handle.
#[derive(Clone, Copy, PartialEq, Eq, Structural, Debug)]
pub struct Agent;

/// Input-controller component: pending input state, reset to neutral when an
/// entity stops being session-controlled.
#[derive(Clone, Copy, PartialEq, Eq, Structural, Debug)]
pub struct Controller {
    pub inputs: u64,
}

impl Controller {
    /// Discard any in-flight input, returning the controller to neutral.
    pub fn reset(&mut self)
        ensures
            final(self).inputs == 0,
    {
        self.inputs = 0;
    }
}

} // verus!
