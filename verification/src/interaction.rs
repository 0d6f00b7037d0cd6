//! The three entry points of the subsystem: mount/unmount, possession, and
//! lantern-equip synchronization.

use vstd::prelude::*;

use crate::comp::{
    Ability, Controller, Entity, Item, ItemConfig, ItemKind, Lantern, LightEmitter, Loadout,
    MountState, Mounting, Pos, Uid,
};
use crate::store::{moved_opt, put_at, table_read, take_at, transfer, Store, StoreV};

verus! {

/// Maximum mounting range, in world units.
pub const MAX_MOUNT_RANGE: i64 = 14;

/// Squared Euclidean distance between two points.
pub open spec fn dist_sq(a: Pos, b: Pos) -> int {
    let dx = a.x - b.x;
    let dy = a.y - b.y;
    let dz = a.z - b.z;
    dx * dx + dy * dy + dz * dz
}

/// Two entities are in mounting range when both have a position and their
/// squared distance is strictly below the squared maximum range; a missing
/// position on either side counts as out of range (fails closed).
pub open spec fn in_mount_range(a: Option<Pos>, b: Option<Pos>) -> bool {
    match (a, b) {
        (Some(pa), Some(pb)) => dist_sq(pa, pb) < MAX_MOUNT_RANGE * MAX_MOUNT_RANGE,
        _ => false,
    }
}

/// Range check used by `handle_mount`.
pub fn within_mounting_range(player_position: Option<Pos>, mount_position: Option<Pos>) -> (r:
    bool)
    ensures
        r == in_mount_range(player_position, mount_position),
{
    match (player_position, mount_position) {
        (Some(ppos), Some(ipos)) => {
            let dx: i128 = ppos.x as i128 - ipos.x as i128;
            let dy: i128 = ppos.y as i128 - ipos.y as i128;
            let dz: i128 = ppos.z as i128 - ipos.z as i128;
            proof {
                assert(0 <= dx * dx < 0x40000000000000000i128 && 0 <= dy * dy
                    < 0x40000000000000000i128 && 0 <= dz * dz < 0x40000000000000000i128)
                    by (nonlinear_arith)
                    requires
                        -4294967296 <= dx <= 4294967296,
                        -4294967296 <= dy <= 4294967296,
                        -4294967296 <= dz <= 4294967296,
                ;
            }
            let d2 = dx * dx + dy * dy + dz * dz;
            d2 < (MAX_MOUNT_RANGE as i128) * (MAX_MOUNT_RANGE as i128)
        },
        _ => false,
    }
}

/// Flicker amplitude of a lit lantern, in thousandths of the render unit.
pub const LANTERN_FLICKER: u32 = 350;

/// The lantern counts as "on" exactly when a light-emitter component is
/// present with positive strength.
pub open spec fn lantern_lit(s: StoreV, e: Entity) -> bool {
    table_read(s, s.light_emitter, e) matches Some(le) && le.strength > 0
}

/// The lantern item equipped in the entity's lantern slot, if the entity is
/// alive, has a loadout, and the slot holds an item of the lantern kind.
pub open spec fn equipped_lantern(s: StoreV, e: Entity) -> Option<Lantern> {
    match table_read(s, s.loadout, e) {
        Some(lo) => match lo.lantern {
            Some(item) => match item.kind {
                ItemKind::Lantern(l) => Some(l),
                _ => None,
            },
            None => None,
        },
        None => None,
    }
}

/// The light-emitter derived from a lantern item's parameters.
pub open spec fn lit_emitter(l: Lantern) -> LightEmitter {
    LightEmitter { col: l.col, strength: l.strength, flicker: LANTERN_FLICKER, animated: true }
}

/// How `handle_lantern` transforms the store: a no-op when the current state
/// already equals the request or when enabling without a lantern equipped;
/// otherwise exactly the entity's light-emitter entry changes.
pub open spec fn lantern_step(pre: StoreV, post: StoreV, entity: Entity, enable: bool) -> bool {
    if lantern_lit(pre, entity) == enable {
        post == pre
    } else if !enable {
        post == (StoreV {
            light_emitter: pre.light_emitter.update(entity.index as int, None),
            ..pre
        })
    } else {
        match equipped_lantern(pre, entity) {
            Some(l) => post == (StoreV {
                light_emitter: pre.light_emitter.update(
                    entity.index as int,
                    Some(lit_emitter(l)),
                ),
                ..pre
            }),
            None => post == pre,
        }
    }
}

/// Synchronize the light-emitter component with the requested lantern state.
pub fn handle_lantern(store: &mut Store, entity: Entity, enable: bool)
    requires
        old(store)@.wf(),
    ensures
        final(store)@.wf(),
        lantern_step(old(store)@, final(store)@, entity, enable),
{
    let live = store.is_live(entity);
    let lantern_exists = live && match store.light_emitter[entity.index] {
        Some(light) => light.strength > 0,
        None => false,
    };
    if lantern_exists != enable {
        if !enable {
            let _ = take_at(&mut store.light_emitter, entity.index);
        } else {
            let lantern_opt: Option<Lantern> = if live {
                match &store.loadout[entity.index] {
                    Some(lo) => match &lo.lantern {
                        Some(item) => match &item.kind {
                            ItemKind::Lantern(l) => Some(*l),
                            _ => None,
                        },
                        None => None,
                    },
                    None => None,
                }
            } else {
                None
            };
            match lantern_opt {
                Some(lantern) => {
                    put_at(
                        &mut store.light_emitter,
                        entity.index,
                        LightEmitter {
                            col: lantern.col,
                            strength: lantern.strength,
                            flicker: LANTERN_FLICKER,
                            animated: true,
                        },
                    );
                },
                None => {},
            }
        }
    }
}

/// The stable id a riding component points at, if any.
pub open spec fn riding_uid(o: Option<Mounting>) -> Option<Uid> {
    match o {
        Some(m) => Some(m.0),
        None => None,
    }
}

/// `mount` succeeds exactly when the rider is not already riding anything,
/// the mountee's mount state is exactly `Unmounted` (not missing, not already
/// ridden), and the two are within mounting range.
pub open spec fn can_mount(s: StoreV, rider: Entity, mountee: Entity) -> bool {
    &&& table_read(s, s.mounting, rider) is None
    &&& table_read(s, s.mount_state, mountee) == Some(MountState::Unmounted)
    &&& in_mount_range(table_read(s, s.pos, rider), table_read(s, s.pos, mountee))
}

/// How `handle_mount` transforms the store: on success both sides of the
/// pairing are written, each recording the other's stable id; otherwise the
/// call is a silent no-op.
pub open spec fn mount_step(pre: StoreV, post: StoreV, rider: Entity, mountee: Entity) -> bool {
    if can_mount(pre, rider, mountee) {
        post == (StoreV {
            mount_state: pre.mount_state.update(
                mountee.index as int,
                Some(MountState::MountedBy(pre.uids[rider.index as int])),
            ),
            mounting: pre.mounting.update(
                rider.index as int,
                Some(Mounting(pre.uids[mountee.index as int])),
            ),
            ..pre
        })
    } else {
        post == pre
    }
}

/// Establish the rider/mount pairing, writing both relation components in
/// one call, or change nothing.
pub fn handle_mount(store: &mut Store, rider: Entity, mountee: Entity)
    requires
        old(store)@.wf(),
    ensures
        final(store)@.wf(),
        mount_step(old(store)@, final(store)@, rider, mountee),
{
    let rider_free = if store.is_live(rider) {
        store.mounting[rider.index].is_none()
    } else {
        true
    };
    if rider_free {
        let not_mounting_yet = if store.is_live(mountee) {
            matches!(store.mount_state[mountee.index], Some(MountState::Unmounted))
        } else {
            false
        };
        let rider_pos = if store.is_live(rider) {
            store.pos[rider.index]
        } else {
            None
        };
        let mountee_pos = if store.is_live(mountee) {
            store.pos[mountee.index]
        } else {
            None
        };
        let within_range = within_mounting_range(rider_pos, mountee_pos);
        if not_mounting_yet && within_range {
            let rider_uid = store.uid_from_entity(rider);
            let mountee_uid = store.uid_from_entity(mountee);
            match (rider_uid, mountee_uid) {
                (Some(ru), Some(mu)) => {
                    put_at(&mut store.mount_state, mountee.index, MountState::MountedBy(ru));
                    put_at(&mut store.mounting, rider.index, Mounting(mu));
                },
                _ => {},
            }
        }
    }
}

/// How `handle_unmount` transforms the store: the rider's riding component
/// is always removed when present; the previously-linked mount is set back
/// to `Unmounted` exactly when its stable id still resolves to a live entity
/// that has a mount state. A rider with no riding component is a no-op.
pub open spec fn unmount_step(pre: StoreV, post: StoreV, rider: Entity) -> bool {
    match table_read(pre, pre.mounting, rider) {
        None => post == pre,
        Some(m) => {
            let new_mount_state = if pre.has_uid(m.0) && pre.gens[pre.uid_index(m.0)] > 0
                && pre.mount_state[pre.uid_index(m.0)] is Some {
                pre.mount_state.update(pre.uid_index(m.0), Some(MountState::Unmounted))
            } else {
                pre.mount_state
            };
            post == (StoreV {
                mount_state: new_mount_state,
                mounting: pre.mounting.update(rider.index as int, None),
                ..pre
            })
        },
    }
}

/// Tear the pairing down from the rider's side. The rider is never left
/// attached to a nonexistent mount: its riding component goes away even when
/// the mount no longer resolves.
pub fn handle_unmount(store: &mut Store, rider: Entity)
    requires
        old(store)@.wf(),
    ensures
        final(store)@.wf(),
        unmount_step(old(store)@, final(store)@, rider),
{
    let riding = if store.is_live(rider) {
        store.mounting[rider.index]
    } else {
        None
    };
    match riding {
        Some(m) => {
            match store.entity_from_uid(m.0) {
                Some(mount) => {
                    proof {
                        let pre = old(store)@;
                        let k = pre.uid_index(m.0);
                        assert(pre.has_uid(m.0));
                        assert(0 <= k < pre.len() && pre.uids[k] == m.0);
                        assert(pre.uids[mount.index as int] == m.0);
                        assert(mount.index as int == k);
                    }
                    if store.is_live(mount) && store.mount_state[mount.index].is_some() {
                        put_at(&mut store.mount_state, mount.index, MountState::Unmounted);
                    }
                },
                None => {},
            }
            let _ = take_at(&mut store.mounting, rider.index);
        },
        None => {},
    }
}

/// Outbound protocol message, sent by the surrounding layer on the general
/// channel after a successful possession: tells the client which entity it
/// now controls.
#[derive(Clone, Copy, PartialEq, Eq, Structural, Debug)]
pub enum ServerGeneral {
    SetPlayerEntity(Uid),
}

/// Why a possession attempt was aborted; each variant carries the stable id
/// the failure is about, so the caller can log it with context.
#[derive(Clone, Copy, PartialEq, Eq, Structural, Debug)]
pub enum PossessError {
    /// The stable id resolves to no entity slot at all.
    UnknownUid(Uid),
    /// The stable id resolves, but the entity has been destroyed.
    NotAlive(Uid),
    /// The target already owns a session handle (a connected player).
    AlreadyControlled(Uid),
    /// The possessor is missing the session handle or a channel component,
    /// so the mandatory transfer cannot complete; nothing is moved.
    MissingSession(Uid),
}

/// The session handle and all five channel components, which must move
/// together.
pub open spec fn mandatory_present(s: StoreV, i: int) -> bool {
    &&& s.client[i] is Some
    &&& s.general_stream[i] is Some
    &&& s.ping_stream[i] is Some
    &&& s.register_stream[i] is Some
    &&& s.character_screen_stream[i] is Some
    &&& s.in_game_stream[i] is Some
}

/// The possessee's loadout after a successful possession: a default loadout
/// is created if absent; then, if the supplied item is a tool, the current
/// active item moves to the secondary slot and the tool becomes the active
/// item, its first three abilities filling the ability slots in order and
/// the block/dodge slots left empty.
pub open spec fn possessed_loadout(lo: Option<Loadout>, tool: Item) -> Loadout {
    let base = match lo {
        Some(l) => l,
        None => Loadout { active_item: None, second_item: None, lantern: None },
    };
    match tool.kind {
        ItemKind::Tool(t) => Loadout {
            active_item: Some(
                ItemConfig {
                    item: tool,
                    ability1: ability_slot(t.abilities@, 0),
                    ability2: ability_slot(t.abilities@, 1),
                    ability3: ability_slot(t.abilities@, 2),
                    block_ability: None,
                    dodge_ability: None,
                },
            ),
            second_item: base.active_item,
            lantern: base.lantern,
        },
        _ => base,
    }
}

pub open spec fn ability_slot(abilities: Seq<Ability>, i: int) -> Option<Ability> {
    if i < abilities.len() {
        Some(abilities[i])
    } else {
        None
    }
}

/// Whether a possession attempt succeeds, and with which error it aborts
/// otherwise: both stable ids must resolve to currently-live entities
/// (generation check and store-membership check), the target must not
/// already own a session handle, and the possessor must hold the complete
/// mandatory set.
pub open spec fn possess_result(s: StoreV, possessor_uid: Uid, possessee_uid: Uid) -> Result<
    ServerGeneral,
    PossessError,
> {
    match (s.resolve(possessor_uid), s.resolve(possessee_uid)) {
        (None, _) => Err(PossessError::UnknownUid(possessor_uid)),
        (Some(_), None) => Err(PossessError::UnknownUid(possessee_uid)),
        (Some(possessor), Some(possessee)) => {
            if !(possessor.generation > 0 && s.live(possessor)) {
                Err(PossessError::NotAlive(possessor_uid))
            } else if !(possessee.generation > 0 && s.live(possessee)) {
                Err(PossessError::NotAlive(possessee_uid))
            } else if s.client[possessee.index as int] is Some {
                Err(PossessError::AlreadyControlled(possessee_uid))
            } else if !mandatory_present(s, possessor.index as int) {
                Err(PossessError::MissingSession(possessor_uid))
            } else {
                Ok(ServerGeneral::SetPlayerEntity(possessee_uid))
            }
        },
    }
}

/// How `handle_possess` transforms the store. On success: the mandatory set
/// and every optional component present on the possessor move onto the
/// possessee, the possessee's loadout gains the possession tool, its
/// autonomous-behavior component is removed, and the vacated shell's input
/// controller (if any) is reset to neutral. On any abort the store is
/// unchanged.
pub open spec fn possess_step(
    pre: StoreV,
    post: StoreV,
    possessor_uid: Uid,
    possessee_uid: Uid,
    tool: Item,
) -> bool {
    if possess_result(pre, possessor_uid, possessee_uid) is Ok {
        let ai = pre.uid_index(possessor_uid);
        let ei = pre.uid_index(possessee_uid);
        post == (StoreV {
            client: moved_opt(pre.client, ai, ei),
            general_stream: moved_opt(pre.general_stream, ai, ei),
            ping_stream: moved_opt(pre.ping_stream, ai, ei),
            register_stream: moved_opt(pre.register_stream, ai, ei),
            character_screen_stream: moved_opt(pre.character_screen_stream, ai, ei),
            in_game_stream: moved_opt(pre.in_game_stream, ai, ei),
            player: moved_opt(pre.player, ai, ei),
            region_subscription: moved_opt(pre.region_subscription, ai, ei),
            admin: moved_opt(pre.admin, ai, ei),
            waypoint: moved_opt(pre.waypoint, ai, ei),
            loadout: pre.loadout.update(ei, Some(possessed_loadout(pre.loadout[ei], tool))),
            agent: pre.agent.update(ei, None),
            controller: if pre.controller[ai] is Some {
                pre.controller.update(ai, Some(Controller { inputs: 0 }))
            } else {
                pre.controller
            },
            ..pre
        })
    } else {
        post == pre
    }
}

/// Transfer control residency from one entity to another. All checks run
/// before anything moves (stage-then-commit), so an abort leaves the store
/// exactly as it was; on success the returned message must be sent on the
/// possessee's now-attached general channel. The possession-tool item is
/// supplied by the caller, loaded from its well-known asset key.
pub fn handle_possess(
    store: &mut Store,
    possessor_uid: Uid,
    possessee_uid: Uid,
    tool: Item,
) -> (r: Result<ServerGeneral, PossessError>)
    requires
        old(store)@.wf(),
    ensures
        final(store)@.wf(),
        r == possess_result(old(store)@, possessor_uid, possessee_uid),
        possess_step(old(store)@, final(store)@, possessor_uid, possessee_uid, tool),
{
    let possessor = match store.entity_from_uid(possessor_uid) {
        Some(e) => e,
        None => {
            return Err(PossessError::UnknownUid(possessor_uid));
        },
    };
    let possessee = match store.entity_from_uid(possessee_uid) {
        Some(e) => e,
        None => {
            return Err(PossessError::UnknownUid(possessee_uid));
        },
    };
    // both dimensions checked: the handle's own generation tag and its
    // membership in the store
    if !(possessor.gen_alive() && store.is_live(possessor)) {
        return Err(PossessError::NotAlive(possessor_uid));
    }
    if !(possessee.gen_alive() && store.is_live(possessee)) {
        return Err(PossessError::NotAlive(possessee_uid));
    }
    let ai = possessor.index;
    let ei = possessee.index;
    if store.client[ei].is_some() {
        return Err(PossessError::AlreadyControlled(possessee_uid));
    }
    // stage: the whole mandatory set must be present before anything moves,
    // so a partial transfer can never split the session across two entities
    if !(store.client[ai].is_some() && store.general_stream[ai].is_some()
        && store.ping_stream[ai].is_some() && store.register_stream[ai].is_some()
        && store.character_screen_stream[ai].is_some() && store.in_game_stream[ai].is_some()) {
        return Err(PossessError::MissingSession(possessor_uid));
    }
    // commit: mandatory set
    transfer(&mut store.client, ai, ei);
    transfer(&mut store.general_stream, ai, ei);
    transfer(&mut store.ping_stream, ai, ei);
    transfer(&mut store.register_stream, ai, ei);
    transfer(&mut store.character_screen_stream, ai, ei);
    transfer(&mut store.in_game_stream, ai, ei);
    // optional components, each moved independently when present
    transfer(&mut store.player, ai, ei);
    transfer(&mut store.region_subscription, ai, ei);
    transfer(&mut store.admin, ai, ei);
    transfer(&mut store.waypoint, ai, ei);
    // install the possession tool into the possessee's loadout
    let base = match take_at(&mut store.loadout, ei) {
        Some(l) => l,
        None => Loadout::default(),
    };
    let new_loadout = match tool.kind {
        ItemKind::Tool(t) => {
            let a1 = if t.abilities.len() > 0 {
                Some(t.abilities[0])
            } else {
                None
            };
            let a2 = if t.abilities.len() > 1 {
                Some(t.abilities[1])
            } else {
                None
            };
            let a3 = if t.abilities.len() > 2 {
                Some(t.abilities[2])
            } else {
                None
            };
            Loadout {
                active_item: Some(
                    ItemConfig {
                        item: Item { kind: ItemKind::Tool(t) },
                        ability1: a1,
                        ability2: a2,
                        ability3: a3,
                        block_ability: None,
                        dodge_ability: None,
                    },
                ),
                second_item: base.active_item,
                lantern: base.lantern,
            }
        },
        _ => base,
    };
    put_at(&mut store.loadout, ei, new_loadout);
    // a session-controlled entity must not also be AI-driven
    let _ = take_at(&mut store.agent, ei);
    // reset the vacated shell's controller, discarding in-flight input
    if store.controller[ai].is_some() {
        store.controller[ai] = Some(Controller { inputs: 0 });
    }
    proof {
        let pre = old(store)@;
        let ai_ = pre.uid_index(possessor_uid);
        let ei_ = pre.uid_index(possessee_uid);
        assert(pre.has_uid(possessor_uid));
        assert(pre.has_uid(possessee_uid));
        assert(0 <= ai_ < pre.len() && pre.uids[ai_] == possessor_uid);
        assert(0 <= ei_ < pre.len() && pre.uids[ei_] == possessee_uid);
        assert(pre.uids[ai as int] == possessor_uid);
        assert(pre.uids[ei as int] == possessee_uid);
        assert(ai_ == ai as int);
        assert(ei_ == ei as int);
        assert(store@.loadout =~= pre.loadout.update(
            ei_,
            Some(possessed_loadout(pre.loadout[ei_], tool)),
        ));
        assert(store@ =~= (StoreV {
            client: moved_opt(pre.client, ai_, ei_),
            general_stream: moved_opt(pre.general_stream, ai_, ei_),
            ping_stream: moved_opt(pre.ping_stream, ai_, ei_),
            register_stream: moved_opt(pre.register_stream, ai_, ei_),
            character_screen_stream: moved_opt(pre.character_screen_stream, ai_, ei_),
            in_game_stream: moved_opt(pre.in_game_stream, ai_, ei_),
            player: moved_opt(pre.player, ai_, ei_),
            region_subscription: moved_opt(pre.region_subscription, ai_, ei_),
            admin: moved_opt(pre.admin, ai_, ei_),
            waypoint: moved_opt(pre.waypoint, ai_, ei_),
            loadout: pre.loadout.update(ei_, Some(possessed_loadout(pre.loadout[ei_], tool))),
            agent: pre.agent.update(ei_, None),
            controller: if pre.controller[ai_] is Some {
                pre.controller.update(ai_, Some(Controller { inputs: 0 }))
            } else {
                pre.controller
            },
            ..pre
        }));
    }
    Ok(ServerGeneral::SetPlayerEntity(possessee_uid))
}

} // verus!
