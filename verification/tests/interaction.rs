use residency::comp::{
    Ability, Agent, CharacterScreenStream, Client, Controller, GeneralStream, InGameStream, Item,
    ItemConfig, ItemKind, Lantern, LightEmitter, Loadout, MountState, Mounting, PingStream,
    Player, Pos, RegisterStream, Rgb, Uid, Waypoint,
};
use residency::interaction::{
    handle_lantern, handle_mount, handle_possess, handle_unmount, within_mounting_range,
    PossessError, ServerGeneral, LANTERN_FLICKER,
};
use residency::store::Store;

fn utility_item() -> Item {
    Item { kind: ItemKind::Utility }
}

fn lantern_item(strength: u32) -> Item {
    Item {
        kind: ItemKind::Lantern(Lantern { col: Rgb { r: 250, g: 220, b: 150 }, strength }),
    }
}

fn possess_tool() -> Item {
    Item {
        kind: ItemKind::Tool(residency::comp::Tool {
            abilities: vec![Ability(10), Ability(11), Ability(12), Ability(13)],
        }),
    }
}

fn mount_world() -> (Store, residency::comp::Entity, residency::comp::Entity) {
    let mut s = Store::new();
    let rider = s.create_entity(Uid(1));
    let mountee = s.create_entity(Uid(2));
    s.pos[rider.index] = Some(Pos { x: 0, y: 0, z: 0 });
    s.pos[mountee.index] = Some(Pos { x: 1, y: 0, z: 0 });
    s.mount_state[mountee.index] = Some(MountState::Unmounted);
    (s, rider, mountee)
}

#[test]
fn mount_pairs_both_sides() {
    let (mut s, rider, mountee) = mount_world();
    handle_mount(&mut s, rider, mountee);
    assert_eq!(s.mounting[rider.index], Some(Mounting(Uid(2))));
    assert_eq!(s.mount_state[mountee.index], Some(MountState::MountedBy(Uid(1))));
}

#[test]
fn mount_refused_when_already_riding() {
    let (mut s, rider, mountee) = mount_world();
    s.mounting[rider.index] = Some(Mounting(Uid(9)));
    let snapshot = s.clone();
    handle_mount(&mut s, rider, mountee);
    assert_eq!(s, snapshot);
}

#[test]
fn mount_refused_when_mountee_not_unmounted() {
    let (mut s, rider, mountee) = mount_world();
    s.mount_state[mountee.index] = None;
    let snapshot = s.clone();
    handle_mount(&mut s, rider, mountee);
    assert_eq!(s, snapshot);

    s.mount_state[mountee.index] = Some(MountState::MountedBy(Uid(7)));
    let snapshot = s.clone();
    handle_mount(&mut s, rider, mountee);
    assert_eq!(s, snapshot);
}

#[test]
fn mount_refused_without_position() {
    let (mut s, rider, mountee) = mount_world();
    s.pos[mountee.index] = None;
    let snapshot = s.clone();
    handle_mount(&mut s, rider, mountee);
    assert_eq!(s, snapshot);
}

#[test]
fn mount_succeeds_just_inside_range_boundary() {
    // squared distance 195, one below the squared maximum range of 196
    let (mut s, rider, mountee) = mount_world();
    s.pos[mountee.index] = Some(Pos { x: 13, y: 5, z: 1 });
    handle_mount(&mut s, rider, mountee);
    assert_eq!(s.mounting[rider.index], Some(Mounting(Uid(2))));
}

#[test]
fn mount_refused_just_outside_range_boundary() {
    // squared distance 197, one above the squared maximum range of 196
    let (mut s, rider, mountee) = mount_world();
    s.pos[mountee.index] = Some(Pos { x: 14, y: 0, z: 1 });
    let snapshot = s.clone();
    handle_mount(&mut s, rider, mountee);
    assert_eq!(s, snapshot);
}

#[test]
fn range_check_is_strict_and_fails_closed() {
    let a = Pos { x: 0, y: 0, z: 0 };
    assert!(within_mounting_range(Some(a), Some(Pos { x: 13, y: 0, z: 0 })));
    assert!(!within_mounting_range(Some(a), Some(Pos { x: 14, y: 0, z: 0 })));
    assert!(!within_mounting_range(None, Some(a)));
    assert!(!within_mounting_range(Some(a), None));
}

#[test]
fn unmount_clears_both_sides() {
    let (mut s, rider, mountee) = mount_world();
    handle_mount(&mut s, rider, mountee);
    handle_unmount(&mut s, rider);
    assert_eq!(s.mounting[rider.index], None);
    assert_eq!(s.mount_state[mountee.index], Some(MountState::Unmounted));
}

#[test]
fn unmount_clears_rider_even_when_mount_is_gone() {
    let (mut s, rider, mountee) = mount_world();
    handle_mount(&mut s, rider, mountee);
    s.destroy_entity(mountee);
    handle_unmount(&mut s, rider);
    assert_eq!(s.mounting[rider.index], None);
    // the destroyed mount's slot is left as it was
    assert_eq!(s.mount_state[mountee.index], Some(MountState::MountedBy(Uid(1))));
}

#[test]
fn unmount_without_riding_is_noop() {
    let (mut s, rider, _mountee) = mount_world();
    let snapshot = s.clone();
    handle_unmount(&mut s, rider);
    assert_eq!(s, snapshot);
}

fn possess_world() -> (Store, residency::comp::Entity, residency::comp::Entity) {
    let mut s = Store::new();
    let possessor = s.create_entity(Uid(1));
    let possessee = s.create_entity(Uid(2));
    s.client[possessor.index] = Some(Client { token: 77 });
    s.general_stream[possessor.index] = Some(GeneralStream { channel: 1 });
    s.ping_stream[possessor.index] = Some(PingStream { channel: 2 });
    s.register_stream[possessor.index] = Some(RegisterStream { channel: 3 });
    s.character_screen_stream[possessor.index] = Some(CharacterScreenStream { channel: 4 });
    s.in_game_stream[possessor.index] = Some(InGameStream { channel: 5 });
    s.controller[possessor.index] = Some(Controller { inputs: 42 });
    s.agent[possessee.index] = Some(Agent);
    (s, possessor, possessee)
}

#[test]
fn possess_moves_session_and_optional_components() {
    let (mut s, possessor, possessee) = possess_world();
    s.player[possessor.index] = Some(Player { alias_id: 9 });
    s.waypoint[possessor.index] = Some(Waypoint { pos: Pos { x: 1, y: 2, z: 3 } });
    let old_active = ItemConfig {
        item: utility_item(),
        ability1: None,
        ability2: None,
        ability3: None,
        block_ability: None,
        dodge_ability: None,
    };
    s.loadout[possessee.index] = Some(Loadout {
        active_item: Some(old_active.clone()),
        second_item: None,
        lantern: Some(lantern_item(900)),
    });
    let tool = possess_tool();

    let r = handle_possess(&mut s, Uid(1), Uid(2), tool.clone());
    assert_eq!(r, Ok(ServerGeneral::SetPlayerEntity(Uid(2))));

    // the possessor is a bare shell with a reset controller
    assert_eq!(s.client[possessor.index], None);
    assert_eq!(s.general_stream[possessor.index], None);
    assert_eq!(s.ping_stream[possessor.index], None);
    assert_eq!(s.register_stream[possessor.index], None);
    assert_eq!(s.character_screen_stream[possessor.index], None);
    assert_eq!(s.in_game_stream[possessor.index], None);
    assert_eq!(s.player[possessor.index], None);
    assert_eq!(s.waypoint[possessor.index], None);
    assert_eq!(s.controller[possessor.index], Some(Controller { inputs: 0 }));

    // the possessee owns the whole session and the optional components
    assert_eq!(s.client[possessee.index], Some(Client { token: 77 }));
    assert_eq!(s.general_stream[possessee.index], Some(GeneralStream { channel: 1 }));
    assert_eq!(s.ping_stream[possessee.index], Some(PingStream { channel: 2 }));
    assert_eq!(s.register_stream[possessee.index], Some(RegisterStream { channel: 3 }));
    assert_eq!(
        s.character_screen_stream[possessee.index],
        Some(CharacterScreenStream { channel: 4 })
    );
    assert_eq!(s.in_game_stream[possessee.index], Some(InGameStream { channel: 5 }));
    assert_eq!(s.player[possessee.index], Some(Player { alias_id: 9 }));
    assert_eq!(s.waypoint[possessee.index], Some(Waypoint { pos: Pos { x: 1, y: 2, z: 3 } }));
    assert_eq!(s.agent[possessee.index], None);

    // the tool is the active item; the former active item moved to secondary
    let lo = s.loadout[possessee.index].clone().unwrap();
    let active = lo.active_item.unwrap();
    assert_eq!(active.item, tool);
    assert_eq!(active.ability1, Some(Ability(10)));
    assert_eq!(active.ability2, Some(Ability(11)));
    assert_eq!(active.ability3, Some(Ability(12)));
    assert_eq!(active.block_ability, None);
    assert_eq!(active.dodge_ability, None);
    assert_eq!(lo.second_item, Some(old_active));
    assert_eq!(lo.lantern, Some(lantern_item(900)));
}

#[test]
fn possess_creates_default_loadout_when_absent() {
    let (mut s, _possessor, possessee) = possess_world();
    let r = handle_possess(&mut s, Uid(1), Uid(2), possess_tool());
    assert!(r.is_ok());
    let lo = s.loadout[possessee.index].clone().unwrap();
    assert!(lo.active_item.is_some());
    assert_eq!(lo.second_item, None);
    assert_eq!(lo.lantern, None);
}

#[test]
fn possess_with_non_tool_item_installs_nothing() {
    let (mut s, _possessor, possessee) = possess_world();
    let r = handle_possess(&mut s, Uid(1), Uid(2), utility_item());
    assert!(r.is_ok());
    let lo = s.loadout[possessee.index].clone().unwrap();
    assert_eq!(lo.active_item, None);
    assert_eq!(lo.second_item, None);
}

#[test]
fn possess_rejects_connected_target() {
    let (mut s, _possessor, possessee) = possess_world();
    s.client[possessee.index] = Some(Client { token: 5 });
    let snapshot = s.clone();
    let r = handle_possess(&mut s, Uid(1), Uid(2), possess_tool());
    assert_eq!(r, Err(PossessError::AlreadyControlled(Uid(2))));
    assert_eq!(s, snapshot);
}

#[test]
fn possess_rejects_destroyed_possessor() {
    let (mut s, possessor, _possessee) = possess_world();
    s.destroy_entity(possessor);
    let snapshot = s.clone();
    let r = handle_possess(&mut s, Uid(1), Uid(2), possess_tool());
    assert_eq!(r, Err(PossessError::NotAlive(Uid(1))));
    assert_eq!(s, snapshot);
}

#[test]
fn possess_rejects_unknown_stable_id() {
    let (mut s, _possessor, _possessee) = possess_world();
    let snapshot = s.clone();
    let r = handle_possess(&mut s, Uid(99), Uid(2), possess_tool());
    assert_eq!(r, Err(PossessError::UnknownUid(Uid(99))));
    assert_eq!(s, snapshot);
    let r = handle_possess(&mut s, Uid(1), Uid(98), possess_tool());
    assert_eq!(r, Err(PossessError::UnknownUid(Uid(98))));
    assert_eq!(s, snapshot);
}

#[test]
fn possess_rejects_incomplete_session() {
    let (mut s, possessor, _possessee) = possess_world();
    s.ping_stream[possessor.index] = None;
    let snapshot = s.clone();
    let r = handle_possess(&mut s, Uid(1), Uid(2), possess_tool());
    assert_eq!(r, Err(PossessError::MissingSession(Uid(1))));
    assert_eq!(s, snapshot);
}

fn lantern_world() -> (Store, residency::comp::Entity) {
    let mut s = Store::new();
    let e = s.create_entity(Uid(1));
    s.loadout[e.index] = Some(Loadout {
        active_item: None,
        second_item: None,
        lantern: Some(lantern_item(800)),
    });
    (s, e)
}

#[test]
fn lantern_turns_on_from_equipped_item() {
    let (mut s, e) = lantern_world();
    handle_lantern(&mut s, e, true);
    assert_eq!(
        s.light_emitter[e.index],
        Some(LightEmitter {
            col: Rgb { r: 250, g: 220, b: 150 },
            strength: 800,
            flicker: LANTERN_FLICKER,
            animated: true,
        })
    );
}

#[test]
fn lantern_enable_twice_is_noop() {
    let (mut s, e) = lantern_world();
    handle_lantern(&mut s, e, true);
    let snapshot = s.clone();
    handle_lantern(&mut s, e, true);
    assert_eq!(s, snapshot);
}

#[test]
fn lantern_disable_removes_and_is_idempotent() {
    let (mut s, e) = lantern_world();
    handle_lantern(&mut s, e, true);
    handle_lantern(&mut s, e, false);
    assert_eq!(s.light_emitter[e.index], None);
    let snapshot = s.clone();
    handle_lantern(&mut s, e, false);
    assert_eq!(s, snapshot);
}

#[test]
fn lantern_needs_an_item_of_the_lantern_kind() {
    let mut s = Store::new();
    let e = s.create_entity(Uid(1));
    let snapshot = s.clone();
    handle_lantern(&mut s, e, true);
    assert_eq!(s, snapshot);

    s.loadout[e.index] = Some(Loadout {
        active_item: None,
        second_item: None,
        lantern: Some(utility_item()),
    });
    let snapshot = s.clone();
    handle_lantern(&mut s, e, true);
    assert_eq!(s, snapshot);
}

#[test]
fn stable_id_resolution_survives_destruction() {
    let mut s = Store::new();
    let e = s.create_entity(Uid(4));
    assert_eq!(s.uid_from_entity(e), Some(Uid(4)));
    s.destroy_entity(e);
    // the id still resolves, but to a handle that fails the liveness checks
    let stale = s.entity_from_uid(Uid(4)).unwrap();
    assert!(!s.is_live(stale));
    assert_eq!(s.uid_from_entity(e), None);
    assert_eq!(s.entity_from_uid(Uid(5)), None);
}

#[test]
fn well_formedness_check_catches_bad_stores() {
    let mut s = Store::new();
    let _ = s.create_entity(Uid(1));
    let _ = s.create_entity(Uid(2));
    assert!(s.is_well_formed());

    let mut dup = s.clone();
    dup.uids[1] = Uid(1);
    assert!(!dup.is_well_formed());

    let mut short = s.clone();
    short.pos.pop();
    assert!(!short.is_well_formed());

    let mut zero = s.clone();
    zero.gens[0] = 0;
    assert!(!zero.is_well_formed());
}
