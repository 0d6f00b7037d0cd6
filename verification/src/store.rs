//! The component store: a table per component kind, all keyed by the slot
//! index of a transient entity handle, plus the stable-id mapping and the
//! liveness checks the handlers rely on.
//!
//! A slot's generation is positive while the entity is alive and is negated
//! on destruction; the stable id of a slot never changes, so resolving a
//! stable id can hand back a handle to an already-destroyed entity, which the
//! callers' liveness checks then reject.

use vstd::prelude::*;

use crate::comp::{
    Admin, Agent, CharacterScreenStream, Client, Controller, Entity, GeneralStream, InGameStream,
    LightEmitter, Loadout, MountState, Mounting, PingStream, Player, Pos, RegionSubscription,
    RegisterStream, Uid, Waypoint,
};

verus! {

/// Mathematical model of the store: one sequence per table.
#[verifier::ext_equal]
pub ghost struct StoreV {
    pub gens: Seq<i64>,
    pub uids: Seq<Uid>,
    pub pos: Seq<Option<Pos>>,
    pub mount_state: Seq<Option<MountState>>,
    pub mounting: Seq<Option<Mounting>>,
    pub client: Seq<Option<Client>>,
    pub general_stream: Seq<Option<GeneralStream>>,
    pub ping_stream: Seq<Option<PingStream>>,
    pub register_stream: Seq<Option<RegisterStream>>,
    pub character_screen_stream: Seq<Option<CharacterScreenStream>>,
    pub in_game_stream: Seq<Option<InGameStream>>,
    pub player: Seq<Option<Player>>,
    pub region_subscription: Seq<Option<RegionSubscription>>,
    pub admin: Seq<Option<Admin>>,
    pub waypoint: Seq<Option<Waypoint>>,
    pub light_emitter: Seq<Option<LightEmitter>>,
    pub loadout: Seq<Option<Loadout>>,
    pub agent: Seq<Option<Agent>>,
    pub controller: Seq<Option<Controller>>,
}

impl StoreV {
    pub open spec fn len(self) -> int {
        self.gens.len() as int
    }

    /// All tables cover the same slots, no slot has a zero generation, and
    /// stable ids are unique across slots (dead ones included, so a stable id
    /// never silently starts denoting a different entity).
    pub open spec fn wf(self) -> bool {
        &&& self.uids.len() == self.len()
        &&& self.pos.len() == self.len()
        &&& self.mount_state.len() == self.len()
        &&& self.mounting.len() == self.len()
        &&& self.client.len() == self.len()
        &&& self.general_stream.len() == self.len()
        &&& self.ping_stream.len() == self.len()
        &&& self.register_stream.len() == self.len()
        &&& self.character_screen_stream.len() == self.len()
        &&& self.in_game_stream.len() == self.len()
        &&& self.player.len() == self.len()
        &&& self.region_subscription.len() == self.len()
        &&& self.admin.len() == self.len()
        &&& self.waypoint.len() == self.len()
        &&& self.light_emitter.len() == self.len()
        &&& self.loadout.len() == self.len()
        &&& self.agent.len() == self.len()
        &&& self.controller.len() == self.len()
        &&& forall|i: int| 0 <= i < self.len() ==> #[trigger] self.gens[i] != 0
        &&& forall|i: int, j: int|
            0 <= i < self.len() && 0 <= j < self.len() && i != j ==> #[trigger] self.uids[i]
                != #[trigger] self.uids[j]
    }

    /// A handle is live when its generation tag is positive and still matches
    /// the slot's current generation (membership check).
    pub open spec fn live(self, e: Entity) -> bool {
        &&& e.index < self.len()
        &&& e.generation > 0
        &&& self.gens[e.index as int] == e.generation
    }

    /// Some slot (live or dead) carries this stable id.
    pub open spec fn has_uid(self, uid: Uid) -> bool {
        exists|i: int| 0 <= i < self.len() && self.uids[i] == uid
    }

    /// The slot carrying this stable id; well-defined under `wf` whenever
    /// `has_uid` holds.
    pub open spec fn uid_index(self, uid: Uid) -> int {
        choose|i: int| 0 <= i < self.len() && self.uids[i] == uid
    }

    /// Stable-id to transient-handle resolution: hands back the slot's
    /// current handle, which is dead if the entity was destroyed.
    pub open spec fn resolve(self, uid: Uid) -> Option<Entity> {
        if self.has_uid(uid) {
            Some(
                Entity {
                    index: self.uid_index(uid) as usize,
                    generation: self.gens[self.uid_index(uid)],
                },
            )
        } else {
            None
        }
    }
}

/// Read a component of a (possibly dead) handle: a dead handle reads as
/// absent, the way a per-kind component table treats stale handles.
pub open spec fn table_read<T>(s: StoreV, table: Seq<Option<T>>, e: Entity) -> Option<T> {
    if s.live(e) {
        table[e.index as int]
    } else {
        None
    }
}

/// The table after a component is moved from slot `from` to slot `to`
/// (best-effort: absence at `from` leaves the table unchanged; any component
/// already at `to` is replaced).
pub open spec fn moved_opt<T>(t: Seq<Option<T>>, from: int, to: int) -> Seq<Option<T>> {
    if t[from] is Some {
        t.update(from, None).update(to, t[from])
    } else {
        t
    }
}

/// The entity store. Fields are public so that surrounding (unverified) code
/// can populate worlds directly; all verified mutation goes through the
/// handlers, which preserve `wf`.
#[derive(Clone, PartialEq, Debug)]
pub struct Store {
    pub gens: Vec<i64>,
    pub uids: Vec<Uid>,
    pub pos: Vec<Option<Pos>>,
    pub mount_state: Vec<Option<MountState>>,
    pub mounting: Vec<Option<Mounting>>,
    pub client: Vec<Option<Client>>,
    pub general_stream: Vec<Option<GeneralStream>>,
    pub ping_stream: Vec<Option<PingStream>>,
    pub register_stream: Vec<Option<RegisterStream>>,
    pub character_screen_stream: Vec<Option<CharacterScreenStream>>,
    pub in_game_stream: Vec<Option<InGameStream>>,
    pub player: Vec<Option<Player>>,
    pub region_subscription: Vec<Option<RegionSubscription>>,
    pub admin: Vec<Option<Admin>>,
    pub waypoint: Vec<Option<Waypoint>>,
    pub light_emitter: Vec<Option<LightEmitter>>,
    pub loadout: Vec<Option<Loadout>>,
    pub agent: Vec<Option<Agent>>,
    pub controller: Vec<Option<Controller>>,
}

impl View for Store {
    type V = StoreV;

    open spec fn view(&self) -> StoreV {
        StoreV {
            gens: self.gens@,
            uids: self.uids@,
            pos: self.pos@,
            mount_state: self.mount_state@,
            mounting: self.mounting@,
            client: self.client@,
            general_stream: self.general_stream@,
            ping_stream: self.ping_stream@,
            register_stream: self.register_stream@,
            character_screen_stream: self.character_screen_stream@,
            in_game_stream: self.in_game_stream@,
            player: self.player@,
            region_subscription: self.region_subscription@,
            admin: self.admin@,
            waypoint: self.waypoint@,
            light_emitter: self.light_emitter@,
            loadout: self.loadout@,
            agent: self.agent@,
            controller: self.controller@,
        }
    }
}

impl Store {
    pub fn new() -> (s: Store)
        ensures
            s@.wf(),
            s@.len() == 0,
    {
        Store {
            gens: Vec::new(),
            uids: Vec::new(),
            pos: Vec::new(),
            mount_state: Vec::new(),
            mounting: Vec::new(),
            client: Vec::new(),
            general_stream: Vec::new(),
            ping_stream: Vec::new(),
            register_stream: Vec::new(),
            character_screen_stream: Vec::new(),
            in_game_stream: Vec::new(),
            player: Vec::new(),
            region_subscription: Vec::new(),
            admin: Vec::new(),
            waypoint: Vec::new(),
            light_emitter: Vec::new(),
            loadout: Vec::new(),
            agent: Vec::new(),
            controller: Vec::new(),
        }
    }

    /// Create a fresh entity with the given (unused) stable id; every
    /// component table gains an empty slot for it.
    pub fn create_entity(&mut self, uid: Uid) -> (e: Entity)
        requires
            old(self)@.wf(),
            !old(self)@.has_uid(uid),
        ensures
            final(self)@.wf(),
            final(self)@.live(e),
            e.index == old(self)@.len(),
            e.generation == 1,
            final(self)@.gens == old(self)@.gens.push(1),
            final(self)@.uids == old(self)@.uids.push(uid),
            final(self)@.pos == old(self)@.pos.push(None),
            final(self)@.mount_state == old(self)@.mount_state.push(None),
            final(self)@.mounting == old(self)@.mounting.push(None),
            final(self)@.client == old(self)@.client.push(None),
            final(self)@.general_stream == old(self)@.general_stream.push(None),
            final(self)@.ping_stream == old(self)@.ping_stream.push(None),
            final(self)@.register_stream == old(self)@.register_stream.push(None),
            final(self)@.character_screen_stream == old(self)@.character_screen_stream.push(None),
            final(self)@.in_game_stream == old(self)@.in_game_stream.push(None),
            final(self)@.player == old(self)@.player.push(None),
            final(self)@.region_subscription == old(self)@.region_subscription.push(None),
            final(self)@.admin == old(self)@.admin.push(None),
            final(self)@.waypoint == old(self)@.waypoint.push(None),
            final(self)@.light_emitter == old(self)@.light_emitter.push(None),
            final(self)@.loadout == old(self)@.loadout.push(None),
            final(self)@.agent == old(self)@.agent.push(None),
            final(self)@.controller == old(self)@.controller.push(None),
    {
        let index = self.gens.len();
        self.gens.push(1);
        self.uids.push(uid);
        self.pos.push(None);
        self.mount_state.push(None);
        self.mounting.push(None);
        self.client.push(None);
        self.general_stream.push(None);
        self.ping_stream.push(None);
        self.register_stream.push(None);
        self.character_screen_stream.push(None);
        self.in_game_stream.push(None);
        self.player.push(None);
        self.region_subscription.push(None);
        self.admin.push(None);
        self.waypoint.push(None);
        self.light_emitter.push(None);
        self.loadout.push(None);
        self.agent.push(None);
        self.controller.push(None);
        proof {
            assert forall|i: int, j: int|
                0 <= i < self@.len() && 0 <= j < self@.len() && i != j implies #[trigger] self@
                .uids[i] != #[trigger] self@.uids[j] by {
                if i == old(self)@.len() {
                    assert(self@.uids[j] == old(self)@.uids[j]);
                } else if j == old(self)@.len() {
                    assert(self@.uids[i] == old(self)@.uids[i]);
                }
            }
        }
        Entity { index, generation: 1 }
    }

    /// Destroy a live entity: its slot's generation is negated, so every
    /// handle to it (and every handle later resolved from its stable id)
    /// fails the liveness checks. Component contents are left in place; they
    /// are unreachable through dead handles. Destroying through a dead or
    /// stale handle changes nothing.
    pub fn destroy_entity(&mut self, e: Entity)
        requires
            old(self)@.wf(),
        ensures
            final(self)@.wf(),
            old(self)@.live(e) ==> final(self)@ == (StoreV {
                gens: old(self)@.gens.update(e.index as int, (-e.generation) as i64),
                ..old(self)@
            }),
            !old(self)@.live(e) ==> final(self)@ == old(self)@,
    {
        if e.index < self.gens.len() && e.generation > 0 && self.gens[e.index] == e.generation {
            self.gens[e.index] = -e.generation;
        }
    }

    /// Liveness predicate on a transient handle: generation check and
    /// store-membership check together.
    pub fn is_live(&self, e: Entity) -> (b: bool)
        ensures
            b == self@.live(e),
    {
        e.index < self.gens.len() && e.generation > 0 && self.gens[e.index] == e.generation
    }

    /// Runtime check of the store invariant, for callers that assembled a
    /// store outside the verified operations: every table covers the same
    /// slots, no slot has a zero generation, and stable ids are unique.
    pub fn is_well_formed(&self) -> (b: bool)
        ensures
            b == self@.wf(),
    {
        let n = self.gens.len();
        if !(self.uids.len() == n && self.pos.len() == n && self.mount_state.len() == n
            && self.mounting.len() == n && self.client.len() == n
            && self.general_stream.len() == n && self.ping_stream.len() == n
            && self.register_stream.len() == n && self.character_screen_stream.len() == n
            && self.in_game_stream.len() == n && self.player.len() == n
            && self.region_subscription.len() == n && self.admin.len() == n
            && self.waypoint.len() == n && self.light_emitter.len() == n
            && self.loadout.len() == n && self.agent.len() == n && self.controller.len() == n) {
            return false;
        }
        let mut i: usize = 0;
        while i < n
            invariant
                n == self@.len(),
                i <= n,
                forall|k: int| 0 <= k < i ==> #[trigger] self@.gens[k] != 0,
            decreases n - i,
        {
            if self.gens[i] == 0 {
                return false;
            }
            i += 1;
        }
        let mut i: usize = 0;
        while i < n
            invariant
                n == self@.len(),
                self@.uids.len() == n,
                i <= n,
                forall|a: int, b2: int|
                    0 <= a < i && a < b2 < n ==> #[trigger] self@.uids[a] != #[trigger] self@
                        .uids[b2],
            decreases n - i,
        {
            let mut j: usize = i + 1;
            while j < n
                invariant
                    n == self@.len(),
                    self@.uids.len() == n,
                    i < n,
                    i < j <= n,
                    forall|a: int, b2: int|
                        0 <= a < i && a < b2 < n ==> #[trigger] self@.uids[a] != #[trigger] self@
                            .uids[b2],
                    forall|b2: int|
                        i < b2 < j ==> self@.uids[i as int] != #[trigger] self@.uids[b2],
                decreases n - j,
            {
                if self.uids[i] == self.uids[j] {
                    return false;
                }
                j += 1;
            }
            i += 1;
        }
        true
    }

    /// Resolve a stable id to the transient handle of the slot that carries
    /// it. The handle may be dead: the id of a destroyed entity still
    /// resolves, and the callers' liveness checks are what reject it.
    pub fn entity_from_uid(&self, uid: Uid) -> (r: Option<Entity>)
        requires
            self@.wf(),
        ensures
            r == self@.resolve(uid),
            r matches Some(e) ==> e.index < self@.len() && self@.uids[e.index as int] == uid
                && e.generation == self@.gens[e.index as int],
    {
        let n = self.uids.len();
        let mut i: usize = 0;
        while i < n
            invariant
                self@.wf(),
                n == self@.len(),
                i <= n,
                forall|j: int| 0 <= j < i ==> self@.uids[j] != uid,
            decreases n - i,
        {
            if self.uids[i] == uid {
                proof {
                    assert(self@.has_uid(uid));
                    let k = self@.uid_index(uid);
                    assert(self@.uids[k] == uid);
                    assert(k == i);
                }
                return Some(Entity { index: i, generation: self.gens[i] });
            }
            i += 1;
        }
        None
    }

    /// Resolve a transient handle to its stable id; succeeds exactly while
    /// the entity is alive.
    pub fn uid_from_entity(&self, e: Entity) -> (r: Option<Uid>)
        requires
            self@.wf(),
        ensures
            r == if self@.live(e) {
                Some(self@.uids[e.index as int])
            } else {
                None::<Uid>
            },
    {
        if self.is_live(e) {
            Some(self.uids[e.index])
        } else {
            None
        }
    }
}

/// Remove and return the component at slot `i`, leaving the slot empty.
pub fn take_at<T>(table: &mut Vec<Option<T>>, i: usize) -> (r: Option<T>)
    requires
        i < old(table)@.len(),
    ensures
        final(table)@ == old(table)@.update(i as int, None::<T>),
        r == old(table)@[i as int],
{
    let mut tmp: Option<T> = None;
    core::mem::swap(&mut tmp, &mut table[i]);
    tmp
}

/// Insert a component at slot `i`, replacing whatever was there.
pub fn put_at<T>(table: &mut Vec<Option<T>>, i: usize, v: T)
    requires
        i < old(table)@.len(),
    ensures
        final(table)@ == old(table)@.update(i as int, Some(v)),
{
    table[i] = Some(v);
}

/// Move the component at `from` (if any) onto `to`, replacing any component
/// already there; absence at `from` leaves the table unchanged.
pub fn transfer<T>(table: &mut Vec<Option<T>>, from: usize, to: usize)
    requires
        from < old(table)@.len(),
        to < old(table)@.len(),
    ensures
        final(table)@ == moved_opt(old(table)@, from as int, to as int),
{
    match take_at(table, from) {
        Some(v) => {
            put_at(table, to, v);
        },
        None => {
            proof {
                assert(final(table)@ =~= old(table)@);
            }
        },
    }
}

} // verus!
