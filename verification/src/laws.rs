//! Cross-operation properties of the subsystem, chiefly the bidirectional
//! consistency of the mount pairing: a riding component on a live rider and
//! the mount state of the live mount it names always point back at each
//! other, and every entry point preserves that invariant.

use vstd::prelude::*;

use crate::comp::{Entity, Item, MountState, Uid};
use crate::interaction::{
    can_mount, equipped_lantern, lantern_lit, lantern_step, lit_emitter, mount_step, possess_step,
    riding_uid, unmount_step,
};
use crate::store::{table_read, StoreV};

verus! {

/// Bidirectional consistency of the mount relation: whenever a live rider's
/// riding component names the stable id of a live slot, that slot's mount
/// state records exactly this rider.
pub open spec fn mount_pairing_ok(s: StoreV) -> bool {
    forall|r: int, m: int|
        #![trigger s.mounting[r], s.mount_state[m]]
        0 <= r < s.len() && 0 <= m < s.len() && s.gens[r] > 0 && s.gens[m] > 0 && riding_uid(
            s.mounting[r],
        ) == Some(s.uids[m]) ==> s.mount_state[m] == Some(MountState::MountedBy(s.uids[r]))
}

/// After a successful mount the two relation components point at each other:
/// the rider records the mountee's stable id and the mountee records the
/// rider's.
pub proof fn lemma_mount_links(pre: StoreV, post: StoreV, rider: Entity, mountee: Entity)
    requires
        pre.wf(),
        mount_step(pre, post, rider, mountee),
        can_mount(pre, rider, mountee),
    ensures
        riding_uid(post.mounting[rider.index as int]) == Some(post.uids[mountee.index as int]),
        post.mount_state[mountee.index as int] == Some(
            MountState::MountedBy(post.uids[rider.index as int]),
        ),
{
}

/// Mounting preserves the pairing invariant: the only new riding entry names
/// a mount whose state was exactly `Unmounted`, and both sides are written
/// together.
pub proof fn lemma_mount_preserves_pairing(
    pre: StoreV,
    post: StoreV,
    rider: Entity,
    mountee: Entity,
)
    requires
        pre.wf(),
        mount_pairing_ok(pre),
        mount_step(pre, post, rider, mountee),
    ensures
        mount_pairing_ok(post),
{
    if can_mount(pre, rider, mountee) {
        let ri = rider.index as int;
        let mi = mountee.index as int;
        assert(pre.live(rider) && pre.live(mountee));
        assert forall|r: int, m: int|
            0 <= r < post.len() && 0 <= m < post.len() && post.gens[r] > 0 && post.gens[m] > 0
                && riding_uid(#[trigger] post.mounting[r]) == Some(post.uids[m]) implies #[trigger]
        post.mount_state[m] == Some(MountState::MountedBy(post.uids[r])) by {
            if r == ri {
                assert(post.mounting[r] == Some(crate::comp::Mounting(pre.uids[mi])));
                assert(pre.uids[m] == pre.uids[mi]);
                assert(m == mi);
            } else if m == mi {
                // some other rider would already have been riding the mountee,
                // contradicting its Unmounted state
                assert(riding_uid(pre.mounting[r]) == Some(pre.uids[mi]));
                assert(pre.mount_state[mi] == Some(MountState::MountedBy(pre.uids[r])));
                assert(pre.mount_state[mi] == Some(MountState::Unmounted));
                assert(false);
            } else {
                assert(post.mounting[r] == pre.mounting[r]);
                assert(post.mount_state[m] == pre.mount_state[m]);
            }
        }
    }
}

/// Unmounting preserves the pairing invariant: the rider's riding entry goes
/// away, and the mount state it pointed at is set back to `Unmounted`, which
/// no remaining rider can reference (a mount has at most one rider).
pub proof fn lemma_unmount_preserves_pairing(pre: StoreV, post: StoreV, rider: Entity)
    requires
        pre.wf(),
        mount_pairing_ok(pre),
        unmount_step(pre, post, rider),
    ensures
        mount_pairing_ok(post),
{
    match table_read(pre, pre.mounting, rider) {
        None => {},
        Some(mg) => {
            let ri = rider.index as int;
            assert(pre.live(rider));
            assert forall|r: int, m: int|
                0 <= r < post.len() && 0 <= m < post.len() && post.gens[r] > 0 && post.gens[m] > 0
                    && riding_uid(#[trigger] post.mounting[r]) == Some(
                    post.uids[m],
                ) implies #[trigger] post.mount_state[m] == Some(
                MountState::MountedBy(post.uids[r]),
            ) by {
                // the rider's own entry is gone, so r is some other rider
                assert(r != ri);
                assert(post.mounting[r] == pre.mounting[r]);
                assert(riding_uid(pre.mounting[r]) == Some(pre.uids[m]));
                assert(pre.mount_state[m] == Some(MountState::MountedBy(pre.uids[r])));
                if pre.has_uid(mg.0) {
                    let k = pre.uid_index(mg.0);
                    assert(pre.uids[k] == mg.0);
                    if pre.gens[k] > 0 && pre.mount_state[k] is Some && m == k {
                        // r and the unmounting rider both ride slot k: the
                        // pairing forces their stable ids to agree, so they
                        // are the same slot, contradicting r != ri
                        assert(riding_uid(pre.mounting[ri]) == Some(pre.uids[k]));
                        assert(pre.mount_state[k] == Some(MountState::MountedBy(pre.uids[ri])));
                        assert(pre.uids[r] == pre.uids[ri]);
                        assert(false);
                    } else {
                        assert(post.mount_state[m] == pre.mount_state[m]);
                    }
                } else {
                    assert(post.mount_state[m] == pre.mount_state[m]);
                }
            }
        },
    }
}

/// Possession moves session, channel, and gameplay components but never
/// touches the mount relation, the slot generations, or the stable ids, so
/// the pairing invariant carries over.
pub proof fn lemma_possess_preserves_pairing(
    pre: StoreV,
    post: StoreV,
    possessor_uid: Uid,
    possessee_uid: Uid,
    tool: Item,
)
    requires
        mount_pairing_ok(pre),
        possess_step(pre, post, possessor_uid, possessee_uid, tool),
    ensures
        mount_pairing_ok(post),
{
    assert forall|r: int, m: int|
        0 <= r < post.len() && 0 <= m < post.len() && post.gens[r] > 0 && post.gens[m] > 0
            && riding_uid(#[trigger] post.mounting[r]) == Some(post.uids[m]) implies #[trigger]
    post.mount_state[m] == Some(MountState::MountedBy(post.uids[r])) by {
        assert(post.mounting[r] == pre.mounting[r]);
        assert(post.mount_state[m] == pre.mount_state[m]);
    }
}

/// The lantern synchronization only writes the light-emitter table, so the
/// pairing invariant carries over.
pub proof fn lemma_lantern_preserves_pairing(pre: StoreV, post: StoreV, e: Entity, enable: bool)
    requires
        mount_pairing_ok(pre),
        lantern_step(pre, post, e, enable),
    ensures
        mount_pairing_ok(post),
{
    assert forall|r: int, m: int|
        0 <= r < post.len() && 0 <= m < post.len() && post.gens[r] > 0 && post.gens[m] > 0
            && riding_uid(#[trigger] post.mounting[r]) == Some(post.uids[m]) implies #[trigger]
    post.mount_state[m] == Some(MountState::MountedBy(post.uids[r])) by {
        assert(post.mounting[r] == pre.mounting[r]);
        assert(post.mount_state[m] == pre.mount_state[m]);
    }
}

/// A mount is ridden by at most one rider at a time: under the pairing
/// invariant, two live riders whose riding components name the same live
/// mount are the same slot.
pub proof fn lemma_at_most_one_rider(s: StoreV, r1: int, r2: int, m: int)
    requires
        s.wf(),
        mount_pairing_ok(s),
        0 <= r1 < s.len(),
        0 <= r2 < s.len(),
        0 <= m < s.len(),
        s.gens[r1] > 0,
        s.gens[r2] > 0,
        s.gens[m] > 0,
        riding_uid(s.mounting[r1]) == Some(s.uids[m]),
        riding_uid(s.mounting[r2]) == Some(s.uids[m]),
    ensures
        r1 == r2,
{
    assert(s.mount_state[m] == Some(MountState::MountedBy(s.uids[r1])));
    assert(s.mount_state[m] == Some(MountState::MountedBy(s.uids[r2])));
    assert(s.uids[r1] == s.uids[r2]);
}

/// Toggling the lantern twice to the same state is the same as toggling it
/// once: the second call finds the requested state already in place (or
/// still cannot enable) and changes nothing.
pub proof fn lemma_lantern_idempotent(
    s0: StoreV,
    s1: StoreV,
    s2: StoreV,
    e: Entity,
    enable: bool,
)
    requires
        s0.wf(),
        lantern_step(s0, s1, e, enable),
        lantern_step(s1, s2, e, enable),
    ensures
        s2 == s1,
{
    let i = e.index as int;
    if lantern_lit(s0, e) == enable {
        assert(s2 == s1);
    } else if !enable {
        assert(!lantern_lit(s1, e));
    } else {
        match equipped_lantern(s0, e) {
            Some(l) => {
                assert(s1.light_emitter[i] == Some(lit_emitter(l)));
                if l.strength > 0 {
                    assert(lantern_lit(s1, e));
                } else {
                    assert(!lantern_lit(s1, e));
                    assert(equipped_lantern(s1, e) == Some(l));
                    assert(s2.light_emitter =~= s1.light_emitter);
                    assert(s2 =~= s1);
                }
            },
            None => {
                assert(s2 == s1);
            },
        }
    }
}

} // verus!

