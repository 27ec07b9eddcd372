//! Finding the ground under a character: the scan that gathers candidates
//! one shape cast at a time, the choice among them, and the test for being
//! grounded.

use vstd::prelude::*;
use crate::components::ControllerSettings;
use crate::fixed::{fx_sub, fx_sub_spec};
use crate::vector::Vec3;

verus! {

/// One collider that a shape cast along the negative up axis has hit.
#[derive(Clone, Copy, Debug, PartialEq, Eq)]
pub struct GroundCandidate {
    /// The identity of the body that was hit.
    pub id: u64,
    /// The distance along the cast at which the probe touches the collider.
    pub toi: i64,
    /// The angle between the contact normal and the up axis.
    pub slope: i64,
    /// Whether the probe was already inside the collider when the cast began.
    pub penetrating: bool,
    /// The linear velocity of the body that was hit, if it has one.
    pub velocity: Option<Vec3>,
}

impl GroundCandidate {
    /// Whether the candidate can serve as ground: the probe was not inside
    /// it, and it is no steeper than the settings allow.
    pub open spec fn qualifies_spec(self, settings: ControllerSettings) -> bool {
        !self.penetrating && self.slope <= settings.max_ground_angle
    }

    /// How far the character is above its float height over this candidate:
    /// the time of impact less the float distance.
    pub open spec fn float_offset_spec(self, settings: ControllerSettings) -> i64 {
        fx_sub_spec(self.toi, settings.float_distance)
    }

    /// The velocity of the body that was hit, zero where it has none.
    pub open spec fn ground_velocity_spec(self) -> Vec3 {
        match self.velocity {
            Some(v) => v,
            None => Vec3::zero_spec(),
        }
    }

    /// Whether the candidate can serve as ground: the probe was not inside
    /// it, and it is no steeper than the settings allow.
    pub fn qualifies(&self, settings: &ControllerSettings) -> (r: bool)
        ensures
            r == self.qualifies_spec(*settings),
    {
        !self.penetrating && self.slope <= settings.max_ground_angle
    }

    /// How far the character is above its float height over this candidate:
    /// the time of impact less the float distance.
    pub fn float_offset(&self, settings: &ControllerSettings) -> (r: i64)
        ensures
            r == self.float_offset_spec(*settings),
    {
        fx_sub(self.toi, settings.float_distance)
    }

    /// The velocity of the body that was hit, zero where it has none.
    pub fn ground_velocity(&self) -> (r: Vec3)
        ensures
            r == self.ground_velocity_spec(),
    {
        match self.velocity {
            Some(v) => v,
            None => Vec3::zero(),
        }
    }
}

/// `index` is the place of the first candidate that qualifies.
pub open spec fn is_first_qualifying(
    candidates: Seq<GroundCandidate>,
    settings: ControllerSettings,
    index: int,
) -> bool {
    &&& 0 <= index < candidates.len()
    &&& candidates[index].qualifies_spec(settings)
    &&& forall|j: int| 0 <= j < index ==> !(#[trigger] candidates[j]).qualifies_spec(settings)
}

/// The ground contact of a tick: the first candidate, in scan order, that
/// qualifies.
pub open spec fn selected_ground(
    candidates: Seq<GroundCandidate>,
    settings: ControllerSettings,
) -> Option<GroundCandidate> {
    if exists|i: int| is_first_qualifying(candidates, settings, i) {
        Some(candidates[choose|i: int| is_first_qualifying(candidates, settings, i)])
    } else {
        None
    }
}

/// Whether a character with this ground contact stands: there is a contact,
/// and its float offset lies between the two limits of the settings.
pub open spec fn grounded_spec(
    contact: Option<GroundCandidate>,
    settings: ControllerSettings,
) -> bool {
    match contact {
        Some(c) => settings.min_float_offset <= c.float_offset_spec(settings)
            <= settings.max_float_offset,
        None => false,
    }
}

/// Picks the ground contact from the candidates of a scan: the first that
/// qualifies, or none where none does.
pub fn select_ground(candidates: &Vec<GroundCandidate>, settings: &ControllerSettings) -> (r:
    Option<GroundCandidate>)
    ensures
        r == selected_ground(candidates@, *settings),
        match r {
            Some(c) => exists|i: int|
                is_first_qualifying(candidates@, *settings, i) && c == candidates@[i],
            None => forall|j: int|
                0 <= j < candidates@.len() ==> !(#[trigger] candidates@[j]).qualifies_spec(
                    *settings,
                ),
        },
{
    let mut i: usize = 0;
    while i < candidates.len()
        invariant
            i <= candidates@.len(),
            forall|j: int| 0 <= j < i ==> !(#[trigger] candidates@[j]).qualifies_spec(*settings),
        decreases candidates@.len() - i,
    {
        if candidates[i].qualifies(settings) {
            proof {
                assert(is_first_qualifying(candidates@, *settings, i as int));
                let chosen = choose|k: int| is_first_qualifying(candidates@, *settings, k);
                assert(is_first_qualifying(candidates@, *settings, chosen));
                assert(chosen == i);
            }
            return Some(candidates[i]);
        }
        i = i + 1;
    }
    proof {
        assert forall|k: int| !is_first_qualifying(candidates@, *settings, k) by {
            if 0 <= k < candidates@.len() {
                assert(!candidates@[k].qualifies_spec(*settings));
            }
        }
    }
    None
}

/// Whether a character with this ground contact stands.
pub fn is_grounded(contact: &Option<GroundCandidate>, settings: &ControllerSettings) -> (r: bool)
    ensures
        r == grounded_spec(*contact, *settings),
        r <==> contact is Some && settings.min_float_offset <= contact->0.float_offset_spec(
            *settings,
        ) <= settings.max_float_offset,
{
    match contact {
        Some(c) => {
            let offset: i64 = c.float_offset(settings);
            settings.min_float_offset <= offset && offset <= settings.max_float_offset
        },
        None => false,
    }
}

/// The list of candidates that a ground scan has gathered so far.
///
/// A shape cast reports only the nearest hit, which may not qualify as
/// ground. So the scan casts again and again, each time leaving out the
/// character and every collider found before, until a cast hits nothing.
/// The casts are the engine's; this type keeps the list and decides after
/// each cast whether another is due.
pub struct GroundScan {
    owner: u64,
    found: Vec<GroundCandidate>,
}

impl View for GroundScan {
    type V = Seq<GroundCandidate>;

    closed spec fn view(&self) -> Seq<GroundCandidate> {
        self.found@
    }
}

impl GroundScan {
    /// The identity of the character that scans.
    pub closed spec fn owner(self) -> u64 {
        self.owner
    }

    /// Whether a collider is left out of the next cast: it is the character
    /// itself, or it is in the list already.
    pub open spec fn excludes_spec(self, id: u64) -> bool {
        id == self.owner() || exists|i: int| 0 <= i < self@.len() && (#[trigger] self@[i]).id == id
    }

    /// The list's invariant: no entry is the character itself, and no
    /// collider is listed twice. Every list that `new` made holds it.
    pub open spec fn wf(self) -> bool {
        &&& forall|i: int| 0 <= i < self@.len() ==> (#[trigger] self@[i]).id != self.owner()
        &&& forall|i: int, j: int|
            0 <= i < j < self@.len() ==> (#[trigger] self@[i]).id != (#[trigger] self@[j]).id
    }

    /// The identities in the list, in scan order.
    pub open spec fn ids(self) -> Seq<u64> {
        self@.map_values(|c: GroundCandidate| c.id)
    }

    /// An empty list for the character `owner`.
    pub fn new(owner: u64) -> (r: GroundScan)
        ensures
            r@ == Seq::<GroundCandidate>::empty(),
            r.owner() == owner,
            r.wf(),
    {
        GroundScan { owner, found: Vec::new() }
    }

    /// Starts a scan for the character `owner`: the list is emptied, its
    /// storage kept for the new scan.
    pub fn restart(&mut self, owner: u64)
        ensures
            final(self)@ == Seq::<GroundCandidate>::empty(),
            final(self).owner() == owner,
            final(self).wf(),
    {
        self.found.clear();
        self.owner = owner;
    }

    /// How many candidates the scan has gathered.
    pub fn len(&self) -> (r: usize)
        ensures
            r == self@.len(),
    {
        self.found.len()
    }

    /// The candidates gathered so far, in scan order.
    pub fn candidates(&self) -> (r: &Vec<GroundCandidate>)
        ensures
            r@ == self@,
    {
        &self.found
    }

    /// Whether a collider is left out of the next cast.
    pub fn excludes(&self, id: u64) -> (r: bool)
        ensures
            r == self.excludes_spec(id),
    {
        if id == self.owner {
            return true;
        }
        let mut i: usize = 0;
        while i < self.found.len()
            invariant
                i <= self.found@.len(),
                forall|j: int| 0 <= j < i ==> (#[trigger] self.found@[j]).id != id,
            decreases self.found@.len() - i,
        {
            if self.found[i].id == id {
                return true;
            }
            i = i + 1;
        }
        false
    }

    /// Takes up the result of one cast and says whether to cast again.
    ///
    /// A hit on a collider that was not left out is appended, and another
    /// cast is due. No hit ends the scan. A hit on a collider that should
    /// have been left out ends the scan too, and is dropped.
    pub fn record(&mut self, hit: Option<GroundCandidate>) -> (more: bool)
        ensures
            old(self).wf() ==> final(self).wf(),
            final(self).owner() == old(self).owner(),
            more <==> hit is Some && !old(self).excludes_spec(hit->0.id),
            more ==> final(self)@ == old(self)@.push(hit->0),
            !more ==> final(self)@ == old(self)@,
    {
        match hit {
            Some(c) => {
                if self.excludes(c.id) {
                    false
                } else {
                    self.found.push(c);
                    true
                }
            },
            None => false,
        }
    }

    /// A scan among finitely many colliders ends: its list never holds more
    /// entries than there are colliders besides the character itself, and
    /// each cast that does not end the scan adds one.
    pub proof fn lemma_scan_bounded(self, colliders: Set<u64>)
        requires
            self.wf(),
            colliders.finite(),
            forall|i: int| 0 <= i < self@.len() ==> colliders.contains((#[trigger] self@[i]).id),
        ensures
            self@.len() <= colliders.remove(self.owner()).len(),
            self@.len() <= colliders.len(),
    {
        let ids = self.ids();
        assert(ids.len() == self@.len());
        assert(ids.no_duplicates()) by {
            assert forall|i: int, j: int| 0 <= i < ids.len() && 0 <= j < ids.len() && i != j
                implies ids[i] != ids[j] by {
                if i < j {
                    assert(self@[i].id != self@[j].id);
                } else {
                    assert(self@[j].id != self@[i].id);
                }
            }
        }
        ids.unique_seq_to_set();
        let others = colliders.remove(self.owner());
        assert(ids.to_set().subset_of(others)) by {
            assert forall|id: u64| ids.to_set().contains(id) implies others.contains(id) by {
                let i = choose|i: int| 0 <= i < ids.len() && ids[i] == id;
                assert(self@[i].id == id);
            }
        }
        vstd::set_lib::lemma_len_subset(ids.to_set(), others);
        vstd::set_lib::lemma_len_subset(others, colliders);
    }

    /// Each hit that a scan takes up leaves one collider fewer to be found:
    /// the list after it holds the invariant, and the number of
    /// colliders besides the character that are not yet in it has gone down
    /// by one and is not below zero.
    pub proof fn lemma_scan_progress(
        self,
        after: GroundScan,
        hit: GroundCandidate,
        colliders: Set<u64>,
    )
        requires
            self.wf(),
            colliders.finite(),
            forall|i: int| 0 <= i < self@.len() ==> colliders.contains((#[trigger] self@[i]).id),
            colliders.contains(hit.id),
            !self.excludes_spec(hit.id),
            after@ == self@.push(hit),
            after.owner() == self.owner(),
        ensures
            after.wf(),
            0 <= colliders.remove(self.owner()).len() - after@.len(),
            colliders.remove(self.owner()).len() - after@.len() == colliders.remove(
                self.owner(),
            ).len() - self@.len() - 1,
    {
        assert(after.wf()) by {
            assert forall|i: int| 0 <= i < after@.len() implies (#[trigger] after@[i]).id
                != after.owner() by {
                if i < self@.len() {
                    assert(after@[i] == self@[i]);
                }
            }
            assert forall|i: int, j: int| 0 <= i < j < after@.len() implies (#[trigger] after@[i]).id
                != (#[trigger] after@[j]).id by {
                assert(after@[i] == self@[i]);
                if j < self@.len() {
                    assert(after@[j] == self@[j]);
                }
            }
        }
        assert forall|i: int| 0 <= i < after@.len() implies colliders.contains(
            (#[trigger] after@[i]).id,
        ) by {
            if i < self@.len() {
                assert(after@[i] == self@[i]);
            }
        }
        after.lemma_scan_bounded(colliders);
    }
}

} // verus!
