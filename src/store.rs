//! The kernel's entity stores: generational arenas of collider rows and of
//! rigid-body rows, addressed by handles that go stale when their row is removed.

use vstd::prelude::*;
use rapier3d::data::{Arena, Index};
use crate::scalar::Real;
use crate::math::Isometry;
use crate::shape::Shape;

verus! {

/// The kernel's generational arena, `rapier3d::data::Arena`, held opaque: what
/// it holds is named by `collider_rows` and `body_rows` below.
#[verifier::external_type_specification]
#[verifier::external_body]
#[verifier::reject_recursive_types(T)]
pub struct ExArena<T>(Arena<T>);

/// A slot index and the generation of the row that was stored there.
#[derive(Clone, Copy, Debug, PartialEq, Eq, Structural)]
pub struct ColliderHandle {
    pub index: u32,
    pub generation: u32,
}

/// A slot index and the generation of the row that was stored there.
#[derive(Clone, Copy, Debug, PartialEq, Eq, Structural)]
pub struct RigidBodyHandle {
    pub index: u32,
    pub generation: u32,
}

/// The store that a handle failed to resolve in.
#[derive(Clone, Copy, Debug, PartialEq, Eq, Structural)]
pub enum StoreKind {
    Bodies,
    Colliders,
}

/// A handle whose row is no longer in its store.
#[derive(Clone, Copy, Debug, PartialEq, Eq, Structural)]
pub struct DanglingHandle {
    pub store: StoreKind,
    pub index: u32,
    pub generation: u32,
}

impl DanglingHandle {
    pub open spec fn spec_collider(h: ColliderHandle) -> DanglingHandle {
        DanglingHandle { store: StoreKind::Colliders, index: h.index, generation: h.generation }
    }

    pub open spec fn spec_body(h: RigidBodyHandle) -> DanglingHandle {
        DanglingHandle { store: StoreKind::Bodies, index: h.index, generation: h.generation }
    }

    /// The error for a collider handle that does not resolve.
    pub fn collider(h: ColliderHandle) -> (r: DanglingHandle)
        ensures
            r == DanglingHandle::spec_collider(h),
    {
        DanglingHandle { store: StoreKind::Colliders, index: h.index, generation: h.generation }
    }

    /// The error for a rigid-body handle that does not resolve.
    pub fn body(h: RigidBodyHandle) -> (r: DanglingHandle)
        ensures
            r == DanglingHandle::spec_body(h),
    {
        DanglingHandle { store: StoreKind::Bodies, index: h.index, generation: h.generation }
    }
}

/// A live collider, as the collider store holds it.
#[derive(Clone, Debug)]
pub struct ColliderRow {
    pub shape: Shape,
    pub density: Real,
    pub friction: Real,
    pub restitution: Real,
    pub position: Isometry,
    pub parent: RigidBodyHandle,
    pub is_sensor: bool,
}

/// A live rigid body, as the body store holds it.
#[derive(Clone, Copy, Debug, PartialEq, Eq, Structural)]
pub struct BodyRow {
    pub position: Isometry,
}

/// What a collider arena holds, by handle.
pub uninterp spec fn collider_rows(a: Arena<ColliderRow>) -> Map<ColliderHandle, ColliderRow>;

/// The generation counter of a collider arena: the generation that the next
/// inserted row gets. Each removal of a live row raises it by one.
pub uninterp spec fn collider_generation(a: Arena<ColliderRow>) -> u32;

/// What a rigid-body arena holds, by handle.
pub uninterp spec fn body_rows(a: Arena<BodyRow>) -> Map<RigidBodyHandle, BodyRow>;

/// The generation counter of a rigid-body arena.
pub uninterp spec fn body_generation(a: Arena<BodyRow>) -> u32;

/// Relies on `Arena::new`: a new arena holds no row and its counter is zero.
#[verifier::external_body]
fn new_collider_arena() -> (r: Arena<ColliderRow>)
    ensures
        collider_rows(r).dom() == Set::<ColliderHandle>::empty(),
        collider_generation(r) == 0,
{
    Arena::new()
}

/// Relies on `Arena::insert`: the row is stored in a free slot (or a new one)
/// under the arena's current generation, which no live row had in that slot;
/// no other row changes and the counter stays.
#[verifier::external_body]
fn insert_collider_row(a: &mut Arena<ColliderRow>, row: ColliderRow) -> (h: ColliderHandle)
    ensures
        !collider_rows(*old(a)).contains_key(h),
        collider_rows(*final(a)) == collider_rows(*old(a)).insert(h, row),
        h.generation == collider_generation(*old(a)),
        collider_generation(*final(a)) == collider_generation(*old(a)),
{
    let (index, generation) = a.insert(row).into_raw_parts();
    ColliderHandle { index, generation }
}

/// Relies on `Arena::get`: the row under the handle if its slot is occupied
/// with the handle's generation, nothing otherwise.
#[verifier::external_body]
fn get_collider_row(a: &Arena<ColliderRow>, h: ColliderHandle) -> (r: Option<&ColliderRow>)
    ensures
        r.is_some() == collider_rows(*a).contains_key(h),
        r.is_some() ==> *r.unwrap() == collider_rows(*a)[h],
{
    a.get(Index::from_raw_parts(h.index, h.generation))
}

/// Relies on `Arena::get_mut`: as `Arena::get`, and what is written through
/// the reference becomes the row under the handle; the counter stays.
#[verifier::external_body]
fn get_collider_row_mut(a: &mut Arena<ColliderRow>, h: ColliderHandle) -> (r: Option<&mut ColliderRow>)
    ensures
        r.is_some() == collider_rows(*old(a)).contains_key(h),
        r.is_some() ==> *r.unwrap() == collider_rows(*old(a))[h]
            && collider_rows(*final(a)) == collider_rows(*old(a)).insert(h, *final(r.unwrap())),
        r.is_none() ==> collider_rows(*final(a)) == collider_rows(*old(a)),
        collider_generation(*final(a)) == collider_generation(*old(a)),
{
    a.get_mut(Index::from_raw_parts(h.index, h.generation))
}

/// Relies on `Arena::remove`: takes the row under the handle out, if there is
/// one, raising the counter by one (`+= 1` on a `u32`, hence the bound), and
/// changes nothing otherwise.
#[verifier::external_body]
fn remove_collider_row(a: &mut Arena<ColliderRow>, h: ColliderHandle) -> (r: Option<ColliderRow>)
    requires
        collider_rows(*old(a)).contains_key(h) ==> collider_generation(*old(a)) < u32::MAX,
    ensures
        r.is_some() == collider_rows(*old(a)).contains_key(h),
        r.is_some() ==> r.unwrap() == collider_rows(*old(a))[h],
        collider_rows(*final(a)) == collider_rows(*old(a)).remove(h),
        r.is_some() ==> collider_generation(*final(a)) == collider_generation(*old(a)) + 1,
        r.is_none() ==> collider_generation(*final(a)) == collider_generation(*old(a)),
{
    a.remove(Index::from_raw_parts(h.index, h.generation))
}

/// Relies on `Arena::new`: a new arena holds no row and its counter is zero.
#[verifier::external_body]
fn new_body_arena() -> (r: Arena<BodyRow>)
    ensures
        body_rows(r).dom() == Set::<RigidBodyHandle>::empty(),
        body_generation(r) == 0,
{
    Arena::new()
}

/// Relies on `Arena::insert`: the row is stored in a free slot (or a new one)
/// under the arena's current generation, which no live row had in that slot;
/// no other row changes and the counter stays.
#[verifier::external_body]
fn insert_body_row(a: &mut Arena<BodyRow>, row: BodyRow) -> (h: RigidBodyHandle)
    ensures
        !body_rows(*old(a)).contains_key(h),
        body_rows(*final(a)) == body_rows(*old(a)).insert(h, row),
        h.generation == body_generation(*old(a)),
        body_generation(*final(a)) == body_generation(*old(a)),
{
    let (index, generation) = a.insert(row).into_raw_parts();
    RigidBodyHandle { index, generation }
}

/// Relies on `Arena::get`: the row under the handle if its slot is occupied
/// with the handle's generation, nothing otherwise.
#[verifier::external_body]
fn get_body_row(a: &Arena<BodyRow>, h: RigidBodyHandle) -> (r: Option<&BodyRow>)
    ensures
        r.is_some() == body_rows(*a).contains_key(h),
        r.is_some() ==> *r.unwrap() == body_rows(*a)[h],
{
    a.get(Index::from_raw_parts(h.index, h.generation))
}

/// Relies on `Arena::remove`: takes the row under the handle out, if there is
/// one, raising the counter by one (`+= 1` on a `u32`, hence the bound), and
/// changes nothing otherwise.
#[verifier::external_body]
fn remove_body_row(a: &mut Arena<BodyRow>, h: RigidBodyHandle) -> (r: Option<BodyRow>)
    requires
        body_rows(*old(a)).contains_key(h) ==> body_generation(*old(a)) < u32::MAX,
    ensures
        r.is_some() == body_rows(*old(a)).contains_key(h),
        r.is_some() ==> r.unwrap() == body_rows(*old(a))[h],
        body_rows(*final(a)) == body_rows(*old(a)).remove(h),
        r.is_some() ==> body_generation(*final(a)) == body_generation(*old(a)) + 1,
        r.is_none() ==> body_generation(*final(a)) == body_generation(*old(a)),
{
    a.remove(Index::from_raw_parts(h.index, h.generation))
}

/// Replacing the row under a live handle, by any row, keeps every live
/// handle's generation within the bound.
proof fn lemma_replace_keeps_bound(m: Map<ColliderHandle, ColliderRow>, h: ColliderHandle, bound: u32)
    requires
        m.contains_key(h),
        forall|k: ColliderHandle| #[trigger] m.contains_key(k) ==> k.generation <= bound,
    ensures
        forall|v: ColliderRow, k: ColliderHandle| #[trigger] m.insert(h, v).contains_key(k)
            ==> k.generation <= bound,
{
    assert forall|v: ColliderRow, k: ColliderHandle| #[trigger] m.insert(h, v).contains_key(k)
        implies k.generation <= bound by {
        assert(m.contains_key(k));
    }
}

/// A live row could not be removed: its store has used up every generation.
#[derive(Clone, Copy, Debug, PartialEq, Eq, Structural)]
pub struct GenerationsExhausted {
    pub store: StoreKind,
}

/// The collider store.
pub struct ColliderSet {
    arena: Arena<ColliderRow>,
    generation: u32,
}

impl View for ColliderSet {
    type V = Map<ColliderHandle, ColliderRow>;

    closed spec fn view(&self) -> Map<ColliderHandle, ColliderRow> {
        collider_rows(self.arena)
    }
}

impl ColliderSet {
    /// The generation that the next inserted row gets.
    pub closed spec fn next_generation(&self) -> u32 {
        self.generation
    }

    /// The counter mirrors the arena's, and every live handle carries a
    /// generation no greater than it.
    pub closed spec fn wf(&self) -> bool {
        &&& self.generation == collider_generation(self.arena)
        &&& forall|h: ColliderHandle| #[trigger] self@.contains_key(h) ==> h.generation <= self.generation
    }

    /// The handle is not live, and no later insertion can hand it out again:
    /// every new row gets at least the current generation.
    pub open spec fn retired(&self, h: ColliderHandle) -> bool {
        !self@.contains_key(h) && h.generation < self.next_generation()
    }

    /// An empty collider store.
    pub fn new() -> (r: ColliderSet)
        ensures
            r.wf(),
            r@.dom() == Set::<ColliderHandle>::empty(),
            r.next_generation() == 0,
    {
        ColliderSet { arena: new_collider_arena(), generation: 0 }
    }

    /// Stores a row under a fresh handle, which carries the current generation.
    pub fn insert_row(&mut self, row: ColliderRow) -> (h: ColliderHandle)
        requires
            old(self).wf(),
        ensures
            final(self).wf(),
            !old(self)@.contains_key(h),
            final(self)@ == old(self)@.insert(h, row),
            h.generation == old(self).next_generation(),
            final(self).next_generation() == old(self).next_generation(),
            forall|k: ColliderHandle| old(self).retired(k) ==> #[trigger] final(self).retired(k),
    {
        let h = insert_collider_row(&mut self.arena, row);
        assert forall|k: ColliderHandle| #[trigger] self@.contains_key(k) implies k.generation
            <= self.generation by {
            if k != h {
                assert(old(self)@.contains_key(k));
            }
        }
        h
    }

    /// The row under a handle, if it is live.
    pub fn get(&self, h: ColliderHandle) -> (r: Option<&ColliderRow>)
        ensures
            r.is_some() == self@.contains_key(h),
            r.is_some() ==> *r.unwrap() == self@[h],
    {
        get_collider_row(&self.arena, h)
    }

    /// Exclusive access to the row under a handle, if it is live.
    pub fn get_mut(&mut self, h: ColliderHandle) -> (r: Option<&mut ColliderRow>)
        requires
            old(self).wf(),
        ensures
            final(self).wf(),
            final(self).next_generation() == old(self).next_generation(),
            r.is_some() == old(self)@.contains_key(h),
            r.is_some() ==> *r.unwrap() == old(self)@[h]
                && final(self)@ == old(self)@.insert(h, *final(r.unwrap())),
            r.is_none() ==> final(self)@ == old(self)@,
    {
        proof {
            if self@.contains_key(h) {
                lemma_replace_keeps_bound(self@, h, self.generation);
            }
        }
        get_collider_row_mut(&mut self.arena, h)
    }

    /// Removes the row under a handle; the handle dangles from then on. Fails,
    /// changing nothing, on a live row once every generation has been used.
    pub fn remove(&mut self, h: ColliderHandle) -> (r: Result<Option<ColliderRow>, GenerationsExhausted>)
        requires
            old(self).wf(),
        ensures
            final(self).wf(),
            r.is_err() == (old(self)@.contains_key(h) && old(self).next_generation() == u32::MAX),
            r.is_err() ==> r == Err::<Option<ColliderRow>, GenerationsExhausted>(
                GenerationsExhausted { store: StoreKind::Colliders },
            ) && final(self)@ == old(self)@ && final(self).next_generation() == old(self).next_generation(),
            r.is_ok() ==> final(self)@ == old(self)@.remove(h),
            r.is_ok() && old(self)@.contains_key(h) ==> final(self).retired(h),
            r.is_ok() ==> (r.unwrap().is_some() == old(self)@.contains_key(h)),
            r.is_ok() && old(self)@.contains_key(h) ==> r.unwrap() == Some(old(self)@[h])
                && final(self).next_generation() == old(self).next_generation() + 1,
            r.is_ok() && !old(self)@.contains_key(h) ==> final(self).next_generation()
                == old(self).next_generation(),
            forall|k: ColliderHandle| old(self).retired(k) ==> #[trigger] final(self).retired(k),
    {
        if self.generation == u32::MAX && self.get(h).is_some() {
            return Err(GenerationsExhausted { store: StoreKind::Colliders });
        }
        let r = remove_collider_row(&mut self.arena, h);
        if r.is_some() {
            self.generation = self.generation + 1;
        }
        assert forall|k: ColliderHandle| #[trigger] self@.contains_key(k) implies k.generation
            <= self.generation by {
            assert(old(self)@.contains_key(k));
        }
        Ok(r)
    }
}

/// The rigid-body store.
pub struct RigidBodySet {
    arena: Arena<BodyRow>,
    generation: u32,
}

impl View for RigidBodySet {
    type V = Map<RigidBodyHandle, BodyRow>;

    closed spec fn view(&self) -> Map<RigidBodyHandle, BodyRow> {
        body_rows(self.arena)
    }
}

impl RigidBodySet {
    /// The generation that the next inserted row gets.
    pub closed spec fn next_generation(&self) -> u32 {
        self.generation
    }

    /// The counter mirrors the arena's, and every live handle carries a
    /// generation no greater than it.
    pub closed spec fn wf(&self) -> bool {
        &&& self.generation == body_generation(self.arena)
        &&& forall|h: RigidBodyHandle| #[trigger] self@.contains_key(h) ==> h.generation <= self.generation
    }

    /// The handle is not live, and no later insertion can hand it out again.
    pub open spec fn retired(&self, h: RigidBodyHandle) -> bool {
        !self@.contains_key(h) && h.generation < self.next_generation()
    }

    /// An empty rigid-body store.
    pub fn new() -> (r: RigidBodySet)
        ensures
            r.wf(),
            r@.dom() == Set::<RigidBodyHandle>::empty(),
            r.next_generation() == 0,
    {
        RigidBodySet { arena: new_body_arena(), generation: 0 }
    }

    /// Stores a row under a fresh handle, which carries the current generation.
    pub fn insert_row(&mut self, row: BodyRow) -> (h: RigidBodyHandle)
        requires
            old(self).wf(),
        ensures
            final(self).wf(),
            !old(self)@.contains_key(h),
            final(self)@ == old(self)@.insert(h, row),
            h.generation == old(self).next_generation(),
            final(self).next_generation() == old(self).next_generation(),
            forall|k: RigidBodyHandle| old(self).retired(k) ==> #[trigger] final(self).retired(k),
    {
        let h = insert_body_row(&mut self.arena, row);
        assert forall|k: RigidBodyHandle| #[trigger] self@.contains_key(k) implies k.generation
            <= self.generation by {
            if k != h {
                assert(old(self)@.contains_key(k));
            }
        }
        h
    }

    /// The row under a handle, if it is live.
    pub fn get(&self, h: RigidBodyHandle) -> (r: Option<&BodyRow>)
        ensures
            r.is_some() == self@.contains_key(h),
            r.is_some() ==> *r.unwrap() == self@[h],
    {
        get_body_row(&self.arena, h)
    }

    /// Removes the row under a handle; the handle dangles from then on. Fails,
    /// changing nothing, on a live row once every generation has been used.
    pub fn remove(&mut self, h: RigidBodyHandle) -> (r: Result<Option<BodyRow>, GenerationsExhausted>)
        requires
            old(self).wf(),
        ensures
            final(self).wf(),
            r.is_err() == (old(self)@.contains_key(h) && old(self).next_generation() == u32::MAX),
            r.is_err() ==> r == Err::<Option<BodyRow>, GenerationsExhausted>(
                GenerationsExhausted { store: StoreKind::Bodies },
            ) && final(self)@ == old(self)@ && final(self).next_generation() == old(self).next_generation(),
            r.is_ok() ==> final(self)@ == old(self)@.remove(h),
            r.is_ok() && old(self)@.contains_key(h) ==> final(self).retired(h),
            r.is_ok() ==> (r.unwrap().is_some() == old(self)@.contains_key(h)),
            r.is_ok() && old(self)@.contains_key(h) ==> r.unwrap() == Some(old(self)@[h])
                && final(self).next_generation() == old(self).next_generation() + 1,
            r.is_ok() && !old(self)@.contains_key(h) ==> final(self).next_generation()
                == old(self).next_generation(),
            forall|k: RigidBodyHandle| old(self).retired(k) ==> #[trigger] final(self).retired(k),
    {
        if self.generation == u32::MAX && self.get(h).is_some() {
            return Err(GenerationsExhausted { store: StoreKind::Bodies });
        }
        let r = remove_body_row(&mut self.arena, h);
        if r.is_some() {
            self.generation = self.generation + 1;
        }
        assert forall|k: RigidBodyHandle| #[trigger] self@.contains_key(k) implies k.generation
            <= self.generation by {
            assert(old(self)@.contains_key(k));
        }
        Ok(r)
    }
}

} // verus!
