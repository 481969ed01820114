use vstd::prelude::*;

use crate::handle::Handle;
use rapier2d::data::arena::Index;
use rapier2d::dynamics::ImpulseJointHandle;
use rapier2d::dynamics::RigidBodyHandle;
use rapier2d::geometry::ColliderHandle;

verus! {

/// Declares rapier's arena index, carried as an opaque value.
#[verifier::external_type_specification]
#[verifier::external_body]
pub struct ExIndex(Index);

/// Declares rapier's collider handle, carried as an opaque value.
#[verifier::external_type_specification]
#[verifier::external_body]
pub struct ExColliderHandle(ColliderHandle);

/// Declares rapier's rigid-body handle, carried as an opaque value.
#[verifier::external_type_specification]
#[verifier::external_body]
pub struct ExRigidBodyHandle(RigidBodyHandle);

/// Declares rapier's impulse-joint handle, carried as an opaque value.
#[verifier::external_type_specification]
#[verifier::external_body]
pub struct ExImpulseJointHandle(ImpulseJointHandle);

/// The (index, generation) pair that an arena index is made of.
pub uninterp spec fn index_parts(i: Index) -> (u32, u32);

/// The (index, generation) pair of a collider handle.
pub uninterp spec fn collider_parts(h: ColliderHandle) -> (u32, u32);

/// The (index, generation) pair of a rigid-body handle.
pub uninterp spec fn rigid_body_parts(h: RigidBodyHandle) -> (u32, u32);

/// The (index, generation) pair of an impulse-joint handle.
pub uninterp spec fn joint_parts(h: ImpulseJointHandle) -> (u32, u32);

/// Relies on `Index::from_raw_parts`, which stores the two parts as they are: an
/// index is made of exactly these two fields.
pub assume_specification[ Index::from_raw_parts ](index: u32, generation: u32) -> (r: Index)
    ensures
        index_parts(r) == (index, generation),
        forall|other: Index| index_parts(other) == (index, generation) ==> other == r,
;

/// Relies on `Index::into_raw_parts`, which hands the two stored parts back.
pub assume_specification[ Index::into_raw_parts ](i: Index) -> (r: (u32, u32))
    ensures
        r == index_parts(i),
;

/// Relies on `ColliderHandle::from_raw_parts`, which wraps an index built
/// from the two parts; the handle holds nothing else.
pub assume_specification[ ColliderHandle::from_raw_parts ](id: u32, generation: u32) -> (r: ColliderHandle)
    ensures
        collider_parts(r) == (id, generation),
        forall|other: ColliderHandle| collider_parts(other) == (id, generation) ==> other == r,
;

/// Relies on `ColliderHandle::into_raw_parts`, which hands back the parts of
/// the wrapped index.
pub assume_specification[ ColliderHandle::into_raw_parts ](h: ColliderHandle) -> (r: (u32, u32))
    ensures
        r == collider_parts(h),
;

/// Relies on `RigidBodyHandle::from_raw_parts`, which wraps an index built
/// from the two parts; the handle holds nothing else.
pub assume_specification[ RigidBodyHandle::from_raw_parts ](id: u32, generation: u32) -> (r: RigidBodyHandle)
    ensures
        rigid_body_parts(r) == (id, generation),
        forall|other: RigidBodyHandle| rigid_body_parts(other) == (id, generation) ==> other == r,
;

/// Relies on `RigidBodyHandle::into_raw_parts`, which hands back the parts
/// of the wrapped index.
pub assume_specification[ RigidBodyHandle::into_raw_parts ](h: RigidBodyHandle) -> (r: (u32, u32))
    ensures
        r == rigid_body_parts(h),
;

/// Relies on `ImpulseJointHandle::from_raw_parts`, which wraps an index
/// built from the two parts; the handle holds nothing else.
pub assume_specification[ ImpulseJointHandle::from_raw_parts ](id: u32, generation: u32) -> (r: ImpulseJointHandle)
    ensures
        joint_parts(r) == (id, generation),
        forall|other: ImpulseJointHandle| joint_parts(other) == (id, generation) ==> other == r,
;

/// Relies on `ImpulseJointHandle::into_raw_parts`, which hands back the
/// parts of the wrapped index.
pub assume_specification[ ImpulseJointHandle::into_raw_parts ](h: ImpulseJointHandle) -> (r: (u32, u32))
    ensures
        r == joint_parts(h),
;

pub open spec fn handle_of(parts: (u32, u32)) -> Handle {
    Handle { id: parts.0, generation: parts.1 }
}

pub fn world_handle_to_handle(world_handle: Index) -> (r: Handle)
    ensures
        r == handle_of(index_parts(world_handle)),
{
    let raw_parts = world_handle.into_raw_parts();
    Handle { id: raw_parts.0, generation: raw_parts.1 }
}

pub fn handle_to_world_handle(handle: Handle) -> (r: Index)
    ensures
        index_parts(r) == (handle.id, handle.generation),
        forall|other: Index| index_parts(other) == (handle.id, handle.generation) ==> other == r,
{
    Index::from_raw_parts(handle.id, handle.generation)
}

pub fn shape_handle_to_handle(shape_handle: Index) -> (r: Handle)
    ensures
        r == handle_of(index_parts(shape_handle)),
{
    let raw_parts = shape_handle.into_raw_parts();
    Handle { id: raw_parts.0, generation: raw_parts.1 }
}

pub fn handle_to_shape_handle(handle: Handle) -> (r: Index)
    ensures
        index_parts(r) == (handle.id, handle.generation),
        forall|other: Index| index_parts(other) == (handle.id, handle.generation) ==> other == r,
{
    Index::from_raw_parts(handle.id, handle.generation)
}

pub fn collider_handle_to_handle(collider_handle: ColliderHandle) -> (r: Handle)
    ensures
        r == handle_of(collider_parts(collider_handle)),
{
    let raw_parts = collider_handle.into_raw_parts();
    Handle { id: raw_parts.0, generation: raw_parts.1 }
}

pub fn handle_to_collider_handle(handle: Handle) -> (r: ColliderHandle)
    ensures
        collider_parts(r) == (handle.id, handle.generation),
        forall|other: ColliderHandle| collider_parts(other) == (handle.id, handle.generation) ==> other == r,
{
    ColliderHandle::from_raw_parts(handle.id, handle.generation)
}

pub fn rigid_body_handle_to_handle(rigid_body_handle: RigidBodyHandle) -> (r: Handle)
    ensures
        r == handle_of(rigid_body_parts(rigid_body_handle)),
{
    let raw_parts = rigid_body_handle.into_raw_parts();
    Handle { id: raw_parts.0, generation: raw_parts.1 }
}

pub fn handle_to_rigid_body_handle(handle: Handle) -> (r: RigidBodyHandle)
    ensures
        rigid_body_parts(r) == (handle.id, handle.generation),
        forall|other: RigidBodyHandle| rigid_body_parts(other) == (handle.id, handle.generation) ==> other == r,
{
    RigidBodyHandle::from_raw_parts(handle.id, handle.generation)
}

pub fn joint_handle_to_handle(joint_handle: ImpulseJointHandle) -> (r: Handle)
    ensures
        r == handle_of(joint_parts(joint_handle)),
{
    let raw_parts = joint_handle.into_raw_parts();
    Handle { id: raw_parts.0, generation: raw_parts.1 }
}

pub fn handle_to_joint_handle(handle: Handle) -> (r: ImpulseJointHandle)
    ensures
        joint_parts(r) == (handle.id, handle.generation),
        forall|other: ImpulseJointHandle| joint_parts(other) == (handle.id, handle.generation) ==> other == r,
{
    ImpulseJointHandle::from_raw_parts(handle.id, handle.generation)
}

/// A library handle sent to the solver as a collider handle and read back
/// is the same handle. (The other direction follows from the contracts of
/// the two converters: a solver handle with the same parts is the same
/// handle.)
pub proof fn lemma_collider_handle_round_trip(handle: Handle, c: ColliderHandle)
    requires
        collider_parts(c) == (handle.id, handle.generation),
    ensures
        handle_of(collider_parts(c)) == handle,
{
}

} // verus!
