use vstd::prelude::*;

use crate::handle::invalid_handle;
use crate::handle::invalid_handle_spec;
use crate::handle::Handle;
use crate::types::identity_transform;
use crate::types::real_is_negative;
use crate::types::RealBits;
use crate::types::Transform;
use crate::types::REAL_ONE_BITS;
use crate::types::REAL_ZERO_BITS;

verus! {

/// The id the host gives to an object that is no object.
pub const INVALID_RID: u64 = 0;

#[derive(Clone, Copy, Debug, PartialEq, Eq, Hash, Structural)]
pub enum CollisionObjectType {
    Area,
    Body,
}

#[derive(Clone, Copy, Debug, PartialEq, Eq, Hash, Structural)]
pub enum BodyMode {
    Static,
    Kinematic,
    Rigid,
    RigidLinear,
}

/// How the solver-side body of an object is created.
#[derive(Clone, Copy, Debug, PartialEq, Eq, Hash, Structural)]
pub enum BodyType {
    Dynamic,
    Kinematic,
    Static,
}

pub open spec fn body_type_of(mode: BodyMode) -> BodyType {
    match mode {
        BodyMode::Static => BodyType::Static,
        BodyMode::Kinematic => BodyType::Kinematic,
        _ => BodyType::Dynamic,
    }
}

/// The payload attached to every solver collider and body: the owner's id and
/// the shape's index in the owner.
#[derive(Clone, Copy, Debug, PartialEq, Eq, Hash, Structural)]
pub struct UserData {
    pub part1: u64,
    pub part2: u64,
}

impl Default for UserData {
    fn default() -> (r: UserData)
        ensures
            r == (UserData { part1: 0, part2: 0 }),
    {
        UserData { part1: 0, part2: 0 }
    }
}

/// One shape binding of a collision object.
#[derive(Clone, Copy, Debug, PartialEq, Eq, Hash, Structural)]
pub struct CollisionObjectShape {
    pub xform: Transform,
    pub shape: u64,
    pub disabled: bool,
    pub one_way_collision: bool,
    pub one_way_collision_margin: RealBits,
    pub collider_handle: Handle,
}

pub open spec fn default_shape() -> CollisionObjectShape {
    CollisionObjectShape {
        xform: identity_transform(),
        shape: INVALID_RID,
        disabled: false,
        one_way_collision: false,
        one_way_collision_margin: RealBits { bits: REAL_ZERO_BITS },
        collider_handle: invalid_handle_spec(),
    }
}

impl Default for CollisionObjectShape {
    fn default() -> (r: CollisionObjectShape)
        ensures
            r == default_shape(),
    {
        CollisionObjectShape {
            xform: Transform::default(),
            shape: INVALID_RID,
            disabled: false,
            one_way_collision: false,
            one_way_collision_margin: RealBits { bits: REAL_ZERO_BITS },
            collider_handle: invalid_handle(),
        }
    }
}

/// What a space keeps, for one step, of a collider that was destroyed while
/// detections of its owner were still pending.
#[derive(Clone, Copy, Debug, PartialEq, Eq, Hash, Structural)]
pub struct RemovedColliderInfo {
    pub rid: u64,
    pub instance_id: u64,
    pub shape_index: usize,
    pub collision_object_type: CollisionObjectType,
}

/// The state of a collision object, as the contracts speak of it.
pub struct CollisionObjectView {
    pub collision_object_type: CollisionObjectType,
    pub rid: u64,
    pub instance_id: u64,
    pub canvas_instance_id: u64,
    pub pickable: bool,
    pub shapes: Seq<CollisionObjectShape>,
    pub space: u64,
    pub transform: Transform,
    pub collision_mask: u32,
    pub collision_layer: u32,
    pub collision_priority: RealBits,
    pub mode: BodyMode,
    pub body_handle: Handle,
    pub space_handle: Handle,
    pub area_detection_counter: u32,
}

impl CollisionObjectView {
    /// An object outside every solver world holds no solver body.
    pub open spec fn body_only_in_world(&self) -> bool {
        !self.space_handle.valid() ==> self.body_handle == invalid_handle_spec()
    }
}

/// Two objects interact when either one's layer meets the other's mask.
pub open spec fn interacts(layer_a: u32, mask_a: u32, layer_b: u32, mask_b: u32) -> bool {
    (layer_a & mask_b) != 0 || (layer_b & mask_a) != 0
}

/// The records kept for the colliders of `shapes` that are live in a space,
/// in shape order.
pub open spec fn removed_records(
    shapes: Seq<CollisionObjectShape>,
    rid: u64,
    instance_id: u64,
    t: CollisionObjectType,
) -> Seq<(Handle, RemovedColliderInfo)>
    decreases shapes.len(),
{
    if shapes.len() == 0 {
        Seq::empty()
    } else {
        let rest = removed_records(shapes.drop_last(), rid, instance_id, t);
        let last = shapes.last();
        if last.collider_handle == invalid_handle_spec() {
            rest
        } else {
            rest.push(
                (
                    last.collider_handle,
                    RemovedColliderInfo {
                        rid,
                        instance_id,
                        shape_index: (shapes.len() - 1) as usize,
                        collision_object_type: t,
                    },
                ),
            )
        }
    }
}

/// The handles of the colliders of `shapes` that are live in a space.
pub open spec fn live_colliders(shapes: Seq<CollisionObjectShape>) -> Seq<Handle>
    decreases shapes.len(),
{
    if shapes.len() == 0 {
        Seq::empty()
    } else {
        let rest = live_colliders(shapes.drop_last());
        if shapes.last().collider_handle == invalid_handle_spec() {
            rest
        } else {
            rest.push(shapes.last().collider_handle)
        }
    }
}

/// `shapes` with every collider handle reset to the invalid handle.
pub open spec fn without_colliders(shapes: Seq<CollisionObjectShape>) -> Seq<CollisionObjectShape> {
    shapes.map_values(
        |s: CollisionObjectShape| CollisionObjectShape { collider_handle: invalid_handle_spec(), ..s },
    )
}

/// What the solver must do after a collision object changed space.
pub struct SpaceTransition {
    /// The solver world that the object left, or the invalid handle.
    pub old_space_handle: Handle,
    /// The body to destroy in the old world.
    pub destroyed_body: Option<Handle>,
    /// The colliders to destroy in the old world.
    pub destroyed_colliders: Vec<Handle>,
    /// The kind of body to create in the new world at the object's transform.
    pub created_body: Option<BodyType>,
}

pub struct RapierCollisionObject {
    collision_object_type: CollisionObjectType,
    rid: u64,
    instance_id: u64,
    canvas_instance_id: u64,
    pickable: bool,
    shapes: Vec<CollisionObjectShape>,
    space: u64,
    transform: Transform,
    collision_mask: u32,
    collision_layer: u32,
    collision_priority: RealBits,
    mode: BodyMode,
    body_handle: Handle,
    space_handle: Handle,
    area_detection_counter: u32,
}

impl View for RapierCollisionObject {
    type V = CollisionObjectView;

    closed spec fn view(&self) -> CollisionObjectView {
        CollisionObjectView {
            collision_object_type: self.collision_object_type,
            rid: self.rid,
            instance_id: self.instance_id,
            canvas_instance_id: self.canvas_instance_id,
            pickable: self.pickable,
            shapes: self.shapes@,
            space: self.space,
            transform: self.transform,
            collision_mask: self.collision_mask,
            collision_layer: self.collision_layer,
            collision_priority: self.collision_priority,
            mode: self.mode,
            body_handle: self.body_handle,
            space_handle: self.space_handle,
            area_detection_counter: self.area_detection_counter,
        }
    }
}

/// The result of moving a collision object to another space.
pub struct SpaceChange {
    pub transition: SpaceTransition,
    /// Records that the old space keeps for one step.
    pub removed: Vec<(Handle, RemovedColliderInfo)>,
}

impl RapierCollisionObject {
    pub fn new(rid: u64, collision_object_type: CollisionObjectType) -> (r: RapierCollisionObject)
        ensures
            r@ == (CollisionObjectView {
                collision_object_type,
                rid,
                instance_id: 0,
                canvas_instance_id: 0,
                pickable: true,
                shapes: Seq::empty(),
                space: INVALID_RID,
                transform: identity_transform(),
                collision_mask: 1,
                collision_layer: 1,
                collision_priority: RealBits { bits: REAL_ONE_BITS },
                mode: if collision_object_type == CollisionObjectType::Area {
                    BodyMode::Static
                } else {
                    BodyMode::Rigid
                },
                body_handle: invalid_handle_spec(),
                space_handle: invalid_handle_spec(),
                area_detection_counter: 0,
            }),
            r@.body_only_in_world(),
    {
        let mut mode = BodyMode::Rigid;
        if collision_object_type == CollisionObjectType::Area {
            mode = BodyMode::Static;
        }
        let r = RapierCollisionObject {
            collision_object_type,
            rid,
            instance_id: 0,
            canvas_instance_id: 0,
            pickable: true,
            shapes: Vec::new(),
            space: INVALID_RID,
            transform: Transform::default(),
            collision_mask: 1,
            collision_layer: 1,
            collision_priority: RealBits { bits: REAL_ONE_BITS },
            mode,
            body_handle: invalid_handle(),
            space_handle: invalid_handle(),
            area_detection_counter: 0,
        };
        assert(r@.shapes =~= Seq::<CollisionObjectShape>::empty());
        r
    }

    /// Destroys the solver side of the object's shapes: returns the colliders
    /// to destroy and, while detections are pending, the records to keep.
    fn destroy_shapes(&mut self) -> (r: (Vec<Handle>, Vec<(Handle, RemovedColliderInfo)>))
        ensures
            r.0@ == live_colliders(old(self)@.shapes),
            r.1@ == if old(self)@.area_detection_counter > 0 {
                removed_records(
                    old(self)@.shapes,
                    old(self)@.rid,
                    old(self)@.instance_id,
                    old(self)@.collision_object_type,
                )
            } else {
                Seq::empty()
            },
            final(self)@ == (CollisionObjectView {
                shapes: without_colliders(old(self)@.shapes),
                ..old(self)@
            }),
    {
        let ghost old_shapes = self.shapes@;
        let mut colliders: Vec<Handle> = Vec::new();
        let mut records: Vec<(Handle, RemovedColliderInfo)> = Vec::new();
        let mut i: usize = 0;
        while i < self.shapes.len()
            invariant
                0 <= i <= self.shapes@.len(),
                self.shapes@.len() == old_shapes.len(),
                old_shapes == old(self).shapes@,
                self.rid == old(self).rid,
                self.instance_id == old(self).instance_id,
                self.collision_object_type == old(self).collision_object_type,
                self.area_detection_counter == old(self).area_detection_counter,
                self@ == (CollisionObjectView { shapes: self.shapes@, ..old(self)@ }),
                forall|j: int| 0 <= j < i ==> self.shapes@[j] == without_colliders(old_shapes)[j],
                forall|j: int| i <= j < old_shapes.len() ==> self.shapes@[j] == old_shapes[j],
                colliders@ == live_colliders(old_shapes.take(i as int)),
                records@ == if self.area_detection_counter > 0 {
                    removed_records(old_shapes.take(i as int), self.rid, self.instance_id, self.collision_object_type)
                } else {
                    Seq::empty()
                },
            decreases self.shapes@.len() - i,
        {
            let shape = self.shapes[i];
            assert(old_shapes.take(i as int + 1).drop_last() == old_shapes.take(i as int));
            if shape.collider_handle != invalid_handle() {
                if self.area_detection_counter > 0 {
                    records.push(
                        (
                            shape.collider_handle,
                            RemovedColliderInfo {
                                rid: self.rid,
                                instance_id: self.instance_id,
                                shape_index: i,
                                collision_object_type: self.collision_object_type,
                            },
                        ),
                    );
                }
                colliders.push(shape.collider_handle);
                let cleared = CollisionObjectShape { collider_handle: invalid_handle(), ..shape };
                self.shapes.set(i, cleared);
            }
            i = i + 1;
        }
        assert(old_shapes.take(old_shapes.len() as int) == old_shapes);
        assert(self.shapes@ =~= without_colliders(old_shapes));
        (colliders, records)
    }

    /// Moves the object to the space `space`, whose solver world is
    /// `space_handle` (`None` when the host knows no such space). Leaving a
    /// world destroys the body and colliders there and resets the detection
    /// counter; entering a valid one creates a body of the object's mode.
    /// Either way the object holds no solver body until the caller records
    /// the new one, so an object in no world never holds one.
    pub fn set_space(&mut self, space: u64, space_handle: Option<Handle>) -> (r: SpaceChange)
        ensures
            old(self)@.body_only_in_world() ==> final(self)@.body_only_in_world(),
            space != old(self)@.space ==> final(self)@.body_handle == invalid_handle_spec(),
            space == old(self)@.space ==> {
                &&& final(self)@ == old(self)@
                &&& r.transition.old_space_handle == old(self)@.space_handle
                &&& r.transition.destroyed_body.is_none()
                &&& r.transition.destroyed_colliders@.len() == 0
                &&& r.transition.created_body.is_none()
                &&& r.removed@.len() == 0
            },
            space != old(self)@.space ==> {
                let o = old(self)@;
                let left = o.space_handle.valid();
                let new_handle = match space_handle {
                    Some(h) => h,
                    None => invalid_handle_spec(),
                };
                &&& r.transition.old_space_handle == o.space_handle
                &&& r.transition.destroyed_body == if left && o.body_handle != invalid_handle_spec() {
                    Some(o.body_handle)
                } else {
                    None::<Handle>
                }
                &&& r.transition.destroyed_colliders@ == if left {
                    live_colliders(o.shapes)
                } else {
                    Seq::<Handle>::empty()
                }
                &&& r.removed@ == if left && o.area_detection_counter > 0 {
                    removed_records(o.shapes, o.rid, o.instance_id, o.collision_object_type)
                } else {
                    Seq::<(Handle, RemovedColliderInfo)>::empty()
                }
                &&& r.transition.created_body == if new_handle.valid() {
                    Some(body_type_of(o.mode))
                } else {
                    None::<BodyType>
                }
                &&& final(self)@ == (CollisionObjectView {
                    shapes: if left { without_colliders(o.shapes) } else { o.shapes },
                    area_detection_counter: if left { 0 } else { o.area_detection_counter },
                    body_handle: invalid_handle_spec(),
                    space: if space_handle.is_some() { space } else { INVALID_RID },
                    space_handle: new_handle,
                    ..o
                })
            },
    {
        if space == self.space {
            return SpaceChange {
                transition: SpaceTransition {
                    old_space_handle: self.space_handle,
                    destroyed_body: None,
                    destroyed_colliders: Vec::new(),
                    created_body: None,
                },
                removed: Vec::new(),
            };
        }
        let old_space_handle = self.space_handle;
        let mut destroyed_body = None;
        let mut destroyed_colliders = Vec::new();
        let mut removed = Vec::new();
        if self.space_handle.is_valid() {
            if self.body_handle != invalid_handle() {
                destroyed_body = Some(self.body_handle);
            }
            let (colliders, records) = self.destroy_shapes();
            destroyed_colliders = colliders;
            removed = records;
            self.area_detection_counter = 0;
        }
        self.body_handle = invalid_handle();
        self.space = space;
        match space_handle {
            Some(h) => {
                self.space_handle = h;
            },
            None => {
                self.space_handle = invalid_handle();
                self.space = INVALID_RID;
            },
        }
        let mut created_body = None;
        if self.space_handle.is_valid() {
            created_body = Some(
                match self.mode {
                    BodyMode::Static => BodyType::Static,
                    BodyMode::Kinematic => BodyType::Kinematic,
                    _ => BodyType::Dynamic,
                },
            );
        }
        SpaceChange {
            transition: SpaceTransition { old_space_handle, destroyed_body, destroyed_colliders, created_body },
            removed,
        }
    }
}

impl RapierCollisionObject {
    pub fn get_space_handle(&self) -> (r: Handle)
        ensures
            r == self@.space_handle,
    {
        self.space_handle
    }

    /// The object has a body in a live solver world.
    pub fn is_valid(&self) -> (r: bool)
        ensures
            r == (self@.body_handle != invalid_handle_spec() && self@.space_handle.valid()),
    {
        self.body_handle != invalid_handle() && self.space_handle.is_valid()
    }

    pub fn get_rid(&self) -> (r: u64)
        ensures
            r == self@.rid,
    {
        self.rid
    }

    pub fn set_instance_id(&mut self, p_instance_id: u64)
        ensures
            final(self)@ == (CollisionObjectView { instance_id: p_instance_id, ..old(self)@ }),
    {
        self.instance_id = p_instance_id;
    }

    pub fn get_instance_id(&self) -> (r: u64)
        ensures
            r == self@.instance_id,
    {
        self.instance_id
    }

    pub fn get_body_handle(&self) -> (r: Handle)
        ensures
            r == self@.body_handle,
    {
        self.body_handle
    }

    /// Records the body that the solver created for this object. An object
    /// in no world holds no body: there the invalid handle is stored.
    pub fn set_body_handle(&mut self, body_handle: Handle)
        ensures
            final(self)@.body_only_in_world(),
            final(self)@ == (CollisionObjectView {
                body_handle: if old(self)@.space_handle.valid() {
                    body_handle
                } else {
                    invalid_handle_spec()
                },
                ..old(self)@
            }),
    {
        if self.space_handle.is_valid() {
            self.body_handle = body_handle;
        } else {
            self.body_handle = invalid_handle();
        }
    }

    pub fn set_canvas_instance_id(&mut self, p_canvas_instance_id: u64)
        ensures
            final(self)@ == (CollisionObjectView { canvas_instance_id: p_canvas_instance_id, ..old(self)@ }),
    {
        self.canvas_instance_id = p_canvas_instance_id;
    }

    pub fn get_canvas_instance_id(&self) -> (r: u64)
        ensures
            r == self@.canvas_instance_id,
    {
        self.canvas_instance_id
    }

    /// Packs the owner's id and a shape index into a collider's payload.
    pub fn set_collider_user_data(&self, r_user_data: &mut UserData, p_shape_index: usize)
        ensures
            *final(r_user_data) == (UserData { part1: self@.rid, part2: p_shape_index as u64 }),
    {
        r_user_data.part1 = self.rid;
        r_user_data.part2 = p_shape_index as u64;
    }

    /// Reads the owner's id and the shape index back from a payload.
    pub fn get_collider_user_data(p_user_data: &UserData) -> (r: (u64, usize))
        ensures
            r == (p_user_data.part1, p_user_data.part2 as usize),
    {
        (p_user_data.part1, p_user_data.part2 as usize)
    }

    pub fn get_type(&self) -> (r: CollisionObjectType)
        ensures
            r == self@.collision_object_type,
    {
        self.collision_object_type
    }

    pub fn get_shape_count(&self) -> (r: i32)
        ensures
            r == self@.shapes.len() as i32,
    {
        self.shapes.len() as i32
    }

    /// The shape bound at `idx`, or the invalid id past the end.
    pub fn get_shape(&self, idx: usize) -> (r: u64)
        ensures
            r == if idx < self@.shapes.len() { self@.shapes[idx as int].shape } else { INVALID_RID },
    {
        if idx < self.shapes.len() {
            return self.shapes[idx].shape;
        }
        INVALID_RID
    }

    pub fn get_shape_transform(&self, idx: usize) -> (r: Transform)
        ensures
            r == if idx < self@.shapes.len() {
                self@.shapes[idx as int].xform
            } else {
                identity_transform()
            },
    {
        if idx < self.shapes.len() {
            return self.shapes[idx].xform;
        }
        Transform::default()
    }

    /// Stores the transform; returns whether the solver body must follow it.
    pub fn set_transform(&mut self, p_transform: Transform) -> (r: bool)
        ensures
            final(self)@ == (CollisionObjectView { transform: p_transform, ..old(self)@ }),
            r == (old(self)@.body_handle != invalid_handle_spec() && old(self)@.space_handle.valid()),
    {
        self.transform = p_transform;
        self.is_valid()
    }

    pub fn get_transform(&self) -> (r: Transform)
        ensures
            r == self@.transform,
    {
        self.transform
    }

    pub fn get_space(&self) -> (r: u64)
        ensures
            r == self@.space,
    {
        self.space
    }

    /// A shape past the end counts as disabled.
    pub fn is_shape_disabled(&self, idx: usize) -> (r: bool)
        ensures
            r == if idx < self@.shapes.len() { self@.shapes[idx as int].disabled } else { true },
    {
        if idx < self.shapes.len() {
            return self.shapes[idx].disabled;
        }
        true
    }

    pub fn set_shape_as_one_way_collision(
        &mut self,
        p_idx: usize,
        p_one_way_collision: bool,
        p_margin: RealBits,
    )
        ensures
            final(self)@ == (CollisionObjectView {
                shapes: if p_idx < old(self)@.shapes.len() {
                    old(self)@.shapes.update(
                        p_idx as int,
                        CollisionObjectShape {
                            one_way_collision: p_one_way_collision,
                            one_way_collision_margin: p_margin,
                            ..old(self)@.shapes[p_idx as int]
                        },
                    )
                } else {
                    old(self)@.shapes
                },
                ..old(self)@
            }),
    {
        if p_idx < self.shapes.len() {
            let shape = self.shapes[p_idx];
            self.shapes.set(
                p_idx,
                CollisionObjectShape {
                    one_way_collision: p_one_way_collision,
                    one_way_collision_margin: p_margin,
                    ..shape
                },
            );
        }
    }

    pub fn is_shape_set_as_one_way_collision(&self, p_idx: usize) -> (r: bool)
        ensures
            r == (p_idx < self@.shapes.len() && self@.shapes[p_idx as int].one_way_collision),
    {
        if p_idx < self.shapes.len() {
            return self.shapes[p_idx].one_way_collision;
        }
        false
    }

    pub fn get_shape_one_way_collision_margin(&self, p_idx: usize) -> (r: RealBits)
        ensures
            r == if p_idx < self@.shapes.len() {
                self@.shapes[p_idx as int].one_way_collision_margin
            } else {
                RealBits { bits: REAL_ZERO_BITS }
            },
    {
        if p_idx < self.shapes.len() {
            return self.shapes[p_idx].one_way_collision_margin;
        }
        RealBits { bits: REAL_ZERO_BITS }
    }

    pub fn set_collision_mask(&mut self, p_mask: u32)
        ensures
            final(self)@ == (CollisionObjectView { collision_mask: p_mask, ..old(self)@ }),
    {
        self.collision_mask = p_mask;
    }

    pub fn get_collision_mask(&self) -> (r: u32)
        ensures
            r == self@.collision_mask,
    {
        self.collision_mask
    }

    pub fn set_collision_layer(&mut self, p_layer: u32)
        ensures
            final(self)@ == (CollisionObjectView { collision_layer: p_layer, ..old(self)@ }),
    {
        self.collision_layer = p_layer;
    }

    pub fn get_collision_layer(&self) -> (r: u32)
        ensures
            r == self@.collision_layer,
    {
        self.collision_layer
    }

    /// A negative priority is ignored.
    pub fn set_collision_priority(&mut self, p_priority: RealBits)
        ensures
            final(self)@ == if real_is_negative(p_priority.bits) {
                old(self)@
            } else {
                CollisionObjectView { collision_priority: p_priority, ..old(self)@ }
            },
    {
        if p_priority.is_negative() {
            return;
        }
        self.collision_priority = p_priority;
    }

    pub fn get_collision_priority(&self) -> (r: RealBits)
        ensures
            r == self@.collision_priority,
    {
        self.collision_priority
    }

    pub fn get_mode(&self) -> (r: BodyMode)
        ensures
            r == self@.mode,
    {
        self.mode
    }

    pub fn set_mode(&mut self, mode: BodyMode)
        ensures
            final(self)@ == (CollisionObjectView { mode, ..old(self)@ }),
    {
        self.mode = mode;
    }

    pub fn set_pickable(&mut self, p_pickable: bool)
        ensures
            final(self)@ == (CollisionObjectView { pickable: p_pickable, ..old(self)@ }),
    {
        self.pickable = p_pickable;
    }

    pub fn is_pickable(&self) -> (r: bool)
        ensures
            r == self@.pickable,
    {
        self.pickable
    }

    /// Either side seeing the other counts.
    pub fn interacts_with(&self, p_other: &RapierCollisionObject) -> (r: bool)
        ensures
            r == interacts(
                self@.collision_layer,
                self@.collision_mask,
                p_other@.collision_layer,
                p_other@.collision_mask,
            ),
    {
        self.collision_layer & p_other.collision_mask != 0 || p_other.collision_layer
            & self.collision_mask != 0
    }

    pub fn get_area_detection_counter(&self) -> (r: u32)
        ensures
            r == self@.area_detection_counter,
    {
        self.area_detection_counter
    }

    /// One more detection of this object is pending (saturating).
    pub fn increment_area_detection_counter(&mut self)
        ensures
            final(self)@ == (CollisionObjectView {
                area_detection_counter: if old(self)@.area_detection_counter < u32::MAX {
                    (old(self)@.area_detection_counter + 1) as u32
                } else {
                    u32::MAX
                },
                ..old(self)@
            }),
    {
        if self.area_detection_counter < u32::MAX {
            self.area_detection_counter = self.area_detection_counter + 1;
        }
    }

    /// One pending detection of this object is over (never below zero).
    pub fn decrement_area_detection_counter(&mut self)
        ensures
            final(self)@ == (CollisionObjectView {
                area_detection_counter: if old(self)@.area_detection_counter > 0 {
                    (old(self)@.area_detection_counter - 1) as u32
                } else {
                    0
                },
                ..old(self)@
            }),
    {
        if self.area_detection_counter > 0 {
            self.area_detection_counter = self.area_detection_counter - 1;
        }
    }
}

/// Interaction does not depend on the order of the two objects.
pub proof fn lemma_interacts_symmetric(layer_a: u32, mask_a: u32, layer_b: u32, mask_b: u32)
    ensures
        interacts(layer_a, mask_a, layer_b, mask_b) == interacts(layer_b, mask_b, layer_a, mask_a),
{
}

/// A payload written for an object and a shape index reads back as the same
/// pair whenever the index fits the payload.
pub proof fn lemma_user_data_round_trip(rid: u64, shape_index: usize)
    ensures
        (UserData { part1: rid, part2: shape_index as u64 }).part1 == rid,
        ((UserData { part1: rid, part2: shape_index as u64 }).part2 as usize) == shape_index,
{
}

/// A shape taken out of a collision object, with what the solver must undo.
pub struct ShapeRemoval {
    pub shape: CollisionObjectShape,
    /// The collider to destroy in the object's world.
    pub destroyed_collider: Option<Handle>,
    /// The record that the space keeps for one step.
    pub record: Option<(Handle, RemovedColliderInfo)>,
}

/// The shapes of `shapes` not bound to `shape`, in order.
pub open spec fn shapes_not_bound_to(shapes: Seq<CollisionObjectShape>, shape: u64) -> Seq<CollisionObjectShape>
    decreases shapes.len(),
{
    if shapes.len() == 0 {
        Seq::empty()
    } else {
        let rest = shapes_not_bound_to(shapes.drop_last(), shape);
        if shapes.last().shape == shape {
            rest
        } else {
            rest.push(shapes.last())
        }
    }
}

pub open spec fn live_collider_of(s: CollisionObjectShape) -> Option<Handle> {
    if s.collider_handle == invalid_handle_spec() {
        None
    } else {
        Some(s.collider_handle)
    }
}

/// What taking out the shape `s`, at position `index` of the object `o`,
/// asks of the solver: its collider is destroyed when the object is in a
/// world, and a record of it is kept while detections are pending.
pub open spec fn removal_of(o: CollisionObjectView, s: CollisionObjectShape, index: usize) -> ShapeRemoval {
    let live = o.space_handle.valid() && s.collider_handle != invalid_handle_spec();
    ShapeRemoval {
        shape: s,
        destroyed_collider: if live {
            Some(s.collider_handle)
        } else {
            None
        },
        record: if live && o.area_detection_counter > 0 {
            Some(
                (
                    s.collider_handle,
                    RemovedColliderInfo {
                        rid: o.rid,
                        instance_id: o.instance_id,
                        shape_index: index,
                        collision_object_type: o.collision_object_type,
                    },
                ),
            )
        } else {
            None
        },
    }
}

/// The removals that taking out every binding of `shape` makes, in order;
/// each carries the position its shape had when it was taken out.
pub open spec fn removals_of(o: CollisionObjectView, shapes: Seq<CollisionObjectShape>, shape: u64) -> Seq<ShapeRemoval>
    decreases shapes.len(),
{
    if shapes.len() == 0 {
        Seq::empty()
    } else {
        let rest = removals_of(o, shapes.drop_last(), shape);
        if shapes.last().shape == shape {
            rest.push(
                removal_of(o, shapes.last(), shapes_not_bound_to(shapes.drop_last(), shape).len() as usize),
            )
        } else {
            rest
        }
    }
}

impl RapierCollisionObject {
    /// Appends a shape binding without a collider; returns its index.
    pub fn add_shape(&mut self, p_shape: u64, p_transform: Transform, p_disabled: bool) -> (r: usize)
        requires
            old(self)@.shapes.len() < usize::MAX,
        ensures
            r == old(self)@.shapes.len(),
            final(self)@ == (CollisionObjectView {
                shapes: old(self)@.shapes.push(
                    CollisionObjectShape {
                        xform: p_transform,
                        shape: p_shape,
                        disabled: p_disabled,
                        ..default_shape()
                    },
                ),
                ..old(self)@
            }),
    {
        let mut shape = CollisionObjectShape::default();
        shape.xform = p_transform;
        shape.shape = p_shape;
        shape.disabled = p_disabled;
        let r = self.shapes.len();
        self.shapes.push(shape);
        r
    }

    /// Binds another shape at `p_index`. Its collider, if live, is returned
    /// for destruction and the binding is left without one.
    pub fn set_shape(&mut self, p_index: usize, p_shape: u64) -> (r: Option<Handle>)
        ensures
            p_index < old(self)@.shapes.len() ==> {
                &&& r == live_collider_of(old(self)@.shapes[p_index as int])
                &&& final(self)@ == (CollisionObjectView {
                    shapes: old(self)@.shapes.update(
                        p_index as int,
                        CollisionObjectShape {
                            shape: p_shape,
                            collider_handle: invalid_handle_spec(),
                            ..old(self)@.shapes[p_index as int]
                        },
                    ),
                    ..old(self)@
                })
            },
            p_index >= old(self)@.shapes.len() ==> r.is_none() && final(self)@ == old(self)@,
    {
        if p_index >= self.shapes.len() {
            return None;
        }
        let old_shape = self.shapes[p_index];
        self.shapes.set(
            p_index,
            CollisionObjectShape { shape: p_shape, collider_handle: invalid_handle(), ..old_shape },
        );
        if old_shape.collider_handle == invalid_handle() {
            None
        } else {
            Some(old_shape.collider_handle)
        }
    }

    /// Records the collider that the solver created for the shape at `p_index`.
    pub fn set_shape_collider_handle(&mut self, p_index: usize, collider_handle: Handle)
        ensures
            final(self)@ == (CollisionObjectView {
                shapes: if p_index < old(self)@.shapes.len() {
                    old(self)@.shapes.update(
                        p_index as int,
                        CollisionObjectShape { collider_handle, ..old(self)@.shapes[p_index as int] },
                    )
                } else {
                    old(self)@.shapes
                },
                ..old(self)@
            }),
    {
        if p_index < self.shapes.len() {
            let shape = self.shapes[p_index];
            self.shapes.set(p_index, CollisionObjectShape { collider_handle, ..shape });
        }
    }

    /// Changes the local transform of a shape; returns its collider, if
    /// live, so that the solver follows.
    pub fn set_shape_transform(&mut self, p_index: usize, p_transform: Transform) -> (r: Option<Handle>)
        ensures
            p_index < old(self)@.shapes.len() ==> {
                &&& r == live_collider_of(old(self)@.shapes[p_index as int])
                &&& final(self)@ == (CollisionObjectView {
                    shapes: old(self)@.shapes.update(
                        p_index as int,
                        CollisionObjectShape { xform: p_transform, ..old(self)@.shapes[p_index as int] },
                    ),
                    ..old(self)@
                })
            },
            p_index >= old(self)@.shapes.len() ==> r.is_none() && final(self)@ == old(self)@,
    {
        if p_index >= self.shapes.len() {
            return None;
        }
        let shape = self.shapes[p_index];
        self.shapes.set(p_index, CollisionObjectShape { xform: p_transform, ..shape });
        if shape.collider_handle == invalid_handle() {
            None
        } else {
            Some(shape.collider_handle)
        }
    }

    /// Enables or disables a shape; returns its collider, if live, so that
    /// the solver follows.
    pub fn set_shape_disabled(&mut self, p_index: usize, p_disabled: bool) -> (r: Option<Handle>)
        ensures
            p_index < old(self)@.shapes.len() ==> {
                &&& r == live_collider_of(old(self)@.shapes[p_index as int])
                &&& final(self)@ == (CollisionObjectView {
                    shapes: old(self)@.shapes.update(
                        p_index as int,
                        CollisionObjectShape { disabled: p_disabled, ..old(self)@.shapes[p_index as int] },
                    ),
                    ..old(self)@
                })
            },
            p_index >= old(self)@.shapes.len() ==> r.is_none() && final(self)@ == old(self)@,
    {
        if p_index >= self.shapes.len() {
            return None;
        }
        let shape = self.shapes[p_index];
        self.shapes.set(p_index, CollisionObjectShape { disabled: p_disabled, ..shape });
        if shape.collider_handle == invalid_handle() {
            None
        } else {
            Some(shape.collider_handle)
        }
    }

    /// Takes out the shape at `p_index`. Its collider is destroyed when the
    /// object is in a world; while detections are pending, a record of it is
    /// kept.
    pub fn remove_shape_idx(&mut self, p_index: usize) -> (r: Option<ShapeRemoval>)
        ensures
            p_index >= old(self)@.shapes.len() ==> r.is_none() && final(self)@ == old(self)@,
            p_index < old(self)@.shapes.len() ==> {
                let o = old(self)@;
                &&& final(self)@ == (CollisionObjectView { shapes: o.shapes.remove(p_index as int), ..o })
                &&& r == Some(removal_of(o, o.shapes[p_index as int], p_index))
            },
    {
        if p_index >= self.shapes.len() {
            return None;
        }
        let shape = self.shapes.remove(p_index);
        let live = self.space_handle.is_valid() && shape.collider_handle != invalid_handle();
        let mut destroyed_collider = None;
        let mut record = None;
        if live {
            destroyed_collider = Some(shape.collider_handle);
            if self.area_detection_counter > 0 {
                record = Some(
                    (
                        shape.collider_handle,
                        RemovedColliderInfo {
                            rid: self.rid,
                            instance_id: self.instance_id,
                            shape_index: p_index,
                            collision_object_type: self.collision_object_type,
                        },
                    ),
                );
            }
        }
        Some(ShapeRemoval { shape, destroyed_collider, record })
    }

    /// Takes out every binding of `p_shape`, wherever it appears.
    pub fn remove_shape_rid(&mut self, p_shape: u64) -> (r: Vec<ShapeRemoval>)
        ensures
            final(self)@ == (CollisionObjectView {
                shapes: shapes_not_bound_to(old(self)@.shapes, p_shape),
                ..old(self)@
            }),
            r@ == removals_of(old(self)@, old(self)@.shapes, p_shape),
    {
        let ghost o = self.shapes@;
        let mut removed: Vec<ShapeRemoval> = Vec::new();
        let mut i: usize = 0;
        let ghost mut k: int = 0;
        while i < self.shapes.len()
            invariant
                0 <= k <= o.len(),
                i == shapes_not_bound_to(o.take(k), p_shape).len(),
                self.shapes@ == shapes_not_bound_to(o.take(k), p_shape) + o.skip(k),
                self@ == (CollisionObjectView { shapes: self.shapes@, ..old(self)@ }),
                removed@ == removals_of(old(self)@, o.take(k), p_shape),
                o == old(self)@.shapes,
            decreases o.len() - k,
        {
            proof {
                assert(k < o.len()) by {
                    if k == o.len() {
                        assert(o.skip(k).len() == 0);
                    }
                }
                assert(self.shapes@[i as int] == o[k]);
                assert(o.take(k + 1).drop_last() =~= o.take(k));
                assert(o.take(k + 1).last() == o[k]);
            }
            if self.shapes[i].shape == p_shape {
                let rm = self.remove_shape_idx(i);
                match rm {
                    Some(x) => {
                        removed.push(x);
                    },
                    None => {},
                }
                proof {
                    assert(self.shapes@ =~= shapes_not_bound_to(o.take(k + 1), p_shape) + o.skip(k + 1));
                }
            } else {
                i = i + 1;
                proof {
                    assert(self.shapes@ =~= shapes_not_bound_to(o.take(k + 1), p_shape) + o.skip(k + 1));
                }
            }
            proof {
                k = k + 1;
            }
        }
        proof {
            assert(o.skip(k).len() == 0);
            assert(o.take(k) =~= o);
            assert(self.shapes@ =~= shapes_not_bound_to(o, p_shape));
        }
        removed
    }
}

/// What the solver needs to create the collider of one shape binding.
#[derive(Clone, Copy, Debug, PartialEq, Eq, Hash, Structural)]
pub struct ColliderRequest {
    pub space_handle: Handle,
    pub body_handle: Handle,
    pub shape_handle: Handle,
    pub user_data: UserData,
    /// Areas get sensors, bodies get solid colliders.
    pub sensor: bool,
}

impl RapierCollisionObject {
    /// The collider to create for the shape at `p_shape_index`, whose solver
    /// shape is `shape_handle`; none while the object is in no world or the
    /// shape has no solver shape.
    pub fn create_shape(&self, p_shape_index: usize, shape_handle: Handle) -> (r: Option<ColliderRequest>)
        ensures
            r == if self@.space_handle.valid() && shape_handle.valid() {
                Some(
                    ColliderRequest {
                        space_handle: self@.space_handle,
                        body_handle: self@.body_handle,
                        shape_handle,
                        user_data: UserData { part1: self@.rid, part2: p_shape_index as u64 },
                        sensor: self@.collision_object_type == CollisionObjectType::Area,
                    },
                )
            } else {
                None::<ColliderRequest>
            },
    {
        if !self.space_handle.is_valid() || !shape_handle.is_valid() {
            return None;
        }
        let mut user_data = UserData::default();
        self.set_collider_user_data(&mut user_data, p_shape_index);
        Some(
            ColliderRequest {
                space_handle: self.space_handle,
                body_handle: self.body_handle,
                shape_handle,
                user_data,
                sensor: self.collision_object_type == CollisionObjectType::Area,
            },
        )
    }

    /// The collider whose local transform the solver must update, if the
    /// shape at `p_index` has one in a live world.
    pub fn update_shape_transform(&self, p_index: usize) -> (r: Option<Handle>)
        ensures
            r == if p_index < self@.shapes.len() && self@.space_handle.valid()
                && self@.shapes[p_index as int].collider_handle != invalid_handle_spec() {
                Some(self@.shapes[p_index as int].collider_handle)
            } else {
                None::<Handle>
            },
    {
        if p_index >= self.shapes.len() || !self.space_handle.is_valid() {
            return None;
        }
        let h = self.shapes[p_index].collider_handle;
        if h == invalid_handle() {
            None
        } else {
            Some(h)
        }
    }
}

} // verus!
