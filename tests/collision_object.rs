use godot_rapier::collision_object::BodyMode;
use godot_rapier::collision_object::BodyType;
use godot_rapier::collision_object::CollisionObjectType;
use godot_rapier::collision_object::RapierCollisionObject;
use godot_rapier::collision_object::UserData;
use godot_rapier::collision_object::INVALID_RID;
use godot_rapier::handle::invalid_handle;
use godot_rapier::handle::Handle;
use godot_rapier::types::RealBits;
use godot_rapier::types::Transform;
use godot_rapier::types::Vector;

fn num(x: f32) -> RealBits {
    RealBits { bits: x.to_bits() }
}

#[test]
fn new_object_defaults() {
    let body = RapierCollisionObject::new(7, CollisionObjectType::Body);
    assert_eq!(body.get_rid(), 7);
    assert_eq!(body.get_collision_layer(), 1);
    assert_eq!(body.get_collision_mask(), 1);
    assert_eq!(body.get_collision_priority(), num(1.0));
    assert_eq!(body.get_mode(), BodyMode::Rigid);
    assert_eq!(body.get_space(), INVALID_RID);
    assert!(!body.is_valid());
    assert_eq!(body.get_shape_count(), 0);
    let area = RapierCollisionObject::new(8, CollisionObjectType::Area);
    assert_eq!(area.get_mode(), BodyMode::Static);
    assert_eq!(area.get_type(), CollisionObjectType::Area);
}

#[test]
fn interaction_is_either_direction() {
    let mut a = RapierCollisionObject::new(1, CollisionObjectType::Body);
    let mut b = RapierCollisionObject::new(2, CollisionObjectType::Body);
    a.set_collision_layer(1);
    a.set_collision_mask(0);
    b.set_collision_layer(2);
    b.set_collision_mask(1);
    assert!(a.interacts_with(&b));
    assert!(b.interacts_with(&a));
    b.set_collision_mask(4);
    assert!(!a.interacts_with(&b));
    assert!(!b.interacts_with(&a));
}

#[test]
fn negative_priority_is_ignored() {
    let mut a = RapierCollisionObject::new(1, CollisionObjectType::Body);
    a.set_collision_priority(num(-2.0));
    assert_eq!(a.get_collision_priority(), num(1.0));
    a.set_collision_priority(num(-0.0));
    assert_eq!(a.get_collision_priority(), num(-0.0));
    a.set_collision_priority(num(3.5));
    assert_eq!(a.get_collision_priority(), num(3.5));
}

#[test]
fn user_data_round_trip() {
    let a = RapierCollisionObject::new(0xdead_beef_0000_0001, CollisionObjectType::Body);
    let mut data = UserData::default();
    a.set_collider_user_data(&mut data, 5);
    assert_eq!(data, UserData { part1: 0xdead_beef_0000_0001, part2: 5 });
    assert_eq!(RapierCollisionObject::get_collider_user_data(&data), (0xdead_beef_0000_0001, 5));
}

#[test]
fn shape_getters_past_the_end() {
    let mut a = RapierCollisionObject::new(1, CollisionObjectType::Body);
    let xf = Transform { origin: Vector { x: num(3.0), y: num(4.0) }, ..Transform::default() };
    assert_eq!(a.add_shape(11, xf, false), 0);
    assert_eq!(a.get_shape(0), 11);
    assert_eq!(a.get_shape(1), INVALID_RID);
    assert_eq!(a.get_shape_transform(0), xf);
    assert_eq!(a.get_shape_transform(3), Transform::default());
    assert!(!a.is_shape_disabled(0));
    assert!(a.is_shape_disabled(1));
    a.set_shape_as_one_way_collision(0, true, num(2.0));
    assert!(a.is_shape_set_as_one_way_collision(0));
    assert_eq!(a.get_shape_one_way_collision_margin(0), num(2.0));
    assert!(!a.is_shape_set_as_one_way_collision(1));
    assert_eq!(a.get_shape_one_way_collision_margin(1), num(0.0));
}

#[test]
fn remove_shape_rid_removes_every_binding() {
    let mut a = RapierCollisionObject::new(1, CollisionObjectType::Body);
    a.add_shape(5, Transform::default(), false);
    a.add_shape(6, Transform::default(), false);
    a.add_shape(5, Transform::default(), true);
    a.add_shape(7, Transform::default(), false);
    let removed = a.remove_shape_rid(5);
    assert_eq!(removed.len(), 2);
    assert!(!removed[0].shape.disabled);
    assert!(removed[1].shape.disabled);
    assert_eq!(a.get_shape_count(), 2);
    assert_eq!(a.get_shape(0), 6);
    assert_eq!(a.get_shape(1), 7);
}

#[test]
fn changing_space_destroys_and_recreates() {
    let mut a = RapierCollisionObject::new(9, CollisionObjectType::Body);
    a.set_instance_id(77);
    a.add_shape(5, Transform::default(), false);
    a.add_shape(6, Transform::default(), false);
    let world = Handle { id: 0, generation: 1 };
    let change = a.set_space(100, Some(world));
    assert_eq!(change.transition.created_body, Some(BodyType::Dynamic));
    assert!(change.transition.destroyed_body.is_none());
    assert!(change.transition.destroyed_colliders.is_empty());
    a.set_body_handle(Handle { id: 3, generation: 0 });
    a.set_shape_collider_handle(0, Handle { id: 10, generation: 0 });
    a.set_shape_collider_handle(1, Handle { id: 11, generation: 0 });
    assert!(a.is_valid());
    a.increment_area_detection_counter();

    let same = a.set_space(100, Some(world));
    assert!(same.transition.destroyed_body.is_none());
    assert!(same.transition.created_body.is_none());

    let change = a.set_space(200, None);
    assert_eq!(change.transition.old_space_handle, world);
    assert_eq!(change.transition.destroyed_body, Some(Handle { id: 3, generation: 0 }));
    assert_eq!(
        change.transition.destroyed_colliders,
        vec![Handle { id: 10, generation: 0 }, Handle { id: 11, generation: 0 }]
    );
    assert_eq!(change.removed.len(), 2);
    assert_eq!(change.removed[1].0, Handle { id: 11, generation: 0 });
    assert_eq!(change.removed[1].1.rid, 9);
    assert_eq!(change.removed[1].1.instance_id, 77);
    assert_eq!(change.removed[1].1.shape_index, 1);
    assert!(change.transition.created_body.is_none());
    assert_eq!(a.get_space(), INVALID_RID);
    assert_eq!(a.get_area_detection_counter(), 0);
    assert_eq!(a.get_body_handle(), invalid_handle());
    assert!(!a.is_valid());
}

#[test]
fn remove_shape_idx_keeps_record_while_detected() {
    let mut a = RapierCollisionObject::new(9, CollisionObjectType::Area);
    a.add_shape(5, Transform::default(), false);
    a.set_space(100, Some(Handle { id: 0, generation: 0 }));
    a.set_shape_collider_handle(0, Handle { id: 4, generation: 2 });
    a.increment_area_detection_counter();
    let rm = a.remove_shape_idx(0).unwrap();
    assert_eq!(rm.destroyed_collider, Some(Handle { id: 4, generation: 2 }));
    let (h, info) = rm.record.unwrap();
    assert_eq!(h, Handle { id: 4, generation: 2 });
    assert_eq!(info.collision_object_type, CollisionObjectType::Area);
    assert!(a.remove_shape_idx(0).is_none());
}

#[test]
fn collider_requests_follow_the_world() {
    let mut a = RapierCollisionObject::new(9, CollisionObjectType::Area);
    a.add_shape(5, Transform::default(), false);
    let shape = Handle { id: 2, generation: 0 };
    assert!(a.create_shape(0, shape).is_none());
    a.set_space(100, Some(Handle { id: 0, generation: 0 }));
    a.set_body_handle(Handle { id: 8, generation: 0 });
    assert!(a.create_shape(0, invalid_handle()).is_none());
    let req = a.create_shape(0, shape).unwrap();
    assert!(req.sensor);
    assert_eq!(req.user_data, UserData { part1: 9, part2: 0 });
    assert_eq!(req.body_handle, Handle { id: 8, generation: 0 });
    assert!(a.update_shape_transform(0).is_none());
    a.set_shape_collider_handle(0, Handle { id: 4, generation: 0 });
    assert_eq!(a.update_shape_transform(0), Some(Handle { id: 4, generation: 0 }));
    assert!(a.update_shape_transform(1).is_none());
    let b = RapierCollisionObject::new(10, CollisionObjectType::Body);
    assert!(b.create_shape(0, shape).is_none());
}

#[test]
fn object_outside_a_world_holds_no_body() {
    let mut a = RapierCollisionObject::new(9, CollisionObjectType::Body);
    a.set_body_handle(Handle { id: 3, generation: 0 });
    assert_eq!(a.get_body_handle(), invalid_handle());
    a.set_space(100, Some(Handle { id: 0, generation: 0 }));
    a.set_body_handle(Handle { id: 3, generation: 0 });
    assert_eq!(a.get_body_handle(), Handle { id: 3, generation: 0 });
    let change = a.set_space(200, None);
    assert_eq!(change.transition.destroyed_body, Some(Handle { id: 3, generation: 0 }));
    assert_eq!(a.get_body_handle(), invalid_handle());
    assert_eq!(a.get_space(), INVALID_RID);
    assert!(!a.get_space_handle().is_valid());
    assert!(!a.is_valid());
}

#[test]
fn remove_shape_rid_reports_each_removal() {
    let mut a = RapierCollisionObject::new(9, CollisionObjectType::Area);
    a.set_instance_id(4);
    a.add_shape(5, Transform::default(), false);
    a.add_shape(6, Transform::default(), false);
    a.add_shape(5, Transform::default(), false);
    a.set_space(100, Some(Handle { id: 0, generation: 0 }));
    a.set_shape_collider_handle(0, Handle { id: 10, generation: 0 });
    a.set_shape_collider_handle(2, Handle { id: 12, generation: 0 });
    a.increment_area_detection_counter();
    let removed = a.remove_shape_rid(5);
    assert_eq!(removed.len(), 2);
    assert_eq!(removed[0].destroyed_collider, Some(Handle { id: 10, generation: 0 }));
    assert_eq!(removed[0].record.unwrap().1.shape_index, 0);
    assert_eq!(removed[1].destroyed_collider, Some(Handle { id: 12, generation: 0 }));
    assert_eq!(removed[1].record.unwrap().1.shape_index, 1);
    assert_eq!(removed[1].record.unwrap().1.instance_id, 4);
}
