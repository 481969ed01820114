use godot_rapier::damped_spring_joint::DampedSpringParam;
use godot_rapier::damped_spring_joint::RapierDampedSpringJoint2D;
use godot_rapier::collision_object::CollisionObjectType;
use godot_rapier::collision_object::RapierCollisionObject;
use godot_rapier::handle::invalid_handle;
use godot_rapier::handle::Handle;
use godot_rapier::joint_base::RapierJointBase;
use godot_rapier::query::is_handle_excluded;
use godot_rapier::query::QueryExcludedInfo;
use godot_rapier::shape_base::RapierShapeBase;
use godot_rapier::types::RealBits;
use godot_rapier::types::Rect;
use godot_rapier::types::Vector;

fn num(x: f32) -> RealBits {
    RealBits { bits: x.to_bits() }
}

#[test]
fn shape_owners_are_counted() {
    let mut s = RapierShapeBase::new(5);
    s.add_owner(10);
    s.add_owner(10);
    s.add_owner(11);
    assert_eq!(s.owner_count(10), 2);
    assert_eq!(s.get_owners(), vec![10, 11]);
    s.remove_owner(10);
    s.remove_owner(11);
    s.remove_owner(12);
    assert_eq!(s.get_owners(), vec![10]);
    s.remove_owner(10);
    assert!(s.get_owners().is_empty());
    assert_eq!(s.owner_count(10), 0);
}

#[test]
fn shape_handle_replacement() {
    let mut s = RapierShapeBase::default();
    assert!(!s.is_valid());
    let bounds = Rect {
        position: Vector { x: num(-1.0), y: num(-1.0) },
        size: Vector { x: num(2.0), y: num(2.0) },
    };
    assert_eq!(s.set_handle(Handle { id: 1, generation: 0 }, bounds), None);
    assert!(s.is_valid());
    assert_eq!(s.get_local_aabb(), bounds);
    assert_eq!(
        s.set_handle(Handle { id: 2, generation: 0 }, Rect::default()),
        Some(Handle { id: 1, generation: 0 })
    );
    assert_eq!(s.destroy_shape(), Some(Handle { id: 2, generation: 0 }));
    assert_eq!(s.destroy_shape(), None);
    assert_eq!(s.get_handle(), invalid_handle());
}

#[test]
fn joint_settings() {
    let mut j = RapierJointBase::new(Handle { id: 0, generation: 0 }, 77, Handle { id: 3, generation: 1 });
    assert!(j.is_valid());
    assert_eq!(j.get_max_force(), num(f32::MAX));
    assert!(j.is_disabled_collisions_between_bodies());
    assert!(j.disable_collisions_between_bodies(false));
    let mut k = RapierJointBase::default();
    assert!(!k.is_valid());
    j.set_max_force(num(12.0));
    assert!(!k.copy_settings_from(&j));
    assert_eq!(k.get_max_force(), num(12.0));
    assert!(!k.is_disabled_collisions_between_bodies());
    assert_eq!(j.destroy_joint(), (Handle { id: 0, generation: 0 }, Handle { id: 3, generation: 1 }));
    assert!(!j.is_valid());
    assert_eq!(j.get_space(), 77);
}

fn info() -> QueryExcludedInfo {
    QueryExcludedInfo {
        query_collision_layer_mask: 0b10,
        query_canvas_instance_id: 0,
        query_exclude: vec![Handle { id: 1, generation: 0 }, Handle { id: 2, generation: 0 }],
        query_exclude_size: 1,
        query_exclude_body: -1,
    }
}

#[test]
fn query_exclusion_rules() {
    let mut o = RapierCollisionObject::new(40, CollisionObjectType::Body);
    o.set_collision_layer(0b10);
    let q = info();
    assert!(is_handle_excluded(Handle { id: 1, generation: 0 }, None, &q, false));
    assert!(!is_handle_excluded(Handle { id: 2, generation: 0 }, None, &q, false));
    assert!(!is_handle_excluded(Handle { id: 2, generation: 0 }, Some(&o), &q, false));
    assert!(is_handle_excluded(Handle { id: 2, generation: 0 }, Some(&o), &q, true));
    o.set_collision_layer(0b01);
    assert!(is_handle_excluded(Handle { id: 2, generation: 0 }, Some(&o), &q, false));
    o.set_collision_layer(0b10);
    o.set_canvas_instance_id(9);
    assert!(is_handle_excluded(Handle { id: 2, generation: 0 }, Some(&o), &q, false));
    o.set_canvas_instance_id(0);
    let mut q2 = info();
    q2.query_exclude_body = 40;
    assert!(is_handle_excluded(Handle { id: 2, generation: 0 }, Some(&o), &q2, false));
}

#[test]
fn damped_spring_params() {
    let world = Handle { id: 0, generation: 0 };
    let joint = Handle { id: 4, generation: 0 };
    let mut s = RapierDampedSpringJoint2D::new(world, 3, joint, num(10.0));
    assert_eq!(s.get_param(DampedSpringParam::RestLength), num(10.0));
    assert_eq!(s.get_param(DampedSpringParam::Stiffness), num(20.0));
    assert_eq!(s.get_param(DampedSpringParam::Damping), num(1.5));
    assert_eq!(s.set_param(DampedSpringParam::Damping, num(0.5)), Some((world, joint)));
    assert_eq!(s.get_param(DampedSpringParam::Damping), num(0.5));
    s.get_mut_base().destroy_joint();
    assert_eq!(s.set_param(DampedSpringParam::Stiffness, num(3.0)), None);
    assert_eq!(s.get_param(DampedSpringParam::Stiffness), num(3.0));
    assert!(!s.get_base().is_valid());
}
