use godot_rapier::handle::Handle;
use godot_rapier::solver_handle::collider_handle_to_handle;
use godot_rapier::solver_handle::handle_to_collider_handle;
use godot_rapier::solver_handle::handle_to_joint_handle;
use godot_rapier::solver_handle::handle_to_rigid_body_handle;
use godot_rapier::solver_handle::handle_to_shape_handle;
use godot_rapier::solver_handle::handle_to_world_handle;
use godot_rapier::solver_handle::joint_handle_to_handle;
use godot_rapier::solver_handle::rigid_body_handle_to_handle;
use godot_rapier::solver_handle::shape_handle_to_handle;
use godot_rapier::solver_handle::world_handle_to_handle;
use rapier2d::data::Index;
use rapier2d::prelude::ColliderHandle;
use rapier2d::prelude::ImpulseJointHandle;
use rapier2d::prelude::RigidBodyHandle;

#[test]
fn collider_handles_convert_both_ways() {
    let h = Handle { id: 12, generation: 3 };
    let c = handle_to_collider_handle(h);
    assert_eq!(c, ColliderHandle::from_raw_parts(12, 3));
    assert_eq!(collider_handle_to_handle(ColliderHandle::from_raw_parts(7, 1)), Handle { id: 7, generation: 1 });
    assert_eq!(collider_handle_to_handle(c), h);
}

#[test]
fn body_and_joint_handles_convert_both_ways() {
    let h = Handle { id: 5, generation: 9 };
    assert_eq!(handle_to_rigid_body_handle(h), RigidBodyHandle::from_raw_parts(5, 9));
    assert_eq!(rigid_body_handle_to_handle(RigidBodyHandle::from_raw_parts(2, 8)), Handle { id: 2, generation: 8 });
    assert_eq!(handle_to_joint_handle(h), ImpulseJointHandle::from_raw_parts(5, 9));
    assert_eq!(joint_handle_to_handle(ImpulseJointHandle::from_raw_parts(4, 0)), Handle { id: 4, generation: 0 });
}

#[test]
fn arena_indices_convert_both_ways() {
    let h = Handle { id: 1, generation: 2 };
    assert_eq!(handle_to_world_handle(h), Index::from_raw_parts(1, 2));
    assert_eq!(handle_to_shape_handle(h).into_raw_parts(), (1, 2));
    assert_eq!(world_handle_to_handle(Index::from_raw_parts(6, 4)), Handle { id: 6, generation: 4 });
    assert_eq!(shape_handle_to_handle(Index::from_raw_parts(0, 0)), Handle { id: 0, generation: 0 });
}

#[test]
fn solver_handle_survives_a_round_trip() {
    let c = ColliderHandle::from_raw_parts(31, 5);
    assert_eq!(handle_to_collider_handle(collider_handle_to_handle(c)), c);
}
