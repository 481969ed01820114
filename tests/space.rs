use godot_rapier::area::AreaBodyStatus;
use godot_rapier::area::RapierArea;
use godot_rapier::collision_object::CollisionObjectType;
use godot_rapier::collision_object::RemovedColliderInfo;
use godot_rapier::handle::invalid_handle;
use godot_rapier::handle::Handle;
use godot_rapier::space::AreaParameter;
use godot_rapier::space::ParamValue;
use godot_rapier::space::RapierSpace;
use godot_rapier::types::RealBits;
use godot_rapier::types::Vector;

fn num(x: f32) -> RealBits {
    RealBits { bits: x.to_bits() }
}

fn space() -> RapierSpace {
    RapierSpace::new(
        Handle { id: 0, generation: 0 },
        Vector { x: num(0.0), y: num(1.0) },
        num(980.0),
        num(0.1),
    )
}

#[test]
fn work_lists_are_sets() {
    let mut sp = space();
    sp.body_add_to_active_list(4);
    sp.body_add_to_active_list(4);
    sp.body_add_to_active_list(5);
    assert_eq!(sp.get_active_list(), vec![4, 5]);
    sp.body_remove_from_active_list(4);
    sp.body_remove_from_active_list(4);
    assert_eq!(sp.get_active_bodies(), vec![5]);
    sp.body_add_to_gravity_update_list(1);
    sp.body_remove_from_gravity_update_list(2);
    assert_eq!(sp.get_gravity_update_list(), vec![1]);
}

#[test]
fn body_queries_are_the_union() {
    let mut sp = space();
    sp.body_add_to_state_query_list(1);
    sp.body_add_to_state_query_list(2);
    sp.body_add_to_force_integrate_list(2);
    sp.body_add_to_force_integrate_list(3);
    assert_eq!(sp.get_body_queries(), vec![1, 2, 3]);
    sp.body_remove_from_state_query_list(1);
    sp.body_remove_from_force_integrate_list(3);
    assert_eq!(sp.get_body_queries(), vec![2]);
}

#[test]
fn removed_colliders_last_one_step() {
    let mut sp = space();
    let c = Handle { id: 7, generation: 1 };
    let info = RemovedColliderInfo {
        rid: 10,
        instance_id: 11,
        shape_index: 2,
        collision_object_type: CollisionObjectType::Body,
    };
    assert!(sp.get_removed_collider_info(&c).is_none());
    sp.add_removed_collider(c, info);
    assert_eq!(sp.get_removed_collider_info(&c), Some(info));
    assert!(sp.get_removed_collider_info(&Handle { id: 7, generation: 2 }).is_none());
    sp.body_add_to_active_list(3);
    let active = sp.after_step(6);
    assert_eq!(active, vec![3]);
    assert_eq!(sp.get_active_objects(), 6);
    assert!(sp.get_removed_collider_info(&c).is_none());
}

#[test]
fn plan_step_resets_mass_list_and_debug_count() {
    let mut sp = space();
    sp.set_debug_contacts(2);
    sp.add_debug_contact(Vector { x: num(1.0), y: num(2.0) });
    sp.add_debug_contact(Vector { x: num(3.0), y: num(4.0) });
    sp.add_debug_contact(Vector { x: num(5.0), y: num(6.0) });
    assert_eq!(sp.get_debug_contact_count(), 2);
    assert_eq!(sp.get_debug_contacts()[1], Vector { x: num(3.0), y: num(4.0) });
    sp.body_add_to_mass_properties_update_list(8);
    sp.body_add_to_area_update_list(9);
    let plan = sp.plan_step(&Vec::new());
    assert_eq!(plan.mass_updates, vec![8]);
    assert_eq!(plan.body_area_updates, vec![9]);
    assert!(sp.get_mass_properties_update_list().is_empty());
    assert_eq!(sp.get_body_area_update_list(), vec![9]);
    assert_eq!(sp.get_debug_contact_count(), 0);
    assert!(sp.is_debugging_contacts());
    sp.set_debug_contacts(-1);
    assert!(!sp.is_debugging_contacts());
}

#[test]
fn default_area_params() {
    let mut sp = space();
    assert_eq!(sp.get_default_area_param(AreaParameter::Gravity), ParamValue::Real(num(980.0)));
    sp.set_default_area_param(AreaParameter::LinearDamp, ParamValue::Real(num(0.25)));
    assert_eq!(sp.get_default_area_param(AreaParameter::LinearDamp), ParamValue::Real(num(0.25)));
    sp.set_default_area_param(AreaParameter::GravityVector, ParamValue::Bool(true));
    assert_eq!(
        sp.get_default_area_param(AreaParameter::GravityVector),
        ParamValue::Vector(Vector::default())
    );
    assert_eq!(sp.get_default_area_param(AreaParameter::Priority), ParamValue::Real(num(0.0)));
}

#[test]
fn destroy_space_once() {
    let mut sp = space();
    assert!(sp.is_valid());
    assert_eq!(sp.destroy_space(), Some(Handle { id: 0, generation: 0 }));
    assert!(!sp.is_valid());
    assert_eq!(sp.get_handle(), invalid_handle());
    assert_eq!(sp.destroy_space(), None);
}

#[test]
fn space_flush_collects_and_clears() {
    let mut sp = space();
    let mut a = RapierArea::new(100);
    a.set_monitor_callback(Some(1));
    let mut b = RapierArea::new(200);
    b.set_monitor_callback(Some(2));
    let c1 = Handle { id: 1, generation: 0 };
    let c2 = Handle { id: 2, generation: 0 };
    b.on_body_enter(c1, true, 0, 7, 70, c2, 0, &mut sp);
    a.on_body_enter(c1, true, 0, 7, 70, c2, 1, &mut sp);
    let mut areas = vec![a, b];
    let q = sp.get_queries(&mut areas);
    assert_eq!(q.areas.len(), 2);
    assert_eq!(q.areas[0].callback, 2);
    assert_eq!(q.areas[1].callback, 1);
    assert_eq!(q.areas[1].area_shape_index, 1);
    assert_eq!(q.areas[0].status, AreaBodyStatus::Added);
    assert!(sp.get_queries(&mut areas).areas.is_empty());
    areas[0].on_body_exit(c1, true, 0, 7, 70, c2, 1, &mut sp);
    assert_eq!(areas[0].pending_event_count(), 1);
    sp.update_after_queries(&mut areas);
    assert_eq!(areas[0].pending_event_count(), 0);
}

#[test]
fn a_step_drains_area_updates_and_records() {
    let mut sp = space();
    let mut a = RapierArea::new(100);
    let b = RapierArea::new(200);
    let c1 = Handle { id: 1, generation: 0 };
    let c2 = Handle { id: 2, generation: 0 };
    a.on_body_enter(c1, true, 0, 7, 70, c2, 0, &mut sp);
    a.on_body_enter(c2, true, 0, 8, 80, c2, 0, &mut sp);
    sp.area_add_to_area_update_list(100);
    sp.area_add_to_area_update_list(300);
    sp.area_add_to_area_update_list(200);
    let info = RemovedColliderInfo {
        rid: 10,
        instance_id: 11,
        shape_index: 0,
        collision_object_type: CollisionObjectType::Body,
    };
    sp.add_removed_collider(c1, info);
    let areas = vec![a, b];
    let plan = sp.plan_step(&areas);
    assert_eq!(plan.area_updates, vec![100, 300, 200]);
    assert_eq!(plan.area_override_bodies, vec![7, 8]);
    assert!(sp.get_area_update_list().is_empty());
    assert_eq!(sp.get_removed_collider_info(&c1), Some(info));
    sp.after_step(0);
    assert!(sp.get_removed_collider_info(&c1).is_none());
    let plan = sp.plan_step(&areas);
    assert!(plan.area_updates.is_empty());
    assert!(plan.area_override_bodies.is_empty());
}
