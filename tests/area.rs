use godot_rapier::area::AreaBodyStatus;
use godot_rapier::area::AreaQuery;
use godot_rapier::area::AreaUpdateMode;
use godot_rapier::area::RapierArea;
use godot_rapier::handle::Handle;
use godot_rapier::space::AreaParameter;
use godot_rapier::space::AreaSpaceOverrideMode;
use godot_rapier::space::ParamValue;
use godot_rapier::space::RapierSpace;
use godot_rapier::types::RealBits;
use godot_rapier::types::Vector;

const AREA_RID: u64 = 1000;
const BODY_RID: u64 = 2000;
const CALLBACK: u64 = 55;
const AREA_CALLBACK: u64 = 66;

fn num(x: f32) -> RealBits {
    RealBits { bits: x.to_bits() }
}

fn space() -> RapierSpace {
    RapierSpace::new(
        Handle { id: 0, generation: 0 },
        Vector { x: num(0.0), y: num(1.0) },
        num(980.0),
        num(0.1),
    )
}

fn h(id: u32) -> Handle {
    Handle { id, generation: 0 }
}

fn monitored_area() -> RapierArea {
    let mut area = RapierArea::new(AREA_RID);
    area.set_monitorable(true);
    area.set_monitor_callback(Some(CALLBACK));
    area
}

#[test]
fn body_enter_then_flush() {
    let mut sp = space();
    let mut area = monitored_area();
    let first = area.on_body_enter(h(1), true, 2, BODY_RID, 42, h(9), 3, &mut sp);
    assert!(first);
    assert_eq!(area.detected_body_count(BODY_RID), 1);
    assert_eq!(area.get_base().get_area_detection_counter(), 1);
    assert_eq!(area.pending_event_count(), 1);
    let queries = area.get_queries();
    assert_eq!(area.pending_event_count(), 0);
    assert_eq!(
        queries,
        vec![AreaQuery {
            callback: CALLBACK,
            status: AreaBodyStatus::Added,
            rid: BODY_RID,
            instance_id: 42,
            object_shape_index: 2,
            area_shape_index: 3,
        }]
    );
}

#[test]
fn second_flush_is_empty() {
    let mut sp = space();
    let mut area = monitored_area();
    area.on_body_enter(h(1), true, 0, BODY_RID, 42, h(9), 0, &mut sp);
    area.on_body_exit(h(2), true, 0, BODY_RID + 1, 43, h(9), 0, &mut sp);
    assert_eq!(area.get_queries().len(), 2);
    assert!(area.get_queries().is_empty());
}

#[test]
fn enter_then_exit_cancels_out() {
    let mut sp = space();
    let mut area = monitored_area();
    area.on_body_enter(h(1), true, 0, BODY_RID, 42, h(9), 0, &mut sp);
    let gone = area.on_body_exit(h(1), true, 0, BODY_RID, 42, h(9), 0, &mut sp);
    assert!(gone);
    assert_eq!(area.detected_body_count(BODY_RID), 0);
    assert_eq!(area.get_base().get_area_detection_counter(), 0);
    assert!(area.get_queries().is_empty());
}

#[test]
fn exit_after_flush_is_reported() {
    let mut sp = space();
    let mut area = monitored_area();
    area.on_body_enter(h(1), true, 0, BODY_RID, 42, h(9), 0, &mut sp);
    area.get_queries();
    area.on_body_exit(h(1), true, 0, BODY_RID, 42, h(9), 0, &mut sp);
    let q = area.get_queries();
    assert_eq!(q.len(), 1);
    assert_eq!(q[0].status, AreaBodyStatus::Removed);
}

#[test]
fn counts_follow_shapes() {
    let mut sp = space();
    let mut area = monitored_area();
    assert!(area.on_body_enter(h(1), true, 0, BODY_RID, 42, h(9), 0, &mut sp));
    assert!(!area.on_body_enter(h(2), true, 1, BODY_RID, 42, h(9), 0, &mut sp));
    assert_eq!(area.detected_body_count(BODY_RID), 2);
    assert!(!area.on_body_exit(h(1), true, 0, BODY_RID, 42, h(9), 0, &mut sp));
    assert_eq!(area.detected_body_count(BODY_RID), 1);
    assert!(area.on_body_exit(h(2), true, 1, BODY_RID, 42, h(9), 0, &mut sp));
    assert_eq!(area.detected_body_count(BODY_RID), 0);
    assert!(area.detected_body_ids().is_empty());
}

#[test]
fn duplicate_enter_is_not_queued_twice() {
    let mut sp = space();
    let mut area = monitored_area();
    area.on_body_enter(h(1), true, 0, BODY_RID, 42, h(9), 0, &mut sp);
    area.on_body_enter(h(1), true, 0, BODY_RID, 42, h(9), 0, &mut sp);
    assert_eq!(area.pending_event_count(), 1);
    assert_eq!(area.get_base().get_area_detection_counter(), 2);
}

#[test]
fn no_monitor_no_events() {
    let mut sp = space();
    let mut area = RapierArea::new(AREA_RID);
    assert!(area.on_body_enter(h(1), true, 0, BODY_RID, 42, h(9), 0, &mut sp));
    assert_eq!(area.pending_event_count(), 0);
    assert_eq!(area.get_base().get_area_detection_counter(), 0);
    assert_eq!(area.detected_body_count(BODY_RID), 1);
}

#[test]
fn missing_body_is_ignored_on_enter() {
    let mut sp = space();
    let mut area = monitored_area();
    assert!(!area.on_body_enter(h(1), false, 0, BODY_RID, 42, h(9), 0, &mut sp));
    assert_eq!(area.pending_event_count(), 0);
    assert_eq!(area.detected_body_count(BODY_RID), 0);
}

#[test]
fn area_monitoring_needs_monitorable_other() {
    let mut sp = space();
    let mut area = RapierArea::new(AREA_RID);
    area.set_area_monitor_callback(Some(AREA_CALLBACK));
    let mut other = RapierArea::new(3000);
    area.on_area_enter(h(1), &mut other, 0, 3000, 5, h(9), 0, &mut sp);
    assert_eq!(area.pending_event_count(), 0);
    other.set_monitorable(true);
    area.on_area_enter(h(1), &mut other, 0, 3000, 5, h(9), 0, &mut sp);
    assert_eq!(area.pending_event_count(), 1);
    assert_eq!(other.get_base().get_area_detection_counter(), 1);
    let q = area.get_queries();
    assert_eq!(q[0].callback, AREA_CALLBACK);
    assert_eq!(q[0].status, AreaBodyStatus::Added);
    area.on_area_exit(h(1), &mut other, 0, 3000, 5, h(9), 0, &mut sp);
    assert_eq!(other.get_base().get_area_detection_counter(), 0);
    let q = area.get_queries();
    assert_eq!(q.len(), 1);
    assert_eq!(q[0].status, AreaBodyStatus::Removed);
    area.on_area_exit(h(1), &mut other, 0, 3000, 5, h(9), 0, &mut sp);
    assert_eq!(area.pending_event_count(), 0);
}

#[test]
fn removed_area_exit_still_queued() {
    let mut sp = space();
    let mut area = RapierArea::new(AREA_RID);
    area.set_area_monitor_callback(Some(AREA_CALLBACK));
    area.on_removed_area_exit(h(1), 0, 3000, 5, h(9), 0, &mut sp);
    assert_eq!(area.pending_event_count(), 1);
}

#[test]
fn override_mode_transitions() {
    let mut area = RapierArea::new(AREA_RID);
    let r = area.set_param(AreaParameter::GravityOverrideMode, ParamValue::Mode(AreaSpaceOverrideMode::Replace));
    assert_eq!(r.mode, AreaUpdateMode::EnableSpaceOverride);
    let r = area.set_param(AreaParameter::LinearDampOverrideMode, ParamValue::Int(1));
    assert_eq!(r.mode, AreaUpdateMode::Unchanged);
    assert_eq!(area.get_param(AreaParameter::LinearDampOverrideMode), ParamValue::Mode(AreaSpaceOverrideMode::Combine));
    let r = area.set_param(AreaParameter::Priority, ParamValue::Int(3));
    assert_eq!(r.mode, AreaUpdateMode::ResetSpaceOverride);
    let r = area.set_param(AreaParameter::Priority, ParamValue::Int(3));
    assert_eq!(r.mode, AreaUpdateMode::Unchanged);
    area.set_param(AreaParameter::GravityOverrideMode, ParamValue::Int(0));
    let r = area.set_param(AreaParameter::LinearDampOverrideMode, ParamValue::Mode(AreaSpaceOverrideMode::Disabled));
    assert_eq!(r.mode, AreaUpdateMode::DisableSpaceOverride);
    assert!(!area.has_any_space_override());
}

#[test]
fn value_change_schedules_update_only_under_override() {
    let mut area = RapierArea::new(AREA_RID);
    let r = area.set_param(AreaParameter::Gravity, ParamValue::Real(num(10.0)));
    assert!(!r.schedule_area_update);
    assert_eq!(area.get_param(AreaParameter::Gravity), ParamValue::Real(num(10.0)));
    area.set_param(AreaParameter::GravityOverrideMode, ParamValue::Mode(AreaSpaceOverrideMode::Combine));
    let r = area.set_param(AreaParameter::Gravity, ParamValue::Real(num(20.0)));
    assert!(r.schedule_area_update);
    let r = area.set_param(AreaParameter::Gravity, ParamValue::Real(num(20.0)));
    assert!(!r.schedule_area_update);
    let r = area.set_param(AreaParameter::LinearDamp, ParamValue::Real(num(0.5)));
    assert!(!r.schedule_area_update);
    assert_eq!(area.get_linear_damp(), num(0.5));
}

#[test]
fn wrong_value_kind_changes_nothing() {
    let mut area = RapierArea::new(AREA_RID);
    let r = area.set_param(AreaParameter::Gravity, ParamValue::Bool(true));
    assert_eq!(r.mode, AreaUpdateMode::Unchanged);
    assert_eq!(area.get_param(AreaParameter::Gravity), ParamValue::Real(num(0.0)));
    let r = area.set_param(AreaParameter::GravityOverrideMode, ParamValue::Int(9));
    assert_eq!(r.mode, AreaUpdateMode::Unchanged);
    assert_eq!(area.get_param(AreaParameter::WindSource), ParamValue::Nil);
}

#[test]
fn clear_detected_bodies_hands_them_back() {
    let mut sp = space();
    let mut area = monitored_area();
    area.on_body_enter(h(1), true, 0, BODY_RID, 42, h(9), 0, &mut sp);
    area.on_body_enter(h(2), true, 0, BODY_RID + 1, 43, h(9), 0, &mut sp);
    sp.area_add_to_area_update_list(AREA_RID);
    sp.area_add_to_area_update_list(AREA_RID + 1);
    let bodies = area.clear_detected_bodies(&mut sp);
    assert_eq!(sp.get_area_update_list(), vec![AREA_RID + 1]);
    assert_eq!(bodies, vec![BODY_RID, BODY_RID + 1]);
    assert_eq!(area.pending_event_count(), 0);
    assert_eq!(area.detected_body_count(BODY_RID), 0);
}

#[test]
fn override_switch_leaves_update_list() {
    let mut sp = space();
    let mut area = monitored_area();
    area.on_body_enter(h(1), true, 0, BODY_RID, 42, h(9), 0, &mut sp);
    sp.area_add_to_area_update_list(AREA_RID);
    assert_eq!(sp.get_area_update_list(), vec![AREA_RID]);
    assert_eq!(area.enable_space_override(&mut sp), vec![BODY_RID]);
    assert!(sp.get_area_update_list().is_empty());
    sp.area_add_to_area_update_list(AREA_RID);
    assert_eq!(area.update_area_override(&mut sp), vec![BODY_RID]);
    assert!(sp.get_area_update_list().is_empty());
    assert_eq!(area.disable_space_override(&mut sp), vec![BODY_RID]);
    assert_eq!(area.reset_space_override(&mut sp), vec![BODY_RID]);
}

#[test]
fn real_params_compare_as_numbers() {
    let mut area = RapierArea::new(AREA_RID);
    area.set_param(AreaParameter::GravityOverrideMode, ParamValue::Mode(AreaSpaceOverrideMode::Combine));
    let r = area.set_param(AreaParameter::Gravity, ParamValue::Real(num(-0.0)));
    assert!(!r.schedule_area_update);
    assert_eq!(area.get_param(AreaParameter::Gravity), ParamValue::Real(num(0.0)));
    let nan = RealBits { bits: 0x7fc0_0000 };
    let r = area.set_param(AreaParameter::Gravity, ParamValue::Real(nan));
    assert!(r.schedule_area_update);
    let r = area.set_param(AreaParameter::Gravity, ParamValue::Real(nan));
    assert!(r.schedule_area_update);
    let r = area.set_param(
        AreaParameter::GravityVector,
        ParamValue::Vector(Vector { x: num(-0.0), y: num(0.0) }),
    );
    assert!(!r.schedule_area_update);
    let r = area.set_param(AreaParameter::GravityVector, ParamValue::Vector(Vector { x: num(0.0), y: num(1.0) }));
    assert!(r.schedule_area_update);
}
