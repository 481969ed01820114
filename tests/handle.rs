use godot_rapier::handle::are_handles_equal;
use godot_rapier::handle::are_handles_equal_double;
use godot_rapier::handle::handle_pair_hash;
use godot_rapier::handle::invalid_handle;
use godot_rapier::handle::invalid_handle_double;
use godot_rapier::handle::is_handle_valid;
use godot_rapier::handle::is_handle_valid_double;
use godot_rapier::handle::Handle;
use godot_rapier::handle::HandleDouble;

#[test]
fn invalid_handle_is_not_valid() {
    let h = invalid_handle();
    assert!(!h.is_valid());
    assert!(!is_handle_valid(h));
    assert_eq!(h.id, u32::MAX);
    assert_eq!(h.generation, u32::MAX);
    assert_eq!(Handle::default(), h);
}

#[test]
fn half_invalid_handle_is_not_valid() {
    assert!(!Handle { id: 3, generation: u32::MAX }.is_valid());
    assert!(!Handle { id: u32::MAX, generation: 0 }.is_valid());
    assert!(Handle { id: 0, generation: 0 }.is_valid());
}

#[test]
fn double_handles() {
    let h = invalid_handle_double();
    assert!(!is_handle_valid_double(h));
    assert_eq!(HandleDouble::default(), h);
    let a = HandleDouble { id: 4, generation: 9 };
    assert!(a.is_valid());
    assert!(are_handles_equal_double(a, HandleDouble { id: 4, generation: 9 }));
    assert!(!are_handles_equal_double(a, HandleDouble { id: 4, generation: 10 }));
}

#[test]
fn handle_equality_needs_both_parts() {
    let a = Handle { id: 1, generation: 2 };
    assert!(are_handles_equal(a, Handle { id: 1, generation: 2 }));
    assert!(!are_handles_equal(a, Handle { id: 1, generation: 3 }));
    assert!(!are_handles_equal(a, Handle { id: 2, generation: 2 }));
}

#[test]
fn pair_key_keeps_order() {
    let a = Handle { id: 1, generation: 0 };
    let b = Handle { id: 2, generation: 0 };
    assert_eq!(handle_pair_hash(a, b), (a, b));
    assert_ne!(handle_pair_hash(a, b), handle_pair_hash(b, a));
}
