use vstd::prelude::*;

use crate::area::queries_of;
use crate::area::AreaQuery;
use crate::area::AreaView;
use crate::area::RapierArea;
use crate::collision_object::RemovedColliderInfo;
use crate::handle::invalid_handle;
use crate::handle::invalid_handle_spec;
use crate::handle::Handle;
use crate::id_set::IdSet;
use crate::ref_count::count_ids;
use crate::types::zero_vector;
use crate::types::RealBits;
use crate::types::Vector;
use crate::types::REAL_ZERO_BITS;

verus! {

/// The parameters that an area can override and a space holds defaults of.
#[derive(Clone, Copy, Debug, PartialEq, Eq, Hash, Structural)]
pub enum AreaParameter {
    GravityOverrideMode,
    Gravity,
    GravityVector,
    GravityIsPoint,
    GravityPointUnitDistance,
    LinearDampOverrideMode,
    LinearDamp,
    AngularDampOverrideMode,
    AngularDamp,
    Priority,
    WindForceMagnitude,
    WindAttenuationFactor,
    WindSource,
    WindDirection,
}

/// How an area's override is combined with the others that affect a body.
#[derive(Clone, Copy, Debug, PartialEq, Eq, Hash, Structural)]
pub enum AreaSpaceOverrideMode {
    Disabled,
    Combine,
    CombineReplace,
    Replace,
    ReplaceCombine,
}

/// A parameter value as the host hands it over.
#[derive(Clone, Copy, Debug, PartialEq, Eq, Hash, Structural)]
pub enum ParamValue {
    Nil,
    Bool(bool),
    Int(i64),
    Real(RealBits),
    Vector(Vector),
    Mode(AreaSpaceOverrideMode),
}

/// The per-step work of a space, in the order in which it is done.
pub struct StepPlan {
    /// The areas that were waiting for an override update; the list is
    /// drained.
    pub area_updates: Vec<u64>,
    /// The bodies detected by those areas, area by area: their combined
    /// override must be recomputed.
    pub area_override_bodies: Vec<u64>,
    /// Bodies whose combined override must be applied again.
    pub body_area_updates: Vec<u64>,
    /// Bodies whose gravity must be recomputed.
    pub gravity_updates: Vec<u64>,
    /// Bodies whose per-step contact count is reset.
    pub active: Vec<u64>,
    /// Bodies whose mass properties must be recomputed.
    pub mass_updates: Vec<u64>,
}

/// The removed-collider record kept last for `handle`, if any.
pub open spec fn removed_lookup(
    records: Seq<(Handle, RemovedColliderInfo)>,
    handle: Handle,
) -> Option<RemovedColliderInfo>
    decreases records.len(),
{
    if records.len() == 0 {
        None
    } else if records.last().0 == handle {
        Some(records.last().1)
    } else {
        removed_lookup(records.drop_last(), handle)
    }
}

/// The state of a space, as the contracts speak of it.
pub struct SpaceView {
    pub handle: Handle,
    pub active: Set<u64>,
    pub mass_properties_update: Set<u64>,
    pub gravity_update: Set<u64>,
    pub state_query: Set<u64>,
    pub force_integrate_query: Set<u64>,
    pub monitor_query: Seq<u64>,
    pub area_update: Set<u64>,
    pub body_area_update: Set<u64>,
    pub removed_colliders: Seq<(Handle, RemovedColliderInfo)>,
    pub contact_max_allowed_penetration: RealBits,
    pub default_gravity_dir: Vector,
    pub default_gravity_value: RealBits,
    pub default_linear_damping: RealBits,
    pub default_angular_damping: RealBits,
    pub contact_debug: Seq<Vector>,
    pub contact_debug_count: nat,
    pub ghost_collision_distance: RealBits,
    pub island_count: i32,
    pub active_objects: i32,
    pub collision_pairs: i32,
}

pub struct RapierSpace {
    handle: Handle,
    active_list: IdSet,
    mass_properties_update_list: IdSet,
    gravity_update_list: IdSet,
    state_query_list: IdSet,
    force_integrate_query_list: IdSet,
    monitor_query_list: IdSet,
    area_update_list: IdSet,
    body_area_update_list: IdSet,
    removed_colliders: Vec<(Handle, RemovedColliderInfo)>,
    contact_max_allowed_penetration: RealBits,
    default_gravity_dir: Vector,
    default_gravity_value: RealBits,
    default_linear_damping: RealBits,
    default_angular_damping: RealBits,
    contact_debug: Vec<Vector>,
    contact_debug_count: usize,
    ghost_collision_distance: RealBits,
    island_count: i32,
    active_objects: i32,
    collision_pairs: i32,
}

impl View for RapierSpace {
    type V = SpaceView;

    closed spec fn view(&self) -> SpaceView {
        SpaceView {
            handle: self.handle,
            active: self.active_list@,
            mass_properties_update: self.mass_properties_update_list@,
            gravity_update: self.gravity_update_list@,
            state_query: self.state_query_list@,
            force_integrate_query: self.force_integrate_query_list@,
            monitor_query: self.monitor_query_list.order(),
            area_update: self.area_update_list@,
            body_area_update: self.body_area_update_list@,
            removed_colliders: self.removed_colliders@,
            contact_max_allowed_penetration: self.contact_max_allowed_penetration,
            default_gravity_dir: self.default_gravity_dir,
            default_gravity_value: self.default_gravity_value,
            default_linear_damping: self.default_linear_damping,
            default_angular_damping: self.default_angular_damping,
            contact_debug: self.contact_debug@,
            contact_debug_count: self.contact_debug_count as nat,
            ghost_collision_distance: self.ghost_collision_distance,
            island_count: self.island_count,
            active_objects: self.active_objects,
            collision_pairs: self.collision_pairs,
        }
    }
}

impl RapierSpace {
    /// Every work-list holds each id at most once, and the debug contact count
    /// stays within the buffer.
    pub closed spec fn wf(&self) -> bool {
        &&& self.active_list.wf()
        &&& self.mass_properties_update_list.wf()
        &&& self.gravity_update_list.wf()
        &&& self.state_query_list.wf()
        &&& self.force_integrate_query_list.wf()
        &&& self.monitor_query_list.wf()
        &&& self.area_update_list.wf()
        &&& self.body_area_update_list.wf()
    }

    pub proof fn lemma_wf(&self)
        requires
            self.wf(),
        ensures
            self@.monitor_query.no_duplicates(),
    {
        self.monitor_query_list.lemma_order_matches();
    }

    /// A space over the solver world `handle`, with empty work-lists and the
    /// given default gravity and ghost collision distance.
    pub fn new(
        handle: Handle,
        default_gravity_dir: Vector,
        default_gravity_value: RealBits,
        ghost_collision_distance: RealBits,
    ) -> (r: RapierSpace)
        ensures
            r.wf(),
            r@ == (SpaceView {
                handle,
                active: Set::empty(),
                mass_properties_update: Set::empty(),
                gravity_update: Set::empty(),
                state_query: Set::empty(),
                force_integrate_query: Set::empty(),
                monitor_query: Seq::empty(),
                area_update: Set::empty(),
                body_area_update: Set::empty(),
                removed_colliders: Seq::empty(),
                contact_max_allowed_penetration: RealBits { bits: REAL_ZERO_BITS },
                default_gravity_dir,
                default_gravity_value,
                default_linear_damping: RealBits { bits: REAL_ZERO_BITS },
                default_angular_damping: RealBits { bits: REAL_ZERO_BITS },
                contact_debug: Seq::empty(),
                contact_debug_count: 0,
                ghost_collision_distance,
                island_count: 0,
                active_objects: 0,
                collision_pairs: 0,
            }),
    {
        let r = RapierSpace {
            handle,
            active_list: IdSet::new(),
            mass_properties_update_list: IdSet::new(),
            gravity_update_list: IdSet::new(),
            state_query_list: IdSet::new(),
            force_integrate_query_list: IdSet::new(),
            monitor_query_list: IdSet::new(),
            area_update_list: IdSet::new(),
            body_area_update_list: IdSet::new(),
            removed_colliders: Vec::new(),
            contact_max_allowed_penetration: RealBits { bits: REAL_ZERO_BITS },
            default_gravity_dir,
            default_gravity_value,
            default_linear_damping: RealBits { bits: REAL_ZERO_BITS },
            default_angular_damping: RealBits { bits: REAL_ZERO_BITS },
            contact_debug: Vec::new(),
            contact_debug_count: 0,
            ghost_collision_distance,
            island_count: 0,
            active_objects: 0,
            collision_pairs: 0,
        };
        assert(r@.removed_colliders =~= Seq::<(Handle, RemovedColliderInfo)>::empty());
        assert(r@.contact_debug =~= Seq::<Vector>::empty());
        r
    }

    pub fn get_handle(&self) -> (r: Handle)
        ensures
            r == self@.handle,
    {
        self.handle
    }

    /// The space still owns a solver world.
    pub fn is_valid(&self) -> (r: bool)
        ensures
            r == (self@.handle != invalid_handle_spec()),
    {
        self.handle != invalid_handle()
    }

    /// Forgets the solver world; returns the one that the solver must
    /// destroy, if the space still owned one.
    pub fn destroy_space(&mut self) -> (r: Option<Handle>)
        requires
            old(self).wf(),
        ensures
            final(self).wf(),
            final(self)@ == (SpaceView { handle: invalid_handle_spec(), ..old(self)@ }),
            r == if old(self)@.handle != invalid_handle_spec() {
                Some(old(self)@.handle)
            } else {
                None::<Handle>
            },
    {
        if self.is_valid() {
            let h = self.handle;
            self.handle = invalid_handle();
            Some(h)
        } else {
            None
        }
    }
}

impl RapierSpace {
    pub fn body_add_to_mass_properties_update_list(&mut self, body: u64)
        requires
            old(self).wf(),
        ensures
            final(self).wf(),
            final(self)@ == (SpaceView { mass_properties_update: old(self)@.mass_properties_update.insert(body), ..old(self)@ }),
    {
        self.mass_properties_update_list.insert(body);
    }

    pub fn body_remove_from_mass_properties_update_list(&mut self, body: u64)
        requires
            old(self).wf(),
        ensures
            final(self).wf(),
            final(self)@ == (SpaceView { mass_properties_update: old(self)@.mass_properties_update.remove(body), ..old(self)@ }),
    {
        self.mass_properties_update_list.remove(body);
    }

    pub fn body_add_to_gravity_update_list(&mut self, body: u64)
        requires
            old(self).wf(),
        ensures
            final(self).wf(),
            final(self)@ == (SpaceView { gravity_update: old(self)@.gravity_update.insert(body), ..old(self)@ }),
    {
        self.gravity_update_list.insert(body);
    }

    pub fn body_remove_from_gravity_update_list(&mut self, body: u64)
        requires
            old(self).wf(),
        ensures
            final(self).wf(),
            final(self)@ == (SpaceView { gravity_update: old(self)@.gravity_update.remove(body), ..old(self)@ }),
    {
        self.gravity_update_list.remove(body);
    }

    pub fn body_add_to_active_list(&mut self, body: u64)
        requires
            old(self).wf(),
        ensures
            final(self).wf(),
            final(self)@ == (SpaceView { active: old(self)@.active.insert(body), ..old(self)@ }),
    {
        self.active_list.insert(body);
    }

    pub fn body_remove_from_active_list(&mut self, body: u64)
        requires
            old(self).wf(),
        ensures
            final(self).wf(),
            final(self)@ == (SpaceView { active: old(self)@.active.remove(body), ..old(self)@ }),
    {
        self.active_list.remove(body);
    }

    pub fn body_add_to_state_query_list(&mut self, body: u64)
        requires
            old(self).wf(),
        ensures
            final(self).wf(),
            final(self)@ == (SpaceView { state_query: old(self)@.state_query.insert(body), ..old(self)@ }),
    {
        self.state_query_list.insert(body);
    }

    pub fn body_remove_from_state_query_list(&mut self, body: u64)
        requires
            old(self).wf(),
        ensures
            final(self).wf(),
            final(self)@ == (SpaceView { state_query: old(self)@.state_query.remove(body), ..old(self)@ }),
    {
        self.state_query_list.remove(body);
    }

    pub fn body_add_to_force_integrate_list(&mut self, body: u64)
        requires
            old(self).wf(),
        ensures
            final(self).wf(),
            final(self)@ == (SpaceView { force_integrate_query: old(self)@.force_integrate_query.insert(body), ..old(self)@ }),
    {
        self.force_integrate_query_list.insert(body);
    }

    pub fn body_remove_from_force_integrate_list(&mut self, body: u64)
        requires
            old(self).wf(),
        ensures
            final(self).wf(),
            final(self)@ == (SpaceView { force_integrate_query: old(self)@.force_integrate_query.remove(body), ..old(self)@ }),
    {
        self.force_integrate_query_list.remove(body);
    }

    pub fn area_add_to_area_update_list(&mut self, area: u64)
        requires
            old(self).wf(),
        ensures
            final(self).wf(),
            final(self)@ == (SpaceView { area_update: old(self)@.area_update.insert(area), ..old(self)@ }),
    {
        self.area_update_list.insert(area);
    }

    pub fn area_remove_from_area_update_list(&mut self, area: u64)
        requires
            old(self).wf(),
        ensures
            final(self).wf(),
            final(self)@ == (SpaceView { area_update: old(self)@.area_update.remove(area), ..old(self)@ }),
    {
        self.area_update_list.remove(area);
    }

    pub fn body_add_to_area_update_list(&mut self, body: u64)
        requires
            old(self).wf(),
        ensures
            final(self).wf(),
            final(self)@ == (SpaceView { body_area_update: old(self)@.body_area_update.insert(body), ..old(self)@ }),
    {
        self.body_area_update_list.insert(body);
    }

    pub fn body_remove_from_area_update_list(&mut self, body: u64)
        requires
            old(self).wf(),
        ensures
            final(self).wf(),
            final(self)@ == (SpaceView { body_area_update: old(self)@.body_area_update.remove(body), ..old(self)@ }),
    {
        self.body_area_update_list.remove(body);
    }

    /// Schedules an area's pending monitor events for the next query flush.
    pub fn area_add_to_monitor_query_list(&mut self, area: u64)
        requires
            old(self).wf(),
        ensures
            final(self).wf(),
            final(self)@ == (SpaceView {
                monitor_query: if old(self)@.monitor_query.contains(area) {
                    old(self)@.monitor_query
                } else {
                    old(self)@.monitor_query.push(area)
                },
                ..old(self)@
            }),
    {
        proof {
            self.monitor_query_list.lemma_order_matches();
        }
        self.monitor_query_list.insert(area);
    }

    pub fn get_active_list(&self) -> (r: Vec<u64>)
        requires
            self.wf(),
        ensures
            r@.no_duplicates(),
            forall|x: u64| r@.contains(x) <==> self@.active.contains(x),
    {
        proof {
            self.active_list.lemma_order_matches();
        }
        self.active_list.to_vec()
    }

    pub fn get_active_bodies(&self) -> (r: Vec<u64>)
        requires
            self.wf(),
        ensures
            r@.no_duplicates(),
            forall|x: u64| r@.contains(x) <==> self@.active.contains(x),
    {
        self.get_active_list()
    }

    pub fn get_mass_properties_update_list(&self) -> (r: Vec<u64>)
        requires
            self.wf(),
        ensures
            r@.no_duplicates(),
            forall|x: u64| r@.contains(x) <==> self@.mass_properties_update.contains(x),
    {
        proof {
            self.mass_properties_update_list.lemma_order_matches();
        }
        self.mass_properties_update_list.to_vec()
    }

    pub fn reset_mass_properties_update_list(&mut self)
        requires
            old(self).wf(),
        ensures
            final(self).wf(),
            final(self)@ == (SpaceView { mass_properties_update: Set::empty(), ..old(self)@ }),
    {
        self.mass_properties_update_list.clear();
    }

    pub fn get_area_update_list(&self) -> (r: Vec<u64>)
        requires
            self.wf(),
        ensures
            r@.no_duplicates(),
            forall|x: u64| r@.contains(x) <==> self@.area_update.contains(x),
    {
        proof {
            self.area_update_list.lemma_order_matches();
        }
        self.area_update_list.to_vec()
    }

    pub fn get_body_area_update_list(&self) -> (r: Vec<u64>)
        requires
            self.wf(),
        ensures
            r@.no_duplicates(),
            forall|x: u64| r@.contains(x) <==> self@.body_area_update.contains(x),
    {
        proof {
            self.body_area_update_list.lemma_order_matches();
        }
        self.body_area_update_list.to_vec()
    }

    pub fn get_gravity_update_list(&self) -> (r: Vec<u64>)
        requires
            self.wf(),
        ensures
            r@.no_duplicates(),
            forall|x: u64| r@.contains(x) <==> self@.gravity_update.contains(x),
    {
        proof {
            self.gravity_update_list.lemma_order_matches();
        }
        self.gravity_update_list.to_vec()
    }
}

impl RapierSpace {
    /// Keeps, until the end of the next step, who owned a collider that was
    /// destroyed while detections of it were pending.
    pub fn add_removed_collider(&mut self, handle: Handle, info: RemovedColliderInfo)
        requires
            old(self).wf(),
        ensures
            final(self).wf(),
            final(self)@ == (SpaceView {
                removed_colliders: old(self)@.removed_colliders.push((handle, info)),
                ..old(self)@
            }),
            removed_lookup(final(self)@.removed_colliders, handle) == Some(info),
    {
        self.removed_colliders.push((handle, info));
        assert(self.removed_colliders@.drop_last() == old(self)@.removed_colliders);
    }

    pub fn get_removed_collider_info(&self, handle: &Handle) -> (r: Option<RemovedColliderInfo>)
        ensures
            r == removed_lookup(self@.removed_colliders, *handle),
    {
        let mut i: usize = self.removed_colliders.len();
        assert(self.removed_colliders@.take(i as int) =~= self.removed_colliders@);
        while i > 0
            invariant
                i <= self.removed_colliders@.len(),
                removed_lookup(self.removed_colliders@, *handle) == removed_lookup(
                    self.removed_colliders@.take(i as int),
                    *handle,
                ),
            decreases i,
        {
            let ghost pre = self.removed_colliders@.take(i as int);
            assert(pre.drop_last() =~= self.removed_colliders@.take(i - 1));
            let entry = self.removed_colliders[i - 1];
            if entry.0 == *handle {
                return Some(entry.1);
            }
            i = i - 1;
        }
        assert(self.removed_colliders@.take(0) =~= Seq::<(Handle, RemovedColliderInfo)>::empty());
        None
    }

    /// The bodies whose state is reported to the host after a step: those
    /// with a state callback, then the others with a force-integration
    /// callback.
    pub fn get_body_queries(&self) -> (r: Vec<u64>)
        requires
            self.wf(),
        ensures
            r@.no_duplicates(),
            forall|x: u64|
                r@.contains(x) <==> (self@.state_query.contains(x) || self@.force_integrate_query.contains(x)),
    {
        proof {
            self.state_query_list.lemma_order_matches();
            self.force_integrate_query_list.lemma_order_matches();
        }
        let mut r = self.state_query_list.to_vec();
        let others = self.force_integrate_query_list.to_vec();
        let mut i: usize = 0;
        while i < others.len()
            invariant
                0 <= i <= others@.len(),
                others@ == self.force_integrate_query_list.order(),
                others@.no_duplicates(),
                r@.no_duplicates(),
                forall|x: u64|
                    #[trigger] r@.contains(x) <==> (self@.state_query.contains(x) || others@.take(i as int).contains(x)),
            decreases others@.len() - i,
        {
            let x = others[i];
            let ghost r0 = r@;
            let ghost prev = others@.take(i as int);
            let ghost next = others@.take(i + 1);
            proof {
                assert(next =~= prev.push(x));
                lemma_seq_push_contains(prev, x);
            }
            if !self.state_query_list.contains(x) {
                proof {
                    if r0.contains(x) {
                        let k = choose|k: int| 0 <= k < prev.len() && prev[k] == x;
                        assert(others@[k] == others@[i as int]);
                    }
                    lemma_push_fresh(r0, x);
                }
                r.push(x);
            }
            proof {
                assert forall|y: u64|
                    #[trigger] r@.contains(y) <==> (self@.state_query.contains(y) || next.contains(y)) by {
                    assert(r0.contains(y) <==> (self@.state_query.contains(y) || prev.contains(y)));
                    lemma_seq_push_contains(prev, x);
                    assert(prev.push(x).contains(y) <==> (prev.contains(y) || y == x));
                    assert(next == prev.push(x));
                    assert(next.contains(y) <==> (prev.contains(y) || y == x));
                    if r@ == r0 {
                        assert(self@.state_query.contains(x));
                    } else {
                        assert(r@ == r0.push(x));
                        assert(r@.contains(y) <==> (r0.contains(y) || y == x));
                    }
                }
            }
            i = i + 1;
            assert(others@.take(i as int) == next);
        }
        assert(others@.take(others@.len() as int) =~= others@);
        r
    }

    /// Takes the work of one step, before the solver runs: the area update
    /// list is drained and handed out with the bodies its areas detect, the
    /// other lists are handed out, and the debug contact count and the
    /// mass-properties list are reset. `after_step` ends the step.
    pub fn plan_step(&mut self, areas: &Vec<RapierArea>) -> (r: StepPlan)
        requires
            old(self).wf(),
            area_rids_unique(area_views(areas@)),
        ensures
            final(self).wf(),
            final(self)@ == (SpaceView {
                area_update: Set::empty(),
                mass_properties_update: Set::empty(),
                contact_debug_count: 0,
                ..old(self)@
            }),
            r.area_updates@.no_duplicates(),
            r.body_area_updates@.no_duplicates(),
            r.gravity_updates@.no_duplicates(),
            r.active@.no_duplicates(),
            r.mass_updates@.no_duplicates(),
            forall|x: u64| r.area_updates@.contains(x) <==> old(self)@.area_update.contains(x),
            r.area_override_bodies@ == override_bodies(old(self).area_update_order(), area_views(areas@)),
            forall|x: u64| r.body_area_updates@.contains(x) <==> old(self)@.body_area_update.contains(x),
            forall|x: u64| r.gravity_updates@.contains(x) <==> old(self)@.gravity_update.contains(x),
            forall|x: u64| r.active@.contains(x) <==> old(self)@.active.contains(x),
            forall|x: u64| r.mass_updates@.contains(x) <==> old(self)@.mass_properties_update.contains(x),
    {
        let area_updates = self.get_area_update_list();
        let area_override_bodies = self.take_area_updates(areas);
        self.area_update_list.clear();
        let body_area_updates = self.get_body_area_update_list();
        let gravity_updates = self.get_gravity_update_list();
        let active = self.get_active_list();
        let mass_updates = self.get_mass_properties_update_list();
        self.before_step();
        self.reset_mass_properties_update_list();
        StepPlan { area_updates, area_override_bodies, body_area_updates, gravity_updates, active, mass_updates }
    }

    pub fn before_step(&mut self)
        requires
            old(self).wf(),
        ensures
            final(self).wf(),
            final(self)@ == (SpaceView { contact_debug_count: 0, ..old(self)@ }),
    {
        self.contact_debug_count = 0;
    }

    /// Ends a step: the removed-collider records have served their one step,
    /// and the solver's count of active objects is taken over. Returns the
    /// bodies whose activity the host must be told of.
    pub fn after_step(&mut self, active_objects_count: usize) -> (r: Vec<u64>)
        requires
            old(self).wf(),
        ensures
            final(self).wf(),
            final(self)@ == (SpaceView {
                removed_colliders: Seq::empty(),
                active_objects: active_objects_count as i32,
                ..old(self)@
            }),
            r@.no_duplicates(),
            forall|x: u64| r@.contains(x) <==> old(self)@.active.contains(x),
    {
        self.removed_colliders.clear();
        self.active_objects = active_objects_count as i32;
        assert(self@.removed_colliders =~= Seq::<(Handle, RemovedColliderInfo)>::empty());
        self.get_active_list()
    }

    pub fn set_default_area_param(&mut self, param: AreaParameter, value: ParamValue)
        requires
            old(self).wf(),
        ensures
            final(self).wf(),
            final(self)@ == match (param, value) {
                (AreaParameter::Gravity, ParamValue::Real(x)) => SpaceView {
                    default_gravity_value: x,
                    ..old(self)@
                },
                (AreaParameter::GravityVector, ParamValue::Vector(v)) => SpaceView {
                    default_gravity_dir: v,
                    ..old(self)@
                },
                (AreaParameter::GravityVector, _) => SpaceView {
                    default_gravity_dir: zero_vector(),
                    ..old(self)@
                },
                (AreaParameter::LinearDamp, ParamValue::Real(x)) => SpaceView {
                    default_linear_damping: x,
                    ..old(self)@
                },
                (AreaParameter::AngularDamp, ParamValue::Real(x)) => SpaceView {
                    default_angular_damping: x,
                    ..old(self)@
                },
                _ => old(self)@,
            },
    {
        match (param, value) {
            (AreaParameter::Gravity, ParamValue::Real(x)) => {
                self.default_gravity_value = x;
            },
            (AreaParameter::GravityVector, ParamValue::Vector(v)) => {
                self.default_gravity_dir = v;
            },
            (AreaParameter::GravityVector, _) => {
                self.default_gravity_dir = Vector::default();
            },
            (AreaParameter::LinearDamp, ParamValue::Real(x)) => {
                self.default_linear_damping = x;
            },
            (AreaParameter::AngularDamp, ParamValue::Real(x)) => {
                self.default_angular_damping = x;
            },
            _ => {},
        }
    }

    pub fn get_default_area_param(&self, param: AreaParameter) -> (r: ParamValue)
        ensures
            r == match param {
                AreaParameter::Gravity => ParamValue::Real(self@.default_gravity_value),
                AreaParameter::GravityVector => ParamValue::Vector(self@.default_gravity_dir),
                AreaParameter::LinearDamp => ParamValue::Real(self@.default_linear_damping),
                AreaParameter::AngularDamp => ParamValue::Real(self@.default_angular_damping),
                _ => ParamValue::Real(RealBits { bits: REAL_ZERO_BITS }),
            },
    {
        match param {
            AreaParameter::Gravity => ParamValue::Real(self.default_gravity_value),
            AreaParameter::GravityVector => ParamValue::Vector(self.default_gravity_dir),
            AreaParameter::LinearDamp => ParamValue::Real(self.default_linear_damping),
            AreaParameter::AngularDamp => ParamValue::Real(self.default_angular_damping),
            _ => ParamValue::Real(RealBits { bits: REAL_ZERO_BITS }),
        }
    }

    pub fn get_island_count(&self) -> (r: i32)
        ensures
            r == self@.island_count,
    {
        self.island_count
    }

    pub fn get_active_objects(&self) -> (r: i32)
        ensures
            r == self@.active_objects,
    {
        self.active_objects
    }

    pub fn get_collision_pairs(&self) -> (r: i32)
        ensures
            r == self@.collision_pairs,
    {
        self.collision_pairs
    }

    /// Sizes the debug contact buffer; a negative size empties it.
    pub fn set_debug_contacts(&mut self, max_contacts: i32)
        requires
            old(self).wf(),
        ensures
            final(self).wf(),
            final(self)@.contact_debug.len() == if max_contacts > 0 { max_contacts as nat } else { 0 },
            forall|j: int|
                0 <= j < final(self)@.contact_debug.len() ==> final(self)@.contact_debug[j] == if j
                    < old(self)@.contact_debug.len() {
                    old(self)@.contact_debug[j]
                } else {
                    zero_vector()
                },
            final(self)@ == (SpaceView { contact_debug: final(self)@.contact_debug, ..old(self)@ }),
    {
        let n: usize = if max_contacts > 0 { max_contacts as usize } else { 0 };
        if self.contact_debug.len() > n {
            self.contact_debug.truncate(n);
        }
        while self.contact_debug.len() < n
            invariant
                self.wf(),
                n == if max_contacts > 0 { max_contacts as nat } else { 0 },
                self.contact_debug@.len() <= n,
                self.contact_debug@.len() >= old(self)@.contact_debug.len() || self.contact_debug@.len() == n,
                forall|j: int|
                    0 <= j < self.contact_debug@.len() ==> self.contact_debug@[j] == if j
                        < old(self)@.contact_debug.len() {
                        old(self)@.contact_debug[j]
                    } else {
                        zero_vector()
                    },
                self@ == (SpaceView { contact_debug: self@.contact_debug, ..old(self)@ }),
            decreases n - self.contact_debug@.len(),
        {
            self.contact_debug.push(Vector::default());
        }
    }

    pub fn is_debugging_contacts(&self) -> (r: bool)
        ensures
            r == (self@.contact_debug.len() > 0),
    {
        self.contact_debug.len() > 0
    }

    /// Records a contact point while the debug buffer has room.
    pub fn add_debug_contact(&mut self, contact: Vector)
        requires
            old(self).wf(),
        ensures
            final(self).wf(),
            final(self)@ == if old(self)@.contact_debug_count < old(self)@.contact_debug.len() {
                SpaceView {
                    contact_debug: old(self)@.contact_debug.update(
                        old(self)@.contact_debug_count as int,
                        contact,
                    ),
                    contact_debug_count: old(self)@.contact_debug_count + 1,
                    ..old(self)@
                }
            } else {
                old(self)@
            },
    {
        if self.contact_debug_count < self.contact_debug.len() {
            self.contact_debug.set(self.contact_debug_count, contact);
            self.contact_debug_count = self.contact_debug_count + 1;
        }
    }

    pub fn get_debug_contacts(&self) -> (r: &Vec<Vector>)
        ensures
            r@ == self@.contact_debug,
    {
        &self.contact_debug
    }

    pub fn get_debug_contact_count(&self) -> (r: i32)
        ensures
            r == self@.contact_debug_count as i32,
    {
        self.contact_debug_count as i32
    }

    pub fn get_contact_max_allowed_penetration(&self) -> (r: RealBits)
        ensures
            r == self@.contact_max_allowed_penetration,
    {
        self.contact_max_allowed_penetration
    }

    pub fn get_ghost_collision_distance(&self) -> (r: RealBits)
        ensures
            r == self@.ghost_collision_distance,
    {
        self.ghost_collision_distance
    }
}

proof fn lemma_seq_push_contains(s: Seq<u64>, x: u64)
    ensures
        forall|y: u64| #[trigger] s.push(x).contains(y) <==> (s.contains(y) || y == x),
{
    let t = s.push(x);
    assert forall|y: u64| t.contains(y) <==> (s.contains(y) || y == x) by {
        if t.contains(y) {
            let k = choose|k: int| 0 <= k < t.len() && t[k] == y;
            if k < s.len() {
                assert(s[k] == y);
            }
        }
        if s.contains(y) {
            let k = choose|k: int| 0 <= k < s.len() && s[k] == y;
            assert(t[k] == y);
        }
        if y == x {
            assert(t[s.len() as int] == y);
        }
    }
}

proof fn lemma_push_fresh(s: Seq<u64>, x: u64)
    requires
        s.no_duplicates(),
        !s.contains(x),
    ensures
        s.push(x).no_duplicates(),
        forall|y: u64| s.push(x).contains(y) <==> (s.contains(y) || y == x),
{
    lemma_seq_push_contains(s, x);
    let t = s.push(x);
    assert forall|i: int, j: int| 0 <= i < t.len() && 0 <= j < t.len() && i != j implies t[i] != t[j] by {
        if i == s.len() {
            assert(s[j] == t[j]);
        } else if j == s.len() {
            assert(s[i] == t[i]);
        }
    }
}

/// What the host calls after a step: the bodies whose state is reported,
/// and the monitor callback calls of the scheduled areas.
pub struct SpaceQueries {
    pub bodies: Vec<u64>,
    pub areas: Vec<AreaQuery>,
}

pub open spec fn area_views(areas: Seq<RapierArea>) -> Seq<AreaView> {
    areas.map_values(|a: RapierArea| a@)
}

pub open spec fn area_rids_unique(v: Seq<AreaView>) -> bool {
    forall|i: int, j: int| 0 <= i < j < v.len() ==> v[i].base.rid != v[j].base.rid
}

/// The position of the area `rid` among `v`, or `-1`.
pub open spec fn find_area(v: Seq<AreaView>, rid: u64) -> int
    decreases v.len(),
{
    if v.len() == 0 {
        -1
    } else if v.last().base.rid == rid {
        v.len() - 1
    } else {
        find_area(v.drop_last(), rid)
    }
}

/// The monitor callback calls of the areas scheduled in `list`, area by area.
pub open spec fn monitor_queries(list: Seq<u64>, v: Seq<AreaView>) -> Seq<AreaQuery>
    decreases list.len(),
{
    if list.len() == 0 {
        Seq::empty()
    } else {
        let rest = monitor_queries(list.drop_last(), v);
        let k = find_area(v, list.last());
        if k >= 0 {
            rest + queries_of(v[k].monitored, v[k].monitor_callback, v[k].area_monitor_callback)
        } else {
            rest
        }
    }
}

/// `v` with the pending events of the areas scheduled in `list` forgotten.
pub open spec fn drained(v: Seq<AreaView>, list: Seq<u64>) -> Seq<AreaView> {
    v.map_values(
        |a: AreaView|
            if list.contains(a.base.rid) {
                AreaView { monitored: Seq::empty(), ..a }
            } else {
                a
            },
    )
}

pub proof fn lemma_find_area(v: Seq<AreaView>, rid: u64)
    ensures
        -1 <= find_area(v, rid) < v.len(),
        find_area(v, rid) >= 0 ==> v[find_area(v, rid)].base.rid == rid,
        find_area(v, rid) < 0 ==> forall|i: int| 0 <= i < v.len() ==> v[i].base.rid != rid,
    decreases v.len(),
{
    if v.len() > 0 {
        lemma_find_area(v.drop_last(), rid);
        if v.last().base.rid != rid {
            assert forall|i: int| 0 <= i < v.len() - 1 implies v[i] == v.drop_last()[i] by {}
        }
    }
}

proof fn lemma_find_area_unique(v: Seq<AreaView>, rid: u64, i: int)
    requires
        area_rids_unique(v),
        0 <= i < v.len(),
        v[i].base.rid == rid,
    ensures
        find_area(v, rid) == i,
{
    lemma_find_area(v, rid);
    let j = find_area(v, rid);
    if j != i {
        if j < i {
            assert(v[j].base.rid != v[i].base.rid);
        } else {
            assert(v[i].base.rid != v[j].base.rid);
        }
    }
}

fn find_area_index(areas: &Vec<RapierArea>, rid: u64) -> (r: Option<usize>)
    ensures
        match r {
            Some(k) => k < areas@.len() && areas@[k as int]@.base.rid == rid,
            None => forall|k: int| 0 <= k < areas@.len() ==> areas@[k]@.base.rid != rid,
        },
{
    let mut k: usize = 0;
    while k < areas.len()
        invariant
            0 <= k <= areas@.len(),
            forall|j: int| 0 <= j < k ==> areas@[j]@.base.rid != rid,
        decreases areas@.len() - k,
    {
        if areas[k].get_base().get_rid() == rid {
            return Some(k);
        }
        k = k + 1;
    }
    None
}

impl RapierSpace {
    /// Collects what the host must call after a step. The areas scheduled for
    /// the monitor flush hand over their pending events, which they forget.
    pub fn get_queries(&self, areas: &mut Vec<RapierArea>) -> (r: SpaceQueries)
        requires
            self.wf(),
            area_rids_unique(area_views(old(areas)@)),
            forall|k: int| 0 <= k < old(areas)@.len() ==> (#[trigger] old(areas)@[k])@.wf(),
        ensures
            r.bodies@.no_duplicates(),
            forall|x: u64|
                r.bodies@.contains(x) <==> (self@.state_query.contains(x) || self@.force_integrate_query.contains(x)),
            r.areas@ == monitor_queries(self@.monitor_query, area_views(old(areas)@)),
            area_views(final(areas)@) == drained(area_views(old(areas)@), self@.monitor_query),
            forall|k: int| 0 <= k < final(areas)@.len() ==> (#[trigger] final(areas)@[k])@.wf(),
    {
        let bodies = self.get_body_queries();
        proof {
            self.lemma_wf();
        }
        let list = self.monitor_query_list.to_vec();
        let ghost old_views = area_views(areas@);
        let mut out: Vec<AreaQuery> = Vec::new();
        let mut i: usize = 0;
        while i < list.len()
            invariant
                0 <= i <= list@.len(),
                list@ == self@.monitor_query,
                list@.no_duplicates(),
                old_views == area_views(old(areas)@),
                area_rids_unique(old_views),
                areas@.len() == old_views.len(),
                forall|k: int|
                    0 <= k < areas@.len() ==> (#[trigger] areas@[k])@ == drained(old_views, list@.take(i as int))[k],
                forall|k: int| 0 <= k < areas@.len() ==> (#[trigger] areas@[k])@.wf(),
                out@ == monitor_queries(list@.take(i as int), old_views),
            decreases list@.len() - i,
        {
            let rid = list[i];
            let ghost prev = list@.take(i as int);
            let ghost next = list@.take(i + 1);
            proof {
                assert(next.drop_last() =~= prev);
                assert(next.last() == rid);
                assert(!prev.contains(rid)) by {
                    if prev.contains(rid) {
                        let j = choose|j: int| 0 <= j < prev.len() && prev[j] == rid;
                        assert(list@[j] == list@[i as int]);
                    }
                }
                lemma_find_area(old_views, rid);
                assert forall|y: u64| next.contains(y) <==> (prev.contains(y) || y == rid) by {
                    if next.contains(y) {
                        let j = choose|j: int| 0 <= j < next.len() && next[j] == y;
                        if j < i {
                            assert(prev[j] == y);
                        }
                    }
                    if prev.contains(y) {
                        let j = choose|j: int| 0 <= j < prev.len() && prev[j] == y;
                        assert(next[j] == y);
                    }
                    if y == rid {
                        assert(next[i as int] == y);
                    }
                }
            }
            match find_area_index(areas, rid) {
                Some(k) => {
                    proof {
                        assert(areas@[k as int]@ == drained(old_views, prev)[k as int]);
                        assert(old_views[k as int].base.rid == rid);
                        lemma_find_area_unique(old_views, rid, k as int);
                    }
                    let ghost before = areas@;
                    let mut q = areas[k].get_queries();
                    out.append(&mut q);
                    proof {
                        assert forall|j: int| 0 <= j < areas@.len() implies (#[trigger] areas@[j])@ == drained(
                            old_views,
                            next,
                        )[j] by {
                            if j != k {
                                assert(areas@[j] == before[j]);
                                assert(old_views[j].base.rid != rid);
                            }
                        }
                    }
                },
                None => {
                    proof {
                        assert forall|j: int| 0 <= j < old_views.len() implies old_views[j].base.rid != rid by {
                            assert(areas@[j]@ == drained(old_views, prev)[j]);
                        }
                        lemma_find_area(old_views, rid);
                        assert forall|j: int| 0 <= j < areas@.len() implies (#[trigger] areas@[j])@ == drained(
                            old_views,
                            next,
                        )[j] by {
                            assert(old_views[j].base.rid != rid);
                        }
                    }
                },
            }
            i = i + 1;
            assert(list@.take(i as int) == next);
        }
        proof {
            assert(list@.take(i as int) =~= list@);
            assert(area_views(areas@) =~= drained(old_views, list@));
        }
        SpaceQueries { bodies, areas: out }
    }

    /// Clears the pending events of every area scheduled for the monitor
    /// flush, once the host has consumed the queries.
    pub fn update_after_queries(&self, areas: &mut Vec<RapierArea>)
        requires
            self.wf(),
            area_rids_unique(area_views(old(areas)@)),
            forall|k: int| 0 <= k < old(areas)@.len() ==> (#[trigger] old(areas)@[k])@.wf(),
        ensures
            area_views(final(areas)@) == drained(area_views(old(areas)@), self@.monitor_query),
            forall|k: int| 0 <= k < final(areas)@.len() ==> (#[trigger] final(areas)@[k])@.wf(),
    {
        proof {
            self.lemma_wf();
        }
        let list = self.monitor_query_list.to_vec();
        let ghost old_views = area_views(areas@);
        let mut i: usize = 0;
        while i < list.len()
            invariant
                0 <= i <= list@.len(),
                list@ == self@.monitor_query,
                old_views == area_views(old(areas)@),
                area_rids_unique(old_views),
                areas@.len() == old_views.len(),
                forall|k: int|
                    0 <= k < areas@.len() ==> (#[trigger] areas@[k])@ == drained(old_views, list@.take(i as int))[k],
                forall|k: int| 0 <= k < areas@.len() ==> (#[trigger] areas@[k])@.wf(),
            decreases list@.len() - i,
        {
            let rid = list[i];
            let ghost prev = list@.take(i as int);
            let ghost next = list@.take(i + 1);
            proof {
                assert forall|y: u64| next.contains(y) <==> (prev.contains(y) || y == rid) by {
                    if next.contains(y) {
                        let j = choose|j: int| 0 <= j < next.len() && next[j] == y;
                        if j < i {
                            assert(prev[j] == y);
                        }
                    }
                    if prev.contains(y) {
                        let j = choose|j: int| 0 <= j < prev.len() && prev[j] == y;
                        assert(next[j] == y);
                    }
                    if y == rid {
                        assert(next[i as int] == y);
                    }
                }
            }
            match find_area_index(areas, rid) {
                Some(k) => {
                    let ghost before = areas@;
                    proof {
                        assert(areas@[k as int]@ == drained(old_views, prev)[k as int]);
                    }
                    areas[k].clear_monitored_objects();
                    proof {
                        assert forall|j: int| 0 <= j < areas@.len() implies (#[trigger] areas@[j])@ == drained(
                            old_views,
                            next,
                        )[j] by {
                            if j != k {
                                assert(areas@[j] == before[j]);
                                assert(before[j]@ == drained(old_views, prev)[j]);
                                assert(old_views[j].base.rid != rid);
                            }
                        }
                    }
                },
                None => {
                    proof {
                        assert forall|j: int| 0 <= j < areas@.len() implies (#[trigger] areas@[j])@ == drained(
                            old_views,
                            next,
                        )[j] by {
                            assert(areas@[j]@ == drained(old_views, prev)[j]);
                            assert(old_views[j].base.rid != rid);
                        }
                    }
                },
            }
            i = i + 1;
            assert(list@.take(i as int) == next);
        }
        proof {
            assert(list@.take(i as int) =~= list@);
            assert(area_views(areas@) =~= drained(old_views, list@));
        }
    }
}

/// The bodies detected by the areas scheduled in `list`, area by area.
pub open spec fn override_bodies(list: Seq<u64>, v: Seq<AreaView>) -> Seq<u64>
    decreases list.len(),
{
    if list.len() == 0 {
        Seq::empty()
    } else {
        let rest = override_bodies(list.drop_last(), v);
        let k = find_area(v, list.last());
        if k >= 0 {
            rest + count_ids(v[k].detected)
        } else {
            rest
        }
    }
}

impl RapierSpace {
    /// The order in which the area update list is walked.
    pub closed spec fn area_update_order(&self) -> Seq<u64> {
        self.area_update_list.order()
    }

    /// Every scheduled area that the host still knows leaves the area update
    /// list, and the bodies it detects are returned for their combined
    /// override to be applied again.
    fn take_area_updates(&mut self, areas: &Vec<RapierArea>) -> (r: Vec<u64>)
        requires
            old(self).wf(),
            area_rids_unique(area_views(areas@)),
        ensures
            final(self).wf(),
            final(self)@ == (SpaceView { area_update: final(self)@.area_update, ..old(self)@ }),
            forall|x: u64|
                final(self)@.area_update.contains(x) <==> (old(self)@.area_update.contains(x) && find_area(
                    area_views(areas@),
                    x,
                ) < 0),
            r@ == override_bodies(old(self).area_update_order(), area_views(areas@)),
    {
        proof {
            self.area_update_list.lemma_order_matches();
        }
        let list = self.area_update_list.to_vec();
        let ghost v = area_views(areas@);
        let mut bodies: Vec<u64> = Vec::new();
        let mut i: usize = 0;
        while i < list.len()
            invariant
                0 <= i <= list@.len(),
                self.wf(),
                list@ == old(self).area_update_list.order(),
                forall|x: u64| old(self)@.area_update.contains(x) <==> list@.contains(x),
                v == area_views(areas@),
                area_rids_unique(v),
                self@ == (SpaceView { area_update: self@.area_update, ..old(self)@ }),
                forall|x: u64|
                    #[trigger] self@.area_update.contains(x) <==> (old(self)@.area_update.contains(x) && !(
                    list@.take(i as int).contains(x) && find_area(v, x) >= 0)),
                bodies@ == override_bodies(list@.take(i as int), v),
            decreases list@.len() - i,
        {
            let rid = list[i];
            let ghost prev = list@.take(i as int);
            let ghost next = list@.take(i + 1);
            proof {
                assert(next.drop_last() =~= prev);
                assert(next.last() == rid);
                lemma_seq_push_contains(prev, rid);
                assert(next =~= prev.push(rid));
                lemma_find_area(v, rid);
            }
            match find_area_index(areas, rid) {
                Some(k) => {
                    proof {
                        assert(v[k as int] == areas@[k as int]@);
                        lemma_find_area_unique(v, rid, k as int);
                    }
                    let mut ids = areas[k].detected_body_ids();
                    bodies.append(&mut ids);
                    self.area_remove_from_area_update_list(rid);
                },
                None => {
                    proof {
                        assert forall|j: int| 0 <= j < v.len() implies v[j].base.rid != rid by {
                            assert(v[j] == areas@[j]@);
                        }
                        lemma_find_area(v, rid);
                    }
                },
            }
            i = i + 1;
            assert(list@.take(i as int) == next);
        }
        proof {
            assert(list@.take(i as int) =~= list@);
        }
        bodies
    }
}

} // verus!
