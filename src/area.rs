use vstd::prelude::*;

use crate::collision_object::CollisionObjectType;
use crate::collision_object::CollisionObjectView;
use crate::collision_object::RapierCollisionObject;
use crate::handle::Handle;
use crate::ref_count::count_ids;
use crate::ref_count::count_index;
use crate::ref_count::count_of;
use crate::ref_count::counts_after_dec;
use crate::ref_count::counts_after_inc;
use crate::ref_count::counts_wf;
use crate::ref_count::lemma_count_index;
use crate::ref_count::lemma_count_index_unique;
use crate::ref_count::lemma_counts_dec_wf;
use crate::ref_count::lemma_counts_inc_wf;
use crate::ref_count::saturating_dec;
use crate::ref_count::saturating_inc;
use crate::ref_count::RefCounts;
use crate::space::AreaParameter;
use crate::space::AreaSpaceOverrideMode;
use crate::space::ParamValue;
use crate::space::RapierSpace;
use crate::space::SpaceView;
use crate::types::real_eq;
use crate::types::vector_eq;
use crate::types::zero_vector;
use crate::types::RealBits;
use crate::types::Vector;
use crate::types::REAL_ZERO_BITS;

verus! {

/// A pending enter or exit event of one (other collider, own collider) pair.
#[derive(Clone, Copy, Debug, PartialEq, Eq, Hash, Structural)]
pub struct MonitorInfo {
    pub rid: u64,
    pub instance_id: u64,
    pub object_shape_index: u32,
    pub area_shape_index: u32,
    pub collision_object_type: CollisionObjectType,
    /// `1` for an enter, `-1` for an exit.
    pub state: i32,
}

#[derive(Clone, Copy, Debug, PartialEq, Eq, Hash, Structural)]
pub enum AreaBodyStatus {
    Added,
    Removed,
}

/// One monitor callback call to make: the callback and its five arguments.
#[derive(Clone, Copy, Debug, PartialEq, Eq, Hash, Structural)]
pub struct AreaQuery {
    pub callback: u64,
    pub status: AreaBodyStatus,
    pub rid: u64,
    pub instance_id: u64,
    pub object_shape_index: u32,
    pub area_shape_index: u32,
}

/// What the host must do after an area parameter changed.
#[derive(Clone, Copy, Debug, PartialEq, Eq, Hash, Structural)]
pub enum AreaUpdateMode {
    EnableSpaceOverride,
    DisableSpaceOverride,
    ResetSpaceOverride,
    Unchanged,
}

/// The outcome of setting an area parameter.
#[derive(Clone, Copy, Debug, PartialEq, Eq, Hash, Structural)]
pub struct ParamUpdate {
    pub mode: AreaUpdateMode,
    /// The bodies that the area detects must have its override applied again.
    pub schedule_area_update: bool,
}

pub type PairKey = (Handle, Handle);

/// The state of an area, as the contracts speak of it.
pub struct AreaView {
    pub gravity_override_mode: AreaSpaceOverrideMode,
    pub linear_damping_override_mode: AreaSpaceOverrideMode,
    pub angular_damping_override_mode: AreaSpaceOverrideMode,
    pub gravity: RealBits,
    pub gravity_vector: Vector,
    pub gravity_is_point: bool,
    pub gravity_point_unit_distance: RealBits,
    pub linear_damp: RealBits,
    pub angular_damp: RealBits,
    pub priority: i32,
    pub monitorable: bool,
    pub monitor_callback: Option<u64>,
    pub area_monitor_callback: Option<u64>,
    /// Pending events, in the order in which they were first recorded.
    pub monitored: Seq<(PairKey, MonitorInfo)>,
    /// Each detected body with the number of this area's shapes touching it.
    pub detected: Seq<(u64, u32)>,
    pub base: CollisionObjectView,
}

/// The position of `key` among the pending events, or `-1`.
pub open spec fn pair_index(m: Seq<(PairKey, MonitorInfo)>, key: PairKey) -> int
    decreases m.len(),
{
    if m.len() == 0 {
        -1
    } else if m.last().0 == key {
        m.len() - 1
    } else {
        pair_index(m.drop_last(), key)
    }
}

pub open spec fn monitored_keys_unique(m: Seq<(PairKey, MonitorInfo)>) -> bool {
    forall|i: int, j: int| 0 <= i < j < m.len() ==> m[i].0 != m[j].0
}

/// The pending events after an enter of `key`: recorded unless one is
/// already pending for the pair.
pub open spec fn monitored_after_enter(
    m: Seq<(PairKey, MonitorInfo)>,
    key: PairKey,
    info: MonitorInfo,
) -> Seq<(PairKey, MonitorInfo)> {
    if pair_index(m, key) >= 0 {
        m
    } else {
        m.push((key, info))
    }
}

/// The pending events after an exit of `key`: an exit is recorded when
/// nothing is pending for the pair, a pending enter cancels out with it, and
/// a pending exit is left as it is.
pub open spec fn monitored_after_exit(
    m: Seq<(PairKey, MonitorInfo)>,
    key: PairKey,
    info: MonitorInfo,
) -> Seq<(PairKey, MonitorInfo)> {
    let i = pair_index(m, key);
    if i < 0 {
        m.push((key, info))
    } else if m[i].1.state == 1 {
        m.remove(i)
    } else {
        m
    }
}

/// Whether an exit of `key` leaves a new event for the next flush.
pub open spec fn exit_records_event(m: Seq<(PairKey, MonitorInfo)>, key: PairKey) -> bool {
    pair_index(m, key) < 0
}

/// The space after the area `rid` was scheduled for the monitor flush.
pub open spec fn scheduled_for_monitor(s: SpaceView, rid: u64) -> SpaceView {
    SpaceView {
        monitor_query: if s.monitor_query.contains(rid) {
            s.monitor_query
        } else {
            s.monitor_query.push(rid)
        },
        ..s
    }
}

/// The callback call that one pending event turns into, if any.
pub open spec fn query_of(
    info: MonitorInfo,
    monitor_callback: Option<u64>,
    area_monitor_callback: Option<u64>,
) -> Option<AreaQuery> {
    let callback = if info.collision_object_type == CollisionObjectType::Body {
        monitor_callback
    } else {
        area_monitor_callback
    };
    if info.state == 0 {
        None
    } else {
        match callback {
            Some(c) => Some(
                AreaQuery {
                    callback: c,
                    status: if info.state > 0 {
                        AreaBodyStatus::Added
                    } else {
                        AreaBodyStatus::Removed
                    },
                    rid: info.rid,
                    instance_id: info.instance_id,
                    object_shape_index: info.object_shape_index,
                    area_shape_index: info.area_shape_index,
                },
            ),
            None => None,
        }
    }
}

/// The callback calls that the pending events `m` turn into, in order.
pub open spec fn queries_of(
    m: Seq<(PairKey, MonitorInfo)>,
    monitor_callback: Option<u64>,
    area_monitor_callback: Option<u64>,
) -> Seq<AreaQuery>
    decreases m.len(),
{
    if m.len() == 0 {
        Seq::empty()
    } else {
        let rest = queries_of(m.drop_last(), monitor_callback, area_monitor_callback);
        match query_of(m.last().1, monitor_callback, area_monitor_callback) {
            Some(q) => rest.push(q),
            None => rest,
        }
    }
}

pub open spec fn has_any_override(
    gravity: AreaSpaceOverrideMode,
    linear: AreaSpaceOverrideMode,
    angular: AreaSpaceOverrideMode,
) -> bool {
    gravity != AreaSpaceOverrideMode::Disabled || linear != AreaSpaceOverrideMode::Disabled || angular
        != AreaSpaceOverrideMode::Disabled
}

pub struct RapierArea {
    gravity_override_mode: AreaSpaceOverrideMode,
    linear_damping_override_mode: AreaSpaceOverrideMode,
    angular_damping_override_mode: AreaSpaceOverrideMode,
    gravity: RealBits,
    gravity_vector: Vector,
    gravity_is_point: bool,
    gravity_point_unit_distance: RealBits,
    linear_damp: RealBits,
    angular_damp: RealBits,
    priority: i32,
    monitorable: bool,
    monitor_callback: Option<u64>,
    area_monitor_callback: Option<u64>,
    monitored_objects: Vec<(PairKey, MonitorInfo)>,
    detected_bodies: RefCounts,
    base: RapierCollisionObject,
}

impl View for RapierArea {
    type V = AreaView;

    closed spec fn view(&self) -> AreaView {
        AreaView {
            gravity_override_mode: self.gravity_override_mode,
            linear_damping_override_mode: self.linear_damping_override_mode,
            angular_damping_override_mode: self.angular_damping_override_mode,
            gravity: self.gravity,
            gravity_vector: self.gravity_vector,
            gravity_is_point: self.gravity_is_point,
            gravity_point_unit_distance: self.gravity_point_unit_distance,
            linear_damp: self.linear_damp,
            angular_damp: self.angular_damp,
            priority: self.priority,
            monitorable: self.monitorable,
            monitor_callback: self.monitor_callback,
            area_monitor_callback: self.area_monitor_callback,
            monitored: self.monitored_objects@,
            detected: self.detected_bodies@,
            base: self.base@,
        }
    }
}

impl AreaView {
    /// Pending events are unique per pair, and detected bodies appear once
    /// each with a positive count.
    pub open spec fn wf(&self) -> bool {
        &&& monitored_keys_unique(self.monitored)
        &&& counts_wf(self.detected)
    }
}

pub proof fn lemma_pair_index(m: Seq<(PairKey, MonitorInfo)>, key: PairKey)
    ensures
        -1 <= pair_index(m, key) < m.len(),
        pair_index(m, key) >= 0 ==> m[pair_index(m, key)].0 == key,
        pair_index(m, key) < 0 ==> forall|i: int| 0 <= i < m.len() ==> m[i].0 != key,
    decreases m.len(),
{
    if m.len() > 0 {
        lemma_pair_index(m.drop_last(), key);
        if m.last().0 != key {
            assert forall|i: int| 0 <= i < m.len() - 1 implies m[i] == m.drop_last()[i] by {}
        }
    }
}

pub proof fn lemma_pair_index_unique(m: Seq<(PairKey, MonitorInfo)>, key: PairKey, i: int)
    requires
        monitored_keys_unique(m),
        0 <= i < m.len(),
        m[i].0 == key,
    ensures
        pair_index(m, key) == i,
{
    lemma_pair_index(m, key);
    let j = pair_index(m, key);
    if j != i {
        if j < i {
            assert(m[j].0 != m[i].0);
        } else {
            assert(m[i].0 != m[j].0);
        }
    }
}

proof fn lemma_monitored_enter_wf(m: Seq<(PairKey, MonitorInfo)>, key: PairKey, info: MonitorInfo)
    requires
        monitored_keys_unique(m),
    ensures
        monitored_keys_unique(monitored_after_enter(m, key, info)),
{
    lemma_pair_index(m, key);
}

proof fn lemma_monitored_exit_wf(m: Seq<(PairKey, MonitorInfo)>, key: PairKey, info: MonitorInfo)
    requires
        monitored_keys_unique(m),
    ensures
        monitored_keys_unique(monitored_after_exit(m, key, info)),
{
    lemma_pair_index(m, key);
    let i = pair_index(m, key);
    if i >= 0 && m[i].1.state == 1 {
        let t = m.remove(i);
        assert forall|a: int, b: int| 0 <= a < b < t.len() implies t[a].0 != t[b].0 by {
            let a2 = if a < i { a } else { a + 1 };
            let b2 = if b < i { b } else { b + 1 };
            assert(t[a] == m[a2]);
            assert(t[b] == m[b2]);
        }
    }
}

/// A body's count of touching shapes goes up by one on each enter (until the
/// counter saturates) and down by one on each exit; no count is ever zero or
/// below, because an entry that reaches zero is erased; other bodies' counts
/// are untouched.
pub proof fn lemma_detection_counts(d: Seq<(u64, u32)>, rid: u64, other: u64)
    requires
        counts_wf(d),
        other != rid,
    ensures
        counts_wf(counts_after_inc(d, rid)),
        counts_wf(counts_after_dec(d, rid)),
        count_of(counts_after_inc(d, rid), rid) == if count_of(d, rid) < u32::MAX {
            count_of(d, rid) + 1
        } else {
            count_of(d, rid)
        },
        count_of(counts_after_dec(d, rid), rid) == if count_of(d, rid) > 0 {
            (count_of(d, rid) - 1) as nat
        } else {
            0
        },
        count_of(counts_after_inc(d, rid), other) == count_of(d, other),
        count_of(counts_after_dec(d, rid), other) == count_of(d, other),
        count_of(counts_after_dec(d, rid), rid) == 0 ==> count_index(
            counts_after_dec(d, rid),
            rid,
        ) < 0,
{
    lemma_counts_inc_wf(d, rid);
    lemma_counts_dec_wf(d, rid);
    lemma_count_index(d, rid);
    lemma_count_index(d, other);
    let i = count_index(d, rid);
    let j = count_index(d, other);
    let e = counts_after_inc(d, rid);
    let x = counts_after_dec(d, rid);
    lemma_count_index(e, rid);
    lemma_count_index(e, other);
    lemma_count_index(x, rid);
    lemma_count_index(x, other);
    if i >= 0 {
        lemma_count_index_unique(e, rid, i);
        if j >= 0 {
            lemma_count_index_unique(e, other, j);
        }
        if d[i].1 <= 1 {
            if j >= 0 {
                let j2 = if j < i { j } else { j - 1 };
                assert(x[j2] == d[j]);
                lemma_count_index_unique(x, other, j2);
            } else {
                assert forall|k: int| 0 <= k < x.len() implies x[k].0 != other by {
                    let k2 = if k < i { k } else { k + 1 };
                    assert(x[k] == d[k2]);
                }
            }
            assert forall|k: int| 0 <= k < x.len() implies x[k].0 != rid by {
                let k2 = if k < i { k } else { k + 1 };
                assert(x[k] == d[k2]);
            }
        } else {
            lemma_count_index_unique(x, rid, i);
            if j >= 0 {
                lemma_count_index_unique(x, other, j);
            }
        }
    } else {
        lemma_count_index_unique(e, rid, d.len() as int);
        if j >= 0 {
            lemma_count_index_unique(e, other, j);
        } else {
            assert forall|k: int| 0 <= k < e.len() implies e[k].0 != other by {
                if k < d.len() {
                    assert(e[k] == d[k]);
                }
            }
        }
    }
}

/// The detected bodies after a sequence of shape enters (`true`) and exits
/// (`false`) of the given bodies.
pub open spec fn counts_after_events(d: Seq<(u64, u32)>, events: Seq<(u64, bool)>) -> Seq<(u64, u32)>
    decreases events.len(),
{
    if events.len() == 0 {
        d
    } else {
        let before = counts_after_events(d, events.drop_last());
        let (rid, enter) = events.last();
        if enter {
            counts_after_inc(before, rid)
        } else {
            counts_after_dec(before, rid)
        }
    }
}

/// Along any sequence of enters and exits, every body stays counted at most
/// once and no count is ever zero: a body whose count reaches zero is gone.
pub proof fn lemma_event_sequence_keeps_counts_wf(d: Seq<(u64, u32)>, events: Seq<(u64, bool)>)
    requires
        counts_wf(d),
    ensures
        counts_wf(counts_after_events(d, events)),
        forall|i: int|
            0 <= i < counts_after_events(d, events).len() ==> #[trigger] counts_after_events(d, events)[i].1
                > 0,
    decreases events.len(),
{
    if events.len() > 0 {
        lemma_event_sequence_keeps_counts_wf(d, events.drop_last());
        let before = counts_after_events(d, events.drop_last());
        let (rid, enter) = events.last();
        if enter {
            lemma_counts_inc_wf(before, rid);
        } else {
            lemma_counts_dec_wf(before, rid);
        }
    }
}

/// An enter followed by an exit of the same pair, with no flush in
/// between, leaves no pending event: the two cancel out.
pub proof fn lemma_enter_exit_cancels(
    m: Seq<(PairKey, MonitorInfo)>,
    key: PairKey,
    enter_info: MonitorInfo,
    exit_info: MonitorInfo,
)
    requires
        monitored_keys_unique(m),
        pair_index(m, key) < 0,
        enter_info.state == 1,
    ensures
        monitored_after_exit(monitored_after_enter(m, key, enter_info), key, exit_info) == m,
{
    let e = monitored_after_enter(m, key, enter_info);
    lemma_monitored_enter_wf(m, key, enter_info);
    lemma_pair_index_unique(e, key, m.len() as int);
    assert(e.remove(m.len() as int) =~= m);
}

/// The same for the detected bodies: one enter and one exit of a body leave
/// its count where it was, while the count has room.
pub proof fn lemma_detection_enter_exit_cancels(d: Seq<(u64, u32)>, rid: u64)
    requires
        counts_wf(d),
        count_of(d, rid) < u32::MAX,
    ensures
        counts_after_dec(counts_after_inc(d, rid), rid) == d,
{
    lemma_count_index(d, rid);
    let i = count_index(d, rid);
    let e = counts_after_inc(d, rid);
    lemma_counts_inc_wf(d, rid);
    if i >= 0 {
        lemma_count_index_unique(e, rid, i);
        assert(counts_after_dec(e, rid) =~= d);
    } else {
        lemma_count_index_unique(e, rid, d.len() as int);
        assert(e.remove(d.len() as int) =~= d);
    }
}

/// Draining the pending events twice in a row: after the first drain the
/// area holds no pending event, so the second turns into no callback call.
pub proof fn lemma_drain_idempotent(a: AreaView)
    ensures
        ({
            let drained = AreaView { monitored: Seq::empty(), ..a };
            queries_of(drained.monitored, drained.monitor_callback, drained.area_monitor_callback)
                == Seq::<AreaQuery>::empty()
        }),
{
}

/// The pending event that an enter (`state` 1) or exit (`state` -1) records.
pub open spec fn monitor_info_of(
    rid: u64,
    instance_id: u64,
    object_shape: usize,
    area_shape: usize,
    t: CollisionObjectType,
    state: i32,
) -> MonitorInfo {
    MonitorInfo {
        rid,
        instance_id,
        object_shape_index: object_shape as u32,
        area_shape_index: area_shape as u32,
        collision_object_type: t,
        state,
    }
}

pub open spec fn counter_inc(b: CollisionObjectView) -> CollisionObjectView {
    CollisionObjectView { area_detection_counter: saturating_inc(b.area_detection_counter), ..b }
}

pub open spec fn counter_dec(b: CollisionObjectView) -> CollisionObjectView {
    CollisionObjectView { area_detection_counter: saturating_dec(b.area_detection_counter), ..b }
}

/// The area after a shape of the body `rid` started to overlap it, the
/// pair being `key` and the enter event `info`.
pub open spec fn area_after_body_enter(o: AreaView, key: PairKey, rid: u64, info: MonitorInfo) -> AreaView {
    let monitoring = o.monitor_callback.is_some();
    AreaView {
        detected: counts_after_inc(o.detected, rid),
        monitored: if monitoring {
            monitored_after_enter(o.monitored, key, info)
        } else {
            o.monitored
        },
        base: if monitoring { counter_inc(o.base) } else { o.base },
        ..o
    }
}

/// The area after a shape of the body `rid` stopped overlapping it; when
/// the host no longer knows the body, only the event is queued.
pub open spec fn area_after_body_exit(
    o: AreaView,
    key: PairKey,
    rid: u64,
    info: MonitorInfo,
    body_present: bool,
) -> AreaView {
    let monitoring = o.monitor_callback.is_some();
    AreaView {
        detected: if body_present {
            counts_after_dec(o.detected, rid)
        } else {
            o.detected
        },
        monitored: if monitoring {
            monitored_after_exit(o.monitored, key, info)
        } else {
            o.monitored
        },
        base: if monitoring && body_present { counter_dec(o.base) } else { o.base },
        ..o
    }
}

/// A body that enters and leaves an area through the same pair before any
/// flush leaves the area as it found it: no pending event, the same
/// detected counts and the same detection counter.
pub proof fn lemma_body_enter_exit_cancels(
    a: AreaView,
    key: PairKey,
    rid: u64,
    enter_info: MonitorInfo,
    exit_info: MonitorInfo,
)
    requires
        a.wf(),
        pair_index(a.monitored, key) < 0,
        enter_info.state == 1,
        count_of(a.detected, rid) < u32::MAX,
        a.base.area_detection_counter < u32::MAX,
    ensures
        area_after_body_exit(area_after_body_enter(a, key, rid, enter_info), key, rid, exit_info, true) == a,
{
    lemma_enter_exit_cancels(a.monitored, key, enter_info, exit_info);
    lemma_detection_enter_exit_cancels(a.detected, rid);
    let e = area_after_body_enter(a, key, rid, enter_info);
    let x = area_after_body_exit(e, key, rid, exit_info, true);
    assert(x.base == a.base);
    assert(x == a);
}

impl RapierArea {
    pub fn new(rid: u64) -> (r: RapierArea)
        ensures
            r@.wf(),
            r@.gravity_override_mode == AreaSpaceOverrideMode::Disabled,
            r@.linear_damping_override_mode == AreaSpaceOverrideMode::Disabled,
            r@.angular_damping_override_mode == AreaSpaceOverrideMode::Disabled,
            r@.gravity == (RealBits { bits: REAL_ZERO_BITS }),
            r@.gravity_vector == zero_vector(),
            !r@.gravity_is_point,
            r@.gravity_point_unit_distance == (RealBits { bits: REAL_ZERO_BITS }),
            r@.linear_damp == (RealBits { bits: REAL_ZERO_BITS }),
            r@.angular_damp == (RealBits { bits: REAL_ZERO_BITS }),
            r@.priority == 0,
            !r@.monitorable,
            r@.monitor_callback.is_none(),
            r@.area_monitor_callback.is_none(),
            r@.monitored.len() == 0,
            r@.detected.len() == 0,
            r@.base.rid == rid,
            r@.base.collision_object_type == CollisionObjectType::Area,
            r@.base.area_detection_counter == 0,
            r@.base.shapes.len() == 0,
            !r@.base.space_handle.valid(),
    {
        RapierArea {
            gravity_override_mode: AreaSpaceOverrideMode::Disabled,
            linear_damping_override_mode: AreaSpaceOverrideMode::Disabled,
            angular_damping_override_mode: AreaSpaceOverrideMode::Disabled,
            gravity: RealBits { bits: REAL_ZERO_BITS },
            gravity_vector: Vector::default(),
            gravity_is_point: false,
            gravity_point_unit_distance: RealBits { bits: REAL_ZERO_BITS },
            linear_damp: RealBits { bits: REAL_ZERO_BITS },
            angular_damp: RealBits { bits: REAL_ZERO_BITS },
            priority: 0,
            monitorable: false,
            monitor_callback: None,
            area_monitor_callback: None,
            monitored_objects: Vec::new(),
            detected_bodies: RefCounts::new(),
            base: RapierCollisionObject::new(rid, CollisionObjectType::Area),
        }
    }

    fn find_pair(&self, key: PairKey) -> (r: Option<usize>)
        ensures
            match r {
                Some(i) => pair_index(self@.monitored, key) == i as int,
                None => pair_index(self@.monitored, key) < 0,
            },
    {
        let mut i: usize = self.monitored_objects.len();
        assert(self.monitored_objects@.take(i as int) =~= self.monitored_objects@);
        while i > 0
            invariant
                i <= self.monitored_objects@.len(),
                pair_index(self.monitored_objects@, key) == pair_index(
                    self.monitored_objects@.take(i as int),
                    key,
                ),
            decreases i,
        {
            let ghost pre = self.monitored_objects@.take(i as int);
            assert(pre.drop_last() =~= self.monitored_objects@.take(i - 1));
            let entry = &self.monitored_objects[i - 1];
            if entry.0.0 == key.0 && entry.0.1 == key.1 {
                return Some(i - 1);
            }
            i = i - 1;
        }
        None
    }

    /// Records an enter of `key` unless one is pending; returns whether it
    /// was recorded.
    fn record_enter(&mut self, key: PairKey, info: MonitorInfo) -> (r: bool)
        ensures
            r == (pair_index(old(self)@.monitored, key) < 0),
            final(self)@ == (AreaView {
                monitored: monitored_after_enter(old(self)@.monitored, key, info),
                ..old(self)@
            }),
    {
        match self.find_pair(key) {
            Some(_) => false,
            None => {
                self.monitored_objects.push((key, info));
                true
            },
        }
    }

    /// Records an exit of `key`: see `monitored_after_exit`. Returns whether
    /// a new event was recorded.
    fn record_exit(&mut self, key: PairKey, info: MonitorInfo) -> (r: bool)
        ensures
            r == exit_records_event(old(self)@.monitored, key),
            final(self)@ == (AreaView {
                monitored: monitored_after_exit(old(self)@.monitored, key, info),
                ..old(self)@
            }),
    {
        match self.find_pair(key) {
            None => {
                self.monitored_objects.push((key, info));
                true
            },
            Some(i) => {
                proof {
                    lemma_pair_index(self.monitored_objects@, key);
                }
                if self.monitored_objects[i].1.state == 1 {
                    self.monitored_objects.remove(i);
                }
                false
            },
        }
    }

    /// A shape of a body started to overlap one of this area's shapes.
    /// Returns whether the body was not detected before, in which case the
    /// caller registers this area as an override source of the body. When a
    /// body monitor is set, the enter is queued for the next flush (unless
    /// one is pending for the pair) and the area is scheduled for it.
    pub fn on_body_enter(
        &mut self,
        collider_handle: Handle,
        body_present: bool,
        body_shape: usize,
        body_rid: u64,
        body_instance_id: u64,
        area_collider_handle: Handle,
        area_shape: usize,
        space: &mut RapierSpace,
    ) -> (r: bool)
        requires
            old(self)@.wf(),
            old(space).wf(),
        ensures
            final(self)@.wf(),
            final(space).wf(),
            !body_present ==> !r && final(self)@ == old(self)@ && final(space)@ == old(space)@,
            body_present ==> {
                let o = old(self)@;
                let key = (collider_handle, area_collider_handle);
                let info = monitor_info_of(
                    body_rid,
                    body_instance_id,
                    body_shape,
                    area_shape,
                    CollisionObjectType::Body,
                    1,
                );
                let monitoring = o.monitor_callback.is_some();
                &&& r == (count_index(o.detected, body_rid) < 0)
                &&& final(self)@ == area_after_body_enter(o, key, body_rid, info)
                &&& final(space)@ == if monitoring && pair_index(o.monitored, key) < 0 {
                    scheduled_for_monitor(old(space)@, o.base.rid)
                } else {
                    old(space)@
                }
            },
    {
        if !body_present {
            return false;
        }
        proof {
            lemma_counts_inc_wf(self@.detected, body_rid);
            lemma_monitored_enter_wf(
                self@.monitored,
                (collider_handle, area_collider_handle),
                monitor_info_of(body_rid, body_instance_id, body_shape, area_shape, CollisionObjectType::Body, 1),
            );
        }
        let first = self.detected_bodies.increment(body_rid);
        if self.monitor_callback.is_none() {
            return first;
        }
        self.base.increment_area_detection_counter();
        let info = MonitorInfo {
            rid: body_rid,
            instance_id: body_instance_id,
            object_shape_index: body_shape as u32,
            area_shape_index: area_shape as u32,
            collision_object_type: CollisionObjectType::Body,
            state: 1,
        };
        if self.record_enter(handle_pair(collider_handle, area_collider_handle), info) {
            space.area_add_to_monitor_query_list(self.base.get_rid());
        }
        first
    }

    /// A shape of a body stopped overlapping one of this area's shapes.
    /// Returns whether the body is no longer detected, in which case the
    /// caller removes this area from the body's override sources. When a body
    /// monitor is set, the exit is queued as `monitored_after_exit` says.
    pub fn on_body_exit(
        &mut self,
        collider_handle: Handle,
        body_present: bool,
        body_shape: usize,
        body_rid: u64,
        body_instance_id: u64,
        area_collider_handle: Handle,
        area_shape: usize,
        space: &mut RapierSpace,
    ) -> (r: bool)
        requires
            old(self)@.wf(),
            old(space).wf(),
        ensures
            final(self)@.wf(),
            final(space).wf(),
            ({
                let o = old(self)@;
                let key = (collider_handle, area_collider_handle);
                let info = monitor_info_of(
                    body_rid,
                    body_instance_id,
                    body_shape,
                    area_shape,
                    CollisionObjectType::Body,
                    -1i32,
                );
                let monitoring = o.monitor_callback.is_some();
                let i = count_index(o.detected, body_rid);
                &&& r == (body_present && i >= 0 && o.detected[i].1 <= 1)
                &&& final(self)@ == area_after_body_exit(o, key, body_rid, info, body_present)
                &&& final(space)@ == if monitoring && exit_records_event(o.monitored, key) {
                    scheduled_for_monitor(old(space)@, o.base.rid)
                } else {
                    old(space)@
                }
            }),
    {
        proof {
            lemma_counts_dec_wf(self@.detected, body_rid);
            lemma_monitored_exit_wf(
                self@.monitored,
                (collider_handle, area_collider_handle),
                monitor_info_of(body_rid, body_instance_id, body_shape, area_shape, CollisionObjectType::Body, -1i32),
            );
        }
        let mut gone = false;
        if body_present {
            gone = self.detected_bodies.decrement(body_rid);
        }
        if self.monitor_callback.is_none() {
            return gone;
        }
        if body_present {
            self.base.decrement_area_detection_counter();
        }
        let info = MonitorInfo {
            rid: body_rid,
            instance_id: body_instance_id,
            object_shape_index: body_shape as u32,
            area_shape_index: area_shape as u32,
            collision_object_type: CollisionObjectType::Body,
            state: -1,
        };
        if self.record_exit(handle_pair(collider_handle, area_collider_handle), info) {
            space.area_add_to_monitor_query_list(self.base.get_rid());
        }
        gone
    }
}

fn handle_pair(a: Handle, b: Handle) -> (r: PairKey)
    ensures
        r == (a, b),
{
    (a, b)
}

impl RapierArea {
    /// A shape of another area started to overlap one of this area's shapes.
    /// Only a monitorable area is watched, and only when an area monitor is
    /// set: then the other area's detection counter goes up and the enter is
    /// queued unless one is pending for the pair.
    pub fn on_area_enter(
        &mut self,
        collider_handle: Handle,
        other_area: &mut RapierArea,
        other_area_shape: usize,
        other_area_rid: u64,
        other_area_instance_id: u64,
        area_collider_handle: Handle,
        area_shape: usize,
        space: &mut RapierSpace,
    )
        requires
            old(self)@.wf(),
            old(space).wf(),
        ensures
            final(self)@.wf(),
            final(space).wf(),
            ({
                let o = old(self)@;
                let ot = old(other_area)@;
                let key = (collider_handle, area_collider_handle);
                let info = monitor_info_of(
                    other_area_rid,
                    other_area_instance_id,
                    other_area_shape,
                    area_shape,
                    CollisionObjectType::Area,
                    1,
                );
                if o.area_monitor_callback.is_none() || !ot.monitorable {
                    &&& final(self)@ == o
                    &&& final(other_area)@ == ot
                    &&& final(space)@ == old(space)@
                } else {
                    &&& final(other_area)@ == (AreaView { base: counter_inc(ot.base), ..ot })
                    &&& final(self)@ == (AreaView {
                        monitored: monitored_after_enter(o.monitored, key, info),
                        ..o
                    })
                    &&& final(space)@ == if pair_index(o.monitored, key) < 0 {
                        scheduled_for_monitor(old(space)@, o.base.rid)
                    } else {
                        old(space)@
                    }
                }
            }),
    {
        if self.area_monitor_callback.is_none() {
            return;
        }
        if !other_area.monitorable {
            return;
        }
        other_area.base.increment_area_detection_counter();
        let info = MonitorInfo {
            rid: other_area_rid,
            instance_id: other_area_instance_id,
            object_shape_index: other_area_shape as u32,
            area_shape_index: area_shape as u32,
            collision_object_type: CollisionObjectType::Area,
            state: 1,
        };
        proof {
            lemma_monitored_enter_wf(self@.monitored, (collider_handle, area_collider_handle), info);
        }
        if self.record_enter(handle_pair(collider_handle, area_collider_handle), info) {
            space.area_add_to_monitor_query_list(self.base.get_rid());
        }
    }

    /// A shape of another area stopped overlapping one of this area's shapes.
    /// Mirrors `on_area_enter`; an other area with no pending detection is
    /// left alone.
    pub fn on_area_exit(
        &mut self,
        collider_handle: Handle,
        other_area: &mut RapierArea,
        other_area_shape: usize,
        other_area_rid: u64,
        other_area_instance_id: u64,
        area_collider_handle: Handle,
        area_shape: usize,
        space: &mut RapierSpace,
    )
        requires
            old(self)@.wf(),
            old(space).wf(),
        ensures
            final(self)@.wf(),
            final(space).wf(),
            ({
                let o = old(self)@;
                let ot = old(other_area)@;
                let key = (collider_handle, area_collider_handle);
                let info = monitor_info_of(
                    other_area_rid,
                    other_area_instance_id,
                    other_area_shape,
                    area_shape,
                    CollisionObjectType::Area,
                    -1i32,
                );
                if o.area_monitor_callback.is_none() || !ot.monitorable || ot.base.area_detection_counter
                    == 0 {
                    &&& final(self)@ == o
                    &&& final(other_area)@ == ot
                    &&& final(space)@ == old(space)@
                } else {
                    &&& final(other_area)@ == (AreaView { base: counter_dec(ot.base), ..ot })
                    &&& final(self)@ == (AreaView {
                        monitored: monitored_after_exit(o.monitored, key, info),
                        ..o
                    })
                    &&& final(space)@ == if exit_records_event(o.monitored, key) {
                        scheduled_for_monitor(old(space)@, o.base.rid)
                    } else {
                        old(space)@
                    }
                }
            }),
    {
        if self.area_monitor_callback.is_none() {
            return;
        }
        if !other_area.monitorable {
            return;
        }
        if other_area.base.get_area_detection_counter() == 0 {
            return;
        }
        other_area.base.decrement_area_detection_counter();
        self.record_area_exit(
            collider_handle,
            other_area_shape,
            other_area_rid,
            other_area_instance_id,
            area_collider_handle,
            area_shape,
            space,
        );
    }

    /// An area that this area watched stopped overlapping it and is already
    /// gone from the host: only the exit event is queued.
    pub fn on_removed_area_exit(
        &mut self,
        collider_handle: Handle,
        other_area_shape: usize,
        other_area_rid: u64,
        other_area_instance_id: u64,
        area_collider_handle: Handle,
        area_shape: usize,
        space: &mut RapierSpace,
    )
        requires
            old(self)@.wf(),
            old(space).wf(),
        ensures
            final(self)@.wf(),
            final(space).wf(),
            ({
                let o = old(self)@;
                let key = (collider_handle, area_collider_handle);
                let info = monitor_info_of(
                    other_area_rid,
                    other_area_instance_id,
                    other_area_shape,
                    area_shape,
                    CollisionObjectType::Area,
                    -1i32,
                );
                if o.area_monitor_callback.is_none() {
                    final(self)@ == o && final(space)@ == old(space)@
                } else {
                    &&& final(self)@ == (AreaView {
                        monitored: monitored_after_exit(o.monitored, key, info),
                        ..o
                    })
                    &&& final(space)@ == if exit_records_event(o.monitored, key) {
                        scheduled_for_monitor(old(space)@, o.base.rid)
                    } else {
                        old(space)@
                    }
                }
            }),
    {
        if self.area_monitor_callback.is_none() {
            return;
        }
        self.record_area_exit(
            collider_handle,
            other_area_shape,
            other_area_rid,
            other_area_instance_id,
            area_collider_handle,
            area_shape,
            space,
        );
    }

    fn record_area_exit(
        &mut self,
        collider_handle: Handle,
        other_area_shape: usize,
        other_area_rid: u64,
        other_area_instance_id: u64,
        area_collider_handle: Handle,
        area_shape: usize,
        space: &mut RapierSpace,
    )
        requires
            old(self)@.wf(),
            old(space).wf(),
        ensures
            final(self)@.wf(),
            final(space).wf(),
            ({
                let o = old(self)@;
                let key = (collider_handle, area_collider_handle);
                let info = monitor_info_of(
                    other_area_rid,
                    other_area_instance_id,
                    other_area_shape,
                    area_shape,
                    CollisionObjectType::Area,
                    -1i32,
                );
                &&& final(self)@ == (AreaView { monitored: monitored_after_exit(o.monitored, key, info), ..o })
                &&& final(space)@ == if exit_records_event(o.monitored, key) {
                    scheduled_for_monitor(old(space)@, o.base.rid)
                } else {
                    old(space)@
                }
            }),
    {
        let info = MonitorInfo {
            rid: other_area_rid,
            instance_id: other_area_instance_id,
            object_shape_index: other_area_shape as u32,
            area_shape_index: area_shape as u32,
            collision_object_type: CollisionObjectType::Area,
            state: -1,
        };
        proof {
            lemma_monitored_exit_wf(self@.monitored, (collider_handle, area_collider_handle), info);
        }
        if self.record_exit(handle_pair(collider_handle, area_collider_handle), info) {
            space.area_add_to_monitor_query_list(self.base.get_rid());
        }
    }

    /// Turns every pending event into its callback call and forgets them
    /// all: a list that is dropped loses its events.
    pub fn get_queries(&mut self) -> (r: Vec<AreaQuery>)
        requires
            old(self)@.wf(),
        ensures
            final(self)@.wf(),
            r@ == queries_of(old(self)@.monitored, old(self)@.monitor_callback, old(self)@.area_monitor_callback),
            final(self)@ == (AreaView { monitored: Seq::empty(), ..old(self)@ }),
    {
        let mut queries: Vec<AreaQuery> = Vec::new();
        let mut i: usize = 0;
        while i < self.monitored_objects.len()
            invariant
                0 <= i <= self.monitored_objects@.len(),
                self@ == old(self)@,
                queries@ == queries_of(
                    self.monitored_objects@.take(i as int),
                    self.monitor_callback,
                    self.area_monitor_callback,
                ),
            decreases self.monitored_objects@.len() - i,
        {
            let info = self.monitored_objects[i].1;
            let ghost next = self.monitored_objects@.take(i + 1);
            assert(next.drop_last() =~= self.monitored_objects@.take(i as int));
            assert(next.last() == self.monitored_objects@[i as int]);
            if info.state != 0 {
                let callback = if info.collision_object_type == CollisionObjectType::Body {
                    self.monitor_callback
                } else {
                    self.area_monitor_callback
                };
                match callback {
                    Some(c) => {
                        queries.push(
                            AreaQuery {
                                callback: c,
                                status: if info.state > 0 {
                                    AreaBodyStatus::Added
                                } else {
                                    AreaBodyStatus::Removed
                                },
                                rid: info.rid,
                                instance_id: info.instance_id,
                                object_shape_index: info.object_shape_index,
                                area_shape_index: info.area_shape_index,
                            },
                        );
                    },
                    None => {},
                }
            }
            i = i + 1;
        }
        assert(self.monitored_objects@.take(i as int) =~= self.monitored_objects@);
        self.monitored_objects.clear();
        assert(self@.monitored =~= Seq::<(PairKey, MonitorInfo)>::empty());
        queries
    }

    /// Forgets the pending events.
    pub fn clear_monitored_objects(&mut self)
        requires
            old(self)@.wf(),
        ensures
            final(self)@.wf(),
            final(self)@ == (AreaView { monitored: Seq::empty(), ..old(self)@ }),
    {
        self.monitored_objects.clear();
        assert(self@.monitored =~= Seq::<(PairKey, MonitorInfo)>::empty());
    }

    /// The number of pending events.
    pub fn pending_event_count(&self) -> (r: usize)
        ensures
            r == self@.monitored.len(),
    {
        self.monitored_objects.len()
    }

    /// How many of this area's shapes touch the body `rid`.
    pub fn detected_body_count(&self, rid: u64) -> (r: u32)
        ensures
            r == count_of(self@.detected, rid),
    {
        self.detected_bodies.count(rid)
    }

    /// The detected bodies, in the order in which they were first detected.
    pub fn detected_body_ids(&self) -> (r: Vec<u64>)
        ensures
            r@ == count_ids(self@.detected),
    {
        self.detected_bodies.ids()
    }

    pub fn get_base(&self) -> (r: &RapierCollisionObject)
        ensures
            r@ == self@.base,
    {
        &self.base
    }

    pub fn get_mut_base(&mut self) -> (r: &mut RapierCollisionObject)
        ensures
            r@ == old(self)@.base,
            final(self)@ == (AreaView { base: final(r)@, ..old(self)@ }),
    {
        &mut self.base
    }
}

/// The override mode that a parameter value names, if it names one.
pub open spec fn mode_of(value: ParamValue) -> Option<AreaSpaceOverrideMode> {
    match value {
        ParamValue::Mode(m) => Some(m),
        ParamValue::Int(i) => if i == 0 {
            Some(AreaSpaceOverrideMode::Disabled)
        } else if i == 1 {
            Some(AreaSpaceOverrideMode::Combine)
        } else if i == 2 {
            Some(AreaSpaceOverrideMode::CombineReplace)
        } else if i == 3 {
            Some(AreaSpaceOverrideMode::Replace)
        } else if i == 4 {
            Some(AreaSpaceOverrideMode::ReplaceCombine)
        } else {
            None
        },
        _ => None,
    }
}

fn mode_from_value(value: ParamValue) -> (r: Option<AreaSpaceOverrideMode>)
    ensures
        r == mode_of(value),
{
    match value {
        ParamValue::Mode(m) => Some(m),
        ParamValue::Int(i) => if i == 0 {
            Some(AreaSpaceOverrideMode::Disabled)
        } else if i == 1 {
            Some(AreaSpaceOverrideMode::Combine)
        } else if i == 2 {
            Some(AreaSpaceOverrideMode::CombineReplace)
        } else if i == 3 {
            Some(AreaSpaceOverrideMode::Replace)
        } else if i == 4 {
            Some(AreaSpaceOverrideMode::ReplaceCombine)
        } else {
            None
        },
        _ => None,
    }
}

/// What the host must do when an override mode changes: an area that gains
/// its first override is enabled, one that loses its last is disabled.
pub open spec fn override_transition(had: bool, has: bool) -> AreaUpdateMode {
    if has == had {
        AreaUpdateMode::Unchanged
    } else if has {
        AreaUpdateMode::EnableSpaceOverride
    } else {
        AreaUpdateMode::DisableSpaceOverride
    }
}

pub open spec fn view_has_override(a: AreaView) -> bool {
    has_any_override(a.gravity_override_mode, a.linear_damping_override_mode, a.angular_damping_override_mode)
}

pub open spec fn unchanged_update() -> ParamUpdate {
    ParamUpdate { mode: AreaUpdateMode::Unchanged, schedule_area_update: false }
}

/// The area after `set_param`, and what the host must do. A value of the
/// wrong kind changes nothing. Numbers compare as `f32` does. A changed value schedules the detected bodies
/// for an override update when the parameter's override is in force; a
/// changed priority resets the override of an area that has one.
pub open spec fn set_param_spec(a: AreaView, param: AreaParameter, value: ParamValue) -> (AreaView, ParamUpdate) {
    let no_change = (a, unchanged_update());
    match param {
        AreaParameter::GravityOverrideMode => match mode_of(value) {
            Some(m) => {
                let b = AreaView { gravity_override_mode: m, ..a };
                (b, ParamUpdate { mode: override_transition(view_has_override(a), view_has_override(b)), schedule_area_update: false })
            },
            None => no_change,
        },
        AreaParameter::LinearDampOverrideMode => match mode_of(value) {
            Some(m) => {
                let b = AreaView { linear_damping_override_mode: m, ..a };
                (b, ParamUpdate { mode: override_transition(view_has_override(a), view_has_override(b)), schedule_area_update: false })
            },
            None => no_change,
        },
        AreaParameter::AngularDampOverrideMode => match mode_of(value) {
            Some(m) => {
                let b = AreaView { angular_damping_override_mode: m, ..a };
                (b, ParamUpdate { mode: override_transition(view_has_override(a), view_has_override(b)), schedule_area_update: false })
            },
            None => no_change,
        },
        AreaParameter::Gravity => match value {
            ParamValue::Real(x) => if !real_eq(x.bits, a.gravity.bits) {
                (
                    AreaView { gravity: x, ..a },
                    ParamUpdate {
                        mode: AreaUpdateMode::Unchanged,
                        schedule_area_update: a.gravity_override_mode != AreaSpaceOverrideMode::Disabled,
                    },
                )
            } else {
                no_change
            },
            _ => no_change,
        },
        AreaParameter::GravityVector => match value {
            ParamValue::Vector(v) => if !vector_eq(v, a.gravity_vector) {
                (
                    AreaView { gravity_vector: v, ..a },
                    ParamUpdate {
                        mode: AreaUpdateMode::Unchanged,
                        schedule_area_update: a.gravity_override_mode != AreaSpaceOverrideMode::Disabled,
                    },
                )
            } else {
                no_change
            },
            _ => no_change,
        },
        AreaParameter::GravityIsPoint => match value {
            ParamValue::Bool(p) => if p != a.gravity_is_point {
                (
                    AreaView { gravity_is_point: p, ..a },
                    ParamUpdate {
                        mode: AreaUpdateMode::Unchanged,
                        schedule_area_update: a.gravity_override_mode != AreaSpaceOverrideMode::Disabled,
                    },
                )
            } else {
                no_change
            },
            _ => no_change,
        },
        AreaParameter::GravityPointUnitDistance => match value {
            ParamValue::Real(x) => if !real_eq(x.bits, a.gravity_point_unit_distance.bits) {
                (
                    AreaView { gravity_point_unit_distance: x, ..a },
                    ParamUpdate {
                        mode: AreaUpdateMode::Unchanged,
                        schedule_area_update: a.gravity_override_mode != AreaSpaceOverrideMode::Disabled,
                    },
                )
            } else {
                no_change
            },
            _ => no_change,
        },
        AreaParameter::LinearDamp => match value {
            ParamValue::Real(x) => if !real_eq(x.bits, a.linear_damp.bits) {
                (
                    AreaView { linear_damp: x, ..a },
                    ParamUpdate {
                        mode: AreaUpdateMode::Unchanged,
                        schedule_area_update: a.linear_damping_override_mode != AreaSpaceOverrideMode::Disabled,
                    },
                )
            } else {
                no_change
            },
            _ => no_change,
        },
        AreaParameter::AngularDamp => match value {
            ParamValue::Real(x) => if !real_eq(x.bits, a.angular_damp.bits) {
                (
                    AreaView { angular_damp: x, ..a },
                    ParamUpdate {
                        mode: AreaUpdateMode::Unchanged,
                        schedule_area_update: a.angular_damping_override_mode != AreaSpaceOverrideMode::Disabled,
                    },
                )
            } else {
                no_change
            },
            _ => no_change,
        },
        AreaParameter::Priority => match value {
            ParamValue::Int(p) => if i32::MIN <= p <= i32::MAX && p as i32 != a.priority {
                (
                    AreaView { priority: p as i32, ..a },
                    ParamUpdate {
                        mode: if view_has_override(a) {
                            AreaUpdateMode::ResetSpaceOverride
                        } else {
                            AreaUpdateMode::Unchanged
                        },
                        schedule_area_update: false,
                    },
                )
            } else {
                no_change
            },
            _ => no_change,
        },
        _ => no_change,
    }
}

impl RapierArea {
    pub fn has_any_space_override(&self) -> (r: bool)
        ensures
            r == view_has_override(self@),
    {
        self.gravity_override_mode != AreaSpaceOverrideMode::Disabled || self.linear_damping_override_mode
            != AreaSpaceOverrideMode::Disabled || self.angular_damping_override_mode
            != AreaSpaceOverrideMode::Disabled
    }

    /// Sets one parameter, as `set_param_spec` says.
    pub fn set_param(&mut self, p_param: AreaParameter, p_value: ParamValue) -> (r: ParamUpdate)
        requires
            old(self)@.wf(),
        ensures
            final(self)@.wf(),
            (final(self)@, r) == set_param_spec(old(self)@, p_param, p_value),
    {
        let unchanged = ParamUpdate { mode: AreaUpdateMode::Unchanged, schedule_area_update: false };
        match p_param {
            AreaParameter::GravityOverrideMode => match mode_from_value(p_value) {
                Some(m) => {
                    let had = self.has_any_space_override();
                    self.gravity_override_mode = m;
                    let has = self.has_any_space_override();
                    ParamUpdate { mode: transition(had, has), schedule_area_update: false }
                },
                None => unchanged,
            },
            AreaParameter::LinearDampOverrideMode => match mode_from_value(p_value) {
                Some(m) => {
                    let had = self.has_any_space_override();
                    self.linear_damping_override_mode = m;
                    let has = self.has_any_space_override();
                    ParamUpdate { mode: transition(had, has), schedule_area_update: false }
                },
                None => unchanged,
            },
            AreaParameter::AngularDampOverrideMode => match mode_from_value(p_value) {
                Some(m) => {
                    let had = self.has_any_space_override();
                    self.angular_damping_override_mode = m;
                    let has = self.has_any_space_override();
                    ParamUpdate { mode: transition(had, has), schedule_area_update: false }
                },
                None => unchanged,
            },
            AreaParameter::Gravity => match p_value {
                ParamValue::Real(x) => if !x.same_value(&self.gravity) {
                    self.gravity = x;
                    ParamUpdate {
                        mode: AreaUpdateMode::Unchanged,
                        schedule_area_update: self.gravity_override_mode != AreaSpaceOverrideMode::Disabled,
                    }
                } else {
                    unchanged
                },
                _ => unchanged,
            },
            AreaParameter::GravityVector => match p_value {
                ParamValue::Vector(v) => if !v.same_value(&self.gravity_vector) {
                    self.gravity_vector = v;
                    ParamUpdate {
                        mode: AreaUpdateMode::Unchanged,
                        schedule_area_update: self.gravity_override_mode != AreaSpaceOverrideMode::Disabled,
                    }
                } else {
                    unchanged
                },
                _ => unchanged,
            },
            AreaParameter::GravityIsPoint => match p_value {
                ParamValue::Bool(p) => if p != self.gravity_is_point {
                    self.gravity_is_point = p;
                    ParamUpdate {
                        mode: AreaUpdateMode::Unchanged,
                        schedule_area_update: self.gravity_override_mode != AreaSpaceOverrideMode::Disabled,
                    }
                } else {
                    unchanged
                },
                _ => unchanged,
            },
            AreaParameter::GravityPointUnitDistance => match p_value {
                ParamValue::Real(x) => if !x.same_value(&self.gravity_point_unit_distance) {
                    self.gravity_point_unit_distance = x;
                    ParamUpdate {
                        mode: AreaUpdateMode::Unchanged,
                        schedule_area_update: self.gravity_override_mode != AreaSpaceOverrideMode::Disabled,
                    }
                } else {
                    unchanged
                },
                _ => unchanged,
            },
            AreaParameter::LinearDamp => match p_value {
                ParamValue::Real(x) => if !x.same_value(&self.linear_damp) {
                    self.linear_damp = x;
                    ParamUpdate {
                        mode: AreaUpdateMode::Unchanged,
                        schedule_area_update: self.linear_damping_override_mode
                            != AreaSpaceOverrideMode::Disabled,
                    }
                } else {
                    unchanged
                },
                _ => unchanged,
            },
            AreaParameter::AngularDamp => match p_value {
                ParamValue::Real(x) => if !x.same_value(&self.angular_damp) {
                    self.angular_damp = x;
                    ParamUpdate {
                        mode: AreaUpdateMode::Unchanged,
                        schedule_area_update: self.angular_damping_override_mode
                            != AreaSpaceOverrideMode::Disabled,
                    }
                } else {
                    unchanged
                },
                _ => unchanged,
            },
            AreaParameter::Priority => match p_value {
                ParamValue::Int(p) => if i32::MIN as i64 <= p && p <= i32::MAX as i64 && p as i32
                    != self.priority {
                    self.priority = p as i32;
                    ParamUpdate {
                        mode: if self.has_any_space_override() {
                            AreaUpdateMode::ResetSpaceOverride
                        } else {
                            AreaUpdateMode::Unchanged
                        },
                        schedule_area_update: false,
                    }
                } else {
                    unchanged
                },
                _ => unchanged,
            },
            _ => unchanged,
        }
    }

    pub fn get_param(&self, p_param: AreaParameter) -> (r: ParamValue)
        ensures
            r == match p_param {
                AreaParameter::GravityOverrideMode => ParamValue::Mode(self@.gravity_override_mode),
                AreaParameter::Gravity => ParamValue::Real(self@.gravity),
                AreaParameter::GravityVector => ParamValue::Vector(self@.gravity_vector),
                AreaParameter::GravityIsPoint => ParamValue::Bool(self@.gravity_is_point),
                AreaParameter::GravityPointUnitDistance => ParamValue::Real(self@.gravity_point_unit_distance),
                AreaParameter::LinearDampOverrideMode => ParamValue::Mode(self@.linear_damping_override_mode),
                AreaParameter::LinearDamp => ParamValue::Real(self@.linear_damp),
                AreaParameter::AngularDampOverrideMode => ParamValue::Mode(self@.angular_damping_override_mode),
                AreaParameter::AngularDamp => ParamValue::Real(self@.angular_damp),
                AreaParameter::Priority => ParamValue::Int(self@.priority as i64),
                _ => ParamValue::Nil,
            },
    {
        match p_param {
            AreaParameter::GravityOverrideMode => ParamValue::Mode(self.gravity_override_mode),
            AreaParameter::Gravity => ParamValue::Real(self.gravity),
            AreaParameter::GravityVector => ParamValue::Vector(self.gravity_vector),
            AreaParameter::GravityIsPoint => ParamValue::Bool(self.gravity_is_point),
            AreaParameter::GravityPointUnitDistance => ParamValue::Real(self.gravity_point_unit_distance),
            AreaParameter::LinearDampOverrideMode => ParamValue::Mode(self.linear_damping_override_mode),
            AreaParameter::LinearDamp => ParamValue::Real(self.linear_damp),
            AreaParameter::AngularDampOverrideMode => ParamValue::Mode(self.angular_damping_override_mode),
            AreaParameter::AngularDamp => ParamValue::Real(self.angular_damp),
            AreaParameter::Priority => ParamValue::Int(self.priority as i64),
            _ => ParamValue::Nil,
        }
    }
}

fn transition(had: bool, has: bool) -> (r: AreaUpdateMode)
    ensures
        r == override_transition(had, has),
{
    if has == had {
        AreaUpdateMode::Unchanged
    } else if has {
        AreaUpdateMode::EnableSpaceOverride
    } else {
        AreaUpdateMode::DisableSpaceOverride
    }
}

impl RapierArea {
    pub fn get_gravity_point_unit_distance(&self) -> (r: RealBits)
        ensures
            r == self@.gravity_point_unit_distance,
    {
        self.gravity_point_unit_distance
    }

    pub fn get_linear_damp(&self) -> (r: RealBits)
        ensures
            r == self@.linear_damp,
    {
        self.linear_damp
    }

    pub fn get_angular_damp(&self) -> (r: RealBits)
        ensures
            r == self@.angular_damp,
    {
        self.angular_damp
    }

    pub fn set_monitorable(&mut self, monitorable: bool)
        ensures
            final(self)@ == (AreaView { monitorable, ..old(self)@ }),
    {
        self.monitorable = monitorable;
    }

    pub fn is_monitorable(&self) -> (r: bool)
        ensures
            r == self@.monitorable,
    {
        self.monitorable
    }

    /// Sets, or with `None` clears, the callback told of bodies.
    pub fn set_monitor_callback(&mut self, callback: Option<u64>)
        ensures
            final(self)@ == (AreaView { monitor_callback: callback, ..old(self)@ }),
    {
        self.monitor_callback = callback;
    }

    /// Sets, or with `None` clears, the callback told of other areas.
    pub fn set_area_monitor_callback(&mut self, callback: Option<u64>)
        ensures
            final(self)@ == (AreaView { area_monitor_callback: callback, ..old(self)@ }),
    {
        self.area_monitor_callback = callback;
    }

    /// The area's override is switched on: the caller adds the area as an
    /// override source to each returned body. A pending override update of
    /// the area is dropped.
    pub fn enable_space_override(&self, space: &mut RapierSpace) -> (r: Vec<u64>)
        requires
            old(space).wf(),
        ensures
            final(space).wf(),
            r@ == count_ids(self@.detected),
            final(space)@ == (SpaceView { area_update: old(space)@.area_update.remove(self@.base.rid), ..old(space)@ }),
    {
        let bodies = self.detected_body_ids();
        space.area_remove_from_area_update_list(self.base.get_rid());
        bodies
    }

    /// The area's override is switched off: the caller removes the area from
    /// the override sources of each returned body.
    pub fn disable_space_override(&self, space: &mut RapierSpace) -> (r: Vec<u64>)
        requires
            old(space).wf(),
        ensures
            final(space).wf(),
            r@ == count_ids(self@.detected),
            final(space)@ == (SpaceView { area_update: old(space)@.area_update.remove(self@.base.rid), ..old(space)@ }),
    {
        let bodies = self.detected_body_ids();
        space.area_remove_from_area_update_list(self.base.get_rid());
        bodies
    }

    /// The area's priority changed: the caller removes and adds the area again
    /// as an override source of each returned body.
    pub fn reset_space_override(&self, space: &mut RapierSpace) -> (r: Vec<u64>)
        requires
            old(space).wf(),
        ensures
            final(space).wf(),
            r@ == count_ids(self@.detected),
            final(space)@ == (SpaceView { area_update: old(space)@.area_update.remove(self@.base.rid), ..old(space)@ }),
    {
        let bodies = self.detected_body_ids();
        space.area_remove_from_area_update_list(self.base.get_rid());
        bodies
    }

    /// Per step: the area leaves the update list first, so that applying its
    /// override may schedule it again; the caller recomputes the combined
    /// override of each returned body.
    pub fn update_area_override(&self, space: &mut RapierSpace) -> (r: Vec<u64>)
        requires
            old(space).wf(),
        ensures
            final(space).wf(),
            r@ == count_ids(self@.detected),
            final(space)@ == (SpaceView { area_update: old(space)@.area_update.remove(self@.base.rid), ..old(space)@ }),
    {
        space.area_remove_from_area_update_list(self.base.get_rid());
        self.detected_body_ids()
    }

    /// Forgets every detection and pending event, and takes the area off
    /// the update list of `space`, the space it is in. Returns the bodies
    /// that were detected, from which the caller removes this area as an
    /// override source.
    pub fn clear_detected_bodies(&mut self, space: &mut RapierSpace) -> (r: Vec<u64>)
        requires
            old(self)@.wf(),
            old(space).wf(),
        ensures
            final(self)@.wf(),
            final(space).wf(),
            r@ == count_ids(old(self)@.detected),
            final(self)@ == (AreaView { detected: Seq::empty(), monitored: Seq::empty(), ..old(self)@ }),
            final(space)@ == (SpaceView {
                area_update: old(space)@.area_update.remove(old(self)@.base.rid),
                ..old(space)@
            }),
    {
        let bodies = self.detected_body_ids();
        self.detected_bodies.clear();
        self.monitored_objects.clear();
        space.area_remove_from_area_update_list(self.base.get_rid());
        assert(self@.detected =~= Seq::<(u64, u32)>::empty());
        assert(self@.monitored =~= Seq::<(PairKey, MonitorInfo)>::empty());
        bodies
    }
}

} // verus!
