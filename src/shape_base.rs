use vstd::prelude::*;

use crate::collision_object::INVALID_RID;
use crate::handle::invalid_handle;
use crate::handle::invalid_handle_spec;
use crate::handle::Handle;
use crate::ref_count::count_ids;
use crate::ref_count::count_of;
use crate::ref_count::counts_after_dec;
use crate::ref_count::counts_after_inc;
use crate::ref_count::counts_wf;
use crate::ref_count::RefCounts;
use crate::types::zero_vector;
use crate::types::Rect;

verus! {

/// The state of a shape resource, as the contracts speak of it.
pub struct ShapeBaseView {
    pub rid: u64,
    pub aabb: Rect,
    /// Each owning collision object with the number of its bindings of the shape.
    pub owners: Seq<(u64, u32)>,
    pub handle: Handle,
}

/// What every shape resource shares: its id, its solver shape, its bounds
/// and the collision objects that bind it.
pub struct RapierShapeBase {
    rid: u64,
    aabb: Rect,
    owners: RefCounts,
    handle: Handle,
}

impl View for RapierShapeBase {
    type V = ShapeBaseView;

    closed spec fn view(&self) -> ShapeBaseView {
        ShapeBaseView { rid: self.rid, aabb: self.aabb, owners: self.owners@, handle: self.handle }
    }
}

impl Default for RapierShapeBase {
    fn default() -> (r: RapierShapeBase)
        ensures
            r@ == (ShapeBaseView {
                rid: INVALID_RID,
                aabb: Rect { position: zero_vector(), size: zero_vector() },
                owners: Seq::empty(),
                handle: invalid_handle_spec(),
            }),
    {
        RapierShapeBase::new(INVALID_RID)
    }
}

impl RapierShapeBase {
    pub fn new(rid: u64) -> (r: RapierShapeBase)
        ensures
            r@ == (ShapeBaseView {
                rid,
                aabb: Rect { position: zero_vector(), size: zero_vector() },
                owners: Seq::empty(),
                handle: invalid_handle_spec(),
            }),
    {
        RapierShapeBase { rid, aabb: Rect::default(), owners: RefCounts::new(), handle: invalid_handle() }
    }

    /// Takes over the solver shape `handle` with its bounds. Returns the
    /// previous solver shape, which the caller destroys.
    pub fn set_handle(&mut self, handle: Handle, aabb: Rect) -> (r: Option<Handle>)
        ensures
            final(self)@ == (ShapeBaseView { handle, aabb, ..old(self)@ }),
            r == if old(self)@.handle != invalid_handle_spec() {
                Some(old(self)@.handle)
            } else {
                None::<Handle>
            },
    {
        let previous = self.destroy_shape();
        self.aabb = aabb;
        self.handle = handle;
        previous
    }

    pub fn get_handle(&self) -> (r: Handle)
        ensures
            r == self@.handle,
    {
        self.handle
    }

    pub fn is_valid(&self) -> (r: bool)
        ensures
            r == (self@.handle != invalid_handle_spec()),
    {
        self.handle != invalid_handle()
    }

    /// The bounds relative to the shape's origin; the host offsets them by
    /// a position.
    pub fn get_local_aabb(&self) -> (r: Rect)
        ensures
            r == self@.aabb,
    {
        self.aabb
    }

    /// One more binding of the shape by `owner`.
    pub fn add_owner(&mut self, owner: u64)
        requires
            counts_wf(old(self)@.owners),
        ensures
            counts_wf(final(self)@.owners),
            final(self)@ == (ShapeBaseView { owners: counts_after_inc(old(self)@.owners, owner), ..old(self)@ }),
    {
        self.owners.increment(owner);
    }

    /// One binding of the shape by `owner` fewer; an owner with none left is
    /// forgotten.
    pub fn remove_owner(&mut self, owner: u64)
        requires
            counts_wf(old(self)@.owners),
        ensures
            counts_wf(final(self)@.owners),
            final(self)@ == (ShapeBaseView { owners: counts_after_dec(old(self)@.owners, owner), ..old(self)@ }),
    {
        self.owners.decrement(owner);
    }

    /// The owners, in the order in which they first bound the shape.
    pub fn get_owners(&self) -> (r: Vec<u64>)
        ensures
            r@ == count_ids(self@.owners),
    {
        self.owners.ids()
    }

    /// How many bindings of the shape `owner` holds.
    pub fn owner_count(&self, owner: u64) -> (r: u32)
        ensures
            r == count_of(self@.owners, owner),
    {
        self.owners.count(owner)
    }

    pub fn get_rid(&self) -> (r: u64)
        ensures
            r == self@.rid,
    {
        self.rid
    }

    /// Forgets the solver shape; returns it, if there was one, for the caller
    /// to destroy.
    pub fn destroy_shape(&mut self) -> (r: Option<Handle>)
        ensures
            final(self)@ == (ShapeBaseView { handle: invalid_handle_spec(), ..old(self)@ }),
            r == if old(self)@.handle != invalid_handle_spec() {
                Some(old(self)@.handle)
            } else {
                None::<Handle>
            },
    {
        if self.handle != invalid_handle() {
            let h = self.handle;
            self.handle = invalid_handle();
            Some(h)
        } else {
            None
        }
    }
}

} // verus!
