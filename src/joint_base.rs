use vstd::prelude::*;

use crate::collision_object::INVALID_RID;
use crate::handle::invalid_handle;
use crate::handle::invalid_handle_spec;
use crate::handle::Handle;
use crate::types::RealBits;

verus! {

/// The bit pattern of the largest finite single-precision number.
pub const REAL_MAX_BITS: u32 = 0x7f7f_ffff;

/// The state of a joint, as the contracts speak of it.
pub struct JointView {
    pub max_force: RealBits,
    pub handle: Handle,
    pub space_handle: Handle,
    pub space_rid: u64,
    pub disabled_collisions_between_bodies: bool,
}

/// What every joint shares: its solver joint, the world it lives in, its
/// force limit and whether the two bodies it joins may collide.
pub struct RapierJointBase {
    max_force: RealBits,
    handle: Handle,
    space_handle: Handle,
    space_rid: u64,
    disabled_collisions_between_bodies: bool,
}

impl View for RapierJointBase {
    type V = JointView;

    closed spec fn view(&self) -> JointView {
        JointView {
            max_force: self.max_force,
            handle: self.handle,
            space_handle: self.space_handle,
            space_rid: self.space_rid,
            disabled_collisions_between_bodies: self.disabled_collisions_between_bodies,
        }
    }
}

impl Default for RapierJointBase {
    fn default() -> (r: RapierJointBase)
        ensures
            r@ == (JointView {
                max_force: RealBits { bits: REAL_MAX_BITS },
                handle: invalid_handle_spec(),
                space_handle: invalid_handle_spec(),
                space_rid: INVALID_RID,
                disabled_collisions_between_bodies: true,
            }),
    {
        RapierJointBase::new(invalid_handle(), INVALID_RID, invalid_handle())
    }
}

impl RapierJointBase {
    /// A joint with no force limit whose bodies do not collide.
    pub fn new(space_handle: Handle, space_rid: u64, handle: Handle) -> (r: RapierJointBase)
        ensures
            r@ == (JointView {
                max_force: RealBits { bits: REAL_MAX_BITS },
                handle,
                space_handle,
                space_rid,
                disabled_collisions_between_bodies: true,
            }),
    {
        RapierJointBase {
            max_force: RealBits { bits: REAL_MAX_BITS },
            handle,
            space_handle,
            space_rid,
            disabled_collisions_between_bodies: true,
        }
    }

    pub fn get_handle(&self) -> (r: Handle)
        ensures
            r == self@.handle,
    {
        self.handle
    }

    pub fn get_space_handle(&self) -> (r: Handle)
        ensures
            r == self@.space_handle,
    {
        self.space_handle
    }

    pub fn get_space(&self) -> (r: u64)
        ensures
            r == self@.space_rid,
    {
        self.space_rid
    }

    pub fn set_max_force(&mut self, force: RealBits)
        ensures
            final(self)@ == (JointView { max_force: force, ..old(self)@ }),
    {
        self.max_force = force;
    }

    pub fn get_max_force(&self) -> (r: RealBits)
        ensures
            r == self@.max_force,
    {
        self.max_force
    }

    /// The joint lives in a solver world.
    pub fn is_valid(&self) -> (r: bool)
        ensures
            r == (self@.space_handle != invalid_handle_spec() && self@.handle != invalid_handle_spec()),
    {
        self.space_handle != invalid_handle() && self.handle != invalid_handle()
    }

    /// Sets whether the joined bodies are kept from colliding. Returns
    /// whether the solver joint must follow.
    pub fn disable_collisions_between_bodies(&mut self, disabled: bool) -> (r: bool)
        ensures
            final(self)@ == (JointView { disabled_collisions_between_bodies: disabled, ..old(self)@ }),
            r == (old(self)@.space_handle != invalid_handle_spec() && old(self)@.handle != invalid_handle_spec()),
    {
        self.disabled_collisions_between_bodies = disabled;
        self.is_valid()
    }

    pub fn is_disabled_collisions_between_bodies(&self) -> (r: bool)
        ensures
            r == self@.disabled_collisions_between_bodies,
    {
        self.disabled_collisions_between_bodies
    }

    /// Takes over the force limit and collision setting of `joint`. Returns
    /// whether the solver joint must follow.
    pub fn copy_settings_from(&mut self, joint: &RapierJointBase) -> (r: bool)
        ensures
            final(self)@ == (JointView {
                max_force: joint@.max_force,
                disabled_collisions_between_bodies: joint@.disabled_collisions_between_bodies,
                ..old(self)@
            }),
            r == (old(self)@.space_handle != invalid_handle_spec() && old(self)@.handle != invalid_handle_spec()),
    {
        self.set_max_force(joint.get_max_force());
        self.disable_collisions_between_bodies(joint.is_disabled_collisions_between_bodies())
    }

    /// Forgets the solver joint; returns the world and the joint that the
    /// solver must destroy.
    pub fn destroy_joint(&mut self) -> (r: (Handle, Handle))
        ensures
            r == (old(self)@.space_handle, old(self)@.handle),
            final(self)@ == (JointView { handle: invalid_handle_spec(), ..old(self)@ }),
    {
        let r = (self.space_handle, self.handle);
        self.handle = invalid_handle();
        r
    }
}

} // verus!
