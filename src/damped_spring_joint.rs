use vstd::prelude::*;

use crate::handle::Handle;
use crate::joint_base::JointView;
use crate::joint_base::RapierJointBase;
use crate::joint_base::REAL_MAX_BITS;
use crate::types::RealBits;

verus! {

/// The bit pattern of `20.0`, the stiffness a new spring starts with.
pub const DEFAULT_STIFFNESS_BITS: u32 = 0x41a0_0000;

/// The bit pattern of `1.5`, the damping a new spring starts with.
pub const DEFAULT_DAMPING_BITS: u32 = 0x3fc0_0000;

#[derive(Clone, Copy, Debug, PartialEq, Eq, Hash, Structural)]
pub enum DampedSpringParam {
    RestLength,
    Stiffness,
    Damping,
}

/// A spring with damping between two bodies.
pub struct RapierDampedSpringJoint2D {
    rest_length: RealBits,
    stiffness: RealBits,
    damping: RealBits,
    base: RapierJointBase,
}

pub struct DampedSpringView {
    pub rest_length: RealBits,
    pub stiffness: RealBits,
    pub damping: RealBits,
    pub base: JointView,
}

impl View for RapierDampedSpringJoint2D {
    type V = DampedSpringView;

    closed spec fn view(&self) -> DampedSpringView {
        DampedSpringView {
            rest_length: self.rest_length,
            stiffness: self.stiffness,
            damping: self.damping,
            base: self.base@,
        }
    }
}

impl RapierDampedSpringJoint2D {
    /// A spring created in the solver as `handle`, in the world
    /// `space_handle` of the space `space_rid`, resting at the distance
    /// between its anchors.
    pub fn new(space_handle: Handle, space_rid: u64, handle: Handle, rest_length: RealBits) -> (r: RapierDampedSpringJoint2D)
        ensures
            r@.rest_length == rest_length,
            r@.stiffness == (RealBits { bits: DEFAULT_STIFFNESS_BITS }),
            r@.damping == (RealBits { bits: DEFAULT_DAMPING_BITS }),
            r@.base == (JointView {
                max_force: RealBits { bits: REAL_MAX_BITS },
                handle,
                space_handle,
                space_rid,
                disabled_collisions_between_bodies: true,
            }),
    {
        RapierDampedSpringJoint2D {
            rest_length,
            stiffness: RealBits { bits: DEFAULT_STIFFNESS_BITS },
            damping: RealBits { bits: DEFAULT_DAMPING_BITS },
            base: RapierJointBase::new(space_handle, space_rid, handle),
        }
    }

    /// Sets one spring parameter. Returns the world and the joint whose
    /// spring the solver must update, when the joint has a valid handle.
    pub fn set_param(&mut self, p_param: DampedSpringParam, p_value: RealBits) -> (r: Option<(Handle, Handle)>)
        ensures
            final(self)@ == match p_param {
                DampedSpringParam::RestLength => DampedSpringView { rest_length: p_value, ..old(self)@ },
                DampedSpringParam::Stiffness => DampedSpringView { stiffness: p_value, ..old(self)@ },
                DampedSpringParam::Damping => DampedSpringView { damping: p_value, ..old(self)@ },
            },
            r == if old(self)@.base.handle.valid() {
                Some((old(self)@.base.space_handle, old(self)@.base.handle))
            } else {
                None::<(Handle, Handle)>
            },
    {
        match p_param {
            DampedSpringParam::RestLength => {
                self.rest_length = p_value;
            },
            DampedSpringParam::Stiffness => {
                self.stiffness = p_value;
            },
            DampedSpringParam::Damping => {
                self.damping = p_value;
            },
        }
        let handle = self.base.get_handle();
        if !handle.is_valid() {
            return None;
        }
        Some((self.base.get_space_handle(), handle))
    }

    pub fn get_param(&self, p_param: DampedSpringParam) -> (r: RealBits)
        ensures
            r == match p_param {
                DampedSpringParam::RestLength => self@.rest_length,
                DampedSpringParam::Stiffness => self@.stiffness,
                DampedSpringParam::Damping => self@.damping,
            },
    {
        match p_param {
            DampedSpringParam::RestLength => self.rest_length,
            DampedSpringParam::Stiffness => self.stiffness,
            DampedSpringParam::Damping => self.damping,
        }
    }

    pub fn get_base(&self) -> (r: &RapierJointBase)
        ensures
            r@ == self@.base,
    {
        &self.base
    }

    pub fn get_mut_base(&mut self) -> (r: &mut RapierJointBase)
        ensures
            r@ == old(self)@.base,
            final(self)@ == (DampedSpringView { base: final(r)@, ..old(self)@ }),
    {
        &mut self.base
    }
}

} // verus!
