use vstd::prelude::*;

verus! {

/// Identifies a slot of a generational arena owned by the solver.
/// The all-ones pair is the invalid sentinel.
#[derive(Clone, Copy, Debug, PartialEq, Eq, Hash, Structural)]
pub struct Handle {
    pub id: u32,
    pub generation: u32,
}

/// A handle of an arena indexed by `usize` with 64-bit generations.
#[derive(Clone, Copy, Debug, PartialEq, Eq, Hash, Structural)]
pub struct HandleDouble {
    pub id: usize,
    pub generation: u64,
}

pub open spec fn invalid_handle_spec() -> Handle {
    Handle { id: u32::MAX, generation: u32::MAX }
}

pub open spec fn invalid_handle_double_spec() -> HandleDouble {
    HandleDouble { id: usize::MAX, generation: u64::MAX }
}

impl Handle {
    /// A handle is valid when neither part holds the sentinel value.
    pub open spec fn valid(&self) -> bool {
        self.id != u32::MAX && self.generation != u32::MAX
    }

    pub fn is_valid(&self) -> (r: bool)
        ensures
            r == self.valid(),
    {
        (self.id != u32::MAX) && (self.generation != u32::MAX)
    }
}

impl HandleDouble {
    pub open spec fn valid(&self) -> bool {
        self.id != usize::MAX && self.generation != u64::MAX
    }

    pub fn is_valid(&self) -> (r: bool)
        ensures
            r == self.valid(),
    {
        (self.id != usize::MAX) && (self.generation != u64::MAX)
    }
}

impl Default for Handle {
    fn default() -> (r: Handle)
        ensures
            r == invalid_handle_spec(),
    {
        Handle { id: u32::MAX, generation: u32::MAX }
    }
}

impl Default for HandleDouble {
    fn default() -> (r: HandleDouble)
        ensures
            r == invalid_handle_double_spec(),
    {
        HandleDouble { id: usize::MAX, generation: u64::MAX }
    }
}

pub fn invalid_handle() -> (r: Handle)
    ensures
        r == invalid_handle_spec(),
        !r.valid(),
{
    Handle { id: u32::MAX, generation: u32::MAX }
}

pub fn invalid_handle_double() -> (r: HandleDouble)
    ensures
        r == invalid_handle_double_spec(),
        !r.valid(),
{
    HandleDouble { id: usize::MAX, generation: u64::MAX }
}

pub fn is_handle_valid(handle: Handle) -> (r: bool)
    ensures
        r == handle.valid(),
{
    handle.is_valid()
}

pub fn is_handle_valid_double(handle: HandleDouble) -> (r: bool)
    ensures
        r == handle.valid(),
{
    handle.is_valid()
}

pub fn are_handles_equal(handle1: Handle, handle2: Handle) -> (r: bool)
    ensures
        r == (handle1 == handle2),
{
    (handle1.id == handle2.id) && (handle1.generation == handle2.generation)
}

pub fn are_handles_equal_double(handle1: HandleDouble, handle2: HandleDouble) -> (r: bool)
    ensures
        r == (handle1 == handle2),
{
    (handle1.id == handle2.id) && (handle1.generation == handle2.generation)
}

/// The key under which an area tracks one (other collider, own collider) contact.
pub fn handle_pair_hash(handle1: Handle, handle2: Handle) -> (r: (Handle, Handle))
    ensures
        r == (handle1, handle2),
{
    (handle1, handle2)
}

} // verus!
