//! Coordination layer between a host scene engine and a rigid-body solver:
//! generation-checked handles, collision-object bookkeeping, the area
//! detection state machine and the per-space work-lists.

pub mod handle;
pub mod id_set;
pub mod types;
pub mod collision_object;
pub mod space;
pub mod area;
pub mod ref_count;
pub mod shape_base;
pub mod joint_base;
pub mod damped_spring_joint;
pub mod query;
pub mod solver_handle;
