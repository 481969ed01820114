use vstd::prelude::*;

use crate::collision_object::CollisionObjectView;
use crate::collision_object::RapierCollisionObject;
use crate::handle::Handle;

verus! {

/// What a space query leaves out.
pub struct QueryExcludedInfo {
    pub query_collision_layer_mask: u32,
    pub query_canvas_instance_id: u64,
    /// Colliders left out by handle; only the first `query_exclude_size` count.
    pub query_exclude: Vec<Handle>,
    pub query_exclude_size: usize,
    /// The id of a body left out, as a signed number.
    pub query_exclude_body: i64,
}

/// Whether a query leaves out the collider `collider` whose owner is
/// `owner` (if the host still knows it). A collider is left out when it is
/// listed; an owner is left out when it belongs to another canvas, when its
/// layer misses the query's mask, when it is the excluded body, or when the
/// space excludes it from queries.
pub open spec fn excluded_spec(
    collider: Handle,
    owner: Option<CollisionObjectView>,
    exclude: Seq<Handle>,
    exclude_size: int,
    layer_mask: u32,
    canvas_instance_id: u64,
    exclude_body: i64,
    excluded_by_space: bool,
) -> bool {
    ||| exists|i: int| 0 <= i < exclude_size && exclude[i] == collider
    ||| match owner {
        Some(o) => {
            ||| canvas_instance_id != o.canvas_instance_id
            ||| o.collision_layer & layer_mask == 0
            ||| exclude_body == o.rid as i64
            ||| excluded_by_space
        },
        None => false,
    }
}

pub fn is_handle_excluded(
    collider_handle: Handle,
    owner: Option<&RapierCollisionObject>,
    handle_excluded_info: &QueryExcludedInfo,
    excluded_by_space: bool,
) -> (r: bool)
    requires
        handle_excluded_info.query_exclude_size <= handle_excluded_info.query_exclude@.len(),
    ensures
        r == excluded_spec(
            collider_handle,
            match owner {
                Some(o) => Some(o@),
                None => None,
            },
            handle_excluded_info.query_exclude@,
            handle_excluded_info.query_exclude_size as int,
            handle_excluded_info.query_collision_layer_mask,
            handle_excluded_info.query_canvas_instance_id,
            handle_excluded_info.query_exclude_body,
            excluded_by_space,
        ),
{
    let mut i: usize = 0;
    while i < handle_excluded_info.query_exclude_size
        invariant
            0 <= i <= handle_excluded_info.query_exclude_size,
            handle_excluded_info.query_exclude_size <= handle_excluded_info.query_exclude@.len(),
            forall|j: int| 0 <= j < i ==> handle_excluded_info.query_exclude@[j] != collider_handle,
        decreases handle_excluded_info.query_exclude_size - i,
    {
        if handle_excluded_info.query_exclude[i] == collider_handle {
            return true;
        }
        i = i + 1;
    }
    match owner {
        Some(o) => {
            if handle_excluded_info.query_canvas_instance_id != o.get_canvas_instance_id() {
                return true;
            }
            if o.get_collision_layer() & handle_excluded_info.query_collision_layer_mask == 0 {
                return true;
            }
            if handle_excluded_info.query_exclude_body == o.get_rid() as i64 {
                return true;
            }
            excluded_by_space
        },
        None => false,
    }
}

} // verus!
