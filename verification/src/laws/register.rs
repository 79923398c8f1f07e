//! What registering, finding and removing do, key by key.
use crate::placements::{PlacementKey, VirtualPlacement};
use crate::terminal::KittyImagePlacement;
use std::sync::Arc;
use vstd::prelude::*;

verus! {

/// A command registers its own columns and rows, the given image, and its
/// stacking order, which is 0 unless given.
pub proof fn law_registered_fields<D>(
    columns: u32,
    rows: u32,
    placement_id: Option<u32>,
    z_index: i32,
    data: Arc<D>,
)
    ensures
        ({
            let with_z = crate::terminal::placement_of(
                KittyImagePlacement {
                    columns: Some(columns),
                    rows: Some(rows),
                    placement_id,
                    z_index: Some(z_index),
                },
                data,
            );
            let without_z = crate::terminal::placement_of(
                KittyImagePlacement {
                    columns: Some(columns),
                    rows: Some(rows),
                    placement_id,
                    z_index: None,
                },
                data,
            );
            &&& with_z.cols == columns && without_z.cols == columns
            &&& with_z.rows == rows && without_z.rows == rows
            &&& with_z.data == data && without_z.data == data
            &&& with_z.z_index == z_index
            &&& without_z.z_index == 0
        }),
{
}

/// A lookup with a placement id yields what is registered under exactly
/// these ids, and nothing else.
pub proof fn law_lookup_with_placement_id<D>(
    m: Map<PlacementKey, VirtualPlacement<D>>,
    image_id: u32,
    placement_id: u32,
)
    ensures
        crate::placements::found(m, image_id, Some(placement_id)) is Some <==> m.contains_key(
            (image_id, Some(placement_id)),
        ),
        m.contains_key((image_id, Some(placement_id))) ==> crate::placements::found(
            m,
            image_id,
            Some(placement_id),
        ) == Some(m[(image_id, Some(placement_id))]),
{
}

/// Without a placement id, and without an unnamed placement of the image,
/// the placement id below which the image has none is the one found.
pub proof fn law_smallest_placement_id_wins<D>(
    m: Map<PlacementKey, VirtualPlacement<D>>,
    image_id: u32,
    smallest: u32,
)
    requires
        !m.contains_key((image_id, None)),
        m.contains_key((image_id, Some(smallest))),
        forall|q: u32| q < smallest ==> !#[trigger] m.contains_key((image_id, Some(q))),
    ensures
        crate::placements::found(m, image_id, None) == Some(m[(image_id, Some(smallest))]),
{
    assert(crate::placements::is_smallest(m, image_id, smallest));
    let p = choose|p: u32| crate::placements::is_smallest(m, image_id, p);
    assert(crate::placements::is_smallest(m, image_id, p));
    assert(p == smallest);
}

/// An unnamed placement is found without a placement id, whatever other
/// placements the image has.
pub proof fn law_unnamed_placement_wins<D>(
    m: Map<PlacementKey, VirtualPlacement<D>>,
    image_id: u32,
)
    requires
        m.contains_key((image_id, None)),
    ensures
        crate::placements::found(m, image_id, None) == Some(m[(image_id, None)]),
{
}

/// What is found is registered for that image, under the placement id that
/// was asked for, if one was.
pub proof fn law_found_is_registered<D>(
    m: Map<PlacementKey, VirtualPlacement<D>>,
    image_id: u32,
    placement_id: Option<u32>,
)
    ensures
        crate::placements::found(m, image_id, placement_id) matches Some(p) ==> exists|
            q: Option<u32>,
        | #[trigger]
            m.contains_key((image_id, q)) && m[(image_id, q)] == p && (placement_id is Some
                ==> q == placement_id),
{
    if m.contains_key((image_id, placement_id)) {
    } else if crate::placements::found(m, image_id, placement_id) is Some {
        let p = choose|p: u32| crate::placements::is_smallest(m, image_id, p);
        assert(m.contains_key((image_id, Some(p))));
    }
}

/// A removal takes away what the ids name, key by key, and leaves every
/// other placement as it is.
pub proof fn law_removal_key_by_key<D>(
    m: Map<PlacementKey, VirtualPlacement<D>>,
    image_id: u32,
    placement_id: Option<u32>,
    other_image: u32,
    other_placement: Option<u32>,
)
    ensures
        ({
            let n = crate::placements::without(m, image_id, placement_id);
            let key = (other_image, other_placement);
            &&& n.contains_key(key) <==> m.contains_key(key) && (other_image != image_id || (
            placement_id is Some && other_placement != placement_id))
            &&& n.contains_key(key) ==> n[key] == m[key]
        }),
{
}

} // verus!
