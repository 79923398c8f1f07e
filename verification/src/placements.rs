//! The register of virtual placements.
use std::collections::HashMap;
use std::sync::Arc;
use vstd::prelude::*;

verus! {

/// A kitty image placement created with `U=1`: registered under
/// (image id, placement id) but not drawn anywhere. Placeholder cells
/// resolve against these at print time. `D` is the decoded image, which is
/// only ever shared, never looked into.
#[derive(Debug)]
pub struct VirtualPlacement<D> {
    pub data: Arc<D>,
    pub cols: u32,
    pub rows: u32,
    pub z_index: i32,
}

/// Another handle on the same image. Calls `std::sync::Arc::clone`, which
/// makes a pointer to the same allocation: the new handle is claimed to
/// hold what the old one holds.
#[verifier::external_body]
pub(crate) fn share<D>(data: &Arc<D>) -> (shared: Arc<D>)
    ensures
        shared == *data,
{
    Arc::clone(data)
}

impl<D> Clone for VirtualPlacement<D> {
    fn clone(&self) -> (copy: Self)
        ensures
            copy == *self,
    {
        VirtualPlacement {
            data: share(&self.data),
            cols: self.cols,
            rows: self.rows,
            z_index: self.z_index,
        }
    }
}

/// What the register maps from: an image id with an optional placement id.
pub type PlacementKey = (u32, Option<u32>);

/// Virtual placements by (image id, placement id).
pub struct VirtualPlacements<D> {
    /// Placements without an explicit placement id, by image id.
    unnamed: HashMap<u32, VirtualPlacement<D>>,
    /// Placements with one, by [`named_key`].
    named: HashMap<u64, VirtualPlacement<D>>,
}

/// An image id and a placement id as one number.
pub open spec fn pair_key(image_id: u32, placement_id: u32) -> u64 {
    (image_id * 0x1_0000_0000 + placement_id) as u64
}

fn named_key(image_id: u32, placement_id: u32) -> (key: u64)
    ensures
        key == pair_key(image_id, placement_id),
{
    image_id as u64 * 0x1_0000_0000 + placement_id as u64
}

/// The smallest placement id under which the image has a placement.
pub open spec fn is_smallest<D>(
    m: Map<PlacementKey, VirtualPlacement<D>>,
    image_id: u32,
    placement_id: u32,
) -> bool {
    &&& m.contains_key((image_id, Some(placement_id)))
    &&& forall|q: u32| #[trigger]
        m.contains_key((image_id, Some(q))) ==> placement_id <= q
}

/// The placement that (image id, placement id) refers to. A given placement
/// id must match; without one, the placement registered without an explicit
/// id wins, otherwise the one with the smallest id.
pub open spec fn found<D>(
    m: Map<PlacementKey, VirtualPlacement<D>>,
    image_id: u32,
    placement_id: Option<u32>,
) -> Option<VirtualPlacement<D>> {
    if m.contains_key((image_id, placement_id)) {
        Some(m[(image_id, placement_id)])
    } else if placement_id is None && exists|p: u32| is_smallest(m, image_id, p) {
        Some(m[(image_id, Some(choose|p: u32| is_smallest(m, image_id, p)))])
    } else {
        None
    }
}

/// The register without the placements that (image id, placement id) names:
/// the one under that key, or, without a placement id, all of the image.
pub open spec fn without<D>(
    m: Map<PlacementKey, VirtualPlacement<D>>,
    image_id: u32,
    placement_id: Option<u32>,
) -> Map<PlacementKey, VirtualPlacement<D>> {
    match placement_id {
        Some(_) => m.remove((image_id, placement_id)),
        None => m.restrict(Set::new(|key: PlacementKey| key.0 != image_id)),
    }
}

impl<D> View for VirtualPlacements<D> {
    type V = Map<PlacementKey, VirtualPlacement<D>>;

    closed spec fn view(&self) -> Map<PlacementKey, VirtualPlacement<D>> {
        Map::new(
            |key: PlacementKey|
                match key.1 {
                    Some(p) => self.named@.contains_key(pair_key(key.0, p)),
                    None => self.unnamed@.contains_key(key.0),
                },
            |key: PlacementKey|
                match key.1 {
                    Some(p) => self.named@[pair_key(key.0, p)],
                    None => self.unnamed@[key.0],
                },
        )
    }
}

impl<D> VirtualPlacements<D> {
    /// An empty register.
    pub fn new() -> (placements: Self)
        ensures
            placements@ == Map::<PlacementKey, VirtualPlacement<D>>::empty(),
    {
        let placements = VirtualPlacements { unnamed: HashMap::new(), named: HashMap::new() };
        assert(placements@ =~= Map::<PlacementKey, VirtualPlacement<D>>::empty());
        placements
    }

    /// Register a placement under (image id, placement id), in place of
    /// what was registered there before.
    pub fn insert(
        &mut self,
        image_id: u32,
        placement_id: Option<u32>,
        placement: VirtualPlacement<D>,
    )
        ensures
            final(self)@ == old(self)@.insert((image_id, placement_id), placement),
    {
        broadcast use vstd::std_specs::hash::group_hash_axioms;

        match placement_id {
            Some(p) => {
                self.named.insert(named_key(image_id, p), placement);
            },
            None => {
                self.unnamed.insert(image_id, placement);
            },
        }
        assert(self@ =~= old(self)@.insert((image_id, placement_id), placement));
    }

    /// The placement registered under exactly (image id, placement id).
    pub fn get(&self, image_id: u32, placement_id: Option<u32>) -> (placement: Option<
        &VirtualPlacement<D>,
    >)
        ensures
            match placement {
                Some(p) => self@.contains_key((image_id, placement_id)) && *p == self@[(
                    image_id,
                    placement_id,
                )],
                None => !self@.contains_key((image_id, placement_id)),
            },
    {
        broadcast use vstd::std_specs::hash::group_hash_axioms;

        match placement_id {
            Some(p) => self.named.get(&named_key(image_id, p)),
            None => self.unnamed.get(&image_id),
        }
    }

    /// The explicit placement ids of an image, in no particular order.
    fn placement_ids(&self, image_id: u32) -> (ids: Vec<u32>)
        ensures
            forall|p: u32|
                #![trigger self@.contains_key((image_id, Some(p)))]
                self@.contains_key((image_id, Some(p))) <==> ids@.contains(p),
    {
        broadcast use vstd::std_specs::hash::group_hash_axioms;

        let mut ids: Vec<u32> = Vec::new();
        for key in iter: self.named.keys()
            invariant
                iter.seq().unref().to_set() == self.named@.dom(),
                forall|j: int|
                    0 <= j < ids@.len() ==> self.named@.contains_key(
                        pair_key(image_id, #[trigger] ids@[j]),
                    ),
                forall|i: int|
                    0 <= i < iter.index() && *#[trigger] iter.seq()[i] / 0x1_0000_0000 == image_id
                        ==> ids@.contains((*iter.seq()[i] % 0x1_0000_0000) as u32),
        {
            let ghost before = ids@;
            assert(iter.seq().unref()[iter.index()] == *key);
            assert(iter.seq().unref().to_set().contains(*key));
            if *key / 0x1_0000_0000 == image_id as u64 {
                let id: u32 = (*key % 0x1_0000_0000) as u32;
                assert(pair_key(image_id, id) == *key);
                ids.push(id);
                assert(ids@[before.len() as int] == id);
                assert forall|p: u32| before.contains(p) implies ids@.contains(p) by {
                    let j = choose|j: int| 0 <= j < before.len() && before[j] == p;
                    assert(ids@[j] == p);
                }
            }
        }
        proof {
            assert forall|p: u32|
                #![trigger self@.contains_key((image_id, Some(p)))]
                self@.contains_key((image_id, Some(p))) implies ids@.contains(p) by {
                let key = pair_key(image_id, p);
                assert(key / 0x1_0000_0000 == image_id && key % 0x1_0000_0000 == p);
            }
        }
        ids
    }

    /// Remove the placement under (image id, placement id) or, without a
    /// placement id, every placement of the image.
    pub fn remove(&mut self, image_id: u32, placement_id: Option<u32>)
        ensures
            final(self)@ == without(old(self)@, image_id, placement_id),
    {
        broadcast use vstd::std_specs::hash::group_hash_axioms;

        match placement_id {
            Some(p) => {
                self.named.remove(&named_key(image_id, p));
            },
            None => {
                let ids = self.placement_ids(image_id);
                self.unnamed.remove(&image_id);
                let mut next: usize = 0;
                while next < ids.len()
                    invariant
                        next <= ids@.len(),
                        self.unnamed@ == old(self).unnamed@.remove(image_id),
                        forall|p: u32|
                            #![trigger old(self)@.contains_key((image_id, Some(p)))]
                            old(self)@.contains_key((image_id, Some(p))) <==> ids@.contains(p),
                        forall|key: u64|
                            #![trigger self.named@.contains_key(key)]
                            self.named@.contains_key(key) <==> old(self).named@.contains_key(key)
                                && forall|j: int|
                                0 <= j < next ==> key != pair_key(image_id, #[trigger] ids@[j]),
                        forall|key: u64| #[trigger]
                            self.named@.contains_key(key) ==> self.named@[key] == old(
                                self,
                            ).named@[key],
                    decreases ids@.len() - next,
                {
                    self.named.remove(&named_key(image_id, ids[next]));
                    next = next + 1;
                }
                proof {
                    assert forall|id: u32, p: u32| #[trigger]
                        self@.contains_key((id, Some(p))) <==> id != image_id && old(
                        self,
                    )@.contains_key((id, Some(p))) by {
                        let key = pair_key(id, p);
                        if id == image_id && old(self)@.contains_key((id, Some(p))) {
                            let j = choose|j: int| 0 <= j < ids@.len() && ids@[j] == p;
                            assert(key == pair_key(image_id, ids@[j]));
                        }
                        if id != image_id {
                            assert forall|q: u32| key != #[trigger] pair_key(image_id, q) by {}
                        }
                    }
                }
            },
        }
        assert(self@ =~= without(old(self)@, image_id, placement_id));
    }

    /// Find the virtual placement for an image id and optional placement
    /// id. Without a placement id, any placement of the image matches: the
    /// one without an explicit placement id wins, otherwise the smallest
    /// placement id.
    pub fn find(&self, image_id: u32, placement_id: Option<u32>) -> (placement: Option<
        &VirtualPlacement<D>,
    >)
        ensures
            match placement {
                Some(p) => found(self@, image_id, placement_id) == Some(*p),
                None => found(self@, image_id, placement_id) is None,
            },
    {
        let exact = self.get(image_id, placement_id);
        if exact.is_some() || placement_id.is_some() {
            return exact;
        }
        let ids = self.placement_ids(image_id);
        if ids.len() == 0 {
            return None;
        }
        let mut smallest: u32 = ids[0];
        let mut next: usize = 1;
        while next < ids.len()
            invariant
                1 <= next <= ids@.len(),
                ids@.contains(smallest),
                forall|j: int| 0 <= j < next ==> smallest <= #[trigger] ids@[j],
            decreases ids@.len() - next,
        {
            if ids[next] < smallest {
                smallest = ids[next];
            }
            next = next + 1;
        }
        proof {
            assert(is_smallest(self@, image_id, smallest));
            let p = choose|p: u32| is_smallest(self@, image_id, p);
            assert(p == smallest);
        }
        self.get(image_id, Some(smallest))
    }
}

} // verus!
