//! The aggregate of surfaces a scene is made of.
//!
//! An [`ObjectList`] scans its members linearly — no acceleration structure —
//! and keeps the closest confirmed intersection.  Intersection roots are
//! computed in floating point outside this crate; what reaches the list is
//! one ordering key per member, `None` for a miss.  The keys are the IEEE 754
//! bit patterns of each member's parametric hit distance: every confirmed
//! distance is positive and finite, and on that range the bit patterns order
//! exactly as the distances do, so picking the least key picks the nearest
//! hit.

use vstd::prelude::*;

verus! {

/// A surface that can stand in a scene: it can report an intersection with a
/// ray, and — when it serves as a light — a sampling density and direction
/// toward itself.  Those operations are numeric and live with the kernel;
/// the trait marks the types the aggregate may hold.
pub trait Object {}

/// Whether a parametric-distance key confirms an intersection: its sign bit
/// is clear (the distance is not negative), its exponent bits are neither
/// all zero nor all ones (the distance is normal — neither zero, subnormal,
/// infinite nor invalid), and it lies strictly inside the open window from
/// the near-clipping key to the current closest-hit bound.  On such keys the
/// bit-pattern order is the distance order, so the window test on keys is
/// the window test on distances.
pub open spec fn spec_intersects(key: u32, min_key: u32, max_key: u32) -> bool {
    &&& key & 0x8000_0000 == 0
    &&& key & 0x7f80_0000 != 0
    &&& key & 0x7f80_0000 != 0x7f80_0000
    &&& min_key < key < max_key
}

/// Confirms a parametric-distance key: not negative, normal, and strictly
/// inside `(min_key, max_key)`.
pub fn intersects(key: u32, min_key: u32, max_key: u32) -> (confirmed: bool)
    ensures
        confirmed == spec_intersects(key, min_key, max_key),
{
    let exponent = key & 0x7f80_0000;

    key & 0x8000_0000 == 0 && exponent != 0 && exponent != 0x7f80_0000 && min_key < key && key
        < max_key
}

/// An aggregate of surfaces, scanned linearly.
pub struct ObjectList<T> {
    pub objects: Vec<T>,
}

impl<T: Object> ObjectList<T> {
    /// Gathers surfaces into an aggregate.
    pub fn new(objects: Vec<T>) -> (list: Self)
        ensures
            list.objects == objects,
    {
        Self { objects }
    }

    /// How many surfaces the aggregate holds.
    pub fn len(&self) -> (n: usize)
        ensures
            n == self.objects@.len(),
    {
        self.objects.len()
    }

    /// Selects the closest confirmed hit from one intersection candidate per
    /// member: the first member encountered whose ordering key is least.  A
    /// later member supersedes the choice only by a strictly smaller key, so
    /// on equal distances the tie-break is deterministic — the first member.
    ///
    /// Returns `None` exactly when every member missed; otherwise the chosen
    /// member's key is no greater than any other member's — the closest-hit
    /// invariant — and strictly below every earlier member's.
    pub fn closest(&self, candidates: &Vec<Option<u32>>) -> (found: Option<usize>)
        requires
            candidates@.len() == self.objects@.len(),
        ensures
            match found {
                Some(chosen) => {
                    &&& 0 <= chosen < candidates@.len()
                    &&& candidates@[chosen as int] is Some
                    &&& forall|j: int|
                        0 <= j < candidates@.len() && candidates@[j] is Some
                            ==> candidates@[chosen as int]->0 <= candidates@[j]->0
                    &&& forall|j: int|
                        0 <= j < chosen && candidates@[j] is Some
                            ==> candidates@[chosen as int]->0 < candidates@[j]->0
                },
                None => forall|j: int| 0 <= j < candidates@.len() ==> candidates@[j] is None,
            },
    {
        let mut found: Option<usize> = None;
        let mut bound: u32 = u32::MAX;
        let mut k: usize = 0;
        while k < candidates.len()
            invariant
                k <= candidates@.len(),
                match found {
                    Some(chosen) => {
                        &&& 0 <= chosen < k
                        &&& candidates@[chosen as int] is Some
                        &&& bound == candidates@[chosen as int]->0
                        &&& forall|j: int|
                            0 <= j < k && candidates@[j] is Some
                                ==> candidates@[chosen as int]->0 <= candidates@[j]->0
                        &&& forall|j: int|
                            0 <= j < chosen && candidates@[j] is Some
                                ==> candidates@[chosen as int]->0 < candidates@[j]->0
                    },
                    None => forall|j: int| 0 <= j < k ==> candidates@[j] is None,
                },
            decreases candidates@.len() - k,
        {
            match candidates[k] {
                Some(key) => {
                    if found.is_none() || key < bound {
                        found = Some(k);
                        bound = key;
                    }
                }
                None => {}
            }
            k = k + 1;
        }
        found
    }
}

} // verus!
