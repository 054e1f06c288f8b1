//! The geometry cache: memoizes the last rendered geometry, keyed by the
//! frame size it was rendered for, and is cleared explicitly on any state
//! change. A draw with the same frame size then returns the stored geometry
//! instead of recomputing it.

use vstd::prelude::*;
use crate::geometry::SizePx;

verus! {

/// Memoized rendered geometry of one widget instance.
pub struct GeometryCache<G> {
    entry: Option<(SizePx, G)>,
}

impl<G> GeometryCache<G> {
    /// The stored frame size and geometry, for contracts.
    pub closed spec fn spec_entry(&self) -> Option<(SizePx, G)> {
        self.entry
    }

    /// A cleared cache holds nothing.
    pub open spec fn is_cleared(&self) -> bool {
        self.spec_entry() is None
    }

    /// Whether the cache holds geometry rendered for `bounds`.
    pub open spec fn holds_for(&self, bounds: SizePx) -> bool {
        match self.spec_entry() {
            Some((b, _)) => b == bounds,
            None => false,
        }
    }

    pub fn new() -> (r: Self)
        ensures
            r.is_cleared(),
    {
        GeometryCache { entry: None }
    }

    /// Invalidate: the next draw must recompute.
    pub fn clear(&mut self)
        ensures
            final(self).is_cleared(),
    {
        self.entry = None;
    }

    /// The stored geometry, if it was rendered for this frame size.
    pub fn get(&self, bounds: &SizePx) -> (r: Option<&G>)
        ensures
            r is Some <==> self.holds_for(*bounds),
            r matches Some(g) ==> self.spec_entry() == Some((*bounds, *g)),
    {
        match &self.entry {
            Some((b, g)) => {
                if *b == *bounds {
                    Some(g)
                } else {
                    None
                }
            },
            None => None,
        }
    }

    /// Store geometry rendered for `bounds`.
    pub fn put(&mut self, bounds: SizePx, geometry: G)
        ensures
            final(self).spec_entry() == Some((bounds, geometry)),
    {
        self.entry = Some((bounds, geometry));
    }
}

impl<G> Default for GeometryCache<G> {
    fn default() -> (r: GeometryCache<G>)
        ensures
            r.is_cleared(),
    {
        GeometryCache { entry: None }
    }
}

} // verus!
