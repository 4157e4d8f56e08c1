//! The ordered list of surfaces that makes up a scene.
//!
//! Surfaces are shared read-only: the list holds them behind `Rc`, so the
//! same surface may stand in several lists without being copied.
use std::rc::Rc;
use vstd::prelude::*;

verus! {

pub struct SurfaceList<T> {
    pub surface_list: Vec<Rc<T>>,
}

impl<T> SurfaceList<T> {
    /// The surfaces in the order they were added.
    pub open spec fn surfaces(&self) -> Seq<Rc<T>> {
        self.surface_list@
    }

    /// An empty scene.
    pub fn new() -> (r: Self)
        ensures
            r.surfaces() == Seq::<Rc<T>>::empty(),
    {
        SurfaceList { surface_list: Vec::new() }
    }

    /// Puts `object` after the surfaces already in the scene.
    pub fn add(&mut self, object: Rc<T>)
        ensures
            final(self).surfaces() == old(self).surfaces().push(object),
    {
        self.surface_list.push(object);
    }

    /// Removes every surface.
    pub fn clear(&mut self)
        ensures
            final(self).surfaces() == Seq::<Rc<T>>::empty(),
    {
        self.surface_list.clear();
    }

    pub fn len(&self) -> (r: usize)
        ensures
            r == self.surfaces().len(),
    {
        self.surface_list.len()
    }
}

} // verus!
