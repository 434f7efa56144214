//! The coordinate-frame decorator.
//!
//! A [`Transformed`] wraps a child object together with a validated
//! transform. Rays are mapped into the child's frame by the inverse
//! before intersecting; resulting hits are re-tagged with the
//! wrapper, so downstream color and normal resolution go through
//! the wrapper's frame. Nesting composes: the innermost-wrapped
//! transform is the first one applied to an incoming world ray.

use vstd::prelude::*;
use crate::object::Object;
use crate::transform::InvertibleTransform;

verus! {

/// A child object placed into the scene under a transform.
#[derive(Debug)]
pub struct Transformed {
    pub child: Box<Object>,
    pub transform: InvertibleTransform,
}

impl Transformed {
    pub fn new(child: Object, transform: InvertibleTransform) -> (r: Transformed)
        ensures
            *r.child == child,
            r.transform == transform,
    {
        Transformed { child: Box::new(child), transform }
    }
}

} // verus!
