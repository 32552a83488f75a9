//! Visible-frame lifecycle helpers.

use vstd::prelude::*;

use crate::fixed_frame::recipe::RasterRecipe;

verus! {

/// A presentation permission that can be consumed exactly once.
#[derive(Debug)]
pub struct OneShotSurface<T> {
    permission: Option<T>,
}

impl<T> OneShotSurface<T> {
    /// The permission still held, if any.
    pub closed spec fn spec_permission(&self) -> Option<T> {
        self.permission
    }

    /// Holds one acquired permission.
    pub fn new(permission: T) -> (surface: Self)
        ensures
            surface.spec_permission() == Some(permission),
    {
        Self { permission: Some(permission) }
    }

    /// Consumes the permission: the first call hands it out, every later
    /// call finds nothing.
    pub fn take(&mut self) -> (taken: Option<T>)
        ensures
            taken == old(self).spec_permission(),
            final(self).spec_permission() is None,
    {
        self.permission.take()
    }
}

/// The recipe of a visible frame: the legacy unlit camera/material kernel.
pub fn visible_camera_recipe() -> (recipe: RasterRecipe)
    ensures
        recipe == RasterRecipe::spec_legacy_unlit(),
{
    RasterRecipe::legacy_unlit()
}

} // verus!
