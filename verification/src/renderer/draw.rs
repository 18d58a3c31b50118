//! What the renderer asks of a thing that can be drawn.

use crate::maths::mat::Mat4;
use crate::maths::vec::{Vec3, Vec4};
use crate::renderer::Renderer;
use vstd::prelude::*;

verus! {

/// A drawable thing, for a renderer with a context of type `C` and scalars of
/// type `S`.
///
/// Of an implementor the renderer relies on one thing: `set_visible` sets what
/// `is_visible` reads. `visible` names that flag; a verified implementor says
/// what it is.
pub trait Draw<C, S> {
    open spec fn visible(&self) -> bool {
        arbitrary()
    }

    fn draw(&self, renderer: &Renderer<C, S>, projection: &Mat4<S>) -> Result<(), String>;

    fn get_color(&self) -> Vec4<S>;

    fn set_color(&mut self, color: Vec4<S>);

    fn get_position(&self) -> Vec3<S>;

    fn set_position(&mut self, position: Vec3<S>);

    fn get_scale(&self) -> Vec3<S>;

    fn set_scale(&mut self, scale: Vec3<S>);

    fn is_visible(&self) -> (r: bool)
        ensures
            r == self.visible(),
    ;

    fn set_visible(&mut self, value: bool)
        ensures
            final(self).visible() == value,
    ;
}

} // verus!
