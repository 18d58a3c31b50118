//! The renderer's own state, and the grid of pixels it draws: one drawable
//! thing for each place of the display, row after row.
//!
//! The renderer is generic in the graphics context `C` that it keeps and in
//! the scalar `S` of its projection. Talking to the graphics driver is not
//! its part.

pub mod data_object;
pub mod draw;
pub mod vbo;

use crate::maths::mat::{identity, Mat4};
use crate::maths::one::One;
use crate::maths::vec::Vec2;
use crate::maths::zero::Zero;
use crate::renderer::draw::Draw;
use vstd::prelude::*;

verus! {

/// The pixel in column `x` and row `y` is on a display of size `size`. A
/// display with a width or a height below 1 has no pixel.
pub open spec fn in_grid(size: Vec2<i32>, x: int, y: int) -> bool {
    0 <= x < size.x && 0 <= y < size.y
}

/// The place of the pixel in column `x` and row `y` among the drawable things.
pub open spec fn place(size: Vec2<i32>, x: int, y: int) -> int {
    y * size.x + x
}

/// The pixel in column `x` and row `y` is on the display, and among `pixels`
/// drawable things one is its own.
pub open spec fn has_pixel(size: Vec2<i32>, pixels: int, x: int, y: int) -> bool {
    in_grid(size, x, y) && place(size, x, y) < pixels
}

/// What is wrong with a pixel that has no drawable thing: it is not on the
/// display, or the things are too few.
pub open spec fn why_no_pixel(size: Vec2<i32>, x: int, y: int) -> Seq<char> {
    if in_grid(size, x, y) {
        "no pixel found"@
    } else {
        "indexes are out of bound"@
    }
}

/// `post` is `pre` but for the thing at place `j`.
pub open spec fn kept_but<C, S>(
    pre: Seq<Box<dyn Draw<C, S>>>,
    post: Seq<Box<dyn Draw<C, S>>>,
    j: int,
) -> bool {
    &&& post.len() == pre.len()
    &&& 0 <= j < pre.len()
    &&& forall|k: int| 0 <= k < pre.len() && k != j ==> post[k] == pre[k]
}

/// `post` is `pre` with the thing at place `j` made visible, or invisible, as
/// `value` says, and every other thing as it was.
pub open spec fn shown<C, S>(
    pre: Seq<Box<dyn Draw<C, S>>>,
    post: Seq<Box<dyn Draw<C, S>>>,
    j: int,
    value: bool,
) -> bool {
    kept_but(pre, post, j) && post[j].visible() == value
}

/// Among `pixels` drawable things every pixel of the display has its own.
pub open spec fn covered(size: Vec2<i32>, pixels: int) -> bool {
    forall|x: int, y: int| in_grid(size, x, y) ==> #[trigger] place(size, x, y) < pixels
}

/// Where the display is cleared column after column, the pixel in column `x`
/// and row `y` has its turn before the one in column `fx` and row `fy`.
pub open spec fn earlier(x: int, y: int, fx: int, fy: int) -> bool {
    x < fx || (x == fx && y < fy)
}

/// `j` is the place of a pixel of the display that has its turn before the
/// one in column `fx` and row `fy`.
pub open spec fn is_place_before(size: Vec2<i32>, j: int, fx: int, fy: int) -> bool {
    exists|x: int, y: int|
        in_grid(size, x, y) && earlier(x, y, fx, fy) && #[trigger] place(size, x, y) == j
}

/// `post` is `pre` with every pixel that has its turn before the one in column
/// `fx` and row `fy` made invisible, and every other thing as it was.
pub open spec fn cleared_before<C, S>(
    size: Vec2<i32>,
    pre: Seq<Box<dyn Draw<C, S>>>,
    post: Seq<Box<dyn Draw<C, S>>>,
    fx: int,
    fy: int,
) -> bool {
    &&& post.len() == pre.len()
    &&& forall|x: int, y: int|
        in_grid(size, x, y) && earlier(x, y, fx, fy) ==> 0 <= #[trigger] place(size, x, y)
            < pre.len() && !post[place(size, x, y)].visible()
    &&& forall|j: int|
        0 <= j < pre.len() && !is_place_before(size, j, fx, fy) ==> #[trigger] post[j] == pre[j]
}

/// The clearing of the display stopped at the pixel in column `fx` and row
/// `fy`, which has no drawable thing, and left `pre` as `post`.
pub open spec fn stopped_at<C, S>(
    size: Vec2<i32>,
    pre: Seq<Box<dyn Draw<C, S>>>,
    post: Seq<Box<dyn Draw<C, S>>>,
    fx: int,
    fy: int,
) -> bool {
    in_grid(size, fx, fy) && place(size, fx, fy) >= pre.len() && cleared_before(
        size,
        pre,
        post,
        fx,
        fy,
    )
}

/// The thing at place `i`, to be changed in place.
fn thing_at<T>(things: &mut Vec<T>, i: usize) -> (thing: &mut T)
    requires
        i < old(things).len(),
    ensures
        *thing == old(things)@[i as int],
        final(things)@ == old(things)@.update(i as int, *final(thing)),
{
    &mut things[i]
}

pub struct Renderer<C, S> {
    context: C,
    display_size: Vec2<i32>,
    pub aspect_ratio: S,
    pub left: S,
    pub bottom: S,
    pub projection: Mat4<S>,
}

impl<C, S> Renderer<C, S> {
    pub closed spec fn size(self) -> Vec2<i32> {
        self.display_size
    }

    pub closed spec fn context(self) -> C {
        self.context
    }

    /// The aspect ratio, the left and bottom of the view, and the projection.
    pub closed spec fn view_state(self) -> (S, S, S, Mat4<S>) {
        (self.aspect_ratio, self.left, self.bottom, self.projection)
    }

    /// A renderer with an aspect ratio of one, its origin at zero, and the
    /// identity as its projection.
    pub fn new(context: C, display_size: Vec2<i32>) -> (r: Self) where
        S: Zero<Output = S> + One<Output = S>,

        ensures
            r.context() == context,
            r.size() == display_size,
            r.view_state().0 == S::one_spec(),
            r.view_state().1 == S::zero_spec(),
            r.view_state().2 == S::zero_spec(),
            r.view_state().3@ == identity::<S>(),
    {
        Self {
            context,
            display_size,
            aspect_ratio: S::one(),
            left: S::zero(),
            bottom: S::zero(),
            projection: Mat4::default(),
        }
    }

    pub fn set_display_size(&mut self, display_size: Vec2<i32>)
        ensures
            final(self).size() == display_size,
            final(self).context() == old(self).context(),
            final(self).view_state() == old(self).view_state(),
    {
        self.display_size = display_size;
    }

    pub fn get_display_size(&self) -> (r: Vec2<i32>)
        ensures
            r == self.size(),
    {
        self.display_size
    }

    pub fn borrow_context(&self) -> (r: &C)
        ensures
            *r == self.context(),
    {
        &self.context
    }

    /// The place of the pixel in column `x` and row `y` among `pixels`
    /// drawable things. It is an error if the pixel is not on the display,
    /// and another if there are too few things for it to have one.
    pub fn pixel_index(&self, pixels: usize, x: usize, y: usize) -> (r: Result<usize, String>)
        ensures
            r is Ok <==> has_pixel(self.size(), pixels as int, x as int, y as int),
            r matches Ok(i) ==> i == place(self.size(), x as int, y as int),
            r matches Err(e) ==> e@ == why_no_pixel(self.size(), x as int, y as int),
    {
        let width = self.display_size.x;
        let height = self.display_size.y;
        if width <= 0 || height <= 0 {
            return Err("indexes are out of bound".to_string());
        }
        if x as u64 >= width as u64 || y as u64 >= height as u64 {
            return Err("indexes are out of bound".to_string());
        }
        assert((y as int) * (width as int) <= 0x7fff_ffff * 0x7fff_ffff) by (nonlinear_arith)
            requires
                0 <= y < height,
                height <= 0x7fff_ffff,
                0 < width <= 0x7fff_ffff,
        ;
        let index: u64 = (y as u64) * (width as u64) + (x as u64);
        if index >= pixels as u64 {
            return Err("no pixel found".to_string());
        }
        Ok(index as usize)
    }

    /// The drawable thing of the pixel in column `x` and row `y`.
    pub fn get_pixel<'a>(
        &'a mut self,
        drawing_objects: &'a Vec<Box<dyn Draw<C, S>>>,
        x: usize,
        y: usize,
    ) -> (r: Result<&'a Box<dyn Draw<C, S>>, String>)
        ensures
            *final(self) == *old(self),
            r is Ok <==> has_pixel(old(self).size(), drawing_objects.len() as int, x as int, y as int),
            r matches Ok(pixel) ==> *pixel == drawing_objects[place(
                old(self).size(),
                x as int,
                y as int,
            )],
            r matches Err(e) ==> e@ == why_no_pixel(old(self).size(), x as int, y as int),
    {
        match self.pixel_index(drawing_objects.len(), x, y) {
            Ok(index) => Ok(&drawing_objects[index]),
            Err(e) => Err(e),
        }
    }

    /// The drawable thing of the pixel in column `x` and row `y`, to be
    /// changed in place.
    pub fn get_pixel_mut<'a>(
        &'a mut self,
        drawing_objects: &'a mut Vec<Box<dyn Draw<C, S>>>,
        x: usize,
        y: usize,
    ) -> (r: Result<&'a mut Box<dyn Draw<C, S>>, String>)
        ensures
            *final(self) == *old(self),
            r is Ok <==> has_pixel(
                old(self).size(),
                old(drawing_objects).len() as int,
                x as int,
                y as int,
            ),
            r matches Ok(pixel) ==> *pixel == old(drawing_objects)@[place(
                old(self).size(),
                x as int,
                y as int,
            )],
            r is Ok ==> kept_but(
                old(drawing_objects)@,
                final(drawing_objects)@,
                place(old(self).size(), x as int, y as int),
            ),
            r matches Err(e) ==> e@ == why_no_pixel(old(self).size(), x as int, y as int)
                && final(drawing_objects)@ == old(drawing_objects)@,
    {
        match self.pixel_index(drawing_objects.len(), x, y) {
            Ok(index) => Ok(thing_at(drawing_objects, index)),
            Err(e) => Err(e),
        }
    }

    /// Makes every pixel of the display invisible, column after column, and
    /// stops with an error at the first that has no drawable thing.
    pub fn clear_grid_pixel(&mut self, drawing_objects: &mut Vec<Box<dyn Draw<C, S>>>) -> (r: Result<
        (),
        String,
    >)
        ensures
            *final(self) == *old(self),
            r is Ok <==> covered(old(self).size(), old(drawing_objects).len() as int),
            r is Ok ==> cleared_before(
                old(self).size(),
                old(drawing_objects)@,
                final(drawing_objects)@,
                old(self).size().x as int,
                0,
            ),
            r matches Err(e) ==> e@ == "no pixel found"@ && exists|fx: int, fy: int|
                stopped_at(
                    old(self).size(),
                    old(drawing_objects)@,
                    final(drawing_objects)@,
                    fx,
                    fy,
                ),
    {
        let width = self.display_size.x;
        let height = self.display_size.y;
        if width <= 0 || height <= 0 {
            return Ok(());
        }
        let ghost size = self.display_size;
        let ghost before = drawing_objects@;
        let mut x: usize = 0;
        while (x as u64) < width as u64
            invariant
                *self == *old(self),
                size == self.display_size,
                width == size.x,
                height == size.y,
                0 < width,
                0 < height,
                x <= width,
                before == old(drawing_objects)@,
                cleared_before(size, before, drawing_objects@, x as int, 0),
            decreases width - x,
        {
            let mut y: usize = 0;
            while (y as u64) < height as u64
                invariant
                    *self == *old(self),
                    size == self.display_size,
                    width == size.x,
                    height == size.y,
                    0 < width,
                    0 < height,
                    x < width,
                    y <= height,
                    before == old(drawing_objects)@,
                    cleared_before(size, before, drawing_objects@, x as int, y as int),
                decreases height - y,
            {
                let ghost now = drawing_objects@;
                let ghost p = place(size, x as int, y as int);
                match self.set_grid_pixel(drawing_objects, x, y, false) {
                    Ok(()) => {},
                    Err(e) => {
                        assert(stopped_at(size, before, drawing_objects@, x as int, y as int));
                        return Err(e);
                    },
                }
                proof {
                    let after = drawing_objects@;
                    assert(in_grid(size, x as int, y as int));
                    assert forall|a: int, b: int|
                        in_grid(size, a, b) && earlier(a, b, x as int, y + 1) implies 0
                        <= #[trigger] place(size, a, b) < before.len() && !after[place(
                        size,
                        a,
                        b,
                    )].visible() by {
                        let q = place(size, a, b);
                        if earlier(a, b, x as int, y as int) {
                            assert(0 <= q < before.len() && !now[q].visible());
                            if q != p {
                                assert(after[q] == now[q]);
                            }
                        } else {
                            assert(a == x && b == y);
                        }
                    }
                    assert forall|j: int|
                        0 <= j < before.len() && !is_place_before(
                            size,
                            j,
                            x as int,
                            y + 1,
                        ) implies #[trigger] after[j] == before[j] by {
                        if j == p {
                            assert(earlier(x as int, y as int, x as int, y + 1));
                            assert(is_place_before(size, j, x as int, y + 1));
                        } else {
                            if is_place_before(size, j, x as int, y as int) {
                                let (a, b) = choose|a: int, b: int|
                                    in_grid(size, a, b) && earlier(a, b, x as int, y as int)
                                        && #[trigger] place(size, a, b) == j;
                                assert(earlier(a, b, x as int, y + 1));
                                assert(is_place_before(size, j, x as int, y + 1));
                            }
                            assert(after[j] == now[j]);
                            assert(now[j] == before[j]);
                        }
                    }
                }
                y += 1;
            }
            proof {
                let after = drawing_objects@;
                assert forall|a: int, b: int|
                    in_grid(size, a, b) && earlier(a, b, x + 1, 0) implies 0 <= #[trigger] place(
                    size,
                    a,
                    b,
                ) < before.len() && !after[place(size, a, b)].visible() by {
                    assert(earlier(a, b, x as int, height as int));
                }
                assert forall|j: int|
                    0 <= j < before.len() && !is_place_before(size, j, x + 1, 0) implies #[trigger] after[j]
                    == before[j] by {
                    if is_place_before(size, j, x as int, height as int) {
                        let (a, b) = choose|a: int, b: int|
                            in_grid(size, a, b) && earlier(a, b, x as int, height as int)
                                && #[trigger] place(size, a, b) == j;
                        assert(earlier(a, b, x + 1, 0));
                        assert(is_place_before(size, j, x + 1, 0));
                    }
                }
            }
            x += 1;
        }
        proof {
            assert forall|a: int, b: int| in_grid(size, a, b) implies #[trigger] place(size, a, b)
                < before.len() by {
                assert(earlier(a, b, width as int, 0));
            }
        }
        Ok(())
    }

    /// Turns the pixel in column `x` and row `y` from visible to invisible, or
    /// back; nothing else changes.
    pub fn toggle_grid_pixel(
        &mut self,
        drawing_objects: &mut Vec<Box<dyn Draw<C, S>>>,
        x: usize,
        y: usize,
    ) -> (r: Result<(), String>)
        ensures
            *final(self) == *old(self),
            r is Ok <==> has_pixel(
                old(self).size(),
                old(drawing_objects).len() as int,
                x as int,
                y as int,
            ),
            r is Ok ==> shown(
                old(drawing_objects)@,
                final(drawing_objects)@,
                place(old(self).size(), x as int, y as int),
                !old(drawing_objects)[place(old(self).size(), x as int, y as int)].visible(),
            ),
            r matches Err(e) ==> e@ == why_no_pixel(old(self).size(), x as int, y as int)
                && final(drawing_objects)@ == old(drawing_objects)@,
    {
        match self.pixel_index(drawing_objects.len(), x, y) {
            Ok(index) => {
                let visible = drawing_objects[index].is_visible();
                drawing_objects[index].set_visible(!visible);
                Ok(())
            },
            Err(e) => Err(e),
        }
    }

    /// Makes the pixel in column `x` and row `y` visible, or invisible, as
    /// `value` says; nothing else changes.
    pub fn set_grid_pixel(
        &mut self,
        drawing_objects: &mut Vec<Box<dyn Draw<C, S>>>,
        x: usize,
        y: usize,
        value: bool,
    ) -> (r: Result<(), String>)
        ensures
            *final(self) == *old(self),
            r is Ok <==> has_pixel(
                old(self).size(),
                old(drawing_objects).len() as int,
                x as int,
                y as int,
            ),
            r is Ok ==> shown(
                old(drawing_objects)@,
                final(drawing_objects)@,
                place(old(self).size(), x as int, y as int),
                value,
            ),
            r matches Err(e) ==> e@ == why_no_pixel(old(self).size(), x as int, y as int)
                && final(drawing_objects)@ == old(drawing_objects)@,
    {
        match self.pixel_index(drawing_objects.len(), x, y) {
            Ok(index) => {
                drawing_objects[index].set_visible(value);
                Ok(())
            },
            Err(e) => Err(e),
        }
    }
}

} // verus!
