use graph_punk::maths::mat::{Mat4, Mat4Index};
use graph_punk::maths::vec::{Vec2, Vec3, Vec4};
use graph_punk::renderer::draw::Draw;
use graph_punk::renderer::Renderer;

struct Dot {
    name: usize,
    visible: bool,
}

impl Draw<(), i32> for Dot {
    fn draw(&self, _: &Renderer<(), i32>, _: &Mat4<i32>) -> Result<(), String> {
        Ok(())
    }

    fn get_color(&self) -> Vec4<i32> {
        Vec4 { x: 0, y: 0, z: 0, w: 0 }
    }

    fn set_color(&mut self, _: Vec4<i32>) {}

    fn get_position(&self) -> Vec3<i32> {
        Vec3 { x: self.name as i32, y: 0, z: 0 }
    }

    fn set_position(&mut self, _: Vec3<i32>) {}

    fn get_scale(&self) -> Vec3<i32> {
        Vec3 { x: 1, y: 1, z: 1 }
    }

    fn set_scale(&mut self, _: Vec3<i32>) {}

    fn is_visible(&self) -> bool {
        self.visible
    }

    fn set_visible(&mut self, value: bool) {
        self.visible = value;
    }
}

fn renderer(width: i32, height: i32) -> Renderer<(), i32> {
    Renderer::new((), Vec2 { x: width, y: height })
}

fn dots(count: usize) -> Vec<Box<dyn Draw<(), i32>>> {
    let mut things: Vec<Box<dyn Draw<(), i32>>> = Vec::new();
    for name in 0..count {
        things.push(Box::new(Dot { name, visible: true }));
    }
    things
}

fn visible(things: &Vec<Box<dyn Draw<(), i32>>>) -> Vec<bool> {
    things.iter().map(|thing| thing.is_visible()).collect()
}

fn out_of_bound() -> Result<(), String> {
    Err(String::from("indexes are out of bound"))
}

fn no_pixel() -> Result<(), String> {
    Err(String::from("no pixel found"))
}

#[test]
fn a_new_renderer_has_the_identity_as_projection() {
    let r = renderer(4, 3);

    assert_eq!(r.get_display_size(), Vec2 { x: 4, y: 3 });
    assert_eq!(r.aspect_ratio, 1);
    assert_eq!(r.left, 0);
    assert_eq!(r.bottom, 0);
    assert_eq!(r.projection[Mat4Index::X1], 1);
    assert_eq!(r.projection[Mat4Index::Y2], 1);
    assert_eq!(r.projection[Mat4Index::Z3], 1);
    assert_eq!(r.projection[Mat4Index::W4], 1);
    assert_eq!(r.projection[Mat4Index::Y1], 0);
    assert_eq!(r.projection[Mat4Index::X4], 0);
}

#[test]
fn set_display_size_changes_the_size() {
    let mut r = renderer(4, 3);

    r.set_display_size(Vec2 { x: 64, y: 32 });

    assert_eq!(r.get_display_size(), Vec2 { x: 64, y: 32 });
    assert_eq!(r.borrow_context(), &());
}

#[test]
fn pixels_are_counted_row_after_row() {
    let r = renderer(4, 3);

    assert_eq!(r.pixel_index(12, 0, 0), Ok(0));
    assert_eq!(r.pixel_index(12, 3, 0), Ok(3));
    assert_eq!(r.pixel_index(12, 0, 1), Ok(4));
    assert_eq!(r.pixel_index(12, 1, 2), Ok(9));
    assert_eq!(r.pixel_index(12, 3, 2), Ok(11));
    assert_eq!(renderer(64, 32).pixel_index(2048, 63, 31), Ok(2047));
}

#[test]
fn a_pixel_off_the_display_is_out_of_bound() {
    let r = renderer(4, 3);

    assert_eq!(r.pixel_index(12, 4, 0), Err(String::from("indexes are out of bound")));
    assert_eq!(r.pixel_index(12, 0, 3), Err(String::from("indexes are out of bound")));
    assert_eq!(r.pixel_index(0, 4, 3), Err(String::from("indexes are out of bound")));
    assert_eq!(
        r.pixel_index(12, usize::MAX, usize::MAX),
        Err(String::from("indexes are out of bound"))
    );
}

#[test]
fn a_display_without_a_size_has_no_pixel() {
    for (width, height) in [(0, 3), (4, 0), (0, 0), (-4, 3), (4, -3), (i32::MIN, i32::MIN)] {
        assert_eq!(
            renderer(width, height).pixel_index(12, 0, 0),
            Err(String::from("indexes are out of bound"))
        );
    }
}

#[test]
fn a_pixel_without_a_thing_is_not_found() {
    let r = renderer(4, 3);

    assert_eq!(r.pixel_index(9, 1, 2), Err(String::from("no pixel found")));
    assert_eq!(r.pixel_index(0, 0, 0), Err(String::from("no pixel found")));
    assert_eq!(r.pixel_index(9, 0, 2), Ok(8));
    assert_eq!(
        renderer(i32::MAX, i32::MAX).pixel_index(usize::MAX, 2147483646, 2147483646),
        Ok(4611686014132420608)
    );
}

#[test]
fn get_pixel_gives_the_thing_of_the_pixel() {
    let mut r = renderer(4, 3);
    let mut things = dots(12);

    assert_eq!(r.get_pixel(&things, 1, 2).unwrap().get_position().x, 9);
    assert!(r.get_pixel(&things, 4, 0).is_err());

    r.get_pixel_mut(&mut things, 2, 0).unwrap().set_visible(false);
    assert!(!things[2].is_visible());
    assert_eq!(
        r.get_pixel_mut(&mut things, 0, 3).err(),
        Some(String::from("indexes are out of bound"))
    );
    assert_eq!(
        renderer(4, 4).get_pixel(&things, 0, 3).err(),
        Some(String::from("no pixel found"))
    );
}

#[test]
fn set_and_toggle_change_one_pixel() {
    let mut r = renderer(3, 2);
    let mut things = dots(6);

    assert_eq!(r.set_grid_pixel(&mut things, 1, 1, false), Ok(()));
    assert_eq!(visible(&things), vec![true, true, true, true, false, true]);

    assert_eq!(r.toggle_grid_pixel(&mut things, 1, 1), Ok(()));
    assert_eq!(r.toggle_grid_pixel(&mut things, 0, 0), Ok(()));
    assert_eq!(visible(&things), vec![false, true, true, true, true, true]);

    assert_eq!(r.set_grid_pixel(&mut things, 0, 0, false), Ok(()));
    assert_eq!(visible(&things), vec![false, true, true, true, true, true]);

    assert_eq!(r.set_grid_pixel(&mut things, 3, 0, false), out_of_bound());
    assert_eq!(r.toggle_grid_pixel(&mut things, 0, 2), out_of_bound());
    assert_eq!(visible(&things), vec![false, true, true, true, true, true]);
}

#[test]
fn set_and_toggle_need_a_thing() {
    let mut r = renderer(3, 2);
    let mut things = dots(4);

    assert_eq!(r.set_grid_pixel(&mut things, 1, 1, false), no_pixel());
    assert_eq!(r.toggle_grid_pixel(&mut things, 2, 1), no_pixel());
    assert_eq!(visible(&things), vec![true; 4]);
}

#[test]
fn clear_makes_the_display_invisible_and_nothing_else() {
    let mut r = renderer(3, 2);
    let mut things = dots(8);

    assert_eq!(r.clear_grid_pixel(&mut things), Ok(()));

    assert_eq!(visible(&things), vec![false, false, false, false, false, false, true, true]);
}

#[test]
fn clear_stops_at_the_first_pixel_without_a_thing() {
    let mut r = renderer(3, 2);
    let mut things = dots(5);

    assert_eq!(r.clear_grid_pixel(&mut things), no_pixel());

    // Column 0 is at 0 and 3, column 1 at 1 and 4, column 2 at 2 and 5:
    // the last of them has no thing.
    assert_eq!(visible(&things), vec![false, false, false, false, false]);

    // With four things the run ends in column 1, at 4.
    let mut things = dots(4);
    assert_eq!(r.clear_grid_pixel(&mut things), no_pixel());
    assert_eq!(visible(&things), vec![false, false, true, false]);
}

#[test]
fn clear_on_a_display_without_a_size_does_nothing() {
    let mut things = dots(2);

    assert_eq!(renderer(0, 5).clear_grid_pixel(&mut things), Ok(()));
    assert_eq!(renderer(-1, -1).clear_grid_pixel(&mut things), Ok(()));
    assert_eq!(visible(&things), vec![true, true]);
}
