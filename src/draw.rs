use vstd::prelude::*;

use crate::geometry::{points_of, quad, rectangle_vertices};
use crate::placement::Position;
use crate::transition::Frame;

verus! {

/// One draw of a frame: the image to upload, the quad it covers on the
/// canvas, and the quad of texture coordinates mapped onto it.
pub struct DrawCall {
    pub position: Position,
    pub vertices: Vec<(i64, i64)>,
    pub tex_coords: Vec<(i64, i64)>,
}

/// The draw call for the image in `position` at offset (x, y) over a
/// `width` × `height` canvas.
pub open spec fn draws(c: DrawCall, position: Position, x: int, y: int, width: int, height: int) -> bool {
    &&& c.position == position
    &&& points_of(c.vertices@) == quad(x, y, width, height)
    &&& points_of(c.tex_coords@) == quad(0, 0, 1, 1)
}

fn draw_call(position: Position, x: i64, y: i64, width: u32, height: u32) -> (r: DrawCall)
    requires
        x + width <= i64::MAX,
        y + height <= i64::MAX,
    ensures
        draws(r, position, x as int, y as int, width as int, height as int),
{
    DrawCall {
        position,
        vertices: rectangle_vertices(x, y, width as i64, height as i64),
        tex_coords: rectangle_vertices(0, 0, 1, 1),
    }
}

/// The draws of one frame, in order: the outgoing image at its offset, then
/// the incoming one at its offset, so that the incoming image is drawn on top.
/// Each covers the whole canvas size and maps the whole texture.
pub fn plan_frame(frame: &Frame, width: u32, height: u32) -> (r: Vec<DrawCall>)
    requires
        frame.before_x + width <= i64::MAX,
        frame.before_y + height <= i64::MAX,
        frame.after_x + width <= i64::MAX,
        frame.after_y + height <= i64::MAX,
    ensures
        r@.len() == 2,
        draws(
            r@[0],
            Position::Before,
            frame.before_x as int,
            frame.before_y as int,
            width as int,
            height as int,
        ),
        draws(r@[1], Position::After, frame.after_x as int, frame.after_y as int, width as int, height as int),
{
    let mut r: Vec<DrawCall> = Vec::new();
    r.push(draw_call(Position::Before, frame.before_x, frame.before_y, width, height));
    r.push(draw_call(Position::After, frame.after_x, frame.after_y, width, height));
    r
}

} // verus!
