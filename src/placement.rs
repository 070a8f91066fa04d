use vstd::prelude::*;

verus! {

/// The direction in which both images slide.
#[derive(Clone, Copy, Debug, PartialEq, Eq, Structural)]
pub enum Direction {
    Up,
    Right,
    Down,
    Left,
}

/// Which of the two live images: the outgoing one or the incoming one.
#[derive(Clone, Copy, Debug, PartialEq, Eq, Structural)]
pub enum Position {
    Before,
    After,
}

pub open spec fn int_min(a: int, b: int) -> int {
    if a <= b {
        a
    } else {
        b
    }
}

pub open spec fn int_max(a: int, b: int) -> int {
    if a >= b {
        a
    } else {
        b
    }
}

pub open spec fn is_horizontal(d: Direction) -> bool {
    d is Right || d is Left
}

/// The canvas dimension along the direction's axis: the distance a slide covers.
pub open spec fn extent(d: Direction, width: int, height: int) -> int {
    if is_horizontal(d) {
        width
    } else {
        height
    }
}

/// +1 where the images move towards growing coordinates, -1 otherwise.
pub open spec fn sign(d: Direction) -> int {
    match d {
        Direction::Right | Direction::Down => 1,
        Direction::Up | Direction::Left => -1,
    }
}

/// Offset of the outgoing image at progress `p`.
pub open spec fn before_offset(d: Direction, p: int, width: int, height: int) -> (int, int) {
    match d {
        Direction::Up => (0, -int_min(p, height)),
        Direction::Down => (0, int_min(p, height)),
        Direction::Right => (int_min(p, width), 0),
        Direction::Left => (-int_min(p, width), 0),
    }
}

/// Offset of the incoming image at progress `p`.
pub open spec fn after_offset(d: Direction, p: int, width: int, height: int) -> (int, int) {
    match d {
        Direction::Up => (0, int_max(0, height - p)),
        Direction::Down => (0, int_min(0, -(height - p))),
        Direction::Right => (int_min(0, -(width - p)), 0),
        Direction::Left => (int_max(0, width - p), 0),
    }
}

pub open spec fn offset(d: Direction, pos: Position, p: int, width: int, height: int) -> (int, int) {
    match pos {
        Position::Before => before_offset(d, p, width, height),
        Position::After => after_offset(d, p, width, height),
    }
}

/// The component of an offset along the direction's axis.
pub open spec fn along(d: Direction, o: (int, int)) -> int {
    if is_horizontal(d) {
        o.0
    } else {
        o.1
    }
}

/// The component of an offset across the direction's axis.
pub open spec fn across(d: Direction, o: (int, int)) -> int {
    if is_horizontal(d) {
        o.1
    } else {
        o.0
    }
}

pub open spec fn abs(a: int) -> int {
    if a >= 0 {
        a
    } else {
        -a
    }
}

/// Where the image in slot `position` is drawn when the slide has advanced
/// `progress` pixels; progress beyond the extent counts as the full extent.
pub fn calc_position(
    progress: u32,
    width: u32,
    height: u32,
    direction: Direction,
    position: Position,
) -> (r: (i64, i64))
    ensures
        r.0 == offset(direction, position, progress as int, width as int, height as int).0,
        r.1 == offset(direction, position, progress as int, width as int, height as int).1,
{
    let horizontal = match direction {
        Direction::Right | Direction::Left => true,
        Direction::Up | Direction::Down => false,
    };
    let full: i64 = if horizontal {
        width as i64
    } else {
        height as i64
    };
    let p: i64 = if (progress as i64) < full {
        progress as i64
    } else {
        full
    };
    let moved: i64 = match position {
        Position::Before => p,
        Position::After => p - full,
    };
    let along_axis: i64 = match direction {
        Direction::Right | Direction::Down => moved,
        Direction::Up | Direction::Left => -moved,
    };
    if horizontal {
        (along_axis, 0)
    } else {
        (0, along_axis)
    }
}

/// At every progress within the extent the two images sit flush: the
/// distances they are displaced along the axis add up to the extent, the
/// outgoing one lies exactly one extent ahead of the incoming one in the
/// direction of travel, and neither is displaced across the axis.
pub proof fn lemma_offsets_complementary(d: Direction, p: int, width: int, height: int)
    requires
        width >= 0,
        height >= 0,
        0 <= p <= extent(d, width, height),
    ensures
        abs(along(d, before_offset(d, p, width, height))) + abs(
            along(d, after_offset(d, p, width, height)),
        ) == extent(d, width, height),
        along(d, before_offset(d, p, width, height)) - along(d, after_offset(d, p, width, height))
            == sign(d) * extent(d, width, height),
        across(d, before_offset(d, p, width, height)) == 0,
        across(d, after_offset(d, p, width, height)) == 0,
{
}

} // verus!
