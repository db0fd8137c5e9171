use vstd::prelude::*;
use crate::geometry::{Extent, Point, PADDLE_SPEED, SUBPIXELS, WINDOW_HEIGHT};

verus! {

/// A drawable object of the board: the size of its image and where it stands.
#[derive(Clone, Copy, Debug, PartialEq, Eq, Structural)]
pub struct Entity {
    pub extent: Extent,
    pub position: Point,
}

impl Entity {
    pub fn new(extent: Extent, position: Point) -> (r: Entity)
        ensures
            r.extent == extent,
            r.position == position,
    {
        Entity { extent, position }
    }
}

/// One step of a paddle, in half pixels.
pub open spec fn step() -> int {
    PADDLE_SPEED * SUBPIXELS
}

/// Height of the window, in half pixels.
pub open spec fn floor_line() -> int {
    WINDOW_HEIGHT * SUBPIXELS
}

/// The vertical position after one step up. The test comes before the move:
/// a position above zero moves a full step, and may land below zero; a
/// position at or below zero is set to zero.
pub open spec fn up_y(y: int) -> int {
    if y > 0 {
        y - step()
    } else {
        0
    }
}

/// The vertical position after one step down, where `width` is the image's
/// width in pixels, that is its half width in half pixels. The test comes
/// before the move: a position whose half width ends above the bottom moves a
/// full step, and may pass it; any other is set to rest its half width on it.
pub open spec fn down_y(y: int, width: int) -> int {
    if y + width < floor_line() {
        y + step()
    } else {
        floor_line() - width
    }
}

/// Moves the entity one step up.
pub fn move_up(entity: &mut Entity)
    ensures
        final(entity).position.y == up_y(old(entity).position.y as int),
        final(entity).position.x == old(entity).position.x,
        final(entity).extent == old(entity).extent,
{
    if entity.position.y > 0 {
        entity.position.y = entity.position.y - PADDLE_SPEED * SUBPIXELS;
    } else {
        entity.position.y = 0;
    }
}

/// Moves the entity one step down.
pub fn move_down(entity: &mut Entity)
    ensures
        final(entity).position.y == down_y(
            old(entity).position.y as int,
            old(entity).extent.width as int,
        ),
        final(entity).position.x == old(entity).position.x,
        final(entity).extent == old(entity).extent,
{
    // The half width in pixels is the width in half pixels.
    let half_width: i64 = entity.extent.width as i64;
    let bottom: i64 = WINDOW_HEIGHT * SUBPIXELS;
    if entity.position.y < bottom - half_width {
        entity.position.y = entity.position.y + PADDLE_SPEED * SUBPIXELS;
    } else {
        entity.position.y = bottom - half_width;
    }
}

/// The vertical position after `n` steps up from `y`.
pub open spec fn ups(y: int, n: nat) -> int
    decreases n,
{
    if n == 0 {
        y
    } else {
        up_y(ups(y, (n - 1) as nat))
    }
}

/// The vertical position after `n` steps down from `y`, for an image `width`
/// pixels wide.
pub open spec fn downs(y: int, width: int, n: nat) -> int
    decreases n,
{
    if n == 0 {
        y
    } else {
        down_y(downs(y, width, (n - 1) as nat), width)
    }
}

/// Whatever the start, after one or more steps up a paddle stands less than a
/// step above the top; once a step has met a position at or above the top, the
/// paddle rests exactly on the top for every later step.
pub proof fn lemma_up_stays_in_window(y: int, n: nat, m: nat)
    ensures
        n >= 1 ==> ups(y, n) > -step(),
        ups(y, n) <= 0 && m > n ==> ups(y, m) == 0,
    decreases m,
{
    if n >= 1 {
        assert(ups(y, n) == up_y(ups(y, (n - 1) as nat)));
    }
    if ups(y, n) <= 0 && m > n {
        if m == n + 1 {
            assert(ups(y, m) == up_y(ups(y, n)));
        } else {
            lemma_up_stays_in_window(y, n, (m - 1) as nat);
            assert(ups(y, m) == up_y(ups(y, (m - 1) as nat)));
        }
    }
}

/// Whatever the start, after one or more steps down a paddle stands less than a
/// step below the line that its half width may reach; once a step has met a
/// position on or past that line, the paddle rests exactly on it for every
/// later step.
pub proof fn lemma_down_stays_in_window(y: int, width: int, n: nat, m: nat)
    requires
        width >= 0,
    ensures
        n >= 1 ==> downs(y, width, n) < floor_line() - width + step(),
        downs(y, width, n) + width >= floor_line() && m > n
            ==> downs(y, width, m) == floor_line() - width,
    decreases m,
{
    if n >= 1 {
        assert(downs(y, width, n) == down_y(downs(y, width, (n - 1) as nat), width));
    }
    if downs(y, width, n) + width >= floor_line() && m > n {
        if m == n + 1 {
            assert(downs(y, width, m) == down_y(downs(y, width, n), width));
        } else {
            lemma_down_stays_in_window(y, width, n, (m - 1) as nat);
            assert(downs(y, width, m) == down_y(downs(y, width, (m - 1) as nat), width));
        }
    }
}

} // verus!
