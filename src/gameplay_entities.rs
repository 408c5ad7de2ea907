use vstd::prelude::*;

use vstd::arithmetic::div_mod::lemma_fundamental_div_mod_converse;

use crate::assets::Assets;
use crate::math::{circle_collides_rect, circle_rect_collision, Collision, Point, Rect};

verus! {

/// The width and height of a footprint, in thousandths of a unit.
#[derive(Debug, Clone, Copy, PartialEq, Eq, Structural)]
pub struct Size {
    pub height: u32,
    pub width: u32,
}

/// The damage of a brick.
#[derive(Debug, Clone, Copy, PartialEq, Eq, Structural)]
pub enum BrickState {
    Survived,
    Touched,
    Broken,
}

/// One brick of the wall: its damage and its top-left corner.
#[derive(Debug, Clone, Copy, PartialEq, Eq, Structural)]
pub struct Brick {
    pub state: BrickState,
    pub pos: Point,
}

/// The damage after one more hit: a survived brick is touched, a touched
/// brick breaks, and a broken brick stays broken.
pub open spec fn damaged(state: BrickState) -> BrickState {
    match state {
        BrickState::Survived => BrickState::Touched,
        BrickState::Touched => BrickState::Broken,
        BrickState::Broken => BrickState::Broken,
    }
}

/// The damage after `n` hits from `state`.
pub open spec fn damaged_times(state: BrickState, n: nat) -> BrickState
    decreases n,
{
    if n == 0 {
        state
    } else {
        damaged(damaged_times(state, (n - 1) as nat))
    }
}

/// The footprint that a brick in `state` is drawn with; a broken brick,
/// which is not drawn, keeps the footprint of a touched one.
pub open spec fn brick_footprint(state: BrickState, assets: Assets) -> Size {
    match state {
        BrickState::Survived => assets.brick_survived,
        _ => assets.brick_touched,
    }
}

/// The rectangle covered by a sprite of footprint `size` drawn at `pos`.
pub open spec fn footprint_rect(pos: Point, size: Size) -> Rect {
    Rect { x: pos.x, y: pos.y, w: size.width as i64, h: size.height as i64 }
}

impl Brick {
    /// The bounding box of the brick, from the footprint of its damage.
    pub fn bounding_rect(&self, assets: &Assets) -> (r: Rect)
        ensures
            r == footprint_rect(self.pos, brick_footprint(self.state, *assets)),
    {
        let sprite = match self.state {
            BrickState::Survived => assets.brick_survived,
            BrickState::Touched => assets.brick_touched,
            BrickState::Broken => assets.brick_touched,
        };
        Rect { x: self.pos.x, y: self.pos.y, w: sprite.width as i64, h: sprite.height as i64 }
    }

    /// Takes one hit.
    pub fn broke(&mut self)
        ensures
            final(self).state == damaged(old(self).state),
            final(self).pos == old(self).pos,
    {
        match self.state {
            BrickState::Survived => {
                self.state = BrickState::Touched;
            },
            BrickState::Touched => {
                self.state = BrickState::Broken;
            },
            BrickState::Broken => {
                self.state = BrickState::Broken;
            },
        }
    }

    /// Repairs the brick.
    pub fn reset(&mut self)
        ensures
            final(self).state == BrickState::Survived,
            final(self).pos == old(self).pos,
    {
        self.state = BrickState::Survived;
    }
}

/// Hitting a broken brick any number of times leaves it broken.
pub proof fn lemma_broken_stays_broken(n: nat)
    ensures
        damaged_times(BrickState::Broken, n) == BrickState::Broken,
    decreases n,
{
    if n > 0 {
        lemma_broken_stays_broken((n - 1) as nat);
    }
}

/// The distance kept between the wall and the screen's edges.
pub const PADDING: i64 = 15_000;

/// The free space kept on each side of a brick.
pub const BRICK_PADDING: i64 = 10_000;

/// The wall fills the top `BRICKS_HEIGHT_NUMERATOR / BRICKS_HEIGHT_DENOMINATOR`
/// of the screen's height.
pub const BRICKS_HEIGHT_NUMERATOR: u64 = 3;

pub const BRICKS_HEIGHT_DENOMINATOR: u64 = 5;

/// The width of a column: a brick and its padding on both sides.
pub open spec fn column_width(brick_width: int) -> int {
    brick_width + 2 * BRICK_PADDING
}

/// The height of a row: a brick and its padding above and below.
pub open spec fn row_height(brick_height: int) -> int {
    brick_height + 2 * BRICK_PADDING
}

/// The width left for the wall once the screen's padding is taken.
pub open spec fn usable_width(screen_width: int) -> int {
    screen_width - 2 * PADDING
}

/// How many columns fit in the usable width.
pub open spec fn columns_count(screen_width: int, brick_width: int) -> int {
    if usable_width(screen_width) < 0 {
        0
    } else {
        usable_width(screen_width) / column_width(brick_width)
    }
}

/// How many rows fit in the part of the screen's height that the wall fills.
pub open spec fn rows_count(screen_height: int, brick_height: int) -> int {
    (screen_height * BRICKS_HEIGHT_NUMERATOR / BRICKS_HEIGHT_DENOMINATOR as int) / row_height(
        brick_height,
    )
}

/// Half of the width that the columns leave over, which centres the wall.
pub open spec fn offset_from_left(screen_width: int, brick_width: int) -> int {
    if usable_width(screen_width) < 0 {
        0
    } else {
        (usable_width(screen_width) - column_width(brick_width) * columns_count(
            screen_width,
            brick_width,
        )) / 2
    }
}

/// The left edge of the bricks of column `i`.
pub open spec fn brick_x(screen_width: int, brick_width: int, i: int) -> int {
    PADDING + offset_from_left(screen_width, brick_width) + BRICK_PADDING + i * column_width(
        brick_width,
    )
}

/// The top edge of the bricks of row `j`.
pub open spec fn brick_y(brick_height: int, j: int) -> int {
    PADDING + row_height(brick_height) / 2 + j * row_height(brick_height)
}

/// The wall that a screen of `screen_width` by `screen_height` holds for
/// bricks of `brick_width` by `brick_height`: every brick survived, column
/// after column, and within a column row after row.
pub open spec fn wall_layout(
    screen_width: int,
    screen_height: int,
    brick_height: int,
    brick_width: int,
) -> Seq<Brick> {
    let rows = rows_count(screen_height, brick_height);
    let columns = columns_count(screen_width, brick_width);
    Seq::new(
        (columns * rows) as nat,
        |k: int|
            Brick {
                state: BrickState::Survived,
                pos: Point {
                    x: brick_x(screen_width, brick_width, k / rows) as i64,
                    y: brick_y(brick_height, k % rows) as i64,
                },
            },
    )
}

/// The number of broken bricks in `bricks`.
pub open spec fn broken_count(bricks: Seq<Brick>) -> nat
    decreases bricks.len(),
{
    if bricks.len() == 0 {
        0
    } else {
        broken_count(bricks.drop_last()) + if bricks.last().state == BrickState::Broken {
            1nat
        } else {
            0nat
        }
    }
}

/// The bricks of a level, column after column.
#[derive(Debug)]
pub struct BricksWall {
    pub bricks: Vec<Brick>,
}

impl BricksWall {
    /// Lays out the wall for a screen of `screen_width` by `screen_height`
    /// and bricks of `brick_width` by `brick_height`.
    pub fn new(screen_width: u32, screen_height: u32, brick_height: u32, brick_width: u32) -> (r:
        Self)
        ensures
            r.bricks@ == wall_layout(
                screen_width as int,
                screen_height as int,
                brick_height as int,
                brick_width as int,
            ),
    {
        let ghost layout = wall_layout(
            screen_width as int,
            screen_height as int,
            brick_height as int,
            brick_width as int,
        );
        let mut bricks: Vec<Brick> = Vec::new();

        let brick_horizontal_size: u64 = brick_width as u64 + 2 * BRICK_PADDING as u64;
        let left_horizontal_space: i64 = screen_width as i64 - 2 * PADDING;
        let mut bricks_columns_count: u64 = 0;
        let mut offset_from_left_edge: u64 = 0;
        if left_horizontal_space >= 0 {
            let space = left_horizontal_space as u64;
            bricks_columns_count = space / brick_horizontal_size;
            proof {
                vstd::arithmetic::div_mod::lemma_fundamental_div_mod(
                    space as int,
                    brick_horizontal_size as int,
                );
                vstd::arithmetic::div_mod::lemma_mod_bound(
                    space as int,
                    brick_horizontal_size as int,
                );
            }
            offset_from_left_edge = (space - brick_horizontal_size * bricks_columns_count) / 2;
        }

        let brick_vertical_size: u64 = brick_height as u64 + 2 * BRICK_PADDING as u64;
        let left_vertical_space: u64 = screen_height as u64 * BRICKS_HEIGHT_NUMERATOR
            / BRICKS_HEIGHT_DENOMINATOR;
        let bricks_rows_count: u64 = left_vertical_space / brick_vertical_size;
        proof {
            vstd::arithmetic::div_mod::lemma_fundamental_div_mod(
                left_vertical_space as int,
                brick_vertical_size as int,
            );
            vstd::arithmetic::div_mod::lemma_mod_bound(
                left_vertical_space as int,
                brick_vertical_size as int,
            );
            assert(bricks_rows_count * brick_vertical_size <= left_vertical_space) by (
            nonlinear_arith)
                requires
                    left_vertical_space == brick_vertical_size * bricks_rows_count + (
                    left_vertical_space % brick_vertical_size),
                    left_vertical_space % brick_vertical_size >= 0,
            ;
            assert(0 * bricks_rows_count == 0);
        }

        assert(bricks_columns_count == columns_count(screen_width as int, brick_width as int));
        assert(bricks_rows_count == rows_count(screen_height as int, brick_height as int));
        assert(offset_from_left_edge == offset_from_left(screen_width as int, brick_width as int));
        proof {
            assert(bricks_columns_count * brick_horizontal_size <= screen_width) by (nonlinear_arith)
                requires
                    bricks_columns_count == (screen_width - 30_000) / (brick_horizontal_size as int)
                        || bricks_columns_count == 0,
                    brick_horizontal_size >= 20_000,
            ;
        }

        let mut i: u64 = 0;
        while i < bricks_columns_count
            invariant
                i <= bricks_columns_count,
                bricks_columns_count * brick_horizontal_size <= screen_width,
                bricks_columns_count == columns_count(screen_width as int, brick_width as int),
                bricks_rows_count == rows_count(screen_height as int, brick_height as int),
                offset_from_left_edge == offset_from_left(
                    screen_width as int,
                    brick_width as int,
                ),
                offset_from_left_edge <= screen_width,
                brick_horizontal_size == column_width(brick_width as int),
                brick_vertical_size == row_height(brick_height as int),
                bricks_rows_count * brick_vertical_size <= screen_height,
                layout == wall_layout(
                    screen_width as int,
                    screen_height as int,
                    brick_height as int,
                    brick_width as int,
                ),
                bricks@.len() == i * bricks_rows_count,
                layout.len() == bricks_columns_count * bricks_rows_count,
                forall|k: int| 0 <= k < bricks@.len() ==> bricks@[k] == layout[k],
            decreases bricks_columns_count - i,
        {
            let mut j: u64 = 0;
            while j < bricks_rows_count
                invariant
                    i < bricks_columns_count,
                    j <= bricks_rows_count,
                    bricks_columns_count * brick_horizontal_size <= screen_width,
                    bricks_columns_count == columns_count(screen_width as int, brick_width as int),
                    bricks_rows_count == rows_count(screen_height as int, brick_height as int),
                    offset_from_left_edge == offset_from_left(
                        screen_width as int,
                        brick_width as int,
                    ),
                    offset_from_left_edge <= screen_width,
                    brick_horizontal_size == column_width(brick_width as int),
                    brick_vertical_size == row_height(brick_height as int),
                    bricks_rows_count * brick_vertical_size <= screen_height,
                    layout == wall_layout(
                        screen_width as int,
                        screen_height as int,
                        brick_height as int,
                        brick_width as int,
                    ),
                    bricks@.len() == i * bricks_rows_count + j,
                    layout.len() == bricks_columns_count * bricks_rows_count,
                    forall|k: int| 0 <= k < bricks@.len() ==> bricks@[k] == layout[k],
                decreases bricks_rows_count - j,
            {
                proof {
                    assert(i * brick_horizontal_size <= screen_width) by (nonlinear_arith)
                        requires
                            i < bricks_columns_count,
                            bricks_columns_count * brick_horizontal_size <= screen_width,
                    ;
                    assert(j * brick_vertical_size <= screen_height) by (nonlinear_arith)
                        requires
                            j < bricks_rows_count,
                            bricks_rows_count * brick_vertical_size <= screen_height,
                    ;
                }
                let x: i64 = PADDING + offset_from_left_edge as i64 + BRICK_PADDING + (i
                    * brick_horizontal_size) as i64;
                let y: i64 = PADDING + (brick_vertical_size / 2) as i64 + (j * brick_vertical_size) as i64;
                let brick = Brick { state: BrickState::Survived, pos: Point { x, y } };
                proof {
                    let k = i * bricks_rows_count + j;
                    lemma_fundamental_div_mod_converse(
                        k as int,
                        bricks_rows_count as int,
                        i as int,
                        j as int,
                    );
                    assert(k < bricks_columns_count * bricks_rows_count) by (nonlinear_arith)
                        requires
                            k == i * bricks_rows_count + j,
                            i < bricks_columns_count,
                            j < bricks_rows_count,
                    ;
                }
                bricks.push(brick);
                j = j + 1;
            }
            assert(bricks@.len() == (i + 1) * bricks_rows_count) by (nonlinear_arith)
                requires
                    bricks@.len() == i * bricks_rows_count + bricks_rows_count,
            ;
            i = i + 1;
        }
        proof {
            assert(bricks@.len() == layout.len());
            assert(bricks@ =~= layout);
        }
        BricksWall { bricks }
    }

    /// Repairs every brick, keeping the layout.
    pub fn reset_on_game_over(&mut self)
        ensures
            final(self).bricks@.len() == old(self).bricks@.len(),
            forall|k: int|
                0 <= k < old(self).bricks@.len() ==> #[trigger] final(self).bricks@[k] == (Brick {
                    state: BrickState::Survived,
                    pos: old(self).bricks@[k].pos,
                }),
    {
        let ghost before = self.bricks@;
        let mut i: usize = 0;
        while i < self.bricks.len()
            invariant
                i <= self.bricks@.len(),
                self.bricks@.len() == before.len(),
                forall|k: int|
                    0 <= k < i ==> #[trigger] self.bricks@[k] == (Brick {
                        state: BrickState::Survived,
                        pos: before[k].pos,
                    }),
                forall|k: int| i <= k < before.len() ==> #[trigger] self.bricks@[k] == before[k],
            decreases self.bricks@.len() - i,
        {
            let mut brick = self.bricks[i];
            brick.reset();
            self.bricks.set(i, brick);
            i = i + 1;
        }
    }

    /// Whether every brick is broken; true of an empty wall.
    pub fn all_bricks_are_broken(&self) -> (r: bool)
        ensures
            r == (broken_count(self.bricks@) == self.bricks@.len()),
    {
        self.broken_bricks_count() == self.bricks.len()
    }

    /// The wall does not change on its own between ticks.
    pub fn update() {
    }

    /// The number of broken bricks.
    pub fn broken_bricks_count(&self) -> (r: usize)
        ensures
            r == broken_count(self.bricks@),
    {
        let mut count: usize = 0;
        let mut i: usize = 0;
        while i < self.bricks.len()
            invariant
                i <= self.bricks@.len(),
                count == broken_count(self.bricks@.take(i as int)),
                count <= i,
            decreases self.bricks@.len() - i,
        {
            proof {
                assert(self.bricks@.take(i + 1).drop_last() =~= self.bricks@.take(i as int));
            }
            if self.bricks[i].state == BrickState::Broken {
                count = count + 1;
            }
            i = i + 1;
        }
        proof {
            assert(self.bricks@.take(i as int) =~= self.bricks@);
        }
        count
    }
}

/// A wall built twice from the same screen and brick sizes has the same
/// bricks at the same places.
pub proof fn lemma_wall_layout_is_deterministic(
    a: Seq<Brick>,
    b: Seq<Brick>,
    screen_width: int,
    screen_height: int,
    brick_height: int,
    brick_width: int,
)
    requires
        a == wall_layout(screen_width, screen_height, brick_height, brick_width),
        b == wall_layout(screen_width, screen_height, brick_height, brick_width),
    ensures
        a.len() == b.len(),
        forall|k: int| 0 <= k < a.len() ==> #[trigger] a[k] == b[k],
{
}

/// The largest magnitude of a ball coordinate: far beyond any screen, and
/// small enough that a move of one tick, or the ball's centre, cannot
/// overflow.
pub const POSITION_LIMIT: i64 = 0x4000_0000_0000_0000;

pub open spec fn in_range(v: int) -> bool {
    -POSITION_LIMIT <= v <= POSITION_LIMIT
}

/// The distance covered in `micros` microseconds at `speed` thousandths of
/// a unit per second, rounded down.
pub open spec fn travel(speed: int, micros: int) -> int {
    speed * micros / 1_000_000
}

/// The ball's state of flight.
#[derive(Debug, Clone, Copy, PartialEq, Eq, Structural)]
pub enum BallState {
    Flying,
    Crashing,
}

/// The ball: its top-left corner, the sign of its motion on each axis, and
/// its radius.
#[derive(Debug, Clone, Copy, PartialEq, Eq, Structural)]
pub struct Ball {
    pub state: BallState,
    pub pos: Point,
    pub direction: Point,
    pub radius: i64,
}

pub open spec fn is_unit(v: i64) -> bool {
    v == 1 || v == -1
}

/// The direction after a bounce off the edge `collision`.
pub open spec fn bounced(direction: Point, collision: Collision) -> Point {
    match collision {
        Collision::Left | Collision::Right => Point { x: (-direction.x) as i64, y: direction.y },
        Collision::Top | Collision::Bottom => Point { x: direction.x, y: (-direction.y) as i64 },
        Collision::Miss => direction,
    }
}

/// Whether a ball of extent `size` at `v` on one axis leaves `[0, bound]`.
pub open spec fn leaves_bounds(v: int, size: int, bound: int) -> bool {
    v + size > bound || v < 0
}

/// The component of a direction after a move to `v`: flipped where the
/// ball leaves the screen on that axis.
pub open spec fn reflected(d: i64, v: int, size: int, bound: int) -> i64 {
    if leaves_bounds(v, size, bound) {
        (-d) as i64
    } else {
        d
    }
}

/// The ball at the start of an attempt: centred horizontally, resting on
/// the paddle, moving right and down, as wide as its footprint.
pub open spec fn fresh_ball(
    screen_width: u32,
    screen_height: u32,
    skateboard_height: u32,
    ball_width: u32,
    ball_height: u32,
) -> Ball {
    Ball {
        state: BallState::Flying,
        pos: Point {
            x: (screen_width / 2 - ball_width / 2) as i64,
            y: (screen_height - skateboard_height - ball_height) as i64,
        },
        direction: Point { x: 1, y: 1 },
        radius: (ball_width / 2) as i64,
    }
}

impl Ball {
    /// The ball's speed, in thousandths of a unit per second.
    pub const SPEED: u64 = 350_000;

    /// A ball whose direction is made of unit components and whose corner
    /// and radius keep every move and every test free of overflow.
    pub open spec fn wf(&self) -> bool {
        &&& is_unit(self.direction.x)
        &&& is_unit(self.direction.y)
        &&& 0 <= self.radius <= u32::MAX
        &&& in_range(self.pos.x as int)
        &&& in_range(self.pos.y as int)
    }

    /// The ball at the start of an attempt.
    pub fn new(
        screen_width: u32,
        screen_height: u32,
        skateboard_height: u32,
        ball_width: u32,
        ball_height: u32,
    ) -> (r: Self)
        ensures
            r == fresh_ball(screen_width, screen_height, skateboard_height, ball_width, ball_height),
            r.wf(),
    {
        let ball_pos = Point {
            x: (screen_width / 2) as i64 - (ball_width / 2) as i64,
            y: screen_height as i64 - skateboard_height as i64 - ball_height as i64,
        };
        Ball {
            state: BallState::Flying,
            pos: ball_pos,
            direction: Point { x: 1, y: 1 },
            radius: (ball_width / 2) as i64,
        }
    }

    /// Moves the ball to `point`.
    pub fn update(&mut self, point: Point)
        requires
            old(self).wf(),
            in_range(point.x as int),
            in_range(point.y as int),
        ensures
            *final(self) == (Ball { pos: point, ..*old(self) }),
            final(self).wf(),
    {
        self.pos.x = point.x;
        self.pos.y = point.y;
    }

    /// The position after `micros` microseconds of flight. The direction is
    /// flipped on each axis on which that position leaves the screen; the
    /// ball itself does not move.
    pub fn calculate_new_position(
        &mut self,
        micros: u32,
        screen_width: u32,
        screen_height: u32,
        ball_width: u32,
        ball_height: u32,
    ) -> (r: Point)
        requires
            old(self).wf(),
        ensures
            r.x == old(self).pos.x + travel(Self::SPEED as int, micros as int) * old(self).direction.x,
            r.y == old(self).pos.y + travel(Self::SPEED as int, micros as int) * old(self).direction.y,
            final(self).direction.x == reflected(
                old(self).direction.x,
                r.x as int,
                ball_width as int,
                screen_width as int,
            ),
            final(self).direction.y == reflected(
                old(self).direction.y,
                r.y as int,
                ball_height as int,
                screen_height as int,
            ),
            final(self).pos == old(self).pos,
            final(self).state == old(self).state,
            final(self).radius == old(self).radius,
            final(self).wf(),
    {
        let step: i64 = (Self::SPEED * micros as u64 / 1_000_000) as i64;
        assert(step <= 2_000_000_000) by (nonlinear_arith)
            requires
                step == 350_000 * (micros as int) / 1_000_000,
                micros <= u32::MAX,
        ;
        let new_x = self.pos.x + step * self.direction.x;
        let new_y = self.pos.y + step * self.direction.y;

        if new_x + ball_width as i64 > screen_width as i64 || new_x < 0 {
            self.direction.x = -self.direction.x;
        }
        if new_y + ball_height as i64 > screen_height as i64 || new_y < 0 {
            self.direction.y = -self.direction.y;
        }
        Point { x: new_x, y: new_y }
    }

    /// Reverses the component of the direction across the edge hit.
    pub fn bounce(&mut self, collision: Collision)
        requires
            old(self).wf(),
        ensures
            *final(self) == (Ball { direction: bounced(old(self).direction, collision), ..*old(self) }),
            final(self).wf(),
    {
        match collision {
            Collision::Right | Collision::Left => {
                self.direction.x = -self.direction.x;
            },
            Collision::Top | Collision::Bottom => {
                self.direction.y = -self.direction.y;
            },
            Collision::Miss => {},
        }
    }

    /// The edge of `bounding_box` that the ball touches.
    pub fn collides_rect(&self, bounding_box: Rect) -> (r: Collision)
        requires
            self.wf(),
        ensures
            r == circle_rect_collision(
                self.pos.x + self.radius,
                self.pos.y + self.radius,
                self.radius as int,
                bounding_box.x as int,
                bounding_box.y as int,
                bounding_box.w as int,
                bounding_box.h as int,
            ),
    {
        circle_collides_rect(
            self.pos.x + self.radius,
            self.pos.y + self.radius,
            self.radius,
            bounding_box.x,
            bounding_box.y,
            bounding_box.w,
            bounding_box.h,
        )
    }
}

/// The paddle's look.
#[derive(Debug, Clone, Copy, PartialEq, Eq, Structural)]
pub enum SkateboardState {
    Normal,
    Rebound,
}

/// The footprint that the paddle is drawn with in `state`.
pub open spec fn skateboard_footprint(state: SkateboardState, assets: Assets) -> Size {
    match state {
        SkateboardState::Normal => assets.skateboard_normal,
        SkateboardState::Rebound => assets.skateboard_rebound,
    }
}

/// What `nalgebra::clamp` returns: `val` strictly between the bounds, else
/// `max` when `val` is above `min`, else `min`.
pub open spec fn clamped(val: int, min: int, max: int) -> int {
    if val > min {
        if val < max {
            val
        } else {
            max
        }
    } else {
        min
    }
}

/// Relies on nalgebra::clamp, which compares `val` with `min` and then with
/// `max` and returns `val`, `max` or `min` accordingly.
#[verifier::external_body]
fn clamp(val: i128, min: i128, max: i128) -> (r: i128)
    ensures
        r == clamped(val as int, min as int, max as int),
{
    nalgebra::clamp(val, min, max)
}

/// The paddle ("skateboard"): its look and its top-left corner.
#[derive(Debug, Clone, Copy, PartialEq, Eq, Structural)]
pub struct Skateboard {
    pub state: SkateboardState,
    pub pos: Point,
    pub velocity: Point,
}

/// The paddle at the start of an attempt: at rest, centred on the bottom
/// edge of a screen that is `max_right` wide and `max_down` high.
pub open spec fn fresh_skateboard(asset_size: Size, max_down: u32, max_right: u32) -> Skateboard {
    Skateboard {
        state: SkateboardState::Normal,
        pos: Point {
            x: (max_right / 2 - asset_size.width / 2) as i64,
            y: (max_down - asset_size.height) as i64,
        },
        velocity: Point { x: 0, y: 0 },
    }
}

impl Skateboard {
    /// The paddle's speed, in thousandths of a unit per second.
    pub const SPEED: u64 = 600_000;

    /// The paddle at the start of an attempt.
    pub fn new(asset_size: Size, max_down: u32, max_right: u32) -> (r: Self)
        ensures
            r == fresh_skateboard(asset_size, max_down, max_right),
    {
        let pos = Point {
            x: (max_right / 2) as i64 - (asset_size.width / 2) as i64,
            y: max_down as i64 - asset_size.height as i64,
        };
        Skateboard { state: SkateboardState::Normal, pos, velocity: Point { x: 0, y: 0 } }
    }

    /// The footprint of the paddle's current look.
    pub fn get_current_sprite_size(&self, assets: &Assets) -> (r: Size)
        ensures
            r == skateboard_footprint(self.state, *assets),
    {
        match self.state {
            SkateboardState::Normal => assets.skateboard_normal,
            SkateboardState::Rebound => assets.skateboard_rebound,
        }
    }

    /// Moves the paddle for `micros` microseconds along the input axis
    /// `amount`, then clamps it to `[0, max_right - width]`.
    pub fn update(&mut self, micros: u32, amount: i64, max_right: u32, assets: &Assets)
        ensures
            final(self).pos.x == clamped(
                old(self).pos.x + travel(Self::SPEED as int, micros as int) * amount,
                0,
                max_right - skateboard_footprint(old(self).state, *assets).width,
            ),
            final(self).pos.y == old(self).pos.y,
            final(self).state == old(self).state,
            final(self).velocity == old(self).velocity,
            skateboard_footprint(old(self).state, *assets).width <= max_right ==> 0 <= final(
                self).pos.x <= max_right - skateboard_footprint(old(self).state, *assets).width,
    {
        let current_sprite_size = self.get_current_sprite_size(assets);
        let step: i128 = (Self::SPEED * micros as u64 / 1_000_000) as i128;
        assert(step <= 3_000_000_000) by (nonlinear_arith)
            requires
                step == 600_000 * (micros as int) / 1_000_000,
                micros <= u32::MAX,
        ;
        assert(-0x1_0000_0000_0000_0000_0000_0000 <= step * amount <= 0x1_0000_0000_0000_0000_0000_0000)
            by (nonlinear_arith)
            requires
                0 <= step <= 3_000_000_000,
                i64::MIN <= amount <= i64::MAX,
        ;
        let new_pos = self.pos.x as i128 + step * amount as i128;
        let max_left = max_right as i128 - current_sprite_size.width as i128;
        let x = clamp(new_pos, 0, max_left);
        self.pos.x = x as i64;
    }

    /// The bounding box of the paddle, from the footprint of its look.
    pub fn bounding_rect(&self, assets: &Assets) -> (r: Rect)
        ensures
            r == footprint_rect(self.pos, skateboard_footprint(self.state, *assets)),
    {
        let sprite_size = self.get_current_sprite_size(assets);
        Rect {
            x: self.pos.x,
            y: self.pos.y,
            w: sprite_size.width as i64,
            h: sprite_size.height as i64,
        }
    }
}

/// The paddle's x after each of `moves` in turn, a move being a time step in
/// microseconds and an input axis, for a paddle of `width` on a screen that
/// is `max_right` wide.
pub open spec fn paddle_x_after(x: int, moves: Seq<(u32, i64)>, max_right: int, width: int) -> int
    decreases moves.len(),
{
    if moves.len() == 0 {
        x
    } else {
        let before = paddle_x_after(x, moves.drop_last(), max_right, width);
        clamped(
            before + travel(Skateboard::SPEED as int, moves.last().0 as int) * moves.last().1,
            0,
            max_right - width,
        )
    }
}

/// After any non-empty sequence of moves, whatever the input, the paddle
/// lies within `[0, max_right - width]`.
pub proof fn lemma_paddle_stays_on_screen(
    x: int,
    moves: Seq<(u32, i64)>,
    max_right: int,
    width: int,
)
    requires
        moves.len() > 0,
        0 <= width <= max_right,
    ensures
        0 <= paddle_x_after(x, moves, max_right, width) <= max_right - width,
{
}

/// The simulation of one attempt at a level.
#[derive(Debug)]
pub struct GameplayState {
    pub skateboard: Skateboard,
    pub bricks_wall: BricksWall,
    pub ball: Ball,
}

} // verus!
