use brick_breaker::gameplay_entities::{Ball, BallState, BricksWall, Size, Skateboard};
use brick_breaker::math::{circle_collides_rect, Collision, Point};

#[test]
fn test_math_collisions() {
    let result = circle_collides_rect(1_000, 1_000, 1_000, 2_000, 0, 4_000, 2_000);
    assert!(matches!(result, Collision::Left));

    let result = circle_collides_rect(4_000, 3_000, 1_000, 2_000, 0, 4_000, 2_000);
    assert!(matches!(result, Collision::Bottom));

    let result = circle_collides_rect(4_000, 3_000, 500, 2_000, 0, 4_000, 2_000);
    assert!(matches!(result, Collision::Miss));

    let result = circle_collides_rect(6_000, 3_000, 1_000, 2_000, 0, 2_000, 2_000);
    assert!(matches!(result, Collision::Miss));

    let result = circle_collides_rect(1_000, 1_000, 1_000, 2_000, 0, 1_000, 1_000);
    assert!(matches!(result, Collision::Left));

    let result = circle_collides_rect(1_000, 1_000, 1_000, 1_500, 1_000, 1_000, 1_000);
    assert!(matches!(result, Collision::Left));
}

#[test]
fn test_ball_initialization() {
    let actual_ball = Ball::new(200_000, 100_000, 60_000, 10_000, 10_000);
    assert!(matches!(actual_ball.state, BallState::Flying));
    assert_eq!(actual_ball.pos, Point { x: 95_000, y: 30_000 });
    assert_eq!(actual_ball.direction, Point { x: 1, y: 1 });
    assert_eq!(actual_ball.radius, 5_000);

    let actual_ball_2 = Ball::new(856_000, 3_456_000, 1_008_000, 16_000, 34_000);
    assert!(matches!(actual_ball_2.state, BallState::Flying));
    assert_eq!(
        actual_ball_2.pos,
        Point {
            x: 420_000,
            y: 2_414_000
        }
    );
    assert_eq!(actual_ball_2.direction, Point { x: 1, y: 1 });
    assert_eq!(actual_ball_2.radius, 8_000);
}

#[test]
fn test_bricks_wall_initialization() {
    let wall = BricksWall::new(100_000, 400_000, 20_000, 40_000);
    assert_eq!(wall.bricks.len(), 6);

    let wall_2 = BricksWall::new(444_000, 324_000, 2_000, 16_000);
    assert_eq!(wall_2.bricks.len(), 88);

    let wall_3 = BricksWall::new(18_684_000, 556_000, 283_000, 162_000);
    assert_eq!(wall_3.bricks.len(), 102);

    let wall_4 = BricksWall::new(0, 0, 10_000, 15_000);
    assert_eq!(wall_4.bricks.len(), 0);

    let wall_5 = BricksWall::new(100_000, 0, 10_000, 15_000);
    assert_eq!(wall_5.bricks.len(), 0);
}

#[test]
fn test_skateboard_initialization() {
    let skate_1 = Skateboard::new(
        Size {
            width: 20_000,
            height: 30_000,
        },
        100_000,
        400_000,
    );

    assert_eq!(skate_1.pos, Point { x: 190_000, y: 70_000 });

    let skate_2 = Skateboard::new(
        Size {
            width: 50_000,
            height: 16_000,
        },
        200_000,
        10_000_000,
    );

    assert_eq!(
        skate_2.pos,
        Point {
            x: 4_975_000,
            y: 184_000
        }
    );

    let skate_3 = Skateboard::new(
        Size {
            width: 1_400,
            height: 12_000,
        },
        18_000,
        25_000,
    );

    assert_eq!(skate_3.pos, Point { x: 11_800, y: 6_000 });
}
