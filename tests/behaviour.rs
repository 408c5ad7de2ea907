use brick_breaker::assets::Assets;
use brick_breaker::event_handler_wrapper::{EventHandlerWrapper, KeyCode};
use brick_breaker::game_settings_entities::{InputState, ScoreDetails, ScreenSize};
use brick_breaker::game_workflow_state_reducer::{
    apply_intent, reduce, reduce_go_to_home_page_intent, reduce_lose_intent,
    reduce_start_game_intent, reduce_win_intent, GameWorkflowIntent, GameWorkflowState,
    WorkflowError,
};
use brick_breaker::gameplay_entities::{
    Ball, Brick, BrickState, BricksWall, Size, Skateboard, SkateboardState,
};
use brick_breaker::math::{circle_collides_rect, Collision, Point, Rect};

fn assets() -> Assets {
    Assets {
        brick_survived: Size { width: 40_000, height: 20_000 },
        brick_touched: Size { width: 40_000, height: 20_000 },
        skateboard_normal: Size { width: 20_000, height: 30_000 },
        skateboard_rebound: Size { width: 30_000, height: 30_000 },
        ball_flying: Size { width: 10_000, height: 10_000 },
    }
}

#[test]
fn collision_scenarios_from_the_table() {
    assert_eq!(circle_collides_rect(1_000, 1_000, 1_000, 2_000, 0, 4_000, 2_000), Collision::Left);
    assert_eq!(circle_collides_rect(4_000, 3_000, 1_000, 2_000, 0, 4_000, 2_000), Collision::Bottom);
    assert_eq!(circle_collides_rect(4_000, 3_000, 500, 2_000, 0, 4_000, 2_000), Collision::Miss);
    assert_eq!(circle_collides_rect(6_000, 3_000, 1_000, 2_000, 0, 2_000, 2_000), Collision::Miss);
}

#[test]
fn collision_tie_goes_to_the_horizontal_edge() {
    // dx == dy == 600: the circle reaches the corner, the x axis wins.
    assert_eq!(circle_collides_rect(1_400, 3_600, 1_000, 2_000, 0, 4_000, 3_000), Collision::Left);
    assert_eq!(circle_collides_rect(6_600, -600, 1_000, 2_000, 0, 4_000, 3_000), Collision::Right);
    // dy larger than dx: the y axis wins.
    assert_eq!(circle_collides_rect(1_900, -800, 1_000, 2_000, 0, 4_000, 3_000), Collision::Top);
}

#[test]
fn collision_centre_inside_rectangle_is_a_miss() {
    assert_eq!(circle_collides_rect(3_000, 1_000, 1_000, 2_000, 0, 4_000, 2_000), Collision::Miss);
    assert_eq!(circle_collides_rect(2_000, 0, 0, 2_000, 0, 4_000, 2_000), Collision::Miss);
}

#[test]
fn collision_exactly_at_radius_and_negative_radius() {
    assert_eq!(circle_collides_rect(1_000, 1_000, 1_000, 2_000, 0, 1_000, 1_000), Collision::Left);
    assert_eq!(circle_collides_rect(999, 1_000, 1_000, 2_000, 0, 1_000, 1_000), Collision::Miss);
    assert_eq!(circle_collides_rect(1_000, 1_000, -1, 2_000, 0, 1_000, 1_000), Collision::Miss);
}

#[test]
fn collision_with_extreme_coordinates() {
    assert_eq!(
        circle_collides_rect(i64::MIN, i64::MIN, i64::MAX, i64::MAX, i64::MAX, i64::MAX, i64::MAX),
        Collision::Miss
    );
    assert_eq!(
        circle_collides_rect(-1_000, 0, i64::MAX, 0, 0, 10, 10),
        Collision::Left
    );
}

#[test]
fn ball_new_scenario() {
    let ball = Ball::new(200_000, 100_000, 60_000, 10_000, 10_000);
    assert_eq!(ball.pos, Point { x: 95_000, y: 30_000 });
    assert_eq!(ball.direction, Point { x: 1, y: 1 });
    assert_eq!(ball.radius, 5_000);
}

#[test]
fn ball_moves_and_turns_at_the_screen_edges() {
    let mut ball = Ball::new(200_000, 100_000, 60_000, 10_000, 10_000);
    // One second at 350 units per second.
    let p = ball.calculate_new_position(1_000_000, 200_000, 100_000, 10_000, 10_000);
    assert_eq!(p, Point { x: 445_000, y: 380_000 });
    assert_eq!(ball.direction, Point { x: -1, y: -1 });
    assert_eq!(ball.pos, Point { x: 95_000, y: 30_000 });

    let mut ball = Ball::new(200_000, 100_000, 60_000, 10_000, 10_000);
    // A sixtieth of a second: 5.833 units.
    let p = ball.calculate_new_position(16_667, 200_000, 100_000, 10_000, 10_000);
    assert_eq!(p, Point { x: 100_833, y: 35_833 });
    assert_eq!(ball.direction, Point { x: 1, y: 1 });
    ball.update(p);
    assert_eq!(ball.pos, p);
}

#[test]
fn ball_bounce_flips_one_axis() {
    let mut ball = Ball::new(200_000, 100_000, 60_000, 10_000, 10_000);
    ball.bounce(Collision::Left);
    assert_eq!(ball.direction, Point { x: -1, y: 1 });
    ball.bounce(Collision::Bottom);
    assert_eq!(ball.direction, Point { x: -1, y: -1 });
    ball.bounce(Collision::Miss);
    assert_eq!(ball.direction, Point { x: -1, y: -1 });
    ball.bounce(Collision::Right);
    ball.bounce(Collision::Top);
    assert_eq!(ball.direction, Point { x: 1, y: 1 });
}

#[test]
fn ball_collides_rect_uses_its_centre() {
    let ball = Ball::new(200_000, 100_000, 60_000, 10_000, 10_000);
    // Centre (100_000, 35_000), radius 5_000; a box just right of it.
    let r = Rect { x: 104_000, y: 30_000, w: 10_000, h: 10_000 };
    assert_eq!(ball.collides_rect(r), Collision::Left);
    let far = Rect { x: 106_000, y: 30_000, w: 10_000, h: 10_000 };
    assert_eq!(ball.collides_rect(far), Collision::Miss);
}

#[test]
fn wall_scenarios() {
    assert_eq!(BricksWall::new(100_000, 400_000, 20_000, 40_000).bricks.len(), 6);
    assert_eq!(BricksWall::new(0, 0, 10_000, 15_000).bricks.len(), 0);
}

#[test]
fn wall_positions_are_column_major_and_centred() {
    let wall = BricksWall::new(100_000, 400_000, 20_000, 40_000);
    // One column: 70 units of room, 60 per column, 5 units of offset.
    for (j, brick) in wall.bricks.iter().enumerate() {
        assert_eq!(brick.state, BrickState::Survived);
        assert_eq!(brick.pos, Point { x: 30_000, y: 35_000 + 40_000 * j as i64 });
    }
    let wall = BricksWall::new(200_000, 100_000, 20_000, 40_000);
    // Three columns of one row: room 170, cells of 60, two columns fit.
    assert_eq!(wall.bricks.len(), 2);
    assert_eq!(wall.bricks[0].pos, Point { x: 50_000, y: 35_000 });
    assert_eq!(wall.bricks[1].pos, Point { x: 110_000, y: 35_000 });
}

#[test]
fn wall_layout_is_deterministic() {
    let a = BricksWall::new(444_000, 324_000, 2_000, 16_000);
    let b = BricksWall::new(444_000, 324_000, 2_000, 16_000);
    assert_eq!(a.bricks.len(), b.bricks.len());
    assert_eq!(a.bricks, b.bricks);
}

#[test]
fn wall_narrower_than_one_cell_is_empty() {
    assert_eq!(BricksWall::new(29_999, 400_000, 20_000, 40_000).bricks.len(), 0);
    assert_eq!(BricksWall::new(89_999, 400_000, 20_000, 40_000).bricks.len(), 0);
    assert_eq!(BricksWall::new(90_000, 400_000, 20_000, 40_000).bricks.len(), 6);
}

#[test]
fn wall_counts_and_resets_damage() {
    let mut wall = BricksWall::new(100_000, 400_000, 20_000, 40_000);
    assert_eq!(wall.broken_bricks_count(), 0);
    assert!(!wall.all_bricks_are_broken());
    wall.bricks[0].broke();
    wall.bricks[0].broke();
    wall.bricks[1].broke();
    assert_eq!(wall.broken_bricks_count(), 1);
    for brick in wall.bricks.iter_mut() {
        brick.broke();
        brick.broke();
    }
    assert_eq!(wall.broken_bricks_count(), 6);
    assert!(wall.all_bricks_are_broken());
    let positions: Vec<Point> = wall.bricks.iter().map(|b| b.pos).collect();
    wall.reset_on_game_over();
    assert_eq!(wall.broken_bricks_count(), 0);
    for (brick, pos) in wall.bricks.iter().zip(positions) {
        assert_eq!(brick.state, BrickState::Survived);
        assert_eq!(brick.pos, pos);
    }
    BricksWall::update();
}

#[test]
fn empty_wall_is_all_broken() {
    let wall = BricksWall::new(0, 0, 10_000, 15_000);
    assert!(wall.all_bricks_are_broken());
}

#[test]
fn brick_damage_is_monotone_and_idempotent_when_broken() {
    let mut brick = Brick { state: BrickState::Survived, pos: Point { x: 1, y: 2 } };
    brick.broke();
    assert_eq!(brick.state, BrickState::Touched);
    brick.broke();
    assert_eq!(brick.state, BrickState::Broken);
    for _ in 0..5 {
        brick.broke();
        assert_eq!(brick.state, BrickState::Broken);
    }
    assert_eq!(brick.pos, Point { x: 1, y: 2 });
    brick.reset();
    assert_eq!(brick.state, BrickState::Survived);
    brick.broke();
    brick.reset();
    assert_eq!(brick.state, BrickState::Survived);
    brick.reset();
    assert_eq!(brick.state, BrickState::Survived);
}

#[test]
fn brick_bounding_rect_follows_damage() {
    let mut a = assets();
    a.brick_touched = Size { width: 38_000, height: 18_000 };
    let mut brick = Brick { state: BrickState::Survived, pos: Point { x: 5, y: 7 } };
    assert_eq!(brick.bounding_rect(&a), Rect { x: 5, y: 7, w: 40_000, h: 20_000 });
    brick.broke();
    assert_eq!(brick.bounding_rect(&a), Rect { x: 5, y: 7, w: 38_000, h: 18_000 });
    brick.broke();
    assert_eq!(brick.bounding_rect(&a), Rect { x: 5, y: 7, w: 38_000, h: 18_000 });
}

#[test]
fn skateboard_new_scenario() {
    let s = Skateboard::new(Size { width: 20_000, height: 30_000 }, 100_000, 400_000);
    assert_eq!(s.pos, Point { x: 190_000, y: 70_000 });
    assert_eq!(s.state, SkateboardState::Normal);
}

#[test]
fn skateboard_moves_and_is_clamped() {
    let a = assets();
    let mut s = Skateboard::new(Size { width: 20_000, height: 30_000 }, 100_000, 400_000);
    // A tenth of a second at 600 units per second: 60 units.
    s.update(100_000, 1, 400_000, &a);
    assert_eq!(s.pos, Point { x: 250_000, y: 70_000 });
    s.update(100_000, -1, 400_000, &a);
    assert_eq!(s.pos.x, 190_000);
    s.update(100_000, 0, 400_000, &a);
    assert_eq!(s.pos.x, 190_000);
    s.update(10_000_000, -1, 400_000, &a);
    assert_eq!(s.pos.x, 0);
    s.update(10_000_000, 1, 400_000, &a);
    assert_eq!(s.pos.x, 380_000);
    assert_eq!(s.get_current_sprite_size(&a), Size { width: 20_000, height: 30_000 });
    assert_eq!(s.bounding_rect(&a), Rect { x: 380_000, y: 70_000, w: 20_000, h: 30_000 });
}

#[test]
fn skateboard_stays_on_screen_for_any_inputs() {
    let a = assets();
    let mut s = Skateboard::new(Size { width: 20_000, height: 30_000 }, 100_000, 400_000);
    let mut seed: u64 = 12345;
    for _ in 0..500 {
        seed = seed.wrapping_mul(6364136223846793005).wrapping_add(1442695040888963407);
        let amount = (seed >> 33) as i64 % 3 - 1;
        let micros = ((seed >> 13) % 2_000_000) as u32;
        s.update(micros, amount, 400_000, &a);
        assert!(s.pos.x >= 0 && s.pos.x <= 380_000);
    }
}

#[test]
fn skateboard_rebound_uses_its_footprint() {
    let a = assets();
    let mut s = Skateboard::new(Size { width: 20_000, height: 30_000 }, 100_000, 400_000);
    s.state = SkateboardState::Rebound;
    s.update(10_000_000, 1, 400_000, &a);
    assert_eq!(s.pos.x, 370_000);
}

#[test]
fn reducer_transition_table() {
    assert_eq!(reduce(GameWorkflowState::Play, GameWorkflowIntent::Win), Ok(GameWorkflowState::NextLevel));
    assert_eq!(reduce(GameWorkflowState::Play, GameWorkflowIntent::Lose), Ok(GameWorkflowState::GameOver));
    assert_eq!(reduce(GameWorkflowState::NextLevel, GameWorkflowIntent::StartGame), Ok(GameWorkflowState::Play));
    assert_eq!(reduce(GameWorkflowState::GameOver, GameWorkflowIntent::GoToHomePage), Ok(GameWorkflowState::NextLevel));
    assert_eq!(
        reduce(GameWorkflowState::NextLevel, GameWorkflowIntent::Lose),
        Err(WorkflowError::InvalidTransition { state: GameWorkflowState::NextLevel, intent: GameWorkflowIntent::Lose })
    );
    let states = [GameWorkflowState::NextLevel, GameWorkflowState::Play, GameWorkflowState::GameOver];
    let intents = [GameWorkflowIntent::StartGame, GameWorkflowIntent::Lose, GameWorkflowIntent::Win, GameWorkflowIntent::GoToHomePage];
    let mut allowed = 0;
    for s in states {
        for i in intents {
            if reduce(s, i).is_ok() {
                allowed += 1;
            } else {
                assert_eq!(reduce(s, i), Err(WorkflowError::InvalidTransition { state: s, intent: i }));
            }
        }
    }
    assert_eq!(allowed, 4);
}

#[test]
fn reducer_intent_functions() {
    assert_eq!(reduce_start_game_intent(GameWorkflowState::NextLevel), Ok(GameWorkflowState::Play));
    assert!(reduce_start_game_intent(GameWorkflowState::Play).is_err());
    assert_eq!(reduce_lose_intent(GameWorkflowState::Play), Ok(GameWorkflowState::GameOver));
    assert!(reduce_lose_intent(GameWorkflowState::GameOver).is_err());
    assert_eq!(reduce_win_intent(GameWorkflowState::Play), Ok(GameWorkflowState::NextLevel));
    assert!(reduce_win_intent(GameWorkflowState::NextLevel).is_err());
    assert_eq!(reduce_go_to_home_page_intent(GameWorkflowState::GameOver), Ok(GameWorkflowState::NextLevel));
    assert!(reduce_go_to_home_page_intent(GameWorkflowState::Play).is_err());
}

#[test]
fn rejected_intent_leaves_state_unchanged() {
    let mut state = GameWorkflowState::NextLevel;
    let r = apply_intent(&mut state, GameWorkflowIntent::Lose);
    assert!(r.is_err());
    assert_eq!(state, GameWorkflowState::NextLevel);
    assert_eq!(apply_intent(&mut state, GameWorkflowIntent::StartGame), Ok(()));
    assert_eq!(state, GameWorkflowState::Play);
}

#[test]
fn score_details_start_in_play() {
    let d = ScoreDetails::new(3, 17);
    assert_eq!(d.game_workflow_state, GameWorkflowState::Play);
    assert_eq!(d.score.level, 3);
    assert_eq!(d.score.max_score_result, 17);
    assert_eq!(d.score.score_result, 0);
    assert_eq!(InputState::default().movement, 0);
}

fn game() -> EventHandlerWrapper {
    let screen = ScreenSize { screen_width: 200_000, screen_height: 400_000 };
    EventHandlerWrapper::new(screen, assets(), 2, 5)
}

#[test]
fn game_starts_with_full_wall() {
    let g = game();
    assert_eq!(g.gameplay_state.bricks_wall.bricks.len(), 12);
    assert_eq!(g.gameplay_state.skateboard.pos, Point { x: 90_000, y: 370_000 });
    assert_eq!(g.gameplay_state.ball.pos, Point { x: 95_000, y: 360_000 });
    assert_eq!(g.game_settings_state.score_details.game_workflow_state, GameWorkflowState::Play);
}

#[test]
fn game_ball_falling_is_a_loss() {
    let mut g = game();
    g.gameplay_state.ball.pos = Point { x: 95_000, y: 385_000 };
    g.gameplay_state.bricks_wall.bricks[0].broke();
    g.gameplay_state.bricks_wall.bricks[0].broke();
    g.game_settings_state.score_details.score.score_result = 9;
    let report = g.update(16_667, false);
    let lost = report.lost.expect("the ball fell");
    assert!(report.won.is_none());
    assert_eq!(lost.record.level, 2);
    assert_eq!(lost.record.max_score, 9);
    assert_eq!(lost.transition, Ok(()));
    assert_eq!(g.game_settings_state.score_details.game_workflow_state, GameWorkflowState::GameOver);
    assert_eq!(g.game_settings_state.score_details.score.score_result, 0);
    assert_eq!(g.game_settings_state.score_details.score.max_score_result, 9);
    assert_eq!(g.gameplay_state.bricks_wall.broken_bricks_count(), 0);
    assert_eq!(g.gameplay_state.ball.pos, Point { x: 95_000, y: 360_000 });
}

#[test]
fn game_debug_keeps_the_ball() {
    let mut g = game();
    g.gameplay_state.ball.pos = Point { x: 95_000, y: 385_000 };
    let report = g.update(16_667, true);
    assert!(report.lost.is_none());
    assert_eq!(g.gameplay_state.ball.pos.y, 390_833);
    assert_eq!(g.gameplay_state.ball.direction.y, -1);
    assert_eq!(g.game_settings_state.score_details.game_workflow_state, GameWorkflowState::Play);
}

#[test]
fn game_breaking_the_last_brick_is_a_win() {
    let mut g = game();
    let n = g.gameplay_state.bricks_wall.bricks.len();
    for k in 0..n {
        g.gameplay_state.bricks_wall.bricks[k].broke();
        g.gameplay_state.bricks_wall.bricks[k].broke();
    }
    g.gameplay_state.bricks_wall.bricks[0].reset();
    g.gameplay_state.bricks_wall.bricks[0].broke();
    // Put the ball right under the touched brick, heading up into it.
    let target = g.gameplay_state.bricks_wall.bricks[0].pos;
    g.gameplay_state.ball.pos = Point { x: target.x + 10_000, y: target.y + 22_000 };
    g.gameplay_state.ball.direction = Point { x: 1, y: -1 };
    let report = g.update(16_667, false);
    let won = report.won.expect("the wall is down");
    assert!(report.lost.is_none());
    assert_eq!(won.record.level, 3);
    assert_eq!(won.record.max_score, 12);
    assert_eq!(won.transition, Ok(()));
    assert_eq!(g.game_settings_state.score_details.score.level, 3);
    assert_eq!(g.game_settings_state.score_details.score.score_result, 0);
    assert_eq!(g.game_settings_state.score_details.game_workflow_state, GameWorkflowState::NextLevel);
    assert_eq!(g.gameplay_state.bricks_wall.broken_bricks_count(), 0);
}

#[test]
fn game_ball_hitting_a_brick_damages_it_and_bounces() {
    let mut g = game();
    let target = g.gameplay_state.bricks_wall.bricks[1].pos;
    g.gameplay_state.ball.pos = Point { x: target.x + 10_000, y: target.y + 22_000 };
    g.gameplay_state.ball.direction = Point { x: 1, y: -1 };
    let report = g.update(16_667, false);
    assert!(report.lost.is_none() && report.won.is_none());
    assert_eq!(g.gameplay_state.bricks_wall.bricks[1].state, BrickState::Touched);
    assert_eq!(g.gameplay_state.ball.direction, Point { x: 1, y: 1 });
    assert_eq!(g.game_settings_state.score_details.score.score_result, 0);
}

#[test]
fn game_keys_steer_and_leave_dialogs() {
    let mut g = game();
    assert_eq!(g.key_down_event(KeyCode::Right), Ok(()));
    assert_eq!(g.game_settings_state.input.movement, 1);
    // Keep the ball well above the bottom during the long tick.
    g.gameplay_state.ball.pos = Point { x: 20_000, y: 100_000 };
    let report = g.update(100_000, false);
    assert!(report.lost.is_none());
    assert_eq!(g.gameplay_state.skateboard.pos.x, 150_000);
    g.key_up_event(KeyCode::Right);
    assert_eq!(g.game_settings_state.input.movement, 0);
    assert_eq!(g.key_down_event(KeyCode::Left), Ok(()));
    assert_eq!(g.game_settings_state.input.movement, -1);
    g.key_up_event(KeyCode::Space);
    assert_eq!(g.game_settings_state.input.movement, -1);

    let end = g.on_game_over();
    assert_eq!(end.transition, Ok(()));
    assert_eq!(g.game_settings_state.score_details.game_workflow_state, GameWorkflowState::GameOver);
    let before = g.gameplay_state.ball;
    let report = g.update(16_667, false);
    assert!(report.lost.is_none() && report.won.is_none());
    assert_eq!(g.gameplay_state.ball, before);
    assert_eq!(g.key_down_event(KeyCode::Left), Ok(()));
    assert_eq!(g.game_settings_state.score_details.game_workflow_state, GameWorkflowState::GameOver);
    assert_eq!(g.key_down_event(KeyCode::Space), Ok(()));
    assert_eq!(g.game_settings_state.score_details.game_workflow_state, GameWorkflowState::NextLevel);
    assert_eq!(g.key_down_event(KeyCode::Space), Ok(()));
    assert_eq!(g.game_settings_state.score_details.game_workflow_state, GameWorkflowState::Play);
}

#[test]
fn game_dialog_keys_report_rejected_transitions() {
    let mut g = game();
    let r = g.key_down_event_game_over_dialog(KeyCode::Space);
    assert_eq!(
        r,
        Err(WorkflowError::InvalidTransition {
            state: GameWorkflowState::Play,
            intent: GameWorkflowIntent::GoToHomePage
        })
    );
    assert_eq!(g.game_settings_state.score_details.game_workflow_state, GameWorkflowState::Play);
    assert!(g.key_down_event_next_level_dialog(KeyCode::Space).is_err());
    assert_eq!(g.key_down_event_next_level_dialog(KeyCode::Other), Ok(()));
}

#[test]
fn game_win_outside_play_is_rejected_but_recorded() {
    let mut g = game();
    g.on_game_over();
    let end = g.on_win();
    assert_eq!(end.record.level, 3);
    assert_eq!(
        end.transition,
        Err(WorkflowError::InvalidTransition {
            state: GameWorkflowState::GameOver,
            intent: GameWorkflowIntent::Win
        })
    );
    assert_eq!(g.game_settings_state.score_details.game_workflow_state, GameWorkflowState::GameOver);
}

#[test]
fn largest_sizes_do_not_overflow() {
    let m = u32::MAX;
    assert_eq!(BricksWall::new(m, m, m, m).bricks.len(), 0);
    // A column exactly as wide as the usable width: one brick, no offset.
    let wall = BricksWall::new(m, 40_000, 0, m - 50_000);
    assert_eq!(wall.bricks.len(), 1);
    assert_eq!(wall.bricks[0].pos, Point { x: 25_000, y: 25_000 });
    assert_eq!(BricksWall::new(m, 40_000, 0, m - 49_999).bricks.len(), 0);
    let ball = Ball::new(m, 0, m, m, m);
    assert_eq!(ball.pos, Point { x: 0, y: -2 * m as i64 });
    assert_eq!(ball.radius, (m / 2) as i64);
    let s = Skateboard::new(Size { width: m, height: m }, 0, 0);
    assert_eq!(s.pos, Point { x: -((m / 2) as i64), y: -(m as i64) });
}

#[test]
fn game_far_ball_is_moved_not_lost() {
    let limit: i64 = 0x4000_0000_0000_0000;
    let mut g = game();
    g.gameplay_state.ball.pos = Point { x: limit - 10_000_000, y: 100_000 };
    assert!(g.next_tick_in_range(16_667));
    let report = g.update(16_667, false);
    assert!(report.lost.is_none());
    assert_eq!(g.gameplay_state.ball.pos, Point { x: limit - 10_000_000 + 5_833, y: 105_833 });
    assert_eq!(g.gameplay_state.ball.direction.x, -1);
    assert_eq!(g.game_settings_state.score_details.game_workflow_state, GameWorkflowState::Play);
}

#[test]
fn game_tick_beyond_the_position_limit_is_reported() {
    let limit: i64 = 0x4000_0000_0000_0000;
    let mut g = game();
    g.gameplay_state.ball.pos = Point { x: limit, y: 100_000 };
    assert!(!g.next_tick_in_range(16_667));
    assert!(g.next_tick_in_range(0));
    g.gameplay_state.ball.direction = Point { x: -1, y: 1 };
    assert!(g.next_tick_in_range(16_667));
    g.gameplay_state.ball.pos = Point { x: 0, y: -limit };
    g.gameplay_state.ball.direction = Point { x: 1, y: -1 };
    assert!(!g.next_tick_in_range(16_667));
}

#[test]
fn skateboard_clamps_extreme_positions_and_inputs() {
    let a = assets();
    let mut s = Skateboard::new(Size { width: 20_000, height: 30_000 }, 100_000, 400_000);
    s.pos.x = i64::MAX;
    s.update(u32::MAX, i64::MAX, 400_000, &a);
    assert_eq!(s.pos.x, 380_000);
    s.pos.x = i64::MIN;
    s.update(u32::MAX, i64::MIN, 400_000, &a);
    assert_eq!(s.pos.x, 0);
    s.update(100_000, 2, 400_000, &a);
    assert_eq!(s.pos.x, 120_000);
}
