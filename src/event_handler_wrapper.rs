use vstd::prelude::*;

use crate::assets::Assets;
use crate::dialogs_handler::DialogsHandler;
use crate::game_settings_entities::{GameSettingsState, InputState, Score, ScoreDetails, ScreenSize};
use crate::game_workflow_state_reducer::{
    applied,
    apply_intent,
    transition,
    GameWorkflowIntent,
    GameWorkflowState,
    WorkflowError,
};
use crate::gameplay_entities::{
    bounced,
    brick_footprint,
    broken_count,
    damaged,
    footprint_rect,
    fresh_ball,
    clamped,
    fresh_skateboard,
    in_range,
    reflected,
    travel,
    skateboard_footprint,
    wall_layout,
    Ball,
    Brick,
    BrickState,
    BricksWall,
    GameplayState,
    Skateboard,
    POSITION_LIMIT,
};
use crate::math::{circle_rect_collision, Collision, Point, Rect};

verus! {

/// The keys that the game reacts to; any other key is `Other`.
#[derive(Debug, Clone, Copy, PartialEq, Eq, Structural)]
pub enum KeyCode {
    Left,
    Right,
    Space,
    Other,
}

/// What is kept between runs of the game: the level reached and the best
/// result.
#[derive(Debug, Clone, Copy, PartialEq, Eq, Structural)]
pub struct ScoreRecord {
    pub level: i32,
    pub max_score: usize,
}

/// The end of an attempt: the record to keep, and whether the workflow
/// accepted the transition that the end asked for.
#[derive(Debug, Clone, Copy)]
pub struct LevelEnd {
    pub record: ScoreRecord,
    pub transition: Result<(), WorkflowError>,
}

/// The ends of attempts that one tick brought about: a loss when the ball
/// fell, and a win when no brick was left standing.
#[derive(Debug, Clone, Copy)]
pub struct TickReport {
    pub lost: Option<LevelEnd>,
    pub won: Option<LevelEnd>,
}

/// The whole game as a value: settings, paddle, bricks and ball.
pub struct GameView {
    pub settings: GameSettingsState,
    pub skateboard: Skateboard,
    pub bricks: Seq<Brick>,
    pub ball: Ball,
}

/// The edge of `rect` that `ball` touches.
pub open spec fn ball_hit(ball: Ball, rect: Rect) -> Collision {
    circle_rect_collision(
        ball.pos.x + ball.radius,
        ball.pos.y + ball.radius,
        ball.radius as int,
        rect.x as int,
        rect.y as int,
        rect.w as int,
        rect.h as int,
    )
}

/// The bounding box of `brick`.
pub open spec fn brick_rect(brick: Brick, assets: Assets) -> Rect {
    footprint_rect(brick.pos, brick_footprint(brick.state, assets))
}

/// The edge of `brick` that `ball` touches; a broken brick is never hit.
pub open spec fn brick_hit(ball: Ball, brick: Brick, assets: Assets) -> Collision {
    if brick.state == BrickState::Broken {
        Collision::Miss
    } else {
        ball_hit(ball, brick_rect(brick, assets))
    }
}

/// `ball` after bouncing off the edge `collision`.
pub open spec fn bounce_off(ball: Ball, collision: Collision) -> Ball {
    Ball { direction: bounced(ball.direction, collision), ..ball }
}

/// The ball after meeting each brick of `bricks` in turn.
pub open spec fn ball_after_bricks(ball: Ball, bricks: Seq<Brick>, assets: Assets) -> Ball
    decreases bricks.len(),
{
    if bricks.len() == 0 {
        ball
    } else {
        let before = ball_after_bricks(ball, bricks.drop_last(), assets);
        bounce_off(before, brick_hit(before, bricks.last(), assets))
    }
}

/// `brick` after `ball` met it: one hit more where the ball touched it.
pub open spec fn brick_after_hit(ball: Ball, brick: Brick, assets: Assets) -> Brick {
    if brick_hit(ball, brick, assets) == Collision::Miss {
        brick
    } else {
        Brick { state: damaged(brick.state), ..brick }
    }
}

/// The bricks after the ball, starting as `ball`, met each of them in turn.
pub open spec fn bricks_after(ball: Ball, bricks: Seq<Brick>, assets: Assets) -> Seq<Brick> {
    Seq::new(
        bricks.len(),
        |k: int| brick_after_hit(ball_after_bricks(ball, bricks.take(k), assets), bricks[k], assets),
    )
}

impl GameView {
    /// A game whose ball and paddle can take any tick without overflow and
    /// whose input axis is -1, 0 or 1.
    pub open spec fn wf(self) -> bool {
        &&& self.ball.wf()
    }

    pub open spec fn score(self) -> Score {
        self.settings.score_details.score
    }

    pub open spec fn workflow(self) -> GameWorkflowState {
        self.settings.score_details.game_workflow_state
    }

    /// The best result once the current one has been counted.
    pub open spec fn best_score(self) -> usize {
        if self.score().score_result > self.score().max_score_result {
            self.score().score_result
        } else {
            self.score().max_score_result
        }
    }

    /// A new attempt at `level`: the best result kept, the current one
    /// cleared, every brick repaired in place, and a fresh ball and paddle.
    pub open spec fn reset(self, level: i32) -> GameView {
        let screen = self.settings.screen_size;
        let assets = self.settings.assets;
        GameView {
            settings: GameSettingsState {
                score_details: ScoreDetails {
                    score: Score { score_result: 0, level, max_score_result: self.best_score() },
                    ..self.settings.score_details
                },
                ..self.settings
            },
            skateboard: fresh_skateboard(
                assets.skateboard_normal,
                screen.screen_height,
                screen.screen_width,
            ),
            bricks: Seq::new(
                self.bricks.len(),
                |k: int| Brick { state: BrickState::Survived, pos: self.bricks[k].pos },
            ),
            ball: fresh_ball(
                screen.screen_width,
                screen.screen_height,
                assets.skateboard_normal.height,
                assets.ball_flying.width,
                assets.ball_flying.height,
            ),
        }
    }

    /// The game with its workflow moved by `intent` where the table allows.
    pub open spec fn with_intent(self, intent: GameWorkflowIntent) -> GameView {
        GameView {
            settings: GameSettingsState {
                score_details: ScoreDetails {
                    game_workflow_state: applied(self.workflow(), intent),
                    ..self.settings.score_details
                },
                ..self.settings
            },
            ..self
        }
    }

    /// The end of the attempt, which goes on at `level`, asking `intent` of
    /// the workflow.
    pub open spec fn ended(self, level: i32, intent: GameWorkflowIntent) -> GameView {
        self.reset(level).with_intent(intent)
    }

    /// What the end of the attempt at `level` with `intent` reports.
    pub open spec fn end_report(self, level: i32, intent: GameWorkflowIntent) -> LevelEnd {
        LevelEnd {
            record: ScoreRecord { level, max_score: self.best_score() },
            transition: self.intent_result(intent),
        }
    }

    /// What asking `intent` of the workflow returns.
    pub open spec fn intent_result(self, intent: GameWorkflowIntent) -> Result<(), WorkflowError> {
        match transition(self.workflow(), intent) {
            Some(_) => Ok(()),
            None => Err(WorkflowError::InvalidTransition { state: self.workflow(), intent }),
        }
    }

    /// The game after a loss: the level is played again.
    pub open spec fn lost(self) -> GameView {
        self.ended(self.score().level, GameWorkflowIntent::Lose)
    }

    /// The game after a win: on to the next level.
    pub open spec fn won(self) -> GameView {
        self.ended((self.score().level + 1) as i32, GameWorkflowIntent::Win)
    }

    /// The ball after bouncing off the paddle and then off each brick, and
    /// the bricks after the ball met them.
    pub open spec fn collided(self) -> GameView {
        let assets = self.settings.assets;
        let paddle_rect = footprint_rect(
            self.skateboard.pos,
            skateboard_footprint(self.skateboard.state, assets),
        );
        let ball = bounce_off(self.ball, ball_hit(self.ball, paddle_rect));
        GameView {
            ball: ball_after_bricks(ball, self.bricks, assets),
            bricks: bricks_after(ball, self.bricks, assets),
            ..self
        }
    }

    /// The game after the paddle moved for `micros` microseconds along the
    /// input axis and was clamped to the screen.
    pub open spec fn paddle_moved(self, micros: u32) -> GameView {
        let paddle = self.skateboard;
        let width = skateboard_footprint(paddle.state, self.settings.assets).width;
        let x = clamped(
            paddle.pos.x + travel(Skateboard::SPEED as int, micros as int)
                * self.settings.input.movement,
            0,
            self.settings.screen_size.screen_width - width,
        );
        GameView {
            skateboard: Skateboard { pos: Point { x: x as i64, ..paddle.pos }, ..paddle },
            ..self
        }
    }

    /// Where the ball heads in `micros` microseconds.
    pub open spec fn ball_target(self, micros: u32) -> Point {
        let step = travel(Ball::SPEED as int, micros as int);
        Point {
            x: (self.ball.pos.x + step * self.ball.direction.x) as i64,
            y: (self.ball.pos.y + step * self.ball.direction.y) as i64,
        }
    }

    /// The game with the ball's direction flipped on each axis on which its
    /// target leaves the screen.
    pub open spec fn ball_turned(self, micros: u32) -> GameView {
        let target = self.ball_target(micros);
        let size = self.settings.assets.ball_flying;
        let screen = self.settings.screen_size;
        let d = self.ball.direction;
        GameView {
            ball: Ball {
                direction: Point {
                    x: reflected(d.x, target.x as int, size.width as int, screen.screen_width as int),
                    y: reflected(
                        d.y,
                        target.y as int,
                        size.height as int,
                        screen.screen_height as int,
                    ),
                },
                ..self.ball
            },
            ..self
        }
    }

    /// Whether the ball is lost on its way to its target: its bottom edge
    /// passes the screen's bottom, unless `debug` keeps it.
    pub open spec fn ball_falls(self, micros: u32, debug: bool) -> bool {
        let target = self.ball_target(micros);
        target.y + self.settings.assets.ball_flying.height > self.settings.screen_size.screen_height
            && !debug
    }

    /// Whether the ball's target after `micros` microseconds stays within
    /// `POSITION_LIMIT` on both axes, so that the game can take the tick.
    pub open spec fn ball_step_in_range(self, micros: u32) -> bool {
        let target = self.ball_target(micros);
        in_range(target.x as int) && in_range(target.y as int)
    }

    /// The game after the ball's move: a loss where it falls, else the ball
    /// at its target.
    pub open spec fn ball_moved(self, micros: u32, debug: bool) -> GameView {
        let turned = self.ball_turned(micros);
        if self.ball_falls(micros, debug) {
            turned.lost()
        } else {
            GameView { ball: Ball { pos: self.ball_target(micros), ..turned.ball }, ..turned }
        }
    }

    /// What the ball's move reports: the end of the attempt where it fell.
    pub open spec fn ball_report(self, micros: u32, debug: bool) -> Option<LevelEnd> {
        if self.ball_falls(micros, debug) {
            Some(self.end_report(self.score().level, GameWorkflowIntent::Lose))
        } else {
            None
        }
    }

    /// The game with the current result set to the number of broken bricks.
    pub open spec fn scored(self) -> GameView {
        GameView {
            settings: GameSettingsState {
                score_details: ScoreDetails {
                    score: Score {
                        score_result: broken_count(self.bricks) as usize,
                        ..self.score()
                    },
                    ..self.settings.score_details
                },
                ..self.settings
            },
            ..self
        }
    }

    /// Whether no brick is left standing; true of an empty wall.
    pub open spec fn all_broken(self) -> bool {
        broken_count(self.bricks) == self.bricks.len()
    }

    /// The game after the paddle, the ball, the collisions and the score of
    /// one tick.
    pub open spec fn played(self, micros: u32, debug: bool) -> GameView {
        self.paddle_moved(micros).ball_moved(micros, debug).collided().scored()
    }

    /// The game after one tick of play: a win where no brick is left.
    pub open spec fn tick(self, micros: u32, debug: bool) -> GameView {
        let played = self.played(micros, debug);
        if played.all_broken() {
            played.won()
        } else {
            played
        }
    }

    /// What one tick of play reports.
    pub open spec fn tick_report(self, micros: u32, debug: bool) -> TickReport {
        let played = self.played(micros, debug);
        TickReport {
            lost: self.paddle_moved(micros).ball_report(micros, debug),
            won: if played.all_broken() {
                Some(
                    played.end_report((played.score().level + 1) as i32, GameWorkflowIntent::Win),
                )
            } else {
                None
            },
        }
    }

    /// The game with the input axis set to `movement`.
    pub open spec fn with_movement(self, movement: i64) -> GameView {
        GameView {
            settings: GameSettingsState { input: InputState { movement }, ..self.settings },
            ..self
        }
    }

    /// The game after `key` was pressed.
    pub open spec fn key_down(self, key: KeyCode) -> GameView {
        match self.workflow() {
            GameWorkflowState::NextLevel => if key == KeyCode::Space {
                self.with_intent(GameWorkflowIntent::StartGame)
            } else {
                self
            },
            GameWorkflowState::GameOver => if key == KeyCode::Space {
                self.with_intent(GameWorkflowIntent::GoToHomePage)
            } else {
                self
            },
            GameWorkflowState::Play => match key {
                KeyCode::Left => self.with_movement(-1i64),
                KeyCode::Right => self.with_movement(1),
                _ => self,
            },
        }
    }

    /// What pressing `key` returns: the workflow's answer where the key asked
    /// it for a transition.
    pub open spec fn key_down_result(self, key: KeyCode) -> Result<(), WorkflowError> {
        match self.workflow() {
            GameWorkflowState::NextLevel => if key == KeyCode::Space {
                self.intent_result(GameWorkflowIntent::StartGame)
            } else {
                Ok(())
            },
            GameWorkflowState::GameOver => if key == KeyCode::Space {
                self.intent_result(GameWorkflowIntent::GoToHomePage)
            } else {
                Ok(())
            },
            GameWorkflowState::Play => Ok(()),
        }
    }

    /// The game after `key` was released: the paddle stops when an arrow
    /// key is released during play.
    pub open spec fn key_up(self, key: KeyCode) -> GameView {
        if self.workflow() == GameWorkflowState::Play && (key == KeyCode::Left || key
            == KeyCode::Right) {
            self.with_movement(0)
        } else {
            self
        }
    }
}

/// The game loop's state: settings, the simulation of the current attempt,
/// and the dialogs.
pub struct EventHandlerWrapper {
    pub game_settings_state: GameSettingsState,
    pub gameplay_state: GameplayState,
    pub dialogs_handler: DialogsHandler,
}

impl View for EventHandlerWrapper {
    type V = GameView;

    open spec fn view(&self) -> GameView {
        GameView {
            settings: self.game_settings_state,
            skateboard: self.gameplay_state.skateboard,
            bricks: self.gameplay_state.bricks_wall.bricks@,
            ball: self.gameplay_state.ball,
        }
    }
}

impl EventHandlerWrapper {
    /// A game on a screen of `screen_size` with sprites of `assets`, at
    /// `level` and with `max_score` as the best result so far: the full
    /// wall, the paddle and the ball in place, nothing held down.
    pub fn new(screen_size: ScreenSize, assets: Assets, level: i32, max_score: usize) -> (r: Self)
        ensures
            r@ == (GameView {
                settings: GameSettingsState {
                    assets,
                    input: InputState { movement: 0 },
                    screen_size,
                    score_details: ScoreDetails {
                        game_workflow_state: GameWorkflowState::Play,
                        score: Score { score_result: 0, level, max_score_result: max_score },
                    },
                },
                skateboard: fresh_skateboard(
                    assets.skateboard_normal,
                    screen_size.screen_height,
                    screen_size.screen_width,
                ),
                bricks: wall_layout(
                    screen_size.screen_width as int,
                    screen_size.screen_height as int,
                    assets.brick_survived.height as int,
                    assets.brick_survived.width as int,
                ),
                ball: fresh_ball(
                    screen_size.screen_width,
                    screen_size.screen_height,
                    assets.skateboard_normal.height,
                    assets.ball_flying.width,
                    assets.ball_flying.height,
                ),
            }),
            r@.wf(),
    {
        let screen_width = screen_size.screen_width;
        let screen_height = screen_size.screen_height;
        let skateboard_size = assets.skateboard_normal;
        let game_settings_state = GameSettingsState {
            assets,
            input: InputState { movement: 0 },
            screen_size,
            score_details: ScoreDetails::new(level, max_score),
        };
        let gameplay_state = GameplayState {
            skateboard: Skateboard::new(skateboard_size, screen_height, screen_width),
            bricks_wall: BricksWall::new(
                screen_width,
                screen_height,
                assets.brick_survived.height,
                assets.brick_survived.width,
            ),
            ball: Ball::new(
                screen_width,
                screen_height,
                skateboard_size.height,
                assets.ball_flying.width,
                assets.ball_flying.height,
            ),
        };
        EventHandlerWrapper {
            game_settings_state,
            gameplay_state,
            dialogs_handler: DialogsHandler::new(),
        }
    }

    /// Starts a new attempt at `level`.
    pub fn reset(&mut self, level: i32)
        ensures
            final(self)@ == old(self)@.reset(level),
            final(self)@.wf(),
    {
        let ghost before = self@;
        let score = self.game_settings_state.score_details.score;
        if score.score_result > score.max_score_result {
            self.game_settings_state.score_details.score.max_score_result = score.score_result;
        }
        self.game_settings_state.score_details.score.score_result = 0;
        self.game_settings_state.score_details.score.level = level;

        self.gameplay_state.bricks_wall.reset_on_game_over();

        let screen_width = self.game_settings_state.screen_size.screen_width;
        let screen_height = self.game_settings_state.screen_size.screen_height;
        let assets = self.game_settings_state.assets;
        self.gameplay_state.ball = Ball::new(
            screen_width,
            screen_height,
            assets.skateboard_normal.height,
            assets.ball_flying.width,
            assets.ball_flying.height,
        );
        self.gameplay_state.skateboard = Skateboard::new(
            assets.skateboard_normal,
            screen_height,
            screen_width,
        );
        proof {
            assert(self@.bricks =~= before.reset(level).bricks);
        }
    }

    /// Ends the attempt with a loss: a new attempt at the same level, and
    /// the workflow asked to lose.
    pub fn on_game_over(&mut self) -> (r: LevelEnd)
        ensures
            final(self)@ == old(self)@.lost(),
            r == old(self)@.end_report(old(self)@.score().level, GameWorkflowIntent::Lose),
            final(self)@.wf(),
    {
        let level = self.game_settings_state.score_details.score.level;
        self.reset(level);
        let max_score = self.game_settings_state.score_details.score.max_score_result;
        let transition = apply_intent(
            &mut self.game_settings_state.score_details.game_workflow_state,
            GameWorkflowIntent::Lose,
        );
        LevelEnd { record: ScoreRecord { level, max_score }, transition }
    }

    /// Ends the attempt with a win: a new attempt at the next level, and the
    /// workflow asked to win.
    pub fn on_win(&mut self) -> (r: LevelEnd)
        requires
            old(self)@.score().level < i32::MAX,
        ensures
            final(self)@ == old(self)@.won(),
            r == old(self)@.end_report(
                (old(self)@.score().level + 1) as i32,
                GameWorkflowIntent::Win,
            ),
            final(self)@.wf(),
    {
        let level = self.game_settings_state.score_details.score.level + 1;
        self.reset(level);
        let max_score = self.game_settings_state.score_details.score.max_score_result;
        let transition = apply_intent(
            &mut self.game_settings_state.score_details.game_workflow_state,
            GameWorkflowIntent::Win,
        );
        LevelEnd { record: ScoreRecord { level, max_score }, transition }
    }

    /// Bounces the ball off the paddle, then off each brick that is not
    /// broken, in the wall's order; each brick hit takes one hit more.
    pub fn handle_collisions(&mut self)
        requires
            old(self)@.wf(),
        ensures
            final(self)@ == old(self)@.collided(),
            final(self)@.wf(),
    {
        let ghost before = self@;
        let assets = self.game_settings_state.assets;
        let skateboard_rect = self.gameplay_state.skateboard.bounding_rect(&assets);
        let ball_skateboard_collision = self.gameplay_state.ball.collides_rect(skateboard_rect);
        self.gameplay_state.ball.bounce(ball_skateboard_collision);

        let ghost ball0 = self.gameplay_state.ball;
        let ghost bricks0 = self.gameplay_state.bricks_wall.bricks@;
        let mut i: usize = 0;
        while i < self.gameplay_state.bricks_wall.bricks.len()
            invariant
                i <= bricks0.len(),
                self.gameplay_state.bricks_wall.bricks@.len() == bricks0.len(),
                self.game_settings_state == before.settings,
                self.gameplay_state.skateboard == before.skateboard,
                assets == before.settings.assets,
                self.gameplay_state.ball == ball_after_bricks(
                    ball0,
                    bricks0.take(i as int),
                    assets,
                ),
                self.gameplay_state.ball.wf(),
                forall|k: int|
                    0 <= k < i ==> #[trigger] self.gameplay_state.bricks_wall.bricks@[k]
                        == brick_after_hit(
                        ball_after_bricks(ball0, bricks0.take(k), assets),
                        bricks0[k],
                        assets,
                    ),
                forall|k: int|
                    i <= k < bricks0.len() ==> #[trigger] self.gameplay_state.bricks_wall.bricks@[k]
                        == bricks0[k],
            decreases bricks0.len() - i,
        {
            let mut brick = self.gameplay_state.bricks_wall.bricks[i];
            proof {
                assert(bricks0.take(i + 1).drop_last() =~= bricks0.take(i as int));
            }
            if brick.state != BrickState::Broken {
                let brick_rect = brick.bounding_rect(&assets);
                let ball_brick_collision = self.gameplay_state.ball.collides_rect(brick_rect);
                match ball_brick_collision {
                    Collision::Miss => {},
                    _ => {
                        brick.broke();
                        self.gameplay_state.bricks_wall.bricks.set(i, brick);
                        self.gameplay_state.ball.bounce(ball_brick_collision);
                    },
                }
            }
            i = i + 1;
        }
        proof {
            assert(bricks0.take(bricks0.len() as int) =~= bricks0);
            assert(self@.bricks =~= bricks_after(ball0, bricks0, assets));
        }
    }

    /// Whether the ball can take a move of `micros` microseconds: its target
    /// stays within `POSITION_LIMIT` on both axes. A tick of play needs it.
    pub fn next_tick_in_range(&self, micros: u32) -> (r: bool)
        requires
            self@.wf(),
        ensures
            r == self@.ball_step_in_range(micros),
    {
        let ball = &self.gameplay_state.ball;
        let step: i64 = (Ball::SPEED * micros as u64 / 1_000_000) as i64;
        assert(step <= 2_000_000_000) by (nonlinear_arith)
            requires
                step == 350_000 * (micros as int) / 1_000_000,
                micros <= u32::MAX,
        ;
        assert(ball.wf());
        assert(step * ball.direction.x == step || step * ball.direction.x == -step) by (
        nonlinear_arith)
            requires
                ball.direction.x == 1 || ball.direction.x == -1,
        ;
        assert(step * ball.direction.y == step || step * ball.direction.y == -step) by (
        nonlinear_arith)
            requires
                ball.direction.y == 1 || ball.direction.y == -1,
        ;
        let x = ball.pos.x + step * ball.direction.x;
        let y = ball.pos.y + step * ball.direction.y;
        -POSITION_LIMIT <= x && x <= POSITION_LIMIT && -POSITION_LIMIT <= y && y <= POSITION_LIMIT
    }

    /// Moves the ball for `micros` microseconds; a ball that falls past the
    /// bottom of the screen (unless `debug` keeps it) ends the attempt with
    /// a loss.
    pub fn update_ball(&mut self, micros: u32, debug: bool) -> (r: Option<LevelEnd>)
        requires
            old(self)@.wf(),
            old(self)@.ball_step_in_range(micros),
        ensures
            final(self)@ == old(self)@.ball_moved(micros, debug),
            r == old(self)@.ball_report(micros, debug),
            final(self)@.wf(),
    {
        let screen_width = self.game_settings_state.screen_size.screen_width;
        let screen_height = self.game_settings_state.screen_size.screen_height;
        let ball_size = self.game_settings_state.assets.ball_flying;
        let new_ball_pos = self.gameplay_state.ball.calculate_new_position(
            micros,
            screen_width,
            screen_height,
            ball_size.width,
            ball_size.height,
        );
        if new_ball_pos.y + ball_size.height as i64 > screen_height as i64 && !debug {
            Some(self.on_game_over())
        } else {
            self.gameplay_state.ball.update(new_ball_pos);
            None
        }
    }

    /// One tick of play: the paddle, the ball, the collisions, the score,
    /// and a win where no brick is left.
    pub fn update_play_game(&mut self, micros: u32, debug: bool) -> (r: TickReport)
        requires
            old(self)@.wf(),
            old(self)@.ball_step_in_range(micros),
            old(self)@.score().level < i32::MAX,
        ensures
            final(self)@ == old(self)@.tick(micros, debug),
            r == old(self)@.tick_report(micros, debug),
            final(self)@.wf(),
    {
        let assets = self.game_settings_state.assets;
        self.gameplay_state.skateboard.update(
            micros,
            self.game_settings_state.input.movement,
            self.game_settings_state.screen_size.screen_width,
            &assets,
        );
        assert(self@ == old(self)@.paddle_moved(micros));
        let lost = self.update_ball(micros, debug);
        self.handle_collisions();
        self.game_settings_state.score_details.score.score_result =
            self.gameplay_state.bricks_wall.broken_bricks_count();
        let won = if self.gameplay_state.bricks_wall.all_bricks_are_broken() {
            Some(self.on_win())
        } else {
            None
        };
        TickReport { lost, won }
    }

    /// Nothing moves while the home page is shown.
    pub fn update_next_level_dialog(&mut self)
        ensures
            final(self)@ == old(self)@,
    {
    }

    /// Nothing moves while the game-over dialog is shown.
    pub fn update_game_over_dialog(&mut self)
        ensures
            final(self)@ == old(self)@,
    {
    }

    /// One tick of the game: play where a level is being played, nothing
    /// on the dialogs.
    pub fn update(&mut self, micros: u32, debug: bool) -> (r: TickReport)
        requires
            old(self)@.wf(),
            old(self)@.workflow() == GameWorkflowState::Play ==> old(self)@.ball_step_in_range(
                micros,
            ),
            old(self)@.score().level < i32::MAX,
        ensures
            old(self)@.workflow() == GameWorkflowState::Play ==> final(self)@ == old(
                self)@.tick(micros, debug) && r == old(self)@.tick_report(micros, debug),
            old(self)@.workflow() != GameWorkflowState::Play ==> final(self)@ == old(self)@
                && r == (TickReport { lost: None, won: None }),
            final(self)@.wf(),
    {
        match self.game_settings_state.score_details.game_workflow_state {
            GameWorkflowState::NextLevel => {
                self.update_next_level_dialog();
                TickReport { lost: None, won: None }
            },
            GameWorkflowState::GameOver => {
                self.update_game_over_dialog();
                TickReport { lost: None, won: None }
            },
            GameWorkflowState::Play => self.update_play_game(micros, debug),
        }
    }

    /// Reacts to a key press: Space leaves a dialog, the arrows steer the
    /// paddle during play.
    pub fn key_down_event(&mut self, keycode: KeyCode) -> (r: Result<(), WorkflowError>)
        requires
            old(self)@.wf(),
        ensures
            final(self)@ == old(self)@.key_down(keycode),
            r == old(self)@.key_down_result(keycode),
            final(self)@.wf(),
    {
        match self.game_settings_state.score_details.game_workflow_state {
            GameWorkflowState::NextLevel => self.key_down_event_next_level_dialog(keycode),
            GameWorkflowState::GameOver => self.key_down_event_game_over_dialog(keycode),
            GameWorkflowState::Play => {
                match keycode {
                    KeyCode::Left => self.game_settings_state.input.movement = -1,
                    KeyCode::Right => self.game_settings_state.input.movement = 1,
                    _ => {},
                }
                Ok(())
            },
        }
    }

    /// On the home page, Space starts the level.
    pub fn key_down_event_next_level_dialog(&mut self, keycode: KeyCode) -> (r: Result<
        (),
        WorkflowError,
    >)
        requires
            old(self)@.wf(),
        ensures
            keycode == KeyCode::Space ==> final(self)@ == old(self)@.with_intent(
                GameWorkflowIntent::StartGame,
            ) && r == old(self)@.intent_result(GameWorkflowIntent::StartGame),
            keycode != KeyCode::Space ==> final(self)@ == old(self)@ && r == Ok::<
                (),
                WorkflowError,
            >(()),
            final(self)@.wf(),
    {
        match keycode {
            KeyCode::Space => apply_intent(
                &mut self.game_settings_state.score_details.game_workflow_state,
                GameWorkflowIntent::StartGame,
            ),
            _ => Ok(()),
        }
    }

    /// On the game-over dialog, Space goes back to the home page.
    pub fn key_down_event_game_over_dialog(&mut self, keycode: KeyCode) -> (r: Result<
        (),
        WorkflowError,
    >)
        requires
            old(self)@.wf(),
        ensures
            keycode == KeyCode::Space ==> final(self)@ == old(self)@.with_intent(
                GameWorkflowIntent::GoToHomePage,
            ) && r == old(self)@.intent_result(GameWorkflowIntent::GoToHomePage),
            keycode != KeyCode::Space ==> final(self)@ == old(self)@ && r == Ok::<
                (),
                WorkflowError,
            >(()),
            final(self)@.wf(),
    {
        match keycode {
            KeyCode::Space => apply_intent(
                &mut self.game_settings_state.score_details.game_workflow_state,
                GameWorkflowIntent::GoToHomePage,
            ),
            _ => Ok(()),
        }
    }

    /// Reacts to a key release: the paddle stops when an arrow is released
    /// during play.
    pub fn key_up_event(&mut self, keycode: KeyCode)
        requires
            old(self)@.wf(),
        ensures
            final(self)@ == old(self)@.key_up(keycode),
            final(self)@.wf(),
    {
        match self.game_settings_state.score_details.game_workflow_state {
            GameWorkflowState::Play => match keycode {
                KeyCode::Left | KeyCode::Right => self.game_settings_state.input.movement = 0,
                _ => {},
            },
            _ => {},
        }
    }
}

} // verus!
