//! The world: the entity arena, the coarse state, the score
//! bookkeeping and the run tunables, with the menu-state step and
//! the per-frame scheduler that composes every simulation step in
//! its fixed order.

use vstd::prelude::*;
use crate::entities::{
    Car, CollisionEvent, Enemy, MoveY, Player, Wall, ENEMY_RESPAWN_LIMIT, ENEMY_TOP_Y,
    WALL_RESPAWN_LIMIT, WALL_TOP_Y,
};
use crate::gate::{gate_after, gate_fires, PeriodicGate};
use crate::spawner::{
    enemy_spawn_y, spawn_enemies, spawn_player, spawn_walls, wall_spawn_y, ENEMY_ROWS,
    PLAYER_START_COLUMN, WALL_ROWS,
};
use crate::state::{
    game_data_default, GameData, GameState, Scoreboard, MOVE_INTERVAL, SCORE_INCREMENT,
    SCORE_INTERVAL, UNSCALED,
};
use crate::systems::{
    accelerate, advance_step, any_collision, boost_player, boosting_after, check_collisions,
    collides_with, enemy_respawn, increment_scoreboard, move_player, play_motor_sound,
    shifted_column, speed_for_score, wall_respawn, COLLISION_BOTTOM, COLLISION_TOP,
};
use crate::tile_screen::{CAR_SPACING, LANE_COUNT, TILE, WALL_SPACING};

verus! {

/// The whole simulation state: everything that persists from one
/// frame to the next.
pub struct World {
    /// The coarse state gating every periodic process.
    pub state: GameState,
    /// The player's entity; present exactly while playing.
    pub player: Option<Player>,
    /// The live obstacle cars.
    pub enemies: Vec<Enemy>,
    /// The live wall rows.
    pub walls: Vec<Wall>,
    /// The score bookkeeping; the high score survives run resets.
    pub scoreboard: Scoreboard,
    /// The run-scoped tunables, including the vertical-advance gate.
    pub game_data: GameData,
    /// The timer pacing score accrual at unscaled wall time.
    pub score_gate: PeriodicGate,
    /// The single-slot game-over event, drained by the audio layer.
    pub pending_collision: Option<CollisionEvent>,
    /// Whether the ambient motor audio is marked as running.
    pub motor_running: bool,
}

impl World {
    /// The world invariant, preserved by every frame: the player
    /// exists exactly while playing and sits in a real lane, every
    /// entity lies in its band, both periodic timers carry their fixed
    /// intervals, the tunables are in range, and the menu holds no
    /// obstacles.
    pub open spec fn wf(self) -> bool {
        &&& (self.state == GameState::Playing <==> self.player is Some)
        &&& (self.player matches Some(p) ==> p.wf())
        &&& (forall|i: int| 0 <= i < self.enemies.len() ==> (#[trigger] self.enemies[i]).wf())
        &&& (forall|i: int| 0 <= i < self.walls.len() ==> (#[trigger] self.walls[i]).wf())
        &&& self.game_data.wf()
        &&& self.score_gate.wf()
        &&& self.score_gate.interval == SCORE_INTERVAL
        &&& (self.state == GameState::Menu ==> self.enemies.len() == 0)
    }

    /// Whether the player is currently touched by some obstacle.
    pub open spec fn collision_now(self) -> bool {
        self.player matches Some(p) && any_collision(p, self.enemies@)
    }

    /// A fresh world: the menu is shown over the initial wall rows,
    /// with an empty scoreboard and default tunables.
    pub fn new() -> (world: Self)
        ensures
            world.wf(),
            world.state == GameState::Menu,
            world.player is None,
            world.enemies.len() == 0,
            world.walls.len() == WALL_ROWS,
            forall|row: int|
                0 <= row < WALL_ROWS ==> (#[trigger] world.walls[row]).move_y.y == wall_spawn_y(row),
            world.scoreboard.score == 0,
            world.scoreboard.highscore == 0,
            world.game_data == game_data_default(),
            world.score_gate.interval == SCORE_INTERVAL,
            world.score_gate.accumulated == 0,
            world.pending_collision is None,
            !world.motor_running,
    {
        let mut walls: Vec<Wall> = Vec::new();
        spawn_walls(&mut walls);
        proof {
            assert forall|i: int| 0 <= i < walls.len() implies (#[trigger] walls[i]).wf() by {
                assert(walls[i].move_y.y == wall_spawn_y(i));
                assert(TILE * WALL_SPACING == 10);
                assert(0 <= i * 10 <= 50) by (nonlinear_arith)
                    requires 0 <= i < 6;
            }
        }
        World {
            state: GameState::Menu,
            player: None,
            enemies: Vec::new(),
            walls,
            scoreboard: Scoreboard { score: 0, highscore: 0 },
            game_data: GameData::new(),
            score_gate: PeriodicGate::new(SCORE_INTERVAL),
            pending_collision: None,
            motor_running: false,
        }
    }
}

/// The menu-state step: when the start control is activated, the
/// menu hands over to a fresh run — the player appears in the middle
/// lane, fresh wall and obstacle rows are stacked above the screen,
/// the run tunables return to defaults and the motor audio starts.
/// The high score is kept. Without a start press nothing changes.
pub fn menu(world: &mut World, start_pressed: bool)
    requires
        old(world).wf(),
        old(world).state == GameState::Menu,
    ensures
        final(world).wf(),
        !start_pressed ==> *final(world) == *old(world),
        start_pressed ==> {
            &&& final(world).state == GameState::Playing
            &&& final(world).player == Some(Player { car: Car { column: PLAYER_START_COLUMN } })
            &&& final(world).enemies.len() == ENEMY_ROWS
            &&& forall|row: int| #![trigger final(world).enemies[row]]
                0 <= row < ENEMY_ROWS ==> {
                    &&& final(world).enemies[row].car.column < LANE_COUNT
                    &&& final(world).enemies[row].move_y.y == enemy_spawn_y(row)
                    &&& final(world).enemies[row].alive
                }
            &&& final(world).walls.len() == old(world).walls.len() + WALL_ROWS
            &&& forall|i: int| 0 <= i < old(world).walls.len() ==> final(world).walls[i] == old(
                world,
            ).walls[i]
            &&& forall|i: int| #![trigger final(world).walls[i]]
                old(world).walls.len() <= i < final(world).walls.len()
                    ==> final(world).walls[i].move_y.y == wall_spawn_y(
                    i - old(world).walls.len(),
                )
            &&& final(world).game_data == game_data_default()
            &&& final(world).scoreboard == old(world).scoreboard
            &&& final(world).score_gate == old(world).score_gate
            &&& final(world).pending_collision == old(world).pending_collision
            &&& final(world).motor_running
        },
{
    if !start_pressed {
        return ;
    }
    world.game_data = GameData::new();
    world.player = Some(spawn_player());
    spawn_walls(&mut world.walls);
    spawn_enemies(&mut world.enemies);
    play_motor_sound(&mut world.motor_running);
    world.state = GameState::Playing;
    proof {
        assert forall|i: int| 0 <= i < world.enemies.len() implies (
        #[trigger] world.enemies[i]).wf() by {
            assert(world.enemies[i].move_y.y == enemy_spawn_y(i));
            assert(TILE * CAR_SPACING == 18);
            assert(0 <= i * 18 <= 54) by (nonlinear_arith)
                requires 0 <= i < 4;
        }
        assert forall|i: int| 0 <= i < world.walls.len() implies (#[trigger] world.walls[i]).wf()
            by {
            if i < old(world).walls.len() {
                assert(world.walls[i] == old(world).walls[i]);
                assert(old(world).walls[i].wf());
            } else {
                let row = i - old(world).walls.len();
                assert(world.walls[i] == (Wall {
                    move_y: MoveY { y: wall_spawn_y(row) as i32 },
                    alive: true,
                }));
                assert(TILE * WALL_SPACING == 10);
                assert(0 <= row * 10 <= 50) by (nonlinear_arith)
                    requires 0 <= row < 6;
            }
        }
    }
}

/// The inputs one frame consumes: the frame's delta time and the
/// edge-triggered control events sampled at its start.
#[derive(Clone, Copy, PartialEq, Eq, Structural, Debug)]
pub struct FrameInput {
    /// Milliseconds elapsed since the previous frame.
    pub delta: u64,
    /// The lane-left control was newly pressed this frame.
    pub left_pressed: bool,
    /// The lane-right control was newly pressed this frame.
    pub right_pressed: bool,
    /// The boost control was newly pressed this frame.
    pub boost_pressed: bool,
    /// The boost control was newly released this frame.
    pub boost_released: bool,
    /// The start control was activated this frame.
    pub start_pressed: bool,
}

impl World {
    /// The run tunables after the frame's boost-state update.
    pub open spec fn tunables_after_input(self, input: FrameInput) -> GameData {
        GameData {
            move_timer: self.game_data.move_timer,
            is_boosting: boosting_after(
                self.game_data.is_boosting,
                input.boost_pressed,
                input.boost_released,
            ),
            boost_factor: self.game_data.boost_factor,
            speed_factor: self.game_data.speed_factor,
        }
    }

    /// The player's lane column after the frame's lateral-move step;
    /// meaningful only while playing.
    pub open spec fn column_after_input(self, input: FrameInput) -> int {
        shifted_column(
            self.player->Some_0.car.column as int,
            input.left_pressed,
            input.right_pressed,
        )
    }

    /// How far every vertically-moving entity drops this frame.
    pub open spec fn frame_step(self, input: FrameInput) -> int {
        advance_step(self.tunables_after_input(input), input.delta)
    }

    /// Whether the obstacle at index `i` ends this frame touching
    /// the player: it sits in the player's post-move lane and its
    /// post-advance y lies strictly inside the collision window.
    pub open spec fn frame_collides_at(self, input: FrameInput, i: int) -> bool {
        &&& self.enemies[i].car.column as int == self.column_after_input(input)
        &&& self.enemies[i].move_y.y - self.frame_step(input) < COLLISION_TOP
        &&& self.enemies[i].move_y.y - self.frame_step(input) > COLLISION_BOTTOM
    }

    /// Whether this frame ends the run in a collision; meaningful
    /// only while playing. Obstacles recycled this frame cannot
    /// collide: their post-advance y lies below the collision window
    /// and they reappear far above it.
    pub open spec fn frame_collides(self, input: FrameInput) -> bool {
        exists|i: int| 0 <= i < self.enemies.len() && self.frame_collides_at(input, i)
    }

    /// Whether the score-accrual gate fires this frame.
    pub open spec fn frame_scores(self, input: FrameInput) -> bool {
        gate_fires(
            self.score_gate.accumulated as int,
            self.score_gate.interval as int,
            input.delta as int * UNSCALED as int,
        )
    }

    /// The machine limits one frame needs: the two gate accumulators
    /// and the score must have room for what the frame can add.
    pub open spec fn frame_fits(self, input: FrameInput) -> bool {
        &&& (self.state == GameState::Playing
            ==> self.game_data.move_timer.accumulated + input.delta * self.tunables_after_input(
            input,
        ).scale() <= u64::MAX)
        &&& self.score_gate.accumulated + input.delta * UNSCALED <= u64::MAX
        &&& (self.state == GameState::Playing ==> self.scoreboard.score + SCORE_INCREMENT
            <= usize::MAX)
    }

    /// Whether this world can take a frame of the given input
    /// without hitting a machine limit; what `frame` requires.
    pub fn frame_ready(&self, input: FrameInput) -> (ready: bool)
        requires
            self.wf(),
        ensures
            ready == self.frame_fits(input),
    {
        let move_ok = if self.state == GameState::Playing {
            let boosting = if input.boost_released {
                false
            } else if input.boost_pressed {
                true
            } else {
                self.game_data.is_boosting
            };
            let scale = if boosting {
                self.game_data.boost_factor * self.game_data.speed_factor / UNSCALED
            } else {
                self.game_data.speed_factor
            };
            proof {
                assert(scale == self.tunables_after_input(input).scale());
            }
            match input.delta.checked_mul(scale) {
                Some(amount) => self.game_data.move_timer.accumulated.checked_add(amount).is_some(),
                None => false,
            }
        } else {
            true
        };
        let score_ok = match input.delta.checked_mul(UNSCALED) {
            Some(amount) => self.score_gate.accumulated.checked_add(amount).is_some(),
            None => false,
        };
        let room_ok = if self.state == GameState::Playing {
            self.scoreboard.score <= usize::MAX - SCORE_INCREMENT
        } else {
            true
        };
        move_ok && score_ok && room_ok
    }
}

/// Everything one frame guarantees: the relation between the world
/// before the frame and the world after it, for the frame's input.
///
/// The score timer always accumulates unscaled wall time, and the
/// high score never decreases. In the menu nothing else moves unless
/// the start control hands over to a fresh run. While playing, the
/// player shifts by the frame's lane edges, every obstacle and wall
/// drops by the frame's advance step and is recycled past its limit,
/// and a collision ends the run: entities despawned, score committed
/// and reset, tunables back to defaults, motor stopped, back to the
/// menu with its wall rows. Without a collision the score accrues
/// exactly when the score gate fires, and difficulty is recomputed
/// on accrual.
pub open spec fn frame_post(pre: World, post: World, input: FrameInput) -> bool {
    let step = pre.frame_step(input);
    let collided = pre.frame_collides(input);
    let scored = pre.frame_scores(input);
    &&& post.score_gate.interval == pre.score_gate.interval
    &&& post.score_gate.accumulated == gate_after(
        pre.score_gate.accumulated as int,
        pre.score_gate.interval as int,
        input.delta as int * UNSCALED as int,
    )
    &&& post.scoreboard.highscore >= pre.scoreboard.highscore
    &&& (pre.state == GameState::Menu && !input.start_pressed ==> {
        &&& post.state == GameState::Menu
        &&& post.player == pre.player
        &&& post.enemies == pre.enemies
        &&& post.walls == pre.walls
        &&& post.scoreboard == pre.scoreboard
        &&& post.game_data == pre.game_data
        &&& post.pending_collision == pre.pending_collision
        &&& post.motor_running == pre.motor_running
    })
    &&& (pre.state == GameState::Menu && input.start_pressed ==> {
        &&& post.state == GameState::Playing
        &&& post.player == Some(Player { car: Car { column: PLAYER_START_COLUMN } })
        &&& post.enemies.len() == ENEMY_ROWS
        &&& (forall|i: int| #![trigger post.enemies[i]]
            0 <= i < ENEMY_ROWS ==> {
                &&& post.enemies[i].car.column < LANE_COUNT
                &&& post.enemies[i].move_y.y == enemy_spawn_y(i)
                &&& post.enemies[i].alive
            })
        &&& post.walls.len() == pre.walls.len() + WALL_ROWS
        &&& (forall|i: int| 0 <= i < pre.walls.len() ==> post.walls[i] == pre.walls[i])
        &&& (forall|i: int| #![trigger post.walls[i]]
            pre.walls.len() <= i < post.walls.len() ==> post.walls[i].move_y.y == wall_spawn_y(
                i - pre.walls.len(),
            ))
        &&& post.scoreboard == pre.scoreboard
        &&& post.game_data == game_data_default()
        &&& post.pending_collision == pre.pending_collision
        &&& post.motor_running
    })
    &&& (pre.state == GameState::Playing && collided ==> {
        &&& post.state == GameState::Menu
        &&& post.player is None
        &&& post.enemies.len() == 0
        &&& post.walls.len() == WALL_ROWS
        &&& (forall|i: int| #![trigger post.walls[i]]
            0 <= i < WALL_ROWS ==> post.walls[i].move_y.y == wall_spawn_y(i))
        &&& post.scoreboard.score == 0
        &&& post.scoreboard.highscore == (if pre.scoreboard.score > pre.scoreboard.highscore {
            pre.scoreboard.score
        } else {
            pre.scoreboard.highscore
        })
        &&& post.game_data == game_data_default()
        &&& post.pending_collision == Some(CollisionEvent)
        &&& !post.motor_running
    })
    &&& (pre.state == GameState::Playing && !collided ==> {
        &&& post.state == GameState::Playing
        &&& (post.player matches Some(p) && p.car.column as int == pre.column_after_input(input))
        &&& post.enemies.len() == pre.enemies.len()
        &&& (forall|i: int| #![trigger post.enemies[i]]
            0 <= i < pre.enemies.len() ==> {
                &&& (pre.enemies[i].move_y.y - step >= ENEMY_RESPAWN_LIMIT ==> {
                    &&& post.enemies[i].car == pre.enemies[i].car
                    &&& post.enemies[i].move_y.y == pre.enemies[i].move_y.y - step
                    &&& post.enemies[i].alive == pre.enemies[i].alive
                })
                &&& (pre.enemies[i].move_y.y - step < ENEMY_RESPAWN_LIMIT ==> {
                    &&& post.enemies[i].move_y.y == ENEMY_TOP_Y
                    &&& post.enemies[i].car.column < LANE_COUNT
                    &&& post.enemies[i].alive == pre.enemies[i].alive
                })
            })
        &&& post.walls.len() == pre.walls.len()
        &&& (forall|i: int| #![trigger post.walls[i]]
            0 <= i < pre.walls.len() ==> {
                &&& (pre.walls[i].move_y.y - step >= WALL_RESPAWN_LIMIT ==> {
                    &&& post.walls[i].move_y.y == pre.walls[i].move_y.y - step
                    &&& post.walls[i].alive == pre.walls[i].alive
                })
                &&& (pre.walls[i].move_y.y - step < WALL_RESPAWN_LIMIT ==> {
                    &&& post.walls[i].move_y.y == WALL_TOP_Y
                    &&& post.walls[i].alive == pre.walls[i].alive
                })
            })
        &&& post.scoreboard.score == pre.scoreboard.score + (if scored {
            SCORE_INCREMENT as int
        } else {
            0
        })
        &&& post.scoreboard.highscore == pre.scoreboard.highscore
        &&& post.game_data.is_boosting == boosting_after(
            pre.game_data.is_boosting,
            input.boost_pressed,
            input.boost_released,
        )
        &&& post.game_data.boost_factor == pre.game_data.boost_factor
        &&& post.game_data.speed_factor as int == (if scored {
            speed_for_score(post.scoreboard.score as int)
        } else {
            pre.game_data.speed_factor as int
        })
        &&& post.game_data.move_timer.interval == MOVE_INTERVAL
        &&& post.game_data.move_timer.accumulated == gate_after(
            pre.game_data.move_timer.accumulated as int,
            MOVE_INTERVAL as int,
            input.delta as int * pre.tunables_after_input(input).scale(),
        )
        &&& post.pending_collision == pre.pending_collision
        &&& post.motor_running == pre.motor_running
    })
}

/// Score commitment: a frame that ends in a collision leaves the
/// score at zero and a high score no smaller than either the score
/// or the high score before the collision. Mid-run the score may
/// exceed the old high score; the commitment happens at collision.
pub proof fn lemma_collision_commits_score(pre: World, post: World, input: FrameInput)
    requires
        frame_post(pre, post, input),
        pre.state == GameState::Playing,
        pre.frame_collides(input),
    ensures
        post.scoreboard.score == 0,
        post.scoreboard.highscore >= pre.scoreboard.score,
        post.scoreboard.highscore >= pre.scoreboard.highscore,
{
}

/// State gating: a frame taken in the menu without a start press
/// accrues no score, spawns nothing, moves nothing and flips no
/// tunable, whatever its delta and control edges; only the score
/// gate accumulates time.
pub proof fn lemma_menu_gates_processes(pre: World, post: World, input: FrameInput)
    requires
        frame_post(pre, post, input),
        pre.state == GameState::Menu,
        !input.start_pressed,
    ensures
        post.state == GameState::Menu,
        post.scoreboard == pre.scoreboard,
        post.player == pre.player,
        post.enemies == pre.enemies,
        post.walls == pre.walls,
        post.game_data == pre.game_data,
{
}

impl World {
    /// Advances the simulation by one frame, in the fixed step
    /// order: lateral move, boost update, gated vertical advance,
    /// recycling, collision resolution, then score accrual with
    /// difficulty scaling — all gated by the coarse state, with the
    /// menu step running instead while the menu is up.
    pub fn frame(&mut self, input: FrameInput)
        requires
            old(self).wf(),
            old(self).frame_fits(input),
        ensures
            final(self).wf(),
            frame_post(*old(self), *final(self), input),
    {
        if self.state == GameState::Menu {
            self.score_gate.tick(input.delta, UNSCALED);
            menu(self, input.start_pressed);
            return ;
        }
        let state_now = self.state;
        match &mut self.player {
            Some(p) => move_player(p, &state_now, input.left_pressed, input.right_pressed),
            None => {},
        }
        boost_player(&mut self.game_data, input.boost_pressed, input.boost_released);
        proof {
            assert(self.game_data == old(self).tunables_after_input(input));
        }
        accelerate(&mut self.enemies, &mut self.walls, &mut self.game_data, input.delta);
        let ghost after_advance = *self;
        wall_respawn(&mut self.walls);
        enemy_respawn(&mut self.enemies);
        proof {
            let pre = *old(self);
            let step = pre.frame_step(input);
            assert forall|i: int| 0 <= i < self.enemies.len() implies (
            #[trigger] self.enemies[i]).wf() by {
                assert(pre.enemies[i].wf());
                assert(after_advance.enemies[i].move_y.y == pre.enemies[i].move_y.y - step);
            }
            assert forall|i: int| 0 <= i < self.walls.len() implies (
            #[trigger] self.walls[i]).wf() by {
                assert(pre.walls[i].wf());
                assert(after_advance.walls[i].move_y.y == pre.walls[i].move_y.y - step);
            }
            let p1 = self.player->Some_0;
            assert(p1.car.column as int == pre.column_after_input(input));
            if self.collision_now() {
                let i = choose|i: int|
                    0 <= i < self.enemies.len() && collides_with(p1, #[trigger] self.enemies[i]);
                assert(after_advance.enemies[i].move_y.y == pre.enemies[i].move_y.y - step);
                if after_advance.enemies[i].move_y.y < ENEMY_RESPAWN_LIMIT {
                    assert(self.enemies[i].move_y.y == ENEMY_TOP_Y);
                    assert(false);
                } else {
                    assert(self.enemies[i] == after_advance.enemies[i]);
                    assert(pre.frame_collides_at(input, i));
                }
                assert(pre.frame_collides(input));
            }
            if pre.frame_collides(input) {
                let i = choose|i: int|
                    0 <= i < pre.enemies.len() && pre.frame_collides_at(input, i);
                assert(pre.enemies[i].move_y.y - step > COLLISION_BOTTOM);
                assert(after_advance.enemies[i].move_y.y >= ENEMY_RESPAWN_LIMIT);
                assert(self.enemies[i] == after_advance.enemies[i]);
                assert(collides_with(p1, self.enemies[i]));
                assert(self.collision_now());
            }
            assert(self.collision_now() == pre.frame_collides(input));
        }
        check_collisions(self);
        if self.state == GameState::Menu {
            spawn_walls(&mut self.walls);
            proof {
                assert forall|i: int| 0 <= i < self.walls.len() implies (
                #[trigger] self.walls[i]).wf() by {
                    assert(self.walls[i].move_y.y == wall_spawn_y(i));
                    assert(TILE * WALL_SPACING == 10);
                    assert(0 <= i * 10 <= 50) by (nonlinear_arith)
                        requires 0 <= i < 6;
                }
            }
        }
        let scored = self.score_gate.tick(input.delta, UNSCALED);
        if scored {
            increment_scoreboard(&mut self.scoreboard, &mut self.game_data, &self.state);
        }
    }
}

} // verus!
