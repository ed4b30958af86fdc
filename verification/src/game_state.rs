//! The whole simulation: the player, the platforms and the enemies.
//!
//! One tick moves the player first and the enemies after it, in the order of
//! their list. Every enemy meets the others as they are at that moment: those
//! before it in the list have already moved, those after it have not.
use crate::enemy::{enemies_vertices, Enemy};
use crate::fixed::{fx_div, spec_fx_div};
use crate::input::{control_of, controls_after, InputEvent};
use crate::platform::{platforms_vertices, Platform};
use crate::player::{Player, PlayerView, MAX_HP};
use crate::trail::{all_fresh, in_order, trail_holds_no_old_segment, TRAIL_LIFETIME};
use crate::uniforms::{follow, UniformData};
use crate::vertex::Vertex;
use vstd::prelude::*;

verus! {

/// The state of the game.
#[derive(Debug)]
pub struct GameState {
    pub player: Player,
    pub platforms: Vec<Platform>,
    pub enemies: Vec<Enemy>,
}

/// The state of the game as a mathematical value.
pub ghost struct GameStateView {
    pub player: PlayerView,
    pub platforms: Seq<Platform>,
    pub enemies: Seq<Enemy>,
}

impl View for GameState {
    type V = GameStateView;

    open spec fn view(&self) -> GameStateView {
        GameStateView { player: self.player@, platforms: self.platforms@, enemies: self.enemies@ }
    }
}

/// The enemies after the first `done` of them have moved, one after the other.
/// Each moves among the platforms and the other enemies as they then are, toward
/// a player at `player_x`.
pub open spec fn enemies_after(
    enemies: Seq<Enemy>,
    done: nat,
    player_x: i64,
    platforms: Seq<Platform>,
    now: i64,
) -> Seq<Enemy>
    decreases done,
{
    if done == 0 {
        enemies
    } else {
        let before = enemies_after(enemies, (done - 1) as nat, player_x, platforms, now);
        if done <= before.len() {
            enemy_moved(before, done - 1, player_x, platforms, now)
        } else {
            before
        }
    }
}

/// The enemies after the one at index `i` has moved among the others, toward a
/// player at `player_x`.
pub open spec fn enemy_moved(
    enemies: Seq<Enemy>,
    i: int,
    player_x: i64,
    platforms: Seq<Platform>,
    now: i64,
) -> Seq<Enemy> {
    enemies.update(i, enemies[i].spec_step(player_x, platforms, enemies.remove(i), now))
}

/// Moves the enemy at index `i` by one tick. It is taken out of the list while
/// it moves, so that it meets the others and not itself, and put back in its
/// place.
pub fn move_enemy(
    enemies: &mut Vec<Enemy>,
    i: usize,
    player: &Player,
    platforms: &Vec<Platform>,
    uniforms: &UniformData,
)
    requires
        i < old(enemies)@.len(),
    ensures
        final(enemies)@ == enemy_moved(
            old(enemies)@,
            i as int,
            player.centre_pos.x,
            platforms@,
            uniforms.time,
        ),
{
    let mut e = enemies.remove(i);
    e.do_movement(player, platforms, enemies, uniforms);
    enemies.insert(i, e);
    assert(enemies@ =~= old(enemies)@.update(i as int, e));
}

impl GameStateView {
    /// The empty game: a fresh player, no platform, no enemy.
    pub open spec fn fresh() -> GameStateView {
        GameStateView {
            player: PlayerView::fresh(),
            platforms: Seq::empty(),
            enemies: Seq::empty(),
        }
    }

    /// The player after its move in a tick at time `now`: a player whose hit
    /// points have fallen below zero is replaced by a fresh one.
    pub open spec fn player_after(self, now: i64) -> PlayerView {
        let moved = self.player.step(self.platforms, self.enemies, now);
        if moved.hp < 0 {
            PlayerView::fresh()
        } else {
            moved
        }
    }

    /// The game after one tick at time `now`.
    pub open spec fn ticked(self, now: i64) -> GameStateView {
        let player = self.player_after(now);
        GameStateView {
            player,
            platforms: self.platforms,
            enemies: enemies_after(
                self.enemies,
                self.enemies.len(),
                player.centre_pos.x,
                self.platforms,
                now,
            ),
        }
    }

    /// The game after an input event: only the player's controls change.
    pub open spec fn after_event(self, e: InputEvent) -> GameStateView {
        GameStateView {
            player: PlayerView { movement: controls_after(self.player.movement, e), ..self.player },
            ..self
        }
    }

    /// The share of its hit points that the player has left.
    pub open spec fn hp_frac(self) -> i64 {
        spec_fx_div(self.player.hp, MAX_HP)
    }

    /// What is drawn of the game: the player with its trail, then the
    /// platforms, then the enemies.
    pub open spec fn vertices(self) -> Seq<Vertex> {
        self.player.vertices() + platforms_vertices(self.platforms, self.hp_frac())
            + enemies_vertices(self.enemies)
    }
}

impl GameState {
    /// An empty game.
    pub fn new() -> (r: GameState)
        ensures
            r@ == GameStateView::fresh(),
    {
        GameState { player: Player::new(), platforms: Vec::new(), enemies: Vec::new() }
    }

    /// Advances the game by one tick at the time that `uniforms` shows. The
    /// clock itself is not advanced here; the camera follows the player.
    pub fn tick(&mut self, uniforms: &mut UniformData)
        ensures
            final(self)@ == old(self)@.ticked(old(uniforms).time),
            final(uniforms).time == old(uniforms).time,
            final(uniforms).cam_pos == follow(
                old(uniforms).cam_pos,
                old(self)@.player.step(
                    old(self)@.platforms,
                    old(self)@.enemies,
                    old(uniforms).time,
                ).centre_pos,
            ),
    {
        let now = uniforms.time;
        self.player.do_movement(&self.platforms, &self.enemies, uniforms);
        if self.player.hp < 0 {
            self.player = Player::new();
        }
        let n = self.enemies.len();
        let mut i: usize = 0;
        while i < n
            invariant
                i <= n,
                n == self.enemies@.len(),
                n == old(self).enemies@.len(),
                uniforms.time == now,
                self.player@ == old(self)@.player_after(now),
                self.platforms@ == old(self).platforms@,
                self.enemies@ == enemies_after(
                    old(self).enemies@,
                    i as nat,
                    self.player.centre_pos.x,
                    self.platforms@,
                    now,
                ),
            decreases n - i,
        {
            move_enemy(&mut self.enemies, i, &self.player, &self.platforms, uniforms);
            i += 1;
        }
    }

    /// Applies an input event: a movement or jump key sets or clears the
    /// player's control; everything else is ignored.
    pub fn input_event(&mut self, e: InputEvent)
        ensures
            final(self)@ == old(self)@.after_event(e),
    {
        match &e {
            InputEvent::KeyDown(k) => {
                if let Some(i) = control_of(k.as_str()) {
                    self.player.movement[i] = true;
                }
            },
            InputEvent::KeyUp(k) => {
                if let Some(i) = control_of(k.as_str()) {
                    self.player.movement[i] = false;
                }
            },
            _ => {},
        }
    }

    /// Lists the vertices of what is to be drawn. The game is not changed.
    pub fn render(&self) -> (r: Vec<Vertex>)
        ensures
            r@ == self@.vertices(),
    {
        let mut r: Vec<Vertex> = Vec::new();
        self.player.render(&mut r);
        let player_hp_frac = fx_div(self.player.hp, self.player.max_hp());
        let ghost head = r@;
        let mut i: usize = 0;
        while i < self.platforms.len()
            invariant
                i <= self.platforms.len(),
                player_hp_frac == self@.hp_frac(),
                r@ == head + platforms_vertices(self.platforms@.take(i as int), player_hp_frac),
            decreases self.platforms.len() - i,
        {
            assert(self.platforms@.take(i + 1).drop_last() =~= self.platforms@.take(i as int));
            self.platforms[i].render(&mut r, player_hp_frac);
            i += 1;
            assert(r@ =~= head + platforms_vertices(
                self.platforms@.take(i as int),
                player_hp_frac,
            ));
        }
        assert(self.platforms@.take(i as int) =~= self.platforms@);
        let ghost middle = r@;
        let mut j: usize = 0;
        while j < self.enemies.len()
            invariant
                j <= self.enemies.len(),
                r@ == middle + enemies_vertices(self.enemies@.take(j as int)),
            decreases self.enemies.len() - j,
        {
            assert(self.enemies@.take(j + 1).drop_last() =~= self.enemies@.take(j as int));
            self.enemies[j].render(&mut r);
            j += 1;
            assert(r@ =~= middle + enemies_vertices(self.enemies@.take(j as int)));
        }
        assert(self.enemies@.take(j as int) =~= self.enemies@);
        r
    }
}

/// A player whose hit points fall below zero in a tick starts over: after that
/// tick it has full hit points, stands at rest where players are made, and has
/// no trail.
pub proof fn death_resets_player(s: GameStateView, now: i64)
    requires
        s.player.step(s.platforms, s.enemies, now).hp < 0,
    ensures
        s.ticked(now).player == PlayerView::fresh(),
        s.ticked(now).player.hp == MAX_HP,
        s.ticked(now).player.vel == crate::vec2::Vec2::spec_zero(),
        s.ticked(now).player.centre_pos == crate::vec2::Vec2::spec_zero(),
        s.ticked(now).player.trail.len() == 0,
{
}

/// While the clock does not run backward, ticks keep the player's trail in
/// order, newest first, and free of segments that have outlived their time: a
/// trail that was in order before a tick at `now` is in order after it, at
/// `now` and at every later time, and holds nothing that has expired at `now`.
pub proof fn tick_keeps_trail_in_order(s: GameStateView, now: i64, later: i64)
    requires
        in_order(s.player.trail, now),
        now <= later,
    ensures
        in_order(s.ticked(now).player.trail, later),
        all_fresh(s.ticked(now).player.trail, now),
        forall|i: int|
            0 <= i < s.ticked(now).player.trail.len() ==> now - (
            #[trigger] s.ticked(now).player.trail[i]).time <= TRAIL_LIFETIME,
{
    let moved = s.player.step(s.platforms, s.enemies, now);
    trail_holds_no_old_segment(s.player.trail, s.player.centre_pos, moved.centre_pos, now);
}

/// A tick never leaves the player with hit points below zero.
pub proof fn player_survives_tick(s: GameStateView, now: i64)
    ensures
        s.ticked(now).player.hp >= 0,
{
}

} // verus!
