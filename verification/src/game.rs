//! The game state machine: sessions, their setup and teardown, and the tick
//! that drives everything.
//!
//! A game is either `Playing` or `GameOver`. A session is one stay in
//! `Playing`: it starts with fresh walls, player and particles, a score of
//! zero and `session_ticks` of time, and it is lost when the time has run
//! out. The entities of the session are then despawned, and the game waits in
//! `GameOver` for the restart key.
//!
//! Within a tick the order is fixed: the player moves, the particles move,
//! particles that the player has reached are collected, and the clock is
//! checked last.

use vstd::prelude::*;
use crate::config::{ConfigError, GameConfig};
use crate::geometry::Body;
use crate::particle::Particle;
use crate::player::{lemma_player_stays_inside, lemma_rest, Input, Player};
use crate::pool::{ParticlePool, PoolView};
use crate::rng::Lcg;
use crate::sprite::EntityKind;
use crate::swarm::{
    advance, harvest, lemma_harvested, lemma_moved, lemma_none_reached, lemma_populated,
    moved_slots, populate, reached, Harvest,
};

verus! {

/// The two states of the game.
#[derive(Clone, Copy, Debug, PartialEq, Eq, Structural)]
pub enum GameState {
    Playing,
    GameOver,
}

/// What a tick did to the state of the game.
#[derive(Clone, Copy, Debug, PartialEq, Eq, Structural)]
pub enum Transition {
    /// The state is what it was.
    Stay,
    /// The session was lost: `Playing` has given way to `GameOver`.
    Ended,
    /// A new session has started: `GameOver` has given way to `Playing`.
    Restarted,
}

/// How many entities of each kind exist.
pub struct Census {
    pub walls: nat,
    pub players: nat,
    pub particles: nat,
    pub slots: nat,
}

/// Everything there is to know about a game.
pub struct GameView {
    pub config: GameConfig,
    pub state: GameState,
    pub score: u64,
    pub ticks_left: u32,
    /// The walls, in the order left, right, top, bottom; none outside a
    /// session.
    pub walls: Seq<Body>,
    pub player: Option<Player>,
    pub pool: PoolView,
    pub rng: u64,
}

impl GameView {
    /// A game that has not started yet: in `GameOver`, without entities.
    pub open spec fn blank(config: GameConfig, seed: u64) -> GameView {
        GameView {
            config,
            state: GameState::GameOver,
            score: 0,
            ticks_left: 0,
            walls: Seq::empty(),
            player: None,
            pool: PoolView::empty(),
            rng: seed,
        }
    }

    /// The number of entities of each kind.
    pub open spec fn census(self) -> Census {
        Census {
            walls: self.walls.len(),
            players: if self.player is Some { 1 } else { 0 },
            particles: self.pool.live(),
            slots: self.pool.slots.len(),
        }
    }

    /// In `Playing` the session is intact: the walls are those of the arena,
    /// the player and every particle lie inside it with the extent of their
    /// sprite, and the population is at least the minimum. In `GameOver`
    /// there is no entity.
    pub open spec fn wf(self) -> bool {
        &&& self.config.wf()
        &&& match self.state {
            GameState::Playing => {
                &&& self.walls == self.config.arena.wall_bodies()
                &&& match self.player {
                    Some(p) => p.body.half == self.config.player_half()
                        && self.config.arena.inside(p.body),
                    None => false,
                }
                &&& self.config.hosts(self.pool)
                &&& self.pool.slots.len() == self.config.initial_particles
                &&& self.pool.live() >= self.config.min_particles
            },
            GameState::GameOver => {
                &&& self.walls == Seq::<Body>::empty()
                &&& self.player is None
                &&& self.pool == PoolView::empty()
            },
        }
    }

    /// The game with every entity of the session despawned.
    pub open spec fn torn_down(self) -> GameView {
        GameView {
            config: self.config,
            state: self.state,
            score: self.score,
            ticks_left: self.ticks_left,
            walls: Seq::empty(),
            player: None,
            pool: PoolView::empty(),
            rng: self.rng,
        }
    }

    /// The game in `GameOver`, all else unchanged.
    pub open spec fn over(self) -> GameView {
        GameView {
            config: self.config,
            state: GameState::GameOver,
            score: self.score,
            ticks_left: self.ticks_left,
            walls: self.walls,
            player: self.player,
            pool: self.pool,
            rng: self.rng,
        }
    }

    /// The game at the start of a new session: what was there is despawned;
    /// the walls are built, the player is put on the centre of the arena and
    /// the initial particles are placed clear of it if the retries allow; the
    /// score is zero and the clock is full.
    pub open spec fn set_up(self) -> GameView {
        let player = Player::spawned(self.config.player_half());
        let (pool, rng) = self.config.populated(
            PoolView::empty(),
            self.rng,
            player.body,
            self.config.initial_particles as nat,
        );
        GameView {
            config: self.config,
            state: GameState::Playing,
            score: 0,
            ticks_left: self.config.session_ticks,
            walls: self.config.arena.wall_bodies(),
            player: Some(player),
            pool,
            rng,
        }
    }

    /// The game after one tick of play: the player has moved, then the
    /// particles, then the particles that the player reached were collected,
    /// and the clock has run down by one tick.
    pub open spec fn played(self, input: Input) -> GameView {
        match self.player {
            Some(p) => {
                let player = p.stepped(self.config.arena, input);
                let moved = PoolView {
                    slots: moved_slots(self.pool.slots, self.config.arena, player.body.center),
                    free: self.pool.free,
                };
                let h = self.config.harvested(
                    Harvest { pool: moved, rng: self.rng, score: self.score },
                    player.body,
                    moved.slots.len(),
                );
                GameView {
                    config: self.config,
                    state: self.state,
                    score: h.score,
                    ticks_left: if self.ticks_left > 0 {
                        (self.ticks_left - 1) as u32
                    } else {
                        0
                    },
                    walls: self.walls,
                    player: Some(player),
                    pool: h.pool,
                    rng: h.rng,
                }
            },
            None => self,
        }
    }

    /// The game one tick later. In `Playing`, a tick of play, after which
    /// the session ends if the clock has run out. In `GameOver`, a new
    /// session if the restart key is held, and nothing otherwise.
    pub open spec fn ticked(self, input: Input) -> GameView {
        match self.state {
            GameState::Playing => {
                let next = self.played(input);
                if next.ticks_left == 0 {
                    next.torn_down().over()
                } else {
                    next
                }
            },
            GameState::GameOver => if input.restart {
                self.set_up()
            } else {
                self
            },
        }
    }

    /// The game after one tick for each of `inputs`, in their order.
    pub open spec fn run(self, inputs: Seq<Input>) -> GameView
        decreases inputs.len(),
    {
        if inputs.len() == 0 {
            self
        } else {
            self.run(inputs.drop_last()).ticked(inputs.last())
        }
    }

    /// What the next tick does to the state.
    pub open spec fn transition(self, input: Input) -> Transition {
        match self.state {
            GameState::Playing => if self.played(input).ticks_left == 0 {
                Transition::Ended
            } else {
                Transition::Stay
            },
            GameState::GameOver => if input.restart {
                Transition::Restarted
            } else {
                Transition::Stay
            },
        }
    }
}

/// Whatever the game held before, a new session starts as from a game
/// without entities, and intact: with four walls, one player and the initial
/// number of particles in as many slots.
pub proof fn lemma_set_up(v: GameView)
    requires
        v.config.wf(),
    ensures
        v.set_up() == v.torn_down().set_up(),
        v.set_up().wf(),
        v.set_up().state == GameState::Playing,
        v.set_up().score == 0,
        v.set_up().census() == (Census {
            walls: 4,
            players: 1,
            particles: v.config.initial_particles as nat,
            slots: v.config.initial_particles as nat,
        }),
{
    let player = Player::spawned(v.config.player_half());
    lemma_populated(
        v.config,
        PoolView::empty(),
        v.rng,
        player.body,
        v.config.initial_particles as nat,
    );
}

/// Setting up twice in a row leaves exactly the entities of one session:
/// nothing of the first setup is left behind.
pub proof fn lemma_set_up_twice(v: GameView)
    requires
        v.config.wf(),
    ensures
        v.set_up().set_up().census() == v.set_up().census(),
        v.set_up().set_up().wf(),
{
    lemma_set_up(v);
    lemma_set_up(v.set_up());
}

/// A tick of play keeps the session intact, with the player inside the
/// arena, the population at or above the minimum, and the score no lower
/// than before.
pub proof fn lemma_played(v: GameView, input: Input)
    requires
        v.wf(),
        v.state == GameState::Playing,
    ensures
        v.played(input).wf(),
        v.played(input).state == GameState::Playing,
        v.played(input).score >= v.score,
        v.played(input).pool.live() >= v.config.min_particles,
        v.played(input).player is Some,
        v.config.arena.inside(v.played(input).player.unwrap().body),
{
    let p = v.player.unwrap();
    let player = p.stepped(v.config.arena, input);
    lemma_player_stays_inside(p, v.config.arena, input);
    let moved = PoolView {
        slots: moved_slots(v.pool.slots, v.config.arena, player.body.center),
        free: v.pool.free,
    };
    lemma_moved(v.config, v.pool, player.body.center);
    lemma_harvested(
        v.config,
        Harvest { pool: moved, rng: v.rng, score: v.score },
        player.body,
        moved.slots.len(),
    );
}

/// Every tick takes a well-formed game to a well-formed game.
pub proof fn lemma_ticked(v: GameView, input: Input)
    requires
        v.wf(),
    ensures
        v.ticked(input).wf(),
{
    match v.state {
        GameState::Playing => {
            lemma_played(v, input);
        },
        GameState::GameOver => {
            lemma_set_up(v);
        },
    }
}

/// Whatever keys are held and for however long, a well-formed game stays
/// well-formed, under the configuration it began with.
pub proof fn lemma_run(v: GameView, inputs: Seq<Input>)
    requires
        v.wf(),
    ensures
        v.run(inputs).wf(),
        v.run(inputs).config == v.config,
    decreases inputs.len(),
{
    if inputs.len() > 0 {
        lemma_run(v, inputs.drop_last());
        lemma_ticked(v.run(inputs.drop_last()), inputs.last());
    }
}

/// Every state that a game started with a valid configuration can reach is
/// well-formed: in every session the player and the particles are inside the
/// arena and the population is at least the minimum.
pub proof fn lemma_reachable(config: GameConfig, seed: u64, inputs: Seq<Input>)
    requires
        config.wf(),
    ensures
        GameView::blank(config, seed).set_up().run(inputs).wf(),
{
    lemma_set_up(GameView::blank(config, seed));
    lemma_run(GameView::blank(config, seed).set_up(), inputs);
}

/// After any tick that leaves the game in `Playing`, the player lies inside
/// the arena, within the rectangle that the walls enclose.
pub proof fn lemma_player_confined(v: GameView, input: Input)
    requires
        v.wf(),
        v.ticked(input).state == GameState::Playing,
    ensures
        v.ticked(input).player is Some,
        v.config.arena.inside(v.ticked(input).player.unwrap().body),
{
    lemma_ticked(v, input);
}

/// The score never falls during play, does not change in `GameOver`, and is
/// exactly zero right after a restart.
pub proof fn lemma_score(v: GameView, input: Input)
    requires
        v.wf(),
    ensures
        v.state == GameState::Playing ==> v.ticked(input).score >= v.score,
        v.state == GameState::GameOver && !input.restart ==> v.ticked(input) == v,
        v.state == GameState::GameOver && input.restart ==> v.ticked(input).score == 0
            && v.ticked(input).state == GameState::Playing,
{
    if v.state == GameState::Playing {
        lemma_played(v, input);
    }
}

/// In `GameOver`, the restart key starts a session: the game is in
/// `Playing` with a score of zero, four walls, one player and the initial
/// number of particles.
pub proof fn lemma_restart(v: GameView, input: Input)
    requires
        v.wf(),
        v.state == GameState::GameOver,
        input.restart,
    ensures
        v.ticked(input) == v.set_up(),
        v.transition(input) == Transition::Restarted,
        v.ticked(input).state == GameState::Playing,
        v.ticked(input).score == 0,
        v.ticked(input).census() == (Census {
            walls: 4,
            players: 1,
            particles: v.config.initial_particles as nat,
            slots: v.config.initial_particles as nat,
        }),
{
    lemma_set_up(v);
}

/// A tick of play during which no direction is held and no particle reaches
/// the player leaves the player where it is and the score what it is.
pub proof fn lemma_quiet_tick(v: GameView, input: Input)
    requires
        v.wf(),
        v.state == GameState::Playing,
        input.left == input.right,
        input.up == input.down,
        reached(
            moved_slots(v.pool.slots, v.config.arena, v.player.unwrap().body.center),
            v.player.unwrap().body,
            v.pool.slots.len(),
        ) == 0,
    ensures
        v.played(input).player.unwrap().body == v.player.unwrap().body,
        v.played(input).score == v.score,
        v.played(input).rng == v.rng,
        v.played(input).pool.slots == moved_slots(
            v.pool.slots,
            v.config.arena,
            v.player.unwrap().body.center,
        ),
{
    let p = v.player.unwrap();
    lemma_rest(p, v.config.arena, input);
    let moved = PoolView {
        slots: moved_slots(v.pool.slots, v.config.arena, p.body.center),
        free: v.pool.free,
    };
    lemma_moved(v.config, v.pool, p.body.center);
    lemma_none_reached(
        v.config,
        Harvest { pool: moved, rng: v.rng, score: v.score },
        p.body,
        moved.slots.len(),
    );
}

/// After any tick that leaves the game in `Playing`, there are at least as
/// many particles as the configured minimum.
pub proof fn lemma_population(v: GameView, input: Input)
    requires
        v.wf(),
        v.ticked(input).state == GameState::Playing,
    ensures
        v.ticked(input).pool.live() >= v.config.min_particles,
{
    lemma_ticked(v, input);
}

/// A game.
pub struct Game {
    config: GameConfig,
    state: GameState,
    score: u64,
    ticks_left: u32,
    walls: Option<[Body; 4]>,
    player: Option<Player>,
    particles: ParticlePool,
    rng: Lcg,
}

impl View for Game {
    type V = GameView;

    closed spec fn view(&self) -> GameView {
        GameView {
            config: self.config,
            state: self.state,
            score: self.score,
            ticks_left: self.ticks_left,
            walls: match self.walls {
                Some(w) => w@,
                None => Seq::empty(),
            },
            player: self.player,
            pool: self.particles@,
            rng: self.rng.state,
        }
    }
}

impl Game {
    /// Starts a game with the given configuration, its first session
    /// already set up, or refuses the configuration for the first rule that
    /// it breaks. The seed determines where particles are placed.
    pub fn new(config: GameConfig, seed: u64) -> (r: Result<Game, ConfigError>)
        ensures
            match r {
                Ok(g) => config.check() is Ok && g@ == GameView::blank(config, seed).set_up()
                    && g@.wf(),
                Err(e) => config.check() == Err::<(), ConfigError>(e),
            },
    {
        match config.validate() {
            Err(e) => Err(e),
            Ok(_) => {
                let mut game = Game {
                    config,
                    state: GameState::GameOver,
                    score: 0,
                    ticks_left: 0,
                    walls: None,
                    player: None,
                    particles: ParticlePool::new(),
                    rng: Lcg::new(seed),
                };
                assert(game@ == GameView::blank(config, seed));
                game.enter_playing();
                Ok(game)
            },
        }
    }

    /// The configuration.
    pub fn config(&self) -> (c: GameConfig)
        ensures
            c == self@.config,
    {
        self.config
    }

    /// The state.
    pub fn state(&self) -> (s: GameState)
        ensures
            s == self@.state,
    {
        self.state
    }

    /// The score.
    pub fn score(&self) -> (s: u64)
        ensures
            s == self@.score,
    {
        self.score
    }

    /// The number of ticks until the session ends.
    pub fn ticks_left(&self) -> (t: u32)
        ensures
            t == self@.ticks_left,
    {
        self.ticks_left
    }

    /// The walls, in the order left, right, top, bottom, if there is a
    /// session.
    pub fn walls(&self) -> (w: Option<[Body; 4]>)
        ensures
            match w {
                Some(w) => self@.walls == w@,
                None => self@.walls == Seq::<Body>::empty(),
            },
    {
        self.walls
    }

    /// The player, if there is a session.
    pub fn player(&self) -> (p: Option<Player>)
        ensures
            p == self@.player,
    {
        self.player
    }

    /// The number of particle slots: the handles of particles are below it.
    pub fn particle_slots(&self) -> (n: usize)
        ensures
            n == self@.pool.slots.len(),
    {
        self.particles.capacity()
    }

    /// The number of particles.
    pub fn particle_count(&self) -> (n: usize)
        requires
            self@.pool.wf(),
        ensures
            n == self@.pool.live(),
    {
        self.particles.live()
    }

    /// The particle with handle `h`, if there is one.
    pub fn particle(&self, h: usize) -> (p: Option<Particle>)
        ensures
            p == self@.pool.get(h as int),
    {
        self.particles.get(h)
    }

    /// Entering `Playing`: despawns whatever is left of a session, then sets
    /// up a new one.
    pub fn enter_playing(&mut self)
        requires
            old(self)@.config.wf(),
        ensures
            final(self)@ == old(self)@.set_up(),
            final(self)@.wf(),
    {
        proof {
            lemma_set_up(self@);
        }
        self.exit_playing();
        let config = self.config;
        let player = Player::spawn(config.sprites.size(EntityKind::Player).half_extent());
        populate(
            &mut self.particles,
            &mut self.rng,
            &config,
            &player.body,
            config.initial_particles,
        );
        self.walls = Some(config.arena.walls());
        self.player = Some(player);
        self.score = 0;
        self.ticks_left = config.session_ticks;
        self.state = GameState::Playing;
    }

    /// The update of `Playing`: one tick of play.
    pub fn update_playing(&mut self, input: &Input)
        requires
            old(self)@.wf(),
            old(self)@.state == GameState::Playing,
        ensures
            final(self)@ == old(self)@.played(*input),
            final(self)@.wf(),
    {
        proof {
            lemma_played(self@, *input);
            assert(self@.config.arena.wall_bodies().len() == 4);
        }
        let config = self.config;
        match (self.walls, self.player) {
            (Some(walls), Some(p)) => {
                let mut player = p;
                player.step(&config.arena, &walls, input);
                self.player = Some(player);
                advance(&mut self.particles, &config, &walls, player.body.center);
                harvest(&mut self.particles, &mut self.rng, &mut self.score, &config, &player.body);
                if self.ticks_left > 0 {
                    self.ticks_left = self.ticks_left - 1;
                }
            },
            _ => {},
        }
    }

    /// Leaving `Playing`: despawns the walls, the player and the particles.
    pub fn exit_playing(&mut self)
        ensures
            final(self)@ == old(self)@.torn_down(),
    {
        self.walls = None;
        self.player = None;
        self.particles.clear();
    }

    /// Entering `GameOver`.
    pub fn enter_game_over(&mut self)
        ensures
            final(self)@ == old(self)@.over(),
    {
        self.state = GameState::GameOver;
    }

    /// Advances the game by one tick and tells what became of its state.
    pub fn tick(&mut self, input: &Input) -> (t: Transition)
        requires
            old(self)@.wf(),
        ensures
            final(self)@ == old(self)@.ticked(*input),
            t == old(self)@.transition(*input),
            final(self)@.wf(),
    {
        proof {
            lemma_ticked(self@, *input);
        }
        match self.state {
            GameState::Playing => {
                self.update_playing(input);
                if self.ticks_left == 0 {
                    self.exit_playing();
                    self.enter_game_over();
                    Transition::Ended
                } else {
                    Transition::Stay
                }
            },
            GameState::GameOver => {
                if input.restart {
                    self.enter_playing();
                    Transition::Restarted
                } else {
                    Transition::Stay
                }
            },
        }
    }
}

} // verus!
