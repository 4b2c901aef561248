//! The round controller: the state machine that runs a round from its start
//! to the result screen, and drives the spawner, the mover, the input
//! resolver and the lifetime reaper on every tick.

use crate::cube::{Color, Direction};
use crate::input::ArrowKeys;
use crate::message::{draw_pick, Message, POOL_SIZE};
use crate::score::{miss_points, press_points, Score};
use crate::spawner::{
    draw_spawn, lemma_spawner_tick, SpawnDraw, Spawner, SpawnerModel, FIRST_INTERVAL_NS,
    MIN_INTERVAL_NS,
};
use crate::store::{lemma_passes, CubeStore, StoreModel};
use crate::timer::{Timer, TimerMode, TimerModel};
use vstd::prelude::*;

verus! {

/// Length of a round: thirty seconds.
pub const ROUND_NS: u64 = 30_000_000_000;

/// Where the game stands.
#[derive(Clone, Copy, Debug, PartialEq, Eq, Structural)]
pub enum RoundState {
    /// Waiting for a round to be started.
    Menu,
    /// A round is running.
    DuringRound,
    /// A round is over and its result is shown.
    AfterRound,
}

/// What the host reports for one tick.
#[derive(Clone, Copy, Debug, PartialEq, Eq)]
pub struct Input {
    /// Time since the last tick, in nanoseconds.
    pub delta_ns: u64,
    /// The arrow keys that went down.
    pub arrows: ArrowKeys,
    /// Whether the key that starts a round from the menu went down.
    pub start: bool,
    /// Whether the key that restarts after a round went down.
    pub restart: bool,
    /// Whether the key that leads from the result to the menu went down.
    pub to_menu: bool,
    /// Size of the screen, in length units.
    pub width: u32,
    pub height: u32,
}

/// What one tick of a round is given: the time, the keys and the draws.
pub struct Tick {
    pub delta: nat,
    pub keys: ArrowKeys,
    pub spawn: Option<SpawnDraw>,
    pub pick: Option<u8>,
}

/// The time that a sequence of ticks adds up to.
pub open spec fn time_of(ticks: Seq<Tick>) -> nat
    decreases ticks.len(),
{
    if ticks.len() == 0 {
        0
    } else {
        time_of(ticks.drop_last()) + ticks.last().delta
    }
}

/// Mathematical model of a [`Game`].
pub struct GameModel {
    pub state: RoundState,
    pub score: int,
    /// The timer of the round.
    pub round: TimerModel,
    pub spawner: SpawnerModel,
    pub store: StoreModel,
    /// The result message, shown after a round.
    pub message: Option<Message>,
}

impl GameModel {
    /// What holds of a game between any two calls.
    ///
    /// The round timer is a one-shot timer of thirty seconds. While a round
    /// runs it has not finished, every cube is on course, at most one cube
    /// has been spawned for each second of the round (two seconds' grace for
    /// the time that the spawner brought along), and the score lies between
    /// five off and one point for each cube that is gone. Outside a round no
    /// cube lives, and the message is there exactly after a round.
    pub open spec fn wf(self) -> bool {
        &&& self.round.mode is OneShot
        &&& self.round.duration == ROUND_NS
        &&& self.spawner.wf()
        &&& self.store.wf()
        &&& self.store.on_course()
        &&& match self.state {
            RoundState::DuringRound => {
                &&& !self.round.finished
                &&& self.round.elapsed < ROUND_NS
                &&& self.store.issued * MIN_INTERVAL_NS + self.spawner.timer.elapsed
                    <= self.round.elapsed + FIRST_INTERVAL_NS
                &&& -5 * (self.store.issued - self.store.cubes.len()) <= self.score
                    <= self.store.issued - self.store.cubes.len()
                &&& self.message is None
            },
            RoundState::Menu => {
                &&& self.idle()
                &&& self.message is None
            },
            RoundState::AfterRound => {
                &&& self.idle()
                &&& (self.message matches Some(m) && m.wf())
            },
        }
    }

    /// No cube lives, and the round timer is either fresh or finished.
    pub open spec fn idle(self) -> bool {
        &&& self.store.cubes.len() == 0
        &&& self.store.issued == 0
        &&& (self.round.finished || self.round.elapsed == 0)
    }

    /// A game that starts with a round.
    pub open spec fn fresh() -> GameModel {
        GameModel::at_menu().entered_round()
    }

    /// A game that starts at the menu.
    pub open spec fn at_menu() -> GameModel {
        GameModel {
            state: RoundState::Menu,
            score: 0,
            round: TimerModel::fresh(ROUND_NS as nat, TimerMode::OneShot),
            spawner: SpawnerModel::fresh(),
            store: StoreModel::empty(),
            message: None,
        }
    }

    /// Entering a round: the score is zero, the round timer starts over if it
    /// had finished, and no result is shown.
    pub open spec fn entered_round(self) -> GameModel {
        GameModel {
            state: RoundState::DuringRound,
            score: 0,
            round: if self.round.finished {
                self.round.reset()
            } else {
                self.round
            },
            message: None,
            ..self
        }
    }

    /// The start of a round from the menu; nothing in any other state.
    pub open spec fn started(self) -> GameModel {
        if self.state is Menu {
            self.entered_round()
        } else {
            self
        }
    }

    /// A new round after a round; nothing in any other state.
    pub open spec fn restarted(self) -> GameModel {
        if self.state is AfterRound {
            self.entered_round()
        } else {
            self
        }
    }

    /// From the result to the menu, taking the message away; nothing in any
    /// other state.
    pub open spec fn gone_to_menu(self) -> GameModel {
        if self.state is AfterRound {
            GameModel { state: RoundState::Menu, message: None, ..self }
        } else {
            self
        }
    }

    /// Whether a tick of `delta` nanoseconds spawns a cube.
    pub open spec fn spawn_due(self, delta: nat) -> bool {
        self.state is DuringRound && self.spawner.tick(delta).due()
    }

    /// Whether a tick of `delta` nanoseconds ends the round.
    pub open spec fn round_ends(self, delta: nat) -> bool {
        self.state is DuringRound && self.round.tick(delta).just_finished()
    }

    /// The store after the three passes of a tick: moved, resolved, reaped.
    pub open spec fn passed(self, delta: nat, keys: ArrowKeys) -> StoreModel {
        self.store.advanced(delta).resolved(keys).reaped(delta)
    }

    /// The score after a tick: one point for each purple cube that a pressed
    /// key stands for, five off for each other cube that one stands for, and
    /// five off for each purple cube that expires among those left.
    pub open spec fn scored(self, delta: nat, keys: ArrowKeys) -> int {
        self.score + press_points(
            self.store.advanced(delta).hits(keys),
            self.store.advanced(delta).fouls(keys),
        ) + miss_points(self.store.advanced(delta).resolved(keys).misses(delta))
    }

    /// One tick of a running round; nothing in any other state.
    ///
    /// The cubes move, the pressed keys are resolved and the expired cubes
    /// are reaped, in this order. If the spawner's interval has elapsed, the
    /// cube that `spawn` describes enters the store, untouched by this tick,
    /// and the spawner gets its new interval. If the round timer has run
    /// out, the cubes go and the result message is chosen by the score and
    /// `pick`.
    pub open spec fn ticked(
        self,
        delta: nat,
        keys: ArrowKeys,
        spawn: Option<SpawnDraw>,
        pick: Option<u8>,
    ) -> GameModel {
        if !(self.state is DuringRound) {
            self
        } else {
            let score = self.scored(delta, keys);
            let left = self.passed(delta, keys);
            let ticked = self.spawner.tick(delta);
            let draw = spawn.unwrap();
            let spawner = if ticked.due() {
                ticked.rescheduled(draw.interval_ns as nat)
            } else {
                ticked
            };
            let store = if ticked.due() {
                left.spawned(
                    Direction::of_index(draw.direction as int),
                    Color::of_draw(draw.purple),
                    draw.speed as nat,
                )
            } else {
                left
            };
            let round = self.round.tick(delta);
            if round.just_finished() {
                GameModel {
                    state: RoundState::AfterRound,
                    score,
                    round,
                    spawner,
                    store: StoreModel::empty(),
                    message: Some(Message::of_score(score, pick.unwrap())),
                }
            } else {
                GameModel {
                    state: RoundState::DuringRound,
                    score,
                    round,
                    spawner,
                    store,
                    message: None,
                }
            }
        }
    }

    /// The game after the given ticks, in order.
    pub open spec fn run(self, ticks: Seq<Tick>) -> GameModel
        decreases ticks.len(),
    {
        if ticks.len() == 0 {
            self
        } else {
            self.run(ticks.drop_last()).ticked(
                ticks.last().delta,
                ticks.last().keys,
                ticks.last().spawn,
                ticks.last().pick,
            )
        }
    }

    /// Whether every tick of `run` brings the draws that it needs.
    pub open spec fn accepts_all(self, ticks: Seq<Tick>) -> bool
        decreases ticks.len(),
    {
        ticks.len() == 0 || (self.accepts_all(ticks.drop_last()) && self.run(
            ticks.drop_last(),
        ).accepts(ticks.last().delta, ticks.last().spawn, ticks.last().pick))
    }

    /// One tick of the whole game: what the state calls for, and nothing else.
    /// At the menu only the start key counts; in a round the tick runs;
    /// after a round the restart key counts, and the menu key if the
    /// restart key is not pressed.
    pub open spec fn updated(self, input: Input, spawn: Option<SpawnDraw>, pick: Option<u8>)
        -> GameModel {
        match self.state {
            RoundState::Menu => if input.start {
                self.started()
            } else {
                self
            },
            RoundState::DuringRound => self.ticked(
                input.delta_ns as nat,
                input.arrows,
                spawn,
                pick,
            ),
            RoundState::AfterRound => if input.restart {
                self.restarted()
            } else if input.to_menu {
                self.gone_to_menu()
            } else {
                self
            },
        }
    }

    /// Whether the draws are what a tick of `delta` nanoseconds needs: a
    /// well-formed spawn draw if a cube is due, a place in the pool if the
    /// round ends.
    pub open spec fn accepts(self, delta: nat, spawn: Option<SpawnDraw>, pick: Option<u8>) -> bool {
        &&& self.spawn_due(delta) ==> (spawn matches Some(d) && d.wf())
        &&& self.round_ends(delta) ==> (pick matches Some(p) && p < POOL_SIZE)
    }
}

/// A tick keeps a game well-formed. While the round runs, fewer than 32
/// cubes have been spawned, so the score stays far inside 16 bits.
proof fn lemma_tick(
    game: GameModel,
    delta: nat,
    keys: ArrowKeys,
    spawn: Option<SpawnDraw>,
    pick: Option<u8>,
)
    requires
        game.wf(),
        game.accepts(delta, spawn, pick),
    ensures
        game.ticked(delta, keys, spawn, pick).wf(),
        game.state is DuringRound ==> {
            &&& game.store.issued < 32
            &&& game.passed(delta, keys).wf()
            &&& game.passed(delta, keys).issued == game.store.issued
            &&& -160 <= game.scored(delta, keys) <= 32
            &&& delta <= u64::MAX ==> game.store.can_advance(delta)
        },
{
    if game.state is DuringRound {
        lemma_passes(game.store, delta, keys);
        lemma_spawner_tick(game.spawner, delta);
        let left = game.passed(delta, keys);
        let ticked = game.spawner.tick(delta);
        let after = game.ticked(delta, keys, spawn, pick);
        if ticked.due() && !game.round.tick(delta).just_finished() {
            assert(after.store.cubes.last().on_course());
            let cubes = after.store.cubes;
            assert forall|i: int| 0 <= i < cubes.len() implies (#[trigger] cubes[i]).on_course() by {
                if i < left.cubes.len() {
                    assert(cubes[i] == left.cubes[i]);
                }
            }
            assert forall|i: int, j: int| 0 <= i < j < cubes.len() implies (#[trigger] cubes[i]).id
                < (#[trigger] cubes[j]).id by {
                assert(cubes[i] == left.cubes[i]);
                if j < left.cubes.len() {
                    assert(cubes[j] == left.cubes[j]);
                }
            }
            assert forall|i: int| 0 <= i < cubes.len() implies (#[trigger] cubes[i]).wf()
                && cubes[i].id < after.store.issued by {
                if i < left.cubes.len() {
                    assert(cubes[i] == left.cubes[i]);
                }
            }
        }
    }
}

/// Entering a round, from the menu or after a round, always yields a score
/// of zero and an empty store.
pub proof fn law_round_starts_clean(
    game: GameModel,
    input: Input,
    spawn: Option<SpawnDraw>,
    pick: Option<u8>,
)
    requires
        game.wf(),
        !(game.state is DuringRound),
        game.updated(input, spawn, pick).state is DuringRound,
    ensures
        game.updated(input, spawn, pick).score == 0,
        game.updated(input, spawn, pick).store.cubes.len() == 0,
        game.updated(input, spawn, pick).store.issued == 0,
        game.updated(input, spawn, pick).round.elapsed == 0,
        !game.updated(input, spawn, pick).round.finished,
        game.updated(input, spawn, pick).message is None,
{
}

/// A round lasts thirty seconds, however the time is cut into ticks: while
/// the ticks add up to less, the round runs; as soon as they reach thirty
/// seconds, the result is shown and no cube is left. The game stays
/// well-formed throughout.
pub proof fn law_round_lasts_thirty_seconds(game: GameModel, ticks: Seq<Tick>)
    requires
        game.wf(),
        game.state is DuringRound,
        game.accepts_all(ticks),
    ensures
        game.run(ticks).wf(),
        game.round.elapsed + time_of(ticks) < ROUND_NS ==> {
            &&& game.run(ticks).state is DuringRound
            &&& game.run(ticks).round.elapsed == game.round.elapsed + time_of(ticks)
        },
        game.round.elapsed + time_of(ticks) >= ROUND_NS ==> {
            &&& game.run(ticks).state is AfterRound
            &&& game.run(ticks).store.cubes.len() == 0
            &&& game.run(ticks).message is Some
        },
    decreases ticks.len(),
{
    if ticks.len() > 0 {
        let last = ticks.last();
        law_round_lasts_thirty_seconds(game, ticks.drop_last());
        lemma_tick(game.run(ticks.drop_last()), last.delta, last.keys, last.spawn, last.pick);
    }
}

/// While a round runs, fewer than 32 cubes have been spawned in it, and the
/// score lies between five off and one point for each of them.
pub proof fn law_score_stays_small(game: GameModel)
    requires
        game.wf(),
        game.state is DuringRound,
    ensures
        game.store.issued < 32,
        -5 * game.store.issued <= game.score <= game.store.issued,
        -155 <= game.score <= 31,
{
}

/// The game: state, score, round timer, spawner and the store of cubes.
#[derive(Clone, Debug, PartialEq, Eq)]
pub struct Game {
    state: RoundState,
    score: Score,
    round_timer: Timer,
    spawner: Spawner,
    cubes: CubeStore,
    message: Option<Message>,
}

impl View for Game {
    type V = GameModel;

    closed spec fn view(&self) -> GameModel {
        GameModel {
            state: self.state,
            score: self.score@,
            round: self.round_timer@,
            spawner: self.spawner@,
            store: self.cubes@,
            message: self.message,
        }
    }
}

impl Game {
    /// A game that starts with a round: the score is zero, thirty seconds
    /// lie ahead and the first cube is due after two.
    pub fn new() -> (game: Game)
        ensures
            game@ == GameModel::fresh(),
            game@.wf(),
    {
        let mut game = Game::at_menu();
        game.start();
        game
    }

    /// A game that waits at the menu.
    pub fn at_menu() -> (game: Game)
        ensures
            game@ == GameModel::at_menu(),
            game@.wf(),
    {
        Game {
            state: RoundState::Menu,
            score: Score::new(),
            round_timer: Timer::new(ROUND_NS, TimerMode::OneShot),
            spawner: Spawner::new(),
            cubes: CubeStore::new(),
            message: None,
        }
    }

    pub fn state(&self) -> (state: RoundState)
        ensures
            state == self@.state,
    {
        self.state
    }

    pub fn score(&self) -> (score: i16)
        ensures
            score == self@.score,
    {
        self.score.value()
    }

    /// The timer of the round.
    pub fn round_timer(&self) -> (timer: Timer)
        ensures
            timer@ == self@.round,
    {
        self.round_timer
    }

    pub fn spawner(&self) -> (spawner: Spawner)
        ensures
            spawner@ == self@.spawner,
    {
        self.spawner
    }

    /// The live cubes.
    pub fn cubes(&self) -> (cubes: &CubeStore)
        ensures
            cubes@ == self@.store,
    {
        &self.cubes
    }

    /// The result message, if a round has just ended.
    pub fn message(&self) -> (message: Option<Message>)
        ensures
            message == self@.message,
    {
        self.message
    }

    /// Whether a tick of `delta_ns` would spawn a cube.
    pub fn spawn_due(&self, delta_ns: u64) -> (due: bool)
        requires
            self@.wf(),
        ensures
            due == self@.spawn_due(delta_ns as nat),
    {
        match self.state {
            RoundState::DuringRound => self.spawner.due_after(delta_ns),
            _ => false,
        }
    }

    /// Whether a tick of `delta_ns` would end the round.
    pub fn round_ends(&self, delta_ns: u64) -> (ends: bool)
        requires
            self@.wf(),
        ensures
            ends == self@.round_ends(delta_ns as nat),
    {
        match self.state {
            RoundState::DuringRound => {
                let mut timer = self.round_timer;
                timer.tick(delta_ns);
                timer.just_finished()
            },
            _ => false,
        }
    }

    /// Enters a round, whatever the state was.
    fn enter_round(&mut self)
        requires
            old(self)@.wf(),
            !(old(self)@.state is DuringRound),
        ensures
            final(self)@ == old(self)@.entered_round(),
            final(self)@.wf(),
            final(self)@.score == 0,
            final(self)@.store.cubes.len() == 0,
    {
        self.score.reset();
        if self.round_timer.finished() {
            self.round_timer.reset();
        }
        self.message = None;
        self.state = RoundState::DuringRound;
    }

    /// Starts a round from the menu. In any other state nothing happens.
    pub fn start(&mut self)
        requires
            old(self)@.wf(),
        ensures
            final(self)@ == old(self)@.started(),
            final(self)@.wf(),
    {
        match self.state {
            RoundState::Menu => {
                self.enter_round();
            },
            _ => {},
        }
    }

    /// Starts a new round after a round. In any other state nothing happens.
    pub fn restart(&mut self)
        requires
            old(self)@.wf(),
        ensures
            final(self)@ == old(self)@.restarted(),
            final(self)@.wf(),
    {
        match self.state {
            RoundState::AfterRound => {
                self.enter_round();
            },
            _ => {},
        }
    }

    /// Goes from the result to the menu. In any other state nothing happens.
    pub fn to_menu(&mut self)
        requires
            old(self)@.wf(),
        ensures
            final(self)@ == old(self)@.gone_to_menu(),
            final(self)@.wf(),
    {
        match self.state {
            RoundState::AfterRound => {
                self.message = None;
                self.state = RoundState::Menu;
            },
            _ => {},
        }
    }

    /// One tick of a running round, with the draws given. In any other
    /// state nothing happens.
    pub fn tick(
        &mut self,
        delta_ns: u64,
        keys: &ArrowKeys,
        spawn: Option<SpawnDraw>,
        pick: Option<u8>,
    )
        requires
            old(self)@.wf(),
            old(self)@.accepts(delta_ns as nat, spawn, pick),
        ensures
            final(self)@ == old(self)@.ticked(delta_ns as nat, *keys, spawn, pick),
            final(self)@.wf(),
    {
        match self.state {
            RoundState::DuringRound => {},
            _ => {
                return ;
            },
        }
        proof {
            lemma_tick(self@, delta_ns as nat, *keys, spawn, pick);
        }
        let due = self.spawner.tick(delta_ns);
        self.cubes.advance(delta_ns);
        let outcome = self.cubes.resolve(keys);
        let misses = self.cubes.reap(delta_ns);
        self.score.settle(outcome, misses);
        if due {
            match spawn {
                Some(draw) => {
                    self.cubes.spawn(
                        Direction::from_index(draw.direction),
                        Color::from_draw(draw.purple),
                        draw.speed,
                    );
                    self.spawner.reschedule(draw.interval_ns);
                },
                None => {},
            }
        }
        self.round_timer.tick(delta_ns);
        if self.round_timer.just_finished() {
            self.cubes.clear();
            match pick {
                Some(place) => {
                    self.message = Some(Message::for_score(self.score.value(), place));
                },
                None => {},
            }
            self.state = RoundState::AfterRound;
        }
    }

    /// One tick of the whole game, with the draws given.
    pub fn update(&mut self, input: &Input, spawn: Option<SpawnDraw>, pick: Option<u8>)
        requires
            old(self)@.wf(),
            old(self)@.accepts(input.delta_ns as nat, spawn, pick),
        ensures
            final(self)@ == old(self)@.updated(*input, spawn, pick),
            final(self)@.wf(),
    {
        match self.state {
            RoundState::Menu => {
                if input.start {
                    self.start();
                }
            },
            RoundState::DuringRound => {
                self.tick(input.delta_ns, &input.arrows, spawn, pick);
            },
            RoundState::AfterRound => {
                if input.restart {
                    self.restart();
                } else if input.to_menu {
                    self.to_menu();
                }
            },
        }
    }

    /// One tick of the whole game. The draws that the tick needs are made
    /// from `rng`, and only those: a spawn draw that fits the screen if a cube
    /// is due, a pick if the round ends. Whatever was drawn, the game is
    /// updated as by `update` with draws that it accepts.
    pub fn play(&mut self, input: &Input, rng: &mut rand::rngs::StdRng)
        requires
            old(self)@.wf(),
        ensures
            final(self)@.wf(),
            exists|spawn: Option<SpawnDraw>, pick: Option<u8>|
                {
                    &&& old(self)@.accepts(input.delta_ns as nat, spawn, pick)
                    &&& (spawn matches Some(d) ==> d.fits(input.width, input.height))
                    &&& #[trigger] old(self)@.updated(*input, spawn, pick) == final(self)@
                },
    {
        let spawn = if self.spawn_due(input.delta_ns) {
            Some(draw_spawn(rng, input.width, input.height))
        } else {
            None
        };
        let pick = if self.round_ends(input.delta_ns) {
            Some(draw_pick(rng))
        } else {
            None
        };
        self.update(input, spawn, pick);
    }
}

} // verus!
