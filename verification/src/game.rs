//! The session: it owns the entities, runs the stages of a frame, and folds
//! the frame's events into lives, death markers and the ball's next state.
//!
//! [`Session`] is the mathematical model of a game, and its spec functions
//! say what a frame does to it. [`Game`] is the value that runs; its methods
//! are proved to follow the model.
use vstd::prelude::*;
use crate::components::particle::BURST;
use crate::components::{Ball, Brick, Particle, Platform, Status};
use crate::constants::{BALL_RADIUS, MAX_LIVES};
use crate::math::Vector2;
use crate::systems::audio::Cue;
use crate::systems::physics;
use crate::systems::physics::{
    collision_stage, glided, seated, still_gliding, wall_stage,
};
use crate::systems::render::{get_ball_lives_pos, life_marker};

verus! {

/// What happened to the ball during a frame.
#[derive(Clone, Copy, Debug, PartialEq, Eq, Structural)]
pub enum GameEvent {
    /// The ball bounced off a side wall or the top.
    BallHitWall,
    /// The ball left the arena through the bottom.
    BallDropped,
    /// The ball bounced off the paddle at the given point.
    BallHitPlatform(Vector2),
    /// The ball destroyed a brick while at the given point.
    BrickCollision(Vector2),
}

/// What the player and the clock contribute to a frame.
#[derive(Clone, Copy, Debug, PartialEq, Eq, Structural)]
pub struct Input {
    /// The key that moves the paddle left is held.
    pub left: bool,
    /// The key that moves the paddle right is held.
    pub right: bool,
    /// The action key was pressed in this frame: launch, or restart.
    pub action: bool,
    /// Time since the previous frame, in seconds. Expected not to be negative.
    pub dt: i32,
}

/// What a frame hands back to the caller.
#[derive(Debug)]
pub struct Frame {
    /// The events of the frame, in the order in which they happened.
    pub events: Vec<GameEvent>,
    /// The sounds to play, in order.
    pub cues: Vec<Cue>,
}

/// The state of a game between two frames.
pub struct Session {
    pub ball: Ball,
    pub bricks: Seq<Brick>,
    pub platform: Platform,
    pub particles: Seq<Particle>,
    pub lives: u8,
    /// Where each lost ball came to rest, oldest first.
    pub dead_balls_pos: Seq<Vector2>,
}

/// A session after a step, with what the step reported.
pub struct Outcome {
    pub session: Session,
    pub events: Seq<GameEvent>,
    pub cues: Seq<Cue>,
}

impl GameEvent {
    /// The point of impact of an event that has one.
    pub open spec fn impact(self) -> Option<Vector2> {
        match self {
            GameEvent::BallHitPlatform(p) => Some(p),
            GameEvent::BrickCollision(p) => Some(p),
            _ => None,
        }
    }

    /// The points of impact of the events, in their order.
    pub open spec fn impacts(events: Seq<GameEvent>) -> Seq<Vector2>
        decreases events.len(),
    {
        if events.len() == 0 {
            Seq::empty()
        } else {
            let before = GameEvent::impacts(events.drop_last());
            match events.last().impact() {
                Some(p) => before.push(p),
                None => before,
            }
        }
    }

    /// `sparks` is what the events set off: one burst for each point of
    /// impact, in the order of the events.
    pub open spec fn sets_off(events: Seq<GameEvent>, sparks: Seq<Particle>) -> bool {
        let points = GameEvent::impacts(events);
        &&& sparks.len() == BURST * points.len()
        &&& forall|i: int|
            0 <= i < sparks.len() ==> (#[trigger] sparks[i]).sparks_from(points[i / (BURST as int)])
    }
}

impl Session {
    /// What holds of a session between any two frames, given that time never
    /// runs backwards: the ball has the standard radius and is at rest unless
    /// in flight; the paddle lies between the side walls; the ball is dead
    /// exactly when no life is left; every life lost has left one death
    /// marker; and every particle has life left.
    pub open spec fn valid(self) -> bool {
        &&& self.ball.rests_unless_running()
        &&& self.ball.radius == BALL_RADIUS
        &&& self.platform.within_arena()
        &&& self.lives <= MAX_LIVES
        &&& (self.ball.status is Dead) == (self.lives == 0)
        &&& self.dead_balls_pos.len() + self.lives == MAX_LIVES
        &&& forall|i: int| 0 <= i < self.particles.len() ==> (#[trigger] self.particles[i]).alive()
    }

    /// A new session over the given bricks: full lives, no death markers, no
    /// particles, the paddle centred and the ball waiting on it.
    pub open spec fn opening(bricks: Seq<Brick>) -> Session {
        Session {
            ball: seated(Ball::initial(), Platform::initial()),
            bricks,
            platform: Platform::initial(),
            particles: Seq::empty(),
            lives: MAX_LIVES,
            dead_balls_pos: Seq::empty(),
        }
    }

    /// The game is won: no brick is active.
    pub open spec fn won(self) -> bool {
        forall|i: int| 0 <= i < self.bricks.len() ==> !(#[trigger] self.bricks[i]).active
    }

    /// The session after the paddle followed the held keys: left first, then right.
    pub open spec fn paddle_moved(self, input: Input) -> Session {
        let p = if input.left {
            self.platform.moved_left(input.dt)
        } else {
            self.platform
        };
        Session { platform: if input.right { p.moved_right(input.dt) } else { p }, ..self }
    }

    /// The session after a reset: full lives, no death markers, every brick
    /// active again, and the ball waiting on the paddle.
    pub open spec fn reset(self) -> Session {
        Session {
            lives: MAX_LIVES,
            dead_balls_pos: Seq::empty(),
            ball: seated(self.ball.cleared(), self.platform),
            bricks: self.bricks.map_values(|b: Brick| b.restored()),
            ..self
        }
    }

    /// The session after the restart of a cleared game: a reset with the
    /// paddle back in the middle.
    pub open spec fn restarted(self) -> Session {
        Session { platform: Platform::initial(), ..self }.reset()
    }

    /// The lives that are left after one more was lost.
    pub open spec fn lives_after_drop(self) -> u8 {
        if self.lives > 0 {
            (self.lives - 1) as u8
        } else {
            0
        }
    }

    /// The session after one event. Only the loss of the ball changes it:
    /// the place of the ball is recorded and a life is taken. If a life is
    /// left, the next ball appears at rest at the marker of that life,
    /// `Spawning`; if none is left, the ball stays dead.
    pub open spec fn folded(self, event: GameEvent) -> Session {
        match event {
            GameEvent::BallDropped => {
                let lives = self.lives_after_drop();
                Session {
                    dead_balls_pos: self.dead_balls_pos.push(self.ball.pos),
                    lives,
                    ball: if lives > 0 {
                        Ball {
                            pos: life_marker(lives),
                            status: Status::Spawning,
                            ..self.ball.cleared()
                        }
                    } else {
                        self.ball
                    },
                    ..self
                }
            },
            _ => self,
        }
    }

    /// The sound that goes with an event: the transition sound when the ball
    /// is lost and a life is left, none when it is lost for good, and the
    /// bounce sound for every contact.
    pub open spec fn cue_for(self, event: GameEvent) -> Option<Cue> {
        match event {
            GameEvent::BallDropped => if self.lives_after_drop() > 0 {
                Some(Cue::Transition)
            } else {
                None
            },
            _ => Some(Cue::Bounce),
        }
    }

    /// The session after the events, folded in one after the other.
    pub open spec fn folded_all(self, events: Seq<GameEvent>) -> Session
        decreases events.len(),
    {
        if events.len() == 0 {
            self
        } else {
            self.folded_all(events.drop_last()).folded(events.last())
        }
    }

    /// The sounds that go with the events, each judged by the session as it
    /// was when its event was folded in.
    pub open spec fn cues_for(self, events: Seq<GameEvent>) -> Seq<Cue>
        decreases events.len(),
    {
        if events.len() == 0 {
            Seq::empty()
        } else {
            let before = self.cues_for(events.drop_last());
            match self.folded_all(events.drop_last()).cue_for(events.last()) {
                Some(cue) => before.push(cue),
                None => before,
            }
        }
    }

    /// A session that reports nothing.
    pub open spec fn quiet(self) -> Outcome {
        Outcome { session: self, events: Seq::empty(), cues: Seq::empty() }
    }

    /// A frame of a ball in flight: the wall stage, then the collision
    /// stage, then the events of both folded into the session.
    pub open spec fn flown(self, dt: i32) -> Outcome {
        let (ball1, edge) = wall_stage(self.ball, dt);
        let (ball2, bricks, contact) = collision_stage(ball1, self.platform, self.bricks);
        let after = Session { ball: ball2, bricks, ..self };
        Outcome {
            session: after.folded_all(edge + contact),
            events: edge + contact,
            cues: after.cues_for(edge + contact),
        }
    }

    /// The ball's part of a frame.
    ///
    /// In a won game the action restarts the session, whatever the ball is
    /// doing. Otherwise: a ball at `Start` sits on the paddle and is launched
    /// by the action; a ball in flight goes through the stages; a dead ball
    /// waits for the action, which resets the session once no life is left;
    /// a spawning ball glides towards the paddle and is seated at `Start`
    /// when it has arrived.
    pub open spec fn ball_moved(self, action: bool, dt: i32) -> Outcome {
        if self.won() && action {
            self.restarted().quiet()
        } else {
            match self.ball.status {
                Status::Start => {
                    let ball = seated(self.ball, self.platform);
                    Session { ball: if action { ball.launched() } else { ball }, ..self }.quiet()
                },
                Status::Running => self.flown(dt),
                Status::Dead => if action && self.lives == 0 {
                    self.reset().quiet()
                } else {
                    self.quiet()
                },
                Status::Spawning => Session {
                    ball: if still_gliding(self.ball, self.platform) {
                        glided(self.ball, self.platform, dt)
                    } else {
                        seated(Ball { status: Status::Start, ..self.ball }, self.platform)
                    },
                    ..self
                }.quiet(),
            }
        }
    }

    /// A frame without its particles: the paddle moves, then the ball.
    pub open spec fn advanced(self, input: Input) -> Outcome {
        self.paddle_moved(input).ball_moved(input.action, input.dt)
    }

    /// The end of a frame: the new sparks join the particles, all of them age
    /// by `dt`, and those without life left are dropped.
    pub open spec fn settled(self, sparks: Seq<Particle>, dt: i32) -> Session {
        Session {
            particles: Particle::survivors(Particle::all_aged(self.particles + sparks, dt)),
            ..self
        }
    }
}

/// A running game. Its state is read through [`Game::view`] in contracts and
/// through the accessors in code.
pub struct Game {
    ball: Ball,
    bricks: Vec<Brick>,
    platform: Platform,
    particles: Vec<Particle>,
    lives: u8,
    dead_balls_pos: Vec<Vector2>,
}

impl View for Game {
    type V = Session;

    closed spec fn view(&self) -> Session {
        Session {
            ball: self.ball,
            bricks: self.bricks@,
            platform: self.platform,
            particles: self.particles@,
            lives: self.lives,
            dead_balls_pos: self.dead_balls_pos@,
        }
    }
}

impl Game {
    /// A new game over the standard layout of four rows of ten bricks.
    pub fn new() -> (game: Game)
        ensures
            game@ == Session::opening(Brick::layout(4, 10)),
            game@.valid(),
    {
        Game::with_bricks(Brick::generate())
    }

    /// A new game over the given bricks.
    pub fn with_bricks(bricks: Vec<Brick>) -> (game: Game)
        ensures
            game@ == Session::opening(bricks@),
            game@.valid(),
    {
        proof {
            lemma_opening_is_valid(bricks@);
        }
        let mut game = Game {
            ball: Ball::new(),
            bricks,
            platform: Platform::new(),
            particles: Vec::new(),
            lives: MAX_LIVES,
            dead_balls_pos: Vec::new(),
        };

        game.sync_ball_position();
        game
    }

    /// Runs one frame: the paddle follows the keys, the ball moves and
    /// collides, the events are folded into the session, every point of
    /// impact sets off a burst of sparks, and the particles age.
    ///
    /// Everything but the velocities of the new sparks is determined by the
    /// input; of the sparks the contract says what holds however they fly.
    /// Whatever the input, a ball that was at rest unless in flight is so
    /// again after the frame; and as long as time does not run backwards, a
    /// valid session stays valid.
    pub fn update(&mut self, input: &Input) -> (frame: Frame)
        ensures
            frame.events@ == old(self)@.advanced(*input).events,
            frame.cues@ == old(self)@.advanced(*input).cues,
            exists|sparks: Seq<Particle>|
                #[trigger] GameEvent::sets_off(frame.events@, sparks) && final(self)@ == old(
                    self,
                )@.advanced(*input).session.settled(sparks, input.dt),
            old(self)@.ball.rests_unless_running() ==> final(self)@.ball.rests_unless_running(),
            old(self)@.valid() && input.dt >= 0 ==> final(self)@.valid(),
    {
        let frame = self.advance(input);
        let sparks = spawn_sparks(&frame.events);
        let ghost flying = sparks@;
        self.settle(sparks, input.dt);
        proof {
            if old(self)@.ball.rests_unless_running() {
                lemma_idle_ball_stays_at_rest(old(self)@, *input, flying);
            }
            if old(self)@.valid() && input.dt >= 0 {
                lemma_frame_keeps_session_valid(old(self)@, *input, flying);
            }
        }
        frame
    }

    /// The part of a frame that the input determines: the paddle moves, then
    /// the ball, and the events are folded into the session. The particles are
    /// left as they are.
    pub fn advance(&mut self, input: &Input) -> (frame: Frame)
        ensures
            final(self)@ == old(self)@.advanced(*input).session,
            frame.events@ == old(self)@.advanced(*input).events,
            frame.cues@ == old(self)@.advanced(*input).cues,
    {
        let dt: i32 = input.dt;

        if input.left {
            self.platform.move_left(dt);
        }
        if input.right {
            self.platform.move_right(dt);
        }

        self.move_ball(input.action, dt)
    }

    /// The end of a frame: adds `sparks` to the particles, ages them all by
    /// `dt` and drops those whose life is used up.
    pub fn settle(&mut self, sparks: Vec<Particle>, dt: i32)
        ensures
            final(self)@ == old(self)@.settled(sparks@, dt),
    {
        let mut sparks = sparks;
        self.particles.append(&mut sparks);
        Particle::age_all(&mut self.particles, dt);
    }

    /// Whether the game is won: no brick is active.
    pub fn won(&self) -> (won: bool)
        ensures
            won == self@.won(),
    {
        let mut i: usize = 0;
        while i < self.bricks.len()
            invariant
                i <= self.bricks@.len(),
                forall|k: int| 0 <= k < i ==> !(#[trigger] self.bricks@[k]).active,
            decreases self.bricks@.len() - i,
        {
            if self.bricks[i].active {
                assert(self@.bricks[i as int].active);
                return false;
            }
            i = i + 1;
        }
        true
    }

    pub fn ball(&self) -> (ball: &Ball)
        ensures
            *ball == self@.ball,
    {
        &self.ball
    }

    pub fn bricks(&self) -> (bricks: &Vec<Brick>)
        ensures
            bricks@ == self@.bricks,
    {
        &self.bricks
    }

    pub fn platform(&self) -> (platform: &Platform)
        ensures
            *platform == self@.platform,
    {
        &self.platform
    }

    pub fn particles(&self) -> (particles: &Vec<Particle>)
        ensures
            particles@ == self@.particles,
    {
        &self.particles
    }

    pub fn lives(&self) -> (lives: u8)
        ensures
            lives == self@.lives,
    {
        self.lives
    }

    pub fn dead_balls_pos(&self) -> (places: &Vec<Vector2>)
        ensures
            places@ == self@.dead_balls_pos,
    {
        &self.dead_balls_pos
    }

    fn move_ball(&mut self, action: bool, dt: i32) -> (frame: Frame)
        ensures
            final(self)@ == old(self)@.ball_moved(action, dt).session,
            frame.events@ == old(self)@.ball_moved(action, dt).events,
            frame.cues@ == old(self)@.ball_moved(action, dt).cues,
    {
        let mut frame = Frame { events: Vec::new(), cues: Vec::new() };
        if action && self.won() {
            self.platform = Platform::new();
            self.reset_game();
            return frame;
        }
        match self.ball.status {
            Status::Start => {
                physics::snap_ball_to_platform(&mut self.ball, &self.platform);

                if action {
                    self.ball.launch();
                }
            },
            Status::Running => {
                frame.events = physics::update_ball_position(&mut self.ball, dt);
                let ghost edge = frame.events@;
                let mut contact = physics::resolve_ball_collisions(
                    &mut self.ball,
                    &self.platform,
                    &mut self.bricks,
                );
                let ghost touched = contact@;
                frame.events.append(&mut contact);
                let ghost after = self@;
                let mut i: usize = 0;
                while i < frame.events.len()
                    invariant
                        i <= frame.events@.len(),
                        frame.events@ == edge + touched,
                        self@ == after.folded_all(frame.events@.take(i as int)),
                        frame.cues@ == after.cues_for(frame.events@.take(i as int)),
                    decreases frame.events@.len() - i,
                {
                    proof {
                        assert(frame.events@.take(i + 1).drop_last() =~= frame.events@.take(
                            i as int,
                        ));
                    }
                    if let Some(cue) = self.handle_event(frame.events[i]) {
                        frame.cues.push(cue);
                    }
                    i = i + 1;
                }
                proof {
                    assert(frame.events@.take(i as int) =~= frame.events@);
                }
            },
            Status::Dead => {
                if action && self.lives == 0 {
                    self.reset_game();
                }
            },
            Status::Spawning => {
                if physics::transition_ball(&mut self.ball, &self.platform, dt) {
                    return frame;  // the ball is still on its way
                }
                self.ball.status = Status::Start;
                self.sync_ball_position();
            },
        }
        frame
    }

    fn handle_event(&mut self, event: GameEvent) -> (cue: Option<Cue>)
        ensures
            final(self)@ == old(self)@.folded(event),
            cue == old(self)@.cue_for(event),
    {
        match event {
            GameEvent::BallDropped => {
                self.dead_balls_pos.push(self.ball.pos);
                if self.lives > 0 {
                    self.lives = self.lives - 1;
                }
                if self.lives > 0 {
                    self.ball.reset();
                    self.ball.pos = get_ball_lives_pos(self.lives);
                    self.ball.status = Status::Spawning;
                    Some(Cue::Transition)
                } else {
                    None
                }
            },
            GameEvent::BallHitWall => Some(Cue::Bounce),
            GameEvent::BallHitPlatform(_) | GameEvent::BrickCollision(_) => Some(Cue::Bounce),
        }
    }

    fn sync_ball_position(&mut self)
        ensures
            final(self)@ == (Session {
                ball: seated(old(self)@.ball, old(self)@.platform),
                ..old(self)@
            }),
    {
        physics::snap_ball_to_platform(&mut self.ball, &self.platform);
    }

    fn reset_game(&mut self)
        ensures
            final(self)@ == old(self)@.reset(),
    {
        self.lives = MAX_LIVES;
        self.dead_balls_pos = Vec::new();
        self.ball.reset();
        self.sync_ball_position();
        let mut i: usize = 0;
        while i < self.bricks.len()
            invariant
                i <= self.bricks@.len(),
                self.bricks@.len() == old(self).bricks@.len(),
                self.ball == seated(old(self).ball.cleared(), old(self).platform),
                self.platform == old(self).platform,
                self.particles@ == old(self).particles@,
                self.lives == MAX_LIVES,
                self.dead_balls_pos@ == Seq::<Vector2>::empty(),
                forall|k: int| 0 <= k < i ==> self.bricks@[k] == old(self).bricks@[k].restored(),
                forall|k: int| i <= k < self.bricks@.len() ==> self.bricks@[k] == old(self).bricks@[k],
            decreases self.bricks@.len() - i,
        {
            self.bricks[i].active = true;
            i = i + 1;
        }
        proof {
            assert(self.bricks@ =~= old(self).bricks@.map_values(|b: Brick| b.restored()));
        }
    }
}

/// The sparks that a frame's events set off: a burst at every point of impact.
fn spawn_sparks(events: &Vec<GameEvent>) -> (sparks: Vec<Particle>)
    ensures
        GameEvent::sets_off(events@, sparks@),
{
    let mut sparks: Vec<Particle> = Vec::new();
    let mut i: usize = 0;
    while i < events.len()
        invariant
            i <= events@.len(),
            GameEvent::sets_off(events@.take(i as int), sparks@),
        decreases events@.len() - i,
    {
        proof {
            assert(events@.take(i + 1).drop_last() =~= events@.take(i as int));
        }
        match events[i] {
            GameEvent::BallHitPlatform(hit_point) | GameEvent::BrickCollision(hit_point) => {
                let mut burst = Particle::spawn_particles(hit_point);
                sparks.append(&mut burst);
            },
            _ => {},
        }
        i = i + 1;
    }
    proof {
        assert(events@.take(i as int) =~= events@);
    }
    sparks
}

/// Folding in a single event.
pub proof fn lemma_fold_one(s: Session, event: GameEvent)
    ensures
        s.folded_all(seq![event]) == s.folded(event),
        s.cues_for(seq![event]) == match s.cue_for(event) {
            Some(cue) => seq![cue],
            None => Seq::<Cue>::empty(),
        },
{
    let events = seq![event];
    assert(s.folded_all(events.drop_last()) == s);
    assert(s.cues_for(events.drop_last()) =~= Seq::<Cue>::empty());
}

/// Events other than the loss of the ball leave the session as it is, and
/// each of them asks for the bounce sound.
pub proof fn lemma_fold_contacts(s: Session, events: Seq<GameEvent>)
    requires
        forall|i: int| 0 <= i < events.len() ==> !((#[trigger] events[i]) is BallDropped),
    ensures
        s.folded_all(events) == s,
        s.cues_for(events).len() == events.len(),
        forall|i: int| 0 <= i < events.len() ==> (#[trigger] s.cues_for(events)[i]) == Cue::Bounce,
    decreases events.len(),
{
    if events.len() > 0 {
        lemma_fold_contacts(s, events.drop_last());
    }
}

/// What a frame of flight reports. Either the ball is lost: then the loss is
/// the only event, the ball lies dead and at rest on the bottom edge, and no
/// brick has changed. Or it is not: then no loss is reported and the ball is
/// still in flight.
pub proof fn lemma_flight_reports(s: Session, dt: i32)
    requires
        s.ball.status is Running,
    ensures
        ({
            let moved = Ball { pos: s.ball.pos.moved(s.ball.velocity, dt), ..s.ball };
            let (ball1, edge) = wall_stage(s.ball, dt);
            let (ball2, bricks, contact) = collision_stage(ball1, s.platform, s.bricks);
            if physics::crosses_floor(moved) {
                &&& edge + contact == seq![GameEvent::BallDropped]
                &&& ball2 == physics::dropped(moved)
                &&& ball2.status is Dead
                &&& ball2.velocity == Vector2::origin()
                &&& bricks == s.bricks
            } else {
                &&& forall|i: int|
                    0 <= i < (edge + contact).len() ==> !((#[trigger] (edge + contact)[i]) is BallDropped)
                &&& ball2.status is Running
                &&& bricks.len() == s.bricks.len()
            }
        }),
{
    let moved = Ball { pos: s.ball.pos.moved(s.ball.velocity, dt), ..s.ball };
    if !physics::crosses_floor(moved) {
        physics::lemma_one_brick_per_call(s.bricks, wall_stage(s.ball, dt).0);
    }
}

/// The loss of the ball costs a life. After a frame in which a ball in
/// flight crosses the bottom edge, one life less is left, the place where
/// the ball came to rest is the newest death marker, and the loss is the
/// frame's only event. If a life is left, the next ball waits at the marker
/// of that life, `Spawning`, and the transition sound is asked for; if none
/// is left, the ball stays dead and no sound is asked for.
pub proof fn lemma_losing_the_ball(s: Session, action: bool, dt: i32)
    requires
        s.ball.status is Running,
        !(s.won() && action),
        physics::crosses_floor(Ball { pos: s.ball.pos.moved(s.ball.velocity, dt), ..s.ball }),
    ensures
        ({
            let out = s.ball_moved(action, dt);
            let rest = physics::dropped(Ball { pos: s.ball.pos.moved(s.ball.velocity, dt), ..s.ball });
            &&& out.events == seq![GameEvent::BallDropped]
            &&& out.session.lives == s.lives_after_drop()
            &&& out.session.dead_balls_pos == s.dead_balls_pos.push(rest.pos)
            &&& out.session.bricks == s.bricks
            &&& out.session.lives > 0 ==> {
                &&& out.session.ball.status is Spawning
                &&& out.session.ball.pos == life_marker(out.session.lives)
                &&& out.session.ball.velocity == Vector2::origin()
                &&& out.cues == seq![Cue::Transition]
            }
            &&& out.session.lives == 0 ==> {
                &&& out.session.ball == rest
                &&& out.cues == Seq::<Cue>::empty()
            }
        }),
{
    lemma_flight_reports(s, dt);
    let (ball1, edge) = wall_stage(s.ball, dt);
    let (ball2, bricks, contact) = collision_stage(ball1, s.platform, s.bricks);
    let after = Session { ball: ball2, bricks, ..s };
    lemma_fold_one(after, GameEvent::BallDropped);
}

/// The ball's part of a frame keeps the ball at rest unless it is in
/// flight, whatever the input: so a ball at `Start`, `Spawning` or `Dead`
/// never has a velocity.
pub proof fn lemma_idle_ball_stays_at_rest(s: Session, input: Input, sparks: Seq<Particle>)
    requires
        s.ball.rests_unless_running(),
    ensures
        s.advanced(input).session.ball.rests_unless_running(),
        s.advanced(input).session.settled(sparks, input.dt).ball == s.advanced(input).session.ball,
        s.advanced(input).session.ball.radius == s.ball.radius,
{
    let p = s.paddle_moved(input);
    if !(p.won() && input.action) && p.ball.status is Running {
        lemma_flight_folds(p, input.dt);
    }
}

/// A frame of flight, folded: either the ball is lost and the session is
/// what the loss makes of it, or the fold changes nothing.
proof fn lemma_flight_folds(s: Session, dt: i32)
    requires
        s.ball.status is Running,
    ensures
        ({
            let moved = Ball { pos: s.ball.pos.moved(s.ball.velocity, dt), ..s.ball };
            let (ball1, edge) = wall_stage(s.ball, dt);
            let (ball2, bricks, contact) = collision_stage(ball1, s.platform, s.bricks);
            let after = Session { ball: ball2, bricks, ..s };
            &&& physics::crosses_floor(moved) ==> s.flown(dt).session == after.folded(
                GameEvent::BallDropped,
            )
            &&& !physics::crosses_floor(moved) ==> s.flown(dt).session == after
            &&& ball2.rests_unless_running() || !s.ball.rests_unless_running()
            &&& ball2.radius == s.ball.radius
            &&& bricks.len() == s.bricks.len()
            &&& forall|j: int|
                0 <= j < bricks.len() && !s.bricks[j].active ==> !(#[trigger] bricks[j]).active
        }),
{
    lemma_flight_reports(s, dt);
    let (ball1, edge) = wall_stage(s.ball, dt);
    let (ball2, bricks, contact) = collision_stage(ball1, s.platform, s.bricks);
    let after = Session { ball: ball2, bricks, ..s };
    let moved = Ball { pos: s.ball.pos.moved(s.ball.velocity, dt), ..s.ball };
    physics::lemma_one_brick_per_call(s.bricks, ball1);
    if physics::crosses_floor(moved) {
        lemma_fold_one(after, GameEvent::BallDropped);
    } else {
        lemma_fold_contacts(after, edge + contact);
    }
}

/// A new session is valid.
pub proof fn lemma_opening_is_valid(bricks: Seq<Brick>)
    ensures
        Session::opening(bricks).valid(),
        Session::opening(bricks).ball.status is Start,
        Session::opening(bricks).lives == MAX_LIVES,
        Session::opening(bricks).bricks == bricks,
{
}

/// A frame keeps a valid session valid, as long as time does not run
/// backwards.
pub proof fn lemma_frame_keeps_session_valid(s: Session, input: Input, sparks: Seq<Particle>)
    requires
        s.valid(),
        input.dt >= 0,
    ensures
        s.advanced(input).session.valid(),
        s.advanced(input).session.settled(sparks, input.dt).valid(),
{
    let p = s.paddle_moved(input);
    crate::components::platform::lemma_paddle_stays_within_arena(s.platform, input.dt);
    if input.left {
        crate::components::platform::lemma_paddle_stays_within_arena(
            s.platform.moved_left(input.dt),
            input.dt,
        );
    }
    if !(p.won() && input.action) && p.ball.status is Running {
        lemma_flight_folds(p, input.dt);
    }
    let aged = Particle::all_aged(s.advanced(input).session.particles + sparks, input.dt);
    let alive = |q: Particle| q.alive();
    assert forall|i: int| 0 <= i < aged.filter(alive).len() implies (#[trigger] aged.filter(
        alive,
    )[i]).alive() by {
        aged.lemma_filter_pred(alive, i);
    }
}

/// No brick comes back but by a reset. In a frame that neither restarts a
/// won game nor resets a lost one, every brick that was destroyed before is
/// destroyed after, and no brick is added or removed. So a won game stays
/// won, whatever the ball does, until the action restarts it.
pub proof fn lemma_destroyed_bricks_stay_destroyed(s: Session, input: Input, sparks: Seq<Particle>)
    requires
        !(input.action && s.won()),
        !(input.action && s.ball.status is Dead && s.lives == 0),
    ensures
        ({
            let after = s.advanced(input).session.settled(sparks, input.dt);
            &&& after.bricks.len() == s.bricks.len()
            &&& forall|j: int|
                0 <= j < s.bricks.len() && !s.bricks[j].active ==> !(#[trigger] after.bricks[j]).active
            &&& s.won() ==> after.won()
        }),
{
    let p = s.paddle_moved(input);
    if p.ball.status is Running {
        lemma_flight_folds(p, input.dt);
    }
}

/// The action restarts a won game whatever the ball is doing: afterwards
/// every brick is active again, in its old place, the lives are full, the
/// death markers are gone, and the ball waits at `Start` on the paddle, which
/// is back in the middle.
pub proof fn lemma_action_restarts_won_game(s: Session, input: Input)
    requires
        s.won(),
        input.action,
    ensures
        ({
            let after = s.advanced(input).session;
            &&& s.advanced(input).events == Seq::<GameEvent>::empty()
            &&& after.lives == MAX_LIVES
            &&& after.dead_balls_pos == Seq::<Vector2>::empty()
            &&& after.platform == Platform::initial()
            &&& after.ball.status is Start
            &&& after.ball.velocity == Vector2::origin()
            &&& after.ball.pos == physics::seat(s.ball, Platform::initial())
            &&& after.bricks.len() == s.bricks.len()
            &&& forall|j: int|
                0 <= j < s.bricks.len() ==> (#[trigger] after.bricks[j]) == s.bricks[j].restored()
            &&& s.bricks.len() > 0 ==> !after.won()
        }),
{
    let after = s.advanced(input).session;
    if s.bricks.len() > 0 {
        assert(after.bricks[0].active);
    }
}

/// A spawning ball is put to `Start` exactly when it has arrived, that is,
/// when it is within half a unit of its seat; until then it stays
/// `Spawning`.
pub proof fn lemma_spawning_ends_on_arrival(s: Session, action: bool, dt: i32)
    requires
        s.ball.status is Spawning,
        !(s.won() && action),
    ensures
        ({
            let after = s.ball_moved(action, dt).session;
            let goal = physics::seat(s.ball, s.platform);
            &&& after.ball.status is Start <==> s.ball.pos.distance_sq(goal) <= crate::fixed::HALF
                * crate::fixed::HALF
            &&& after.ball.status is Start ==> after.ball.pos == goal
            &&& after.ball.status is Start || after.ball.status is Spawning
        }),
{
}

} // verus!
