use vstd::prelude::*;

verus! {

/// Vertical speed is carried in tenths of a row per tick so that the
/// one-decimal physics stays exact in integers: gravity adds
/// `GRAVITY_STEP_TENTHS` (0.2 rows) per tick up to `VELOCITY_CAP_TENTHS`
/// (2.0 rows), and a flap forces `FLAP_IMPULSE_TENTHS` (-2.0 rows).
pub const VELOCITY_CAP_TENTHS: i32 = 20;

/// Gravity's increment of the vertical speed per simulation tick, in tenths.
pub const GRAVITY_STEP_TENTHS: i32 = 2;

/// The upward impulse a flap imparts, in tenths of a row per tick.
pub const FLAP_IMPULSE_TENTHS: i32 = -20;

/// The player sprite: world column `x`, world row `y` (0 is the top), and
/// vertical speed in tenths of a row per tick (positive is downward).
pub struct Player {
    pub x: i32,
    pub y: i32,
    pub velocity: i32,
}

/// Mathematical model of a player, over unbounded integers.
pub ghost struct PlayerV {
    pub x: int,
    pub y: int,
    pub velocity: int,
}

impl View for Player {
    type V = PlayerV;

    open spec fn view(&self) -> PlayerV {
        PlayerV { x: self.x as int, y: self.y as int, velocity: self.velocity as int }
    }
}

/// Rust's truncating division by ten, written over Euclidean division:
/// this is how a speed in tenths turns into whole rows per tick.
pub open spec fn div_ten_trunc(v: int) -> int {
    if v >= 0 {
        v / 10
    } else {
        -((-v) / 10)
    }
}

/// The vertical speed after one tick of gravity: one step faster, unless the
/// cap has been reached.
pub open spec fn vel_after_gravity(v: int) -> int {
    if v < VELOCITY_CAP_TENTHS {
        v + GRAVITY_STEP_TENTHS
    } else {
        v
    }
}

/// Rows are clamped at the top of the world: a row never goes negative.
pub open spec fn clamp_row(y: int) -> int {
    if y < 0 {
        0
    } else {
        y
    }
}

impl PlayerV {
    /// Validity: the speed never exceeds the cap in either direction, it is
    /// always an even count of tenths (it only ever moves in steps of 2 from
    /// 0 or -20), and the row is never negative.
    pub open spec fn wf(self) -> bool {
        &&& -VELOCITY_CAP_TENTHS <= self.velocity <= VELOCITY_CAP_TENTHS
        &&& self.velocity % 2 == 0
        &&& self.y >= 0
    }

    /// One simulation tick: gravity accelerates the fall (capped), the player
    /// scrolls one column forward, and the row moves by the whole rows of the
    /// new speed, clamped at the top of the world.
    pub open spec fn gravity_step(self) -> PlayerV {
        let v = vel_after_gravity(self.velocity);
        PlayerV { x: self.x + 1, y: clamp_row(self.y + div_ten_trunc(v)), velocity: v }
    }

    /// The model after a flap: the speed is forced to the upward impulse and
    /// the position is untouched.
    pub open spec fn flapped(self) -> PlayerV {
        PlayerV { x: self.x, y: self.y, velocity: FLAP_IMPULSE_TENTHS as int }
    }
}

/// The model after `n` consecutive simulation ticks with no flap in between.
pub open spec fn gravity_steps(p: PlayerV, n: nat) -> PlayerV
    decreases n,
{
    if n == 0 {
        p
    } else {
        gravity_steps(p, (n - 1) as nat).gravity_step()
    }
}

impl Player {
    /// Validity of the executable player, stated on its model.
    pub open spec fn wf(self) -> bool {
        self@.wf()
    }

    pub fn new(x: i32, y: i32) -> (p: Player)
        ensures
            p.x == x,
            p.y == y,
            p.velocity == 0,
    {
        Player { x, y, velocity: 0 }
    }

    /// One simulation tick, exactly the model's `gravity_step`.
    pub fn gravity_and_move(&mut self)
        requires
            old(self).wf(),
            old(self).x < i32::MAX,
            old(self).y + 2 <= i32::MAX,
        ensures
            final(self)@ == old(self)@.gravity_step(),
            final(self).wf(),
    {
        if self.velocity < VELOCITY_CAP_TENTHS {
            self.velocity = self.velocity + GRAVITY_STEP_TENTHS;
        }
        self.x = self.x + 1;
        let dy: i32 = self.velocity / 10;
        self.y = self.y + dy;
        if self.y < 0 {
            self.y = 0;
        }
    }

    /// A flap forces the speed to the upward impulse, whatever it was before;
    /// the position is untouched.
    pub fn flap(&mut self)
        ensures
            final(self).velocity == FLAP_IMPULSE_TENTHS,
            final(self).x == old(self).x,
            final(self).y == old(self).y,
            final(self)@ == old(self)@.flapped(),
            old(self).wf() ==> final(self).wf(),
    {
        self.velocity = FLAP_IMPULSE_TENTHS;
    }
}

/// After `n` ticks from a player with zero vertical speed and a valid row,
/// the speed is exactly the lesser of the cap and `n` gravity steps
/// (min(2.0, 0.2 n) in tenths), and the row never decreases along the run
/// and never goes negative.
pub proof fn lemma_gravity_run(p: PlayerV, n: nat)
    requires
        p.velocity == 0,
        p.y >= 0,
    ensures
        gravity_steps(p, n).velocity == vstd::math::min(
            VELOCITY_CAP_TENTHS as int,
            (GRAVITY_STEP_TENTHS as int) * n,
        ),
        gravity_steps(p, n).y >= 0,
        forall|m: nat| m <= n ==> #[trigger] gravity_steps(p, m).y <= gravity_steps(p, n).y,
    decreases n,
{
    if n > 0 {
        lemma_gravity_run(p, (n - 1) as nat);
        let q = gravity_steps(p, (n - 1) as nat);
        assert(gravity_steps(p, n) == q.gravity_step());
        assert(q.velocity >= 0);
        assert(vel_after_gravity(q.velocity) >= 0);
        assert(div_ten_trunc(vel_after_gravity(q.velocity)) >= 0);
        assert(q.gravity_step().y >= q.y);
    }
}

} // verus!
