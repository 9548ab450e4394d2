use vstd::prelude::*;

use crate::player::{Player, PlayerV};
use crate::random_source::rng_range;
use crate::SCREEN_HEIGHT;

verus! {

/// Lowest world row (inclusive) the gap's centre can be drawn at.
pub const GAP_MIN: i32 = 10;

/// World row (exclusive) the gap's centre is always drawn below.
pub const GAP_MAX: i32 = 40;

/// One gated wall: world column `x`, centre row of the passable gap `gap_y`,
/// and gap height `size` in rows.
pub struct Obstacle {
    pub x: i32,
    pub gap_y: i32,
    pub size: i32,
}

/// Mathematical model of an obstacle, over unbounded integers.
pub ghost struct ObstacleV {
    pub x: int,
    pub gap_y: int,
    pub size: int,
}

impl View for Obstacle {
    type V = ObstacleV;

    open spec fn view(&self) -> ObstacleV {
        ObstacleV { x: self.x as int, gap_y: self.gap_y as int, size: self.size as int }
    }
}

/// The gap height a fresh obstacle gets at the given score: it shrinks one
/// row per point, floored at 2.
pub open spec fn size_for_score(score: int) -> int {
    if 20 - score < 2 {
        2
    } else {
        20 - score
    }
}

impl ObstacleV {
    /// Validity: the gap centre lies in the range it is drawn from, and the
    /// gap height lies between its floor and the score-zero height.
    pub open spec fn wf(self) -> bool {
        &&& GAP_MIN <= self.gap_y < GAP_MAX
        &&& 2 <= self.size <= 20
    }

    /// Half the gap height, truncated toward zero as the executable
    /// division truncates (the two agree on non-negative sizes).
    pub open spec fn half_size(self) -> int {
        self.size / 2
    }

    /// Whether a player at `p` collides with this wall: the columns must
    /// match exactly, and the row must lie strictly outside the gap band.
    pub open spec fn hits(self, p: PlayerV) -> bool {
        &&& self.x == p.x
        &&& (p.y < self.gap_y - self.half_size() || p.y > self.gap_y + self.half_size())
    }

    /// How many rows of the screen the two wall segments cover.
    pub open spec fn wall_row_count(self) -> int {
        (self.gap_y - self.half_size()) + (SCREEN_HEIGHT - (self.gap_y + self.half_size()))
    }

    /// The `i`th wall row, counted from the top: first every row above the
    /// gap band, then every row below it down to the bottom of the screen.
    pub open spec fn wall_row_at(self, i: int) -> int {
        if i < self.gap_y - self.half_size() {
            i
        } else {
            self.gap_y + self.half_size() + (i - (self.gap_y - self.half_size()))
        }
    }
}

impl Obstacle {
    /// Validity of the executable obstacle, stated on its model.
    pub open spec fn wf(self) -> bool {
        self@.wf()
    }

    /// A fresh wall at column `x`: the gap centre is drawn at random from
    /// [GAP_MIN, GAP_MAX), and the gap height is fixed by the score.
    pub fn new(x: i32, score: i32, rng: &mut bracket_lib::random::RandomNumberGenerator) -> (o:
        Obstacle)
        requires
            0 <= score,
        ensures
            o.x == x,
            o.size == size_for_score(score as int),
            GAP_MIN <= o.gap_y < GAP_MAX,
            o.wf(),
    {
        let gap_y = rng_range(rng, GAP_MIN, GAP_MAX);
        let size: i32 = if 20 - score < 2 {
            2
        } else {
            20 - score
        };
        Obstacle { x, gap_y, size }
    }

    /// The collision test, exactly the model's `hits`.
    pub fn hit_obstacle(&self, player: &Player) -> (r: bool)
        requires
            self.wf(),
        ensures
            r == self@.hits(player@),
    {
        let half_size: i32 = self.size / 2;
        let does_x_match = self.x == player.x;
        let player_above_gap = player.y < self.gap_y - half_size;
        let player_below_gap = player.y > self.gap_y + half_size;
        does_x_match && (player_above_gap || player_below_gap)
    }

    /// The world-to-screen projection of this wall's column against the
    /// player's scroll position.
    pub fn screen_x(&self, player_x: i32) -> (r: i32)
        requires
            i32::MIN <= self.x - player_x <= i32::MAX,
        ensures
            r == self.x - player_x,
    {
        self.x - player_x
    }

    /// The screen rows the wall glyphs cover, top to bottom: every row of
    /// [0, SCREEN_HEIGHT) except the gap band around `gap_y`.
    pub fn wall_rows(&self) -> (rows: Vec<i32>)
        requires
            self.wf(),
        ensures
            rows@.len() == self@.wall_row_count(),
            forall|i: int| 0 <= i < rows@.len() ==> rows@[i] == self@.wall_row_at(i),
    {
        let half_size: i32 = self.size / 2;
        let mut rows: Vec<i32> = Vec::new();
        let mut y: i32 = 0;
        while y < self.gap_y - half_size
            invariant
                self.wf(),
                half_size == self@.half_size(),
                0 <= y <= self.gap_y - half_size,
                rows@.len() == y,
                forall|i: int| 0 <= i < rows@.len() ==> rows@[i] == self@.wall_row_at(i),
            decreases self.gap_y - half_size - y,
        {
            rows.push(y);
            y = y + 1;
        }
        let mut y2: i32 = self.gap_y + half_size;
        while y2 < SCREEN_HEIGHT
            invariant
                self.wf(),
                half_size == self@.half_size(),
                self.gap_y + half_size <= y2 <= SCREEN_HEIGHT,
                rows@.len() == (self.gap_y - half_size) + (y2 - (self.gap_y + half_size)),
                forall|i: int| 0 <= i < rows@.len() ==> rows@[i] == self@.wall_row_at(i),
            decreases SCREEN_HEIGHT - y2,
        {
            rows.push(y2);
            y2 = y2 + 1;
        }
        rows
    }
}

/// A wall never registers a hit against a player in another column, whatever
/// the player's row.
pub proof fn lemma_miss_off_column(o: ObstacleV, p: PlayerV)
    requires
        o.x != p.x,
    ensures
        !o.hits(p),
{
}

/// Once the score reaches 18, a fresh obstacle's gap height sits at its
/// floor of 2.
pub proof fn lemma_size_floor(score: int)
    requires
        score >= 18,
    ensures
        size_for_score(score) == 2,
{
}

} // verus!
