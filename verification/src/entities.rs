use vstd::prelude::*;
use crate::geom::{Vec2i, coord_ok, VEL_LIMIT, WAVE_PERIOD};

verus! {

/// Amplitudes, radii and spawn-band extents stay within this range,
/// well inside the coordinate range.
pub const OSC_LIMIT: i64 = 100_000_000;

/// Oscillation frequencies and angular speeds, in phase units per second.
pub const FREQ_LIMIT: u64 = 1_000_000;

/// Which side fired a projectile; the sign of its vertical speed follows it.
#[derive(Clone, Copy, PartialEq, Eq, Structural, Debug)]
pub enum Faction {
    Player,
    Alien,
}

/// The closed set of procedural movement behaviours an alien can hold.
/// Switching is a data update: the tag and parameters are re-rolled.
#[derive(Clone, Copy, Debug)]
pub enum MovementPattern {
    /// Constant velocity, in units per second on each axis.
    Linear { vel: Vec2i },
    /// Horizontal oscillation around an anchor column while descending.
    Zigzag { base_x: i64, amplitude: i64, freq: u64, phase: u64 },
    /// Parametric orbit around a center that drifts downward.
    Circle { center: Vec2i, radius: i64, angular: u64, angle: u64 },
    /// Pursuit: velocity points at the player at the alien's own speed.
    Seek { speed: i64 },
}

pub open spec fn pattern_wf(p: MovementPattern) -> bool {
    match p {
        MovementPattern::Linear { vel } =>
            -VEL_LIMIT <= vel.x <= VEL_LIMIT && -VEL_LIMIT <= vel.y <= VEL_LIMIT,
        MovementPattern::Zigzag { base_x, amplitude, freq, phase } =>
            coord_ok(base_x as int)
            && -OSC_LIMIT <= amplitude <= OSC_LIMIT
            && freq <= FREQ_LIMIT
            && phase < WAVE_PERIOD,
        MovementPattern::Circle { center, radius, angular, angle } =>
            center.wf()
            && -OSC_LIMIT <= radius <= OSC_LIMIT
            && angular <= FREQ_LIMIT
            && angle < WAVE_PERIOD,
        MovementPattern::Seek { speed } => 0 <= speed <= VEL_LIMIT,
    }
}

/// A hostile entity. Dead aliens linger until the owning stage flushes or
/// revives them; `alive` is the only flag collision resolution flips.
#[derive(Clone, Copy, Debug)]
pub struct Alien {
    pub id: u64,
    pub pos: Vec2i,
    /// Where the alien was spawned; the reset-in-place wave policy returns it here.
    pub original_pos: Vec2i,
    pub pattern: MovementPattern,
    pub alive: bool,
    /// Countdown until the alien may fire again, in milliseconds.
    pub shoot_timer: u64,
    /// Countdown until the movement pattern is re-rolled, in milliseconds.
    pub switch_timer: u64,
}

impl Alien {
    pub open spec fn wf(self) -> bool {
        self.pos.wf() && self.original_pos.wf() && pattern_wf(self.pattern)
    }
}

/// A shot in flight. `speed` is vertical, in units per second: positive for
/// player shots going up, negative for alien shots going down.
#[derive(Clone, Copy, Debug)]
pub struct Projectile {
    pub owner: Faction,
    pub pos: Vec2i,
    pub speed: i64,
}

impl Projectile {
    pub open spec fn wf(self) -> bool {
        self.pos.wf()
        && -VEL_LIMIT <= self.speed <= VEL_LIMIT
        && (self.owner == Faction::Player ==> self.speed >= 0)
        && (self.owner == Faction::Alien ==> self.speed <= 0)
    }
}

/// The single player entity. It is reset, never recreated, on restart.
#[derive(Clone, Copy, Debug)]
pub struct Player {
    pub pos: Vec2i,
    /// Countdown until the player may fire again, in milliseconds.
    pub shoot_timer: u64,
}

impl Player {
    pub open spec fn wf(self) -> bool {
        self.pos.wf()
    }
}

/// How many aliens in the sequence are alive.
pub open spec fn count_alive(s: Seq<Alien>) -> nat
    decreases s.len(),
{
    if s.len() == 0 {
        0
    } else {
        count_alive(s.drop_last()) + if s.last().alive { 1nat } else { 0nat }
    }
}

pub proof fn lemma_count_alive_le_len(s: Seq<Alien>)
    ensures
        count_alive(s) <= s.len(),
    decreases s.len(),
{
    if s.len() > 0 {
        lemma_count_alive_le_len(s.drop_last());
    }
}

pub proof fn lemma_count_alive_push(s: Seq<Alien>, a: Alien)
    ensures
        count_alive(s.push(a)) == count_alive(s) + if a.alive { 1nat } else { 0nat },
{
    assert(s.push(a).drop_last() =~= s);
}

/// Counting one more prefix element adds that element's contribution.
pub proof fn lemma_count_alive_take_succ(s: Seq<Alien>, i: int)
    requires
        0 <= i < s.len(),
    ensures
        count_alive(s.take(i + 1)) == count_alive(s.take(i)) + if s[i].alive { 1nat } else { 0nat },
{
    assert(s.take(i + 1).drop_last() =~= s.take(i));
    assert(s.take(i + 1).last() == s[i]);
}

/// Overwriting one slot shifts the count by the difference of the two flags.
pub proof fn lemma_count_alive_update(s: Seq<Alien>, i: int, a: Alien)
    requires
        0 <= i < s.len(),
    ensures
        count_alive(s.update(i, a)) + if s[i].alive { 1nat } else { 0nat }
            == count_alive(s) + if a.alive { 1nat } else { 0nat },
    decreases s.len(),
{
    if i == s.len() - 1 {
        assert(s.update(i, a).drop_last() =~= s.drop_last());
        assert(s.update(i, a).last() == a);
    } else {
        assert(s.update(i, a).drop_last() =~= s.drop_last().update(i, a));
        assert(s.update(i, a).last() == s.last());
        lemma_count_alive_update(s.drop_last(), i, a);
    }
}

/// When every alien is alive the count is the whole length.
pub proof fn lemma_count_alive_all(s: Seq<Alien>)
    requires
        forall|i: int| 0 <= i < s.len() ==> (#[trigger] s[i]).alive,
    ensures
        count_alive(s) == s.len(),
    decreases s.len(),
{
    if s.len() > 0 {
        lemma_count_alive_all(s.drop_last());
    }
}

/// If no element of the longer prefix is alive past `i`, the counts agree.
pub proof fn lemma_count_alive_take_all(s: Seq<Alien>)
    ensures
        count_alive(s.take(s.len() as int)) == count_alive(s),
{
    assert(s.take(s.len() as int) =~= s);
}

/// Count the alive aliens, exactly.
pub fn recount_alive(aliens: &Vec<Alien>) -> (n: usize)
    ensures
        n == count_alive(aliens@),
{
    let mut n: usize = 0;
    let mut i: usize = 0;
    while i < aliens.len()
        invariant
            0 <= i <= aliens.len(),
            n == count_alive(aliens@.take(i as int)),
            n <= i,
        decreases aliens.len() - i,
    {
        proof {
            lemma_count_alive_take_succ(aliens@, i as int);
        }
        if aliens[i].alive {
            n = n + 1;
        }
        i = i + 1;
    }
    proof {
        lemma_count_alive_take_all(aliens@);
    }
    n
}

} // verus!
