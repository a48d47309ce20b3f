use vstd::prelude::*;
use crate::config::Config;
use crate::entities::{Alien, Player, Projectile, count_alive};

verus! {

/// Fresh-handle headroom: spawning stays below this id, so the counter can
/// never wrap however long a session runs.
pub const ID_LIMIT: u64 = 0xFFFF_FFFF_0000_0000;

/// The session state machine's two states. Playing is initial; GameOver is
/// terminal until an explicit restart.
#[derive(Clone, Copy, PartialEq, Eq, Structural, Debug)]
pub enum GameState {
    Playing,
    GameOver,
}

/// Confirmed kills, one point each; reset only on session restart.
#[derive(Clone, Copy, PartialEq, Eq, Structural, Debug)]
pub struct Score {
    pub value: u64,
}

/// Wave bookkeeping: the live population count, the trickle-spawn countdown,
/// and the edge latch that keeps a zero-population tick from firing wave
/// completion more than once.
#[derive(Clone, Copy, PartialEq, Eq, Structural, Debug)]
pub struct AlienManager {
    pub alive_aliens: usize,
    pub spawn_timer: u64,
    /// Set the tick wave completion fires; cleared as soon as aliens live again.
    pub clear_latch: bool,
}

/// The central shared state every stage reads and writes in its fixed slot
/// of the tick.
pub struct Registry {
    pub aliens: Vec<Alien>,
    pub projectiles: Vec<Projectile>,
    /// The singleton player; absent briefly during reset windows, and every
    /// stage then skips its player-dependent work for the tick.
    pub player: Option<Player>,
    pub score: Score,
    pub wave: AlienManager,
    pub state: GameState,
    /// Fresh alien handles are drawn from this counter, so ids never repeat.
    pub next_id: u64,
}

impl Registry {
    pub open spec fn aliens_wf(self) -> bool {
        forall|i: int| 0 <= i < self.aliens@.len() ==> (#[trigger] self.aliens@[i]).wf()
    }

    pub open spec fn projectiles_wf(self) -> bool {
        forall|i: int| 0 <= i < self.projectiles@.len() ==> (#[trigger] self.projectiles@[i]).wf()
    }

    pub open spec fn ids_fresh(self) -> bool {
        forall|i: int| 0 <= i < self.aliens@.len()
            ==> (#[trigger] self.aliens@[i]).id < self.next_id
    }

    pub open spec fn ids_distinct(self) -> bool {
        forall|i: int, j: int|
            0 <= i < j < self.aliens@.len()
                ==> (#[trigger] self.aliens@[i]).id != (#[trigger] self.aliens@[j]).id
    }

    pub open spec fn wf(self, cfg: Config) -> bool {
        self.aliens_wf()
        && self.projectiles_wf()
        && (self.player is Some ==> self.player->Some_0.wf())
        && self.aliens@.len() <= cfg.cap
        && self.ids_fresh()
        && self.ids_distinct()
    }

    /// The population counter agrees with the aliens that are actually alive.
    /// Collision resolution reestablishes this at the end of its pass.
    pub open spec fn counts_synced(self) -> bool {
        self.wave.alive_aliens == count_alive(self.aliens@)
    }
}

} // verus!
