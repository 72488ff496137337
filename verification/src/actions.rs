//! Bounded, append-only record of gameplay events.
//!
//! The log holds at most 100 entries. The moment an append would make it
//! longer, the 5 oldest entries are evicted as one batch, so the cost of
//! shifting the survivors is paid once per 5 appends instead of on every
//! call.

use vstd::prelude::*;

use crate::PlayerId;

verus! {

/// A ship fired its cannons.
pub const GAME_ACTION_SHIP_SHOT: u8 = 0;
/// A ship was hit and lost health.
pub const GAME_ACTION_SHIP_TAKEN_DAMAGE: u8 = 1;
/// The monster attacked a ship.
pub const GAME_ACTION_SHIP_CTHULUH_ATTACKED_SHIP: u8 = 2;
/// A participant collected coins (a chest, or a destroyed ship's bounty).
pub const GAME_ACTION_SHIP_COINS_COLLECTED: u8 = 3;

/// Most entries the log may hold.
pub const ACTION_LOG_CAPACITY: usize = 100;
/// How many of the oldest entries one eviction batch removes.
pub const ACTION_LOG_EVICTION_BATCH: usize = 5;

/// One recorded gameplay event.
#[derive(Clone, Copy, PartialEq, Eq, Structural, Debug)]
pub struct GameAction {
    /// Value of the board's action counter when the entry was recorded.
    pub action_id: u64,
    /// One of the `GAME_ACTION_*` constants.
    pub action_type: u8,
    /// The acting participant.
    pub player: PlayerId,
    /// The participant the action was aimed at.
    pub target: PlayerId,
    /// Damage dealt, or coins collected, by the action.
    pub damage: u64,
}

/// What one append does to the log's contents: the entry goes on the end,
/// and if that pushes the length past the capacity, the oldest batch is
/// dropped.
pub open spec fn log_append(s: Seq<GameAction>, action: GameAction) -> Seq<GameAction> {
    let grown = s.push(action);
    if grown.len() > ACTION_LOG_CAPACITY {
        grown.subrange(ACTION_LOG_EVICTION_BATCH as int, grown.len() as int)
    } else {
        grown
    }
}

/// What appending does to a log within capacity: the length never passes
/// 100; the append that would reach 101 drops the log to 96, and the
/// survivors are exactly the most recent entries, in order, with the new
/// entry last; below the capacity the entry is simply appended.
pub proof fn lemma_log_append_bounded(s: Seq<GameAction>, action: GameAction)
    requires
        s.len() <= ACTION_LOG_CAPACITY,
    ensures
        ({
            let r = log_append(s, action);
            r.len() <= ACTION_LOG_CAPACITY && (s.len() == ACTION_LOG_CAPACITY ==> r.len() == 96
                && (forall|k: int| 0 <= k < 95 ==> r[k] == s[k + 5]) && r[95] == action) && (s.len()
                < ACTION_LOG_CAPACITY ==> r == s.push(action))
        }),
{
}

/// Ordered history of gameplay events, capacity-bounded.
#[derive(Clone, Debug)]
pub struct GameActionHistory {
    /// Kept for the persisted layout; the engine never changes it.
    pub id_counter: u64,
    /// The entries, oldest first.
    pub game_actions: Vec<GameAction>,
}

/// An empty history.
impl Default for GameActionHistory {
    fn default() -> (r: GameActionHistory)
        ensures
            r.wf(),
            r.id_counter == 0,
            r.game_actions@ =~= Seq::<GameAction>::empty(),
    {
        GameActionHistory { id_counter: 0, game_actions: Vec::new() }
    }
}

impl GameActionHistory {
    /// The log never exceeds its capacity.
    pub open spec fn wf(self) -> bool {
        self.game_actions@.len() <= ACTION_LOG_CAPACITY
    }

    /// An empty history.
    pub fn new() -> (r: GameActionHistory)
        ensures
            r.wf(),
            r.id_counter == 0,
            r.game_actions@ =~= Seq::<GameAction>::empty(),
    {
        GameActionHistory { id_counter: 0, game_actions: Vec::new() }
    }

    /// Appends one entry, evicting the oldest batch when the capacity
    /// would be exceeded.
    pub fn append(&mut self, action: GameAction)
        requires
            old(self).wf(),
        ensures
            final(self).wf(),
            final(self).id_counter == old(self).id_counter,
            final(self).game_actions@ == log_append(old(self).game_actions@, action),
    {
        let ghost grown = old(self).game_actions@.push(action);
        self.game_actions.push(action);
        if self.game_actions.len() > ACTION_LOG_CAPACITY {
            let mut evicted: usize = 0;
            while evicted < ACTION_LOG_EVICTION_BATCH
                invariant
                    evicted <= ACTION_LOG_EVICTION_BATCH,
                    grown.len() == 101,
                    self.id_counter == old(self).id_counter,
                    self.game_actions@ =~= grown.subrange(evicted as int, grown.len() as int),
                decreases ACTION_LOG_EVICTION_BATCH - evicted,
            {
                self.game_actions.remove(0);
                evicted = evicted + 1;
                proof {
                    assert(self.game_actions@ =~= grown.subrange(
                        evicted as int,
                        grown.len() as int,
                    ));
                }
            }
        }
    }
}

} // verus!
