//! The board: a fixed 10x10 occupancy grid and the operations on it.
//!
//! Tiles are stored row-major in a flat vector, `(x, y)` at index
//! `x * 10 + y` with `x` the outer coordinate. Every operation either fully
//! commits or returns an error having changed nothing, and every movement of
//! value is pushed onto a caller-supplied transfer plan instead of being
//! settled here.

use vstd::prelude::*;

use crate::actions::{
    log_append, GameAction, GameActionHistory, GAME_ACTION_SHIP_COINS_COLLECTED,
    GAME_ACTION_SHIP_CTHULUH_ATTACKED_SHIP, GAME_ACTION_SHIP_SHOT,
    GAME_ACTION_SHIP_TAKEN_DAMAGE,
};
use crate::rng::{xorshift64, XorShift64};
use crate::ship::Ship;
use crate::{PlayerId, SevenSeasError, ValueTransfer, PLAYER_KILL_REWARD, CHEST_REWARD,
    TOKEN_DECIMAL_MULTIPLIER};

verus! {

/// Grid width: the range of the outer coordinate `x`.
pub const BOARD_SIZE_X: usize = 10;
/// Grid height: the range of the inner coordinate `y`.
pub const BOARD_SIZE_Y: usize = 10;
/// Tiles on the board.
pub const BOARD_TILE_COUNT: usize = BOARD_SIZE_X * BOARD_SIZE_Y;

/// Tile holds nothing.
pub const STATE_EMPTY: u8 = 0;
/// Tile holds a player's ship.
pub const STATE_PLAYER: u8 = 1;
/// Tile holds a reward chest.
pub const STATE_CHEST: u8 = 2;

/// Whole coins granted for collecting a chest, before token scaling.
pub const CHEST_COIN_REWARD: u64 = 10;
/// Whole coins granted per ship level for destroying a ship, before token
/// scaling.
pub const DESTROY_SHIP_COIN_REWARD: u64 = 10;

/// One grid cell's occupancy record. Which fields are meaningful is fully
/// determined by `state`; a vacated tile is reset to the all-zero record.
#[derive(Clone, Copy, PartialEq, Eq, Structural, Debug)]
pub struct Tile {
    /// Identity of the occupying player, or of the chest's depositor.
    pub player: PlayerId,
    /// One of the `STATE_*` constants.
    pub state: u8,
    /// Remaining health.
    pub health: u64,
    /// Base attack power.
    pub damage: u64,
    /// Attack reach in grid cells.
    pub range: u16,
    /// Value paid out when this tile is destroyed or collected.
    pub collect_reward: u64,
    /// Display identity, independent of the owner.
    pub avatar: PlayerId,
    /// Facing set by the last move: 0 up, 1 right, 2 down, 3 left.
    pub look_direction: u8,
    /// Snapshot of the occupying ship's upgrade tier.
    pub ship_level: u16,
    /// Health the occupant arrived with.
    pub start_health: u64,
}

impl Tile {
    /// The all-zero record every vacated tile is reset to.
    pub open spec fn empty_spec() -> Tile {
        Tile {
            player: PlayerId { value: 0 },
            state: STATE_EMPTY,
            health: 0,
            damage: 0,
            range: 0,
            collect_reward: 0,
            avatar: PlayerId { value: 0 },
            look_direction: 0,
            ship_level: 0,
            start_health: 0,
        }
    }
}

impl Default for Tile {
    fn default() -> (r: Tile)
        ensures
            r == Tile::empty_spec(),
    {
        Tile {
            player: PlayerId { value: 0 },
            state: STATE_EMPTY,
            health: 0,
            damage: 0,
            range: 0,
            collect_reward: 0,
            avatar: PlayerId { value: 0 },
            look_direction: 0,
            ship_level: 0,
            start_health: 0,
        }
    }
}

/// A tile is one of the three occupancy states, and an empty tile carries
/// no stale occupant data.
pub open spec fn tile_wf(t: Tile) -> bool {
    t.state <= STATE_CHEST && (t.state == STATE_EMPTY ==> t == Tile::empty_spec())
}

/// Flat index of the cell `(x, y)`: row-major with `x` the outer coordinate.
pub open spec fn tile_index(x: int, y: int) -> int {
    x * (BOARD_SIZE_Y as int) + y
}

/// The tile at flat index `i` holds the ship of player `p`.
pub open spec fn player_at(b: Seq<Tile>, i: int, p: PlayerId) -> bool {
    b[i].state == STATE_PLAYER && b[i].player == p
}

/// Player `p` has a ship somewhere on the board.
pub open spec fn has_player(b: Seq<Tile>, p: PlayerId) -> bool {
    exists|i: int| 0 <= i < b.len() && #[trigger] player_at(b, i, p)
}

/// Lowest flat index below `n` holding player `p`'s ship, if any: the
/// index a forward scan stops at.
pub open spec fn find_player_first(b: Seq<Tile>, p: PlayerId, n: int) -> Option<int>
    decreases n,
{
    if n <= 0 {
        None
    } else if find_player_first(b, p, n - 1) is Some {
        find_player_first(b, p, n - 1)
    } else if player_at(b, n - 1, p) {
        Some(n - 1)
    } else {
        None
    }
}

/// Highest flat index below `n` holding player `p`'s ship, if any: the
/// index a forward scan that never stops ends up remembering.
pub open spec fn find_player_last(b: Seq<Tile>, p: PlayerId, n: int) -> Option<int>
    decreases n,
{
    if n <= 0 {
        None
    } else if player_at(b, n - 1, p) {
        Some(n - 1)
    } else {
        find_player_last(b, p, n - 1)
    }
}

/// Flat indices below `n` of the empty tiles, in scan order.
pub open spec fn empty_slots_upto(b: Seq<Tile>, n: int) -> Seq<int>
    decreases n,
{
    if n <= 0 {
        Seq::empty()
    } else if b[n - 1].state == STATE_EMPTY {
        empty_slots_upto(b, n - 1).push(n - 1)
    } else {
        empty_slots_upto(b, n - 1)
    }
}

/// Flat indices of all empty tiles, in scan order.
pub open spec fn empty_slots(b: Seq<Tile>) -> Seq<int> {
    empty_slots_upto(b, b.len() as int)
}

/// The action counter after one increment: it wraps to zero on overflow
/// rather than failing.
pub open spec fn next_action_id(n: u64) -> u64 {
    if n == u64::MAX {
        0
    } else {
        (n + 1) as u64
    }
}

/// A scan that saw no ship of player `p` proves there is none.
pub proof fn lemma_find_first_none_of(b: Seq<Tile>, p: PlayerId, n: int)
    requires
        forall|j: int| 0 <= j < n ==> !#[trigger] player_at(b, j, p),
    ensures
        find_player_first(b, p, n) is None,
    decreases n,
{
    if n > 0 {
        lemma_find_first_none_of(b, p, n - 1);
    }
}

/// A scan that stops at the first ship of player `p` computes
/// `find_player_first`.
pub proof fn lemma_find_first_from(b: Seq<Tile>, p: PlayerId, i: int, n: int)
    requires
        0 <= i < n,
        forall|j: int| 0 <= j < i ==> !#[trigger] player_at(b, j, p),
        player_at(b, i, p),
    ensures
        find_player_first(b, p, n) == Some(i),
    decreases n,
{
    if n == i + 1 {
        lemma_find_first_none_of(b, p, i);
    } else {
        lemma_find_first_from(b, p, i, n - 1);
    }
}

/// An empty first-match answer means no ship of `p` anywhere below `n`.
pub proof fn lemma_find_first_none(b: Seq<Tile>, p: PlayerId, n: int)
    requires
        find_player_first(b, p, n) is None,
    ensures
        forall|j: int| 0 <= j < n ==> !#[trigger] player_at(b, j, p),
    decreases n,
{
    if n > 0 {
        lemma_find_first_none(b, p, n - 1);
    }
}

/// What a first-match answer means: a ship of `p` at the index, none
/// before it.
pub proof fn lemma_find_first_some(b: Seq<Tile>, p: PlayerId, n: int)
    ensures
        find_player_first(b, p, n) matches Some(i) ==> 0 <= i < n && player_at(b, i, p)
            && forall|j: int| 0 <= j < i ==> !#[trigger] player_at(b, j, p),
    decreases n,
{
    if n > 0 {
        lemma_find_first_some(b, p, n - 1);
        if find_player_first(b, p, n - 1) is None && player_at(b, n - 1, p) {
            lemma_find_first_none(b, p, n - 1);
        }
    }
}

/// What a last-match answer means: a ship of `p` at the index.
pub proof fn lemma_find_last_some(b: Seq<Tile>, p: PlayerId, n: int)
    ensures
        find_player_last(b, p, n) matches Some(i) ==> 0 <= i < n && player_at(b, i, p),
    decreases n,
{
    if n > 0 {
        lemma_find_last_some(b, p, n - 1);
    }
}

/// Every listed empty slot is an index below `n` of an empty tile.
pub proof fn lemma_empty_slots_upto_props(b: Seq<Tile>, n: int)
    ensures
        forall|k: int|
            0 <= k < empty_slots_upto(b, n).len() ==> 0 <= #[trigger] empty_slots_upto(b, n)[k]
                < n && b[empty_slots_upto(b, n)[k]].state == STATE_EMPTY,
    decreases n,
{
    if n > 0 {
        lemma_empty_slots_upto_props(b, n - 1);
        let prev = empty_slots_upto(b, n - 1);
        let cur = empty_slots_upto(b, n);
        assert forall|k: int|
            0 <= k < cur.len() implies 0 <= #[trigger] cur[k] < n && b[cur[k]].state
            == STATE_EMPTY by {
            if b[n - 1].state == STATE_EMPTY && k == prev.len() {
                assert(cur[k] == n - 1);
            } else {
                assert(cur[k] == prev[k]);
            }
        }
    }
}

/// Boards that agree below `n` list the same empty slots there.
pub proof fn lemma_empty_slots_upto_agree(b1: Seq<Tile>, b2: Seq<Tile>, n: int)
    requires
        forall|k: int| 0 <= k < n ==> b1[k] == b2[k],
    ensures
        empty_slots_upto(b1, n) == empty_slots_upto(b2, n),
    decreases n,
{
    if n > 0 {
        lemma_empty_slots_upto_agree(b1, b2, n - 1);
    }
}

/// Writing an occupied tile onto an empty slot removes exactly one slot.
pub proof fn lemma_empty_slots_update_occupied(b: Seq<Tile>, i: int, t: Tile, n: int)
    requires
        0 <= i < n <= b.len(),
        b[i].state == STATE_EMPTY,
        t.state != STATE_EMPTY,
    ensures
        empty_slots_upto(b.update(i, t), n).len() == empty_slots_upto(b, n).len() - 1,
    decreases n,
{
    let b2 = b.update(i, t);
    if n - 1 == i {
        assert(forall|k: int| 0 <= k < i ==> b2[k] == b[k]);
        lemma_empty_slots_upto_agree(b2, b, i);
    } else {
        lemma_empty_slots_update_occupied(b, i, t, n - 1);
    }
}

/// A board has no empty tile exactly when the empty-slot list is empty.
pub proof fn lemma_board_full_iff_no_empty(b: Seq<Tile>, n: int)
    ensures
        empty_slots_upto(b, n).len() == 0 <==> forall|i: int|
            0 <= i < n ==> (#[trigger] b[i]).state != STATE_EMPTY,
    decreases n,
{
    if n > 0 {
        lemma_board_full_iff_no_empty(b, n - 1);
    }
}

/// The tile written for a player spawning with the given profile: full
/// health (profile plus bonus), the profile's cannon count as damage, reach
/// decided by the upgrade tier, facing up, carrying the kill bounty.
pub open spec fn spawned_player_tile(
    player: PlayerId,
    avatar: PlayerId,
    ship: Ship,
    extra_health: u64,
) -> Tile {
    Tile {
        player,
        avatar,
        state: STATE_PLAYER,
        health: (ship.health + extra_health) as u64,
        start_health: (ship.health + extra_health) as u64,
        damage: ship.cannons,
        range: if ship.upgrades <= 2 {
            1u16
        } else {
            2u16
        },
        collect_reward: PLAYER_KILL_REWARD,
        look_direction: 0,
        ship_level: ship.upgrades,
    }
}

/// The tile written for a freshly spawned chest. The depositor is recorded
/// as owner and avatar for bookkeeping only.
pub open spec fn spawned_chest_tile(depositor: PlayerId) -> Tile {
    Tile {
        player: depositor,
        avatar: depositor,
        state: STATE_CHEST,
        health: 1,
        start_health: 1,
        damage: 0,
        range: 0,
        collect_reward: CHEST_REWARD,
        look_direction: 0,
        ship_level: 0,
    }
}

/// Which empty slot a spawning player lands on: the generator is seeded
/// with the number of empty slots and one draw picks among them.
/// Meaningful only when the board has an empty slot.
pub open spec fn player_spawn_index(b: Seq<Tile>) -> int {
    let slots = empty_slots(b);
    slots[(xorshift64(slots.len() as u64) % (slots.len() as u64)) as int]
}

/// Which empty slot a spawning chest lands on: as for a player, but seeded
/// with one more than the number of empty slots.
pub open spec fn chest_spawn_index(b: Seq<Tile>) -> int {
    let slots = empty_slots(b);
    slots[(xorshift64((slots.len() + 1) as u64) % (slots.len() as u64)) as int]
}

/// On a well-formed board — the state every operation requires and
/// re-establishes — an empty tile is the all-zero record: vacated tiles
/// carry no stale occupant data.
pub proof fn lemma_empty_tiles_are_reset(game: GameDataAccount, i: int)
    requires
        game.wf(),
        0 <= i < BOARD_TILE_COUNT,
        game.board@[i].state == STATE_EMPTY,
    ensures
        game.board@[i] == Tile::empty_spec(),
{
}

/// Everything one attack can touch, threaded through combat as one value:
/// the tiles, the log entries, the action counter and the transfer plan.
pub type AttackState = (Seq<Tile>, Seq<GameAction>, u64, Seq<ValueTransfer>);

/// Reward tokens for destroying a ship of the given level, in the token's
/// smallest unit.
pub open spec fn destroy_reward_amount(ship_level: u16) -> u64 {
    ((ship_level as int) * (DESTROY_SHIP_COIN_REWARD as int) * (TOKEN_DECIMAL_MULTIPLIER as int)) as u64
}

/// One attack with `damage` by `attacker` on the tile at flat index `i`:
/// the step shared by melee and ranged fire.
///
/// A non-player tile is skipped entirely. A player tile loses `damage`
/// health, saturating at zero. A hit that empties the health clears the
/// tile, pays the victim's configured reward from the chest pool and the
/// level-scaled destroy bonus in tokens to the attacker, and records a
/// coin-collection entry; every hit then records a damage entry.
pub open spec fn attack_one(s: AttackState, i: int, damage: u64, attacker: PlayerId) -> AttackState {
    let (b, log, id, tr) = s;
    let t = b[i];
    if t.state != STATE_PLAYER {
        s
    } else if damage >= t.health {
        let coins = GameAction {
            action_id: id,
            action_type: GAME_ACTION_SHIP_COINS_COLLECTED,
            player: attacker,
            target: t.player,
            damage: DESTROY_SHIP_COIN_REWARD,
        };
        let hit = GameAction {
            action_id: next_action_id(id),
            action_type: GAME_ACTION_SHIP_TAKEN_DAMAGE,
            player: attacker,
            target: t.player,
            damage,
        };
        (
            b.update(i, Tile::empty_spec()),
            log_append(log_append(log, coins), hit),
            next_action_id(next_action_id(id)),
            tr.push(ValueTransfer::PoolToPlayer { player: attacker, lamports: t.collect_reward })
                .push(ValueTransfer::VaultTokensToPlayer {
                    player: attacker,
                    amount: destroy_reward_amount(t.ship_level),
                }),
        )
    } else {
        let hit = GameAction {
            action_id: id,
            action_type: GAME_ACTION_SHIP_TAKEN_DAMAGE,
            player: attacker,
            target: t.player,
            damage,
        };
        (
            b.update(i, Tile { health: (t.health - damage) as u64, ..t }),
            log_append(log, hit),
            next_action_id(id),
            tr,
        )
    }
}

/// A lethal hit records exactly two entries, in order: the coin-collection
/// entry and then the damage entry, carrying consecutive action ids. They
/// end the log whatever eviction the appends caused.
pub proof fn lemma_lethal_attack_appends_two(
    s: AttackState,
    i: int,
    damage: u64,
    attacker: PlayerId,
)
    requires
        0 <= i < s.0.len(),
        s.0[i].state == STATE_PLAYER,
        damage >= s.0[i].health,
    ensures
        ({
            let (b2, log2, id2, tr2) = attack_one(s, i, damage, attacker);
            log2.len() >= 2 && log2[log2.len() - 2] == (GameAction {
                action_id: s.2,
                action_type: GAME_ACTION_SHIP_COINS_COLLECTED,
                player: attacker,
                target: s.0[i].player,
                damage: DESTROY_SHIP_COIN_REWARD,
            }) && log2[log2.len() - 1] == (GameAction {
                action_id: next_action_id(s.2),
                action_type: GAME_ACTION_SHIP_TAKEN_DAMAGE,
                player: attacker,
                target: s.0[i].player,
                damage,
            })
        }),
{
}

/// Flat indices of the tiles a shot evaluates at step `s` (1-based) from
/// `(x, y)`: both ends of the horizontal axis when the facing is even, both
/// ends of the vertical axis when it is odd, each end only while it stays
/// on the grid.
pub open spec fn shot_targets_at_step(x: int, y: int, look_direction: u8, s: int) -> Seq<int> {
    if look_direction % 2 == 0 {
        (if x >= s {
            seq![tile_index(x - s, y)]
        } else {
            Seq::empty()
        }) + (if x + s < BOARD_SIZE_X {
            seq![tile_index(x + s, y)]
        } else {
            Seq::empty()
        })
    } else {
        (if y + s < BOARD_SIZE_Y {
            seq![tile_index(x, y + s)]
        } else {
            Seq::empty()
        }) + (if y >= s {
            seq![tile_index(x, y - s)]
        } else {
            Seq::empty()
        })
    }
}

/// All tiles a shot evaluates through step `s`, in firing order.
pub open spec fn shot_targets_upto(x: int, y: int, look_direction: u8, s: int) -> Seq<int>
    decreases s,
{
    if s <= 0 {
        Seq::empty()
    } else {
        shot_targets_upto(x, y, look_direction, s - 1) + shot_targets_at_step(
            x,
            y,
            look_direction,
            s,
        )
    }
}

/// Folds one attack per listed target over the combined state, in order.
pub open spec fn attack_all(
    s: AttackState,
    targets: Seq<int>,
    damage: u64,
    attacker: PlayerId,
) -> AttackState
    decreases targets.len(),
{
    if targets.len() == 0 {
        s
    } else {
        attack_all(attack_one(s, targets[0], damage, attacker), targets.drop_first(), damage,
            attacker)
    }
}

/// Attacking a concatenated target list is attacking the first list, then
/// the second, from where the first left off.
pub proof fn lemma_attack_all_concat(
    s: AttackState,
    t1: Seq<int>,
    t2: Seq<int>,
    damage: u64,
    attacker: PlayerId,
)
    ensures
        attack_all(s, t1 + t2, damage, attacker) == attack_all(
            attack_all(s, t1, damage, attacker),
            t2,
            damage,
            attacker,
        ),
    decreases t1.len(),
{
    if t1.len() == 0 {
        assert(t1 + t2 =~= t2);
    } else {
        assert((t1 + t2).drop_first() =~= t1.drop_first() + t2);
        assert((t1 + t2)[0] == t1[0]);
        lemma_attack_all_concat(attack_one(s, t1[0], damage, attacker), t1.drop_first(), t2,
            damage, attacker);
    }
}

/// A single-target list folds to a single attack.
pub proof fn lemma_attack_all_one(s: AttackState, i: int, damage: u64, attacker: PlayerId)
    ensures
        attack_all(s, seq![i], damage, attacker) == attack_one(s, i, damage, attacker),
{
    let one = seq![i];
    assert(one.len() == 1);
    assert(one[0] == i);
    assert(one.drop_first() =~= Seq::<int>::empty());
    assert(attack_all(attack_one(s, i, damage, attacker), Seq::<int>::empty(), damage, attacker)
        == attack_one(s, i, damage, attacker));
}

/// Base damage of the monster's attack.
pub const CTHULHU_BASE_DAMAGE: u64 = 10;

/// Exclusive bound of the monster's random damage variance: the ceiling of
/// three-tenths of the base damage, computed integrally.
pub const CTHULHU_DAMAGE_VARIANT: u64 = (CTHULHU_BASE_DAMAGE * 3 + 9) / 10;

/// Squared distance from the cell at flat index `i` to the monster's anchor
/// at the grid origin. The selection below compares distances; the square
/// root is monotone, so comparing squares picks the same tile and keeps the
/// arithmetic integral.
pub open spec fn distance_sq_from_origin(i: int) -> int {
    let x = i / (BOARD_SIZE_Y as int);
    let y = i % (BOARD_SIZE_Y as int);
    x * x + y * y
}

/// The player tile the monster aims at among the first `n` cells: a scan
/// keeps the earliest tile at the smallest distance from its anchor.
pub open spec fn monster_target_upto(b: Seq<Tile>, n: int) -> Option<int>
    decreases n,
{
    if n <= 0 {
        None
    } else {
        let prev = monster_target_upto(b, n - 1);
        if b[n - 1].state == STATE_PLAYER && (match prev {
            None => true,
            Some(j) => distance_sq_from_origin(n - 1) < distance_sq_from_origin(j),
        }) {
            Some(n - 1)
        } else {
            prev
        }
    }
}

/// The monster's target holds a player's ship.
pub proof fn lemma_monster_target_some(b: Seq<Tile>, n: int)
    ensures
        monster_target_upto(b, n) matches Some(i) ==> 0 <= i < n && b[i].state == STATE_PLAYER,
    decreases n,
{
    if n > 0 {
        lemma_monster_target_some(b, n - 1);
    }
}

/// Damage the monster deals to a ship of the given health: the base damage
/// plus one plus a variance drawn from a generator seeded with that health.
pub open spec fn monster_damage(health: u64) -> u64 {
    (CTHULHU_BASE_DAMAGE + xorshift64(health) % CTHULHU_DAMAGE_VARIANT + 1) as u64
}

/// Where a step in the given direction from `(x, y)` lands: `None` when the
/// direction is unknown or the step would leave the grid.
pub open spec fn step_position(x: int, y: int, direction: u8) -> Option<(int, int)> {
    if direction == 0 && y > 0 {
        Some((x, y - 1))
    } else if direction == 1 && x < BOARD_SIZE_X - 1 {
        Some((x + 1, y))
    } else if direction == 2 && y < BOARD_SIZE_Y - 1 {
        Some((x, y + 1))
    } else if direction == 3 && x > 0 {
        Some((x - 1, y))
    } else {
        None
    }
}

/// The board after the tile at `src` relocates to `dst`, facing the way it
/// moved: the destination takes over the full record, the origin is reset.
pub open spec fn relocated_board(b: Seq<Tile>, src: int, dst: int, direction: u8) -> Seq<Tile> {
    b.update(dst, Tile { look_direction: direction, ..b[src] }).update(src, Tile::empty_spec())
}

/// Board state plus its monotonically increasing action counter.
#[derive(Clone, Debug)]
pub struct GameDataAccount {
    /// The 100 tiles, row-major, `(x, y)` at `x * 10 + y`.
    pub board: Vec<Tile>,
    /// Next action id to hand to a log entry.
    pub action_id: u64,
}

impl Default for GameDataAccount {
    /// A fresh board: every tile empty, counter at zero.
    fn default() -> (r: GameDataAccount)
        ensures
            r.wf(),
            r.action_id == 0,
            forall|i: int| 0 <= i < BOARD_TILE_COUNT ==> r.board@[i] == Tile::empty_spec(),
    {
        let mut board: Vec<Tile> = Vec::new();
        let mut i: usize = 0;
        while i < BOARD_TILE_COUNT
            invariant
                i <= BOARD_TILE_COUNT,
                board@.len() == i,
                forall|k: int| 0 <= k < i ==> board@[k] == Tile::empty_spec(),
            decreases BOARD_TILE_COUNT - i,
        {
            board.push(Tile::default());
            i = i + 1;
        }
        GameDataAccount { board, action_id: 0 }
    }
}

impl GameDataAccount {
    /// The board always has exactly its 100 tiles, each well-formed; in
    /// particular no empty tile carries stale occupant data.
    pub open spec fn wf(self) -> bool {
        self.board@.len() == BOARD_TILE_COUNT && forall|i: int|
            0 <= i < BOARD_TILE_COUNT ==> tile_wf(#[trigger] self.board@[i])
    }

    /// Reads the tile at `(x, y)`.
    pub fn tile_at(&self, x: usize, y: usize) -> (t: Tile)
        requires
            self.wf(),
            x < BOARD_SIZE_X,
            y < BOARD_SIZE_Y,
        ensures
            t == self.board@[tile_index(x as int, y as int)],
    {
        self.board[x * BOARD_SIZE_Y + y]
    }

    /// Writes the tile at `(x, y)`. The tile must be well-formed, so the
    /// board's invariant is kept.
    pub fn set_tile(&mut self, x: usize, y: usize, tile: Tile)
        requires
            old(self).wf(),
            x < BOARD_SIZE_X,
            y < BOARD_SIZE_Y,
            tile_wf(tile),
        ensures
            final(self).wf(),
            final(self).action_id == old(self).action_id,
            final(self).board@ == old(self).board@.update(
                tile_index(x as int, y as int),
                tile,
            ),
    {
        self.board.set(x * BOARD_SIZE_Y + y, tile);
    }

    /// Clears every tile, leaving the action counter alone.
    pub fn reset(&mut self) -> (r: Result<(), SevenSeasError>)
        requires
            old(self).wf(),
        ensures
            r is Ok,
            final(self).wf(),
            final(self).action_id == old(self).action_id,
            final(self).board@.len() == BOARD_TILE_COUNT,
            forall|i: int| 0 <= i < BOARD_TILE_COUNT ==> final(self).board@[i]
                == Tile::empty_spec(),
    {
        let mut i: usize = 0;
        while i < BOARD_TILE_COUNT
            invariant
                i <= BOARD_TILE_COUNT,
                self.board@.len() == BOARD_TILE_COUNT,
                self.action_id == old(self).action_id,
                forall|k: int| 0 <= k < i ==> self.board@[k] == Tile::empty_spec(),
            decreases BOARD_TILE_COUNT - i,
        {
            self.board.set(i, Tile::default());
            i = i + 1;
        }
        Ok(())
    }

    /// Clears every tile; same effect as `reset`, kept as the board-local
    /// entry point.
    pub fn clear(&mut self) -> (r: Result<(), SevenSeasError>)
        requires
            old(self).wf(),
        ensures
            r is Ok,
            final(self).wf(),
            final(self).action_id == old(self).action_id,
            forall|i: int| 0 <= i < BOARD_TILE_COUNT ==> final(self).board@[i]
                == Tile::empty_spec(),
    {
        self.reset()
    }

    /// Clears exactly the tiles holding a ship of `ship_owner`; chests the
    /// same participant deposited stay.
    pub fn reset_ship(&mut self, ship_owner: PlayerId) -> (r: Result<(), SevenSeasError>)
        requires
            old(self).wf(),
        ensures
            r is Ok,
            final(self).wf(),
            final(self).action_id == old(self).action_id,
            final(self).board@.len() == BOARD_TILE_COUNT,
            forall|i: int| 0 <= i < BOARD_TILE_COUNT ==> final(self).board@[i] == (
            if player_at(old(self).board@, i, ship_owner) {
                Tile::empty_spec()
            } else {
                old(self).board@[i]
            }),
    {
        let mut i: usize = 0;
        while i < BOARD_TILE_COUNT
            invariant
                i <= BOARD_TILE_COUNT,
                self.board@.len() == BOARD_TILE_COUNT,
                self.action_id == old(self).action_id,
                forall|k: int| 0 <= k < BOARD_TILE_COUNT ==> tile_wf(#[trigger] self.board@[k]),
                forall|k: int| 0 <= k < i ==> self.board@[k] == (
                if player_at(old(self).board@, k, ship_owner) {
                    Tile::empty_spec()
                } else {
                    old(self).board@[k]
                }),
                forall|k: int| i <= k < BOARD_TILE_COUNT ==> self.board@[k]
                    == old(self).board@[k],
            decreases BOARD_TILE_COUNT - i,
        {
            let t = self.board[i];
            if t.player == ship_owner && t.state == STATE_PLAYER {
                self.board.set(i, Tile::default());
            }
            i = i + 1;
        }
        Ok(())
    }

    /// Bumps the action counter (wrapping to zero on overflow) and appends
    /// the entry to the history.
    pub fn add_new_game_action(
        &mut self,
        game_actions: &mut GameActionHistory,
        game_action: GameAction,
    )
        requires
            old(game_actions).wf(),
        ensures
            final(self).board@ == old(self).board@,
            final(self).action_id == next_action_id(old(self).action_id),
            final(game_actions).wf(),
            final(game_actions).id_counter == old(game_actions).id_counter,
            final(game_actions).game_actions@ == log_append(
                old(game_actions).game_actions@,
                game_action,
            ),
    {
        match self.action_id.checked_add(1) {
            Some(val) => {
                self.action_id = val;
            },
            None => {
                self.action_id = 0;
            },
        }
        game_actions.append(game_action);
    }

    /// Counts the empty tiles.
    pub fn count_empty_tiles(&self) -> (r: usize)
        requires
            self.wf(),
        ensures
            r == empty_slots(self.board@).len(),
    {
        let mut count: usize = 0;
        let mut i: usize = 0;
        while i < BOARD_TILE_COUNT
            invariant
                i <= BOARD_TILE_COUNT,
                count <= i,
                self.wf(),
                count == empty_slots_upto(self.board@, i as int).len(),
            decreases BOARD_TILE_COUNT - i,
        {
            if self.board[i].state == STATE_EMPTY {
                count = count + 1;
            }
            i = i + 1;
        }
        count
    }

    /// Whether `player` has a ship anywhere on the board.
    pub fn has_player_on_board(&self, player: PlayerId) -> (r: bool)
        requires
            self.wf(),
        ensures
            r == has_player(self.board@, player),
    {
        let mut i: usize = 0;
        while i < BOARD_TILE_COUNT
            invariant
                i <= BOARD_TILE_COUNT,
                self.wf(),
                forall|j: int| 0 <= j < i ==> !#[trigger] player_at(self.board@, j, player),
            decreases BOARD_TILE_COUNT - i,
        {
            let t = self.board[i];
            if t.state == STATE_PLAYER && t.player == player {
                proof {
                    assert(player_at(self.board@, i as int, player));
                }
                return true;
            }
            i = i + 1;
        }
        false
    }

    /// Finds the cell holding `player_key`'s ship: the first match of a
    /// row-major scan.
    pub fn find_player_position(&self, player_key: PlayerId) -> (r: Result<
        (usize, usize),
        SevenSeasError,
    >)
        requires
            self.wf(),
        ensures
            match r {
                Ok(pos) => pos.0 < BOARD_SIZE_X && pos.1 < BOARD_SIZE_Y && find_player_first(
                    self.board@,
                    player_key,
                    BOARD_TILE_COUNT as int,
                ) == Some(tile_index(pos.0 as int, pos.1 as int)),
                Err(e) => e == SevenSeasError::TriedToMovePlayerThatWasNotOnTheBoard
                    && find_player_first(self.board@, player_key, BOARD_TILE_COUNT as int) is None
                    && !has_player(self.board@, player_key),
            },
    {
        let mut i: usize = 0;
        while i < BOARD_TILE_COUNT
            invariant
                i <= BOARD_TILE_COUNT,
                self.wf(),
                forall|j: int| 0 <= j < i ==> !#[trigger] player_at(self.board@, j, player_key),
            decreases BOARD_TILE_COUNT - i,
        {
            let t = self.board[i];
            if t.state == STATE_PLAYER && t.player == player_key {
                proof {
                    lemma_find_first_from(self.board@, player_key, i as int,
                        BOARD_TILE_COUNT as int);
                }
                return Ok((i / BOARD_SIZE_Y, i % BOARD_SIZE_Y));
            }
            i = i + 1;
        }
        proof {
            lemma_find_first_none_of(self.board@, player_key, BOARD_TILE_COUNT as int);
        }
        Err(SevenSeasError::TriedToMovePlayerThatWasNotOnTheBoard)
    }

    /// Spawns `player`'s ship onto a uniformly drawn empty tile.
    ///
    /// The whole board is scanned first: a ship of the same player anywhere
    /// refuses the spawn, even when the board is otherwise full. A failed
    /// spawn changes nothing.
    pub fn spawn_player(
        &mut self,
        player: PlayerId,
        avatar: PlayerId,
        ship: &Ship,
        extra_health: u64,
    ) -> (r: Result<(), SevenSeasError>)
        requires
            old(self).wf(),
            ship.health + extra_health <= u64::MAX,
        ensures
            final(self).wf(),
            final(self).action_id == old(self).action_id,
            r == Err::<(), SevenSeasError>(SevenSeasError::PlayerAlreadyExists) <==> has_player(
                old(self).board@,
                player,
            ),
            r == Err::<(), SevenSeasError>(SevenSeasError::BoardIsFull) <==> (!has_player(
                old(self).board@,
                player,
            ) && empty_slots(old(self).board@).len() == 0),
            r is Err ==> final(self).board@ == old(self).board@,
            r is Ok <==> (!has_player(old(self).board@, player) && empty_slots(
                old(self).board@,
            ).len() > 0),
            r is Ok ==> final(self).board@ == old(self).board@.update(
                player_spawn_index(old(self).board@),
                spawned_player_tile(player, avatar, *ship, extra_health),
            ),
    {
        let mut empty_slots_vec: Vec<usize> = Vec::new();
        let mut i: usize = 0;
        while i < BOARD_TILE_COUNT
            invariant
                i <= BOARD_TILE_COUNT,
                self.wf(),
                self.board@ == old(self).board@,
                self.action_id == old(self).action_id,
                empty_slots_vec@.len() <= i,
                empty_slots_vec@.len() == empty_slots_upto(self.board@, i as int).len(),
                forall|k: int| 0 <= k < empty_slots_vec@.len() ==> #[trigger] empty_slots_vec@[k]
                    as int == empty_slots_upto(self.board@, i as int)[k],
                forall|k: int| 0 <= k < empty_slots_vec@.len() ==> #[trigger] empty_slots_vec@[k]
                    < BOARD_TILE_COUNT,
                forall|j: int| 0 <= j < i ==> !#[trigger] player_at(self.board@, j, player),
            decreases BOARD_TILE_COUNT - i,
        {
            let t = self.board[i];
            if t.state == STATE_EMPTY {
                empty_slots_vec.push(i);
            } else if t.player == player && t.state == STATE_PLAYER {
                proof {
                    assert(player_at(self.board@, i as int, player));
                }
                return Err(SevenSeasError::PlayerAlreadyExists);
            }
            i = i + 1;
        }
        if empty_slots_vec.len() == 0 {
            return Err(SevenSeasError::BoardIsFull);
        }
        let len = empty_slots_vec.len();
        let mut rng = XorShift64 { a: len as u64 };
        let draw = rng.next();
        let idx = (draw % (len as u64)) as usize;
        let slot = empty_slots_vec[idx];
        let range: u16 = match ship.upgrades {
            0 | 1 | 2 => 1,
            _ => 2,
        };
        let health = ship.health + extra_health;
        let tile = Tile {
            player,
            avatar,
            state: STATE_PLAYER,
            health,
            start_health: health,
            damage: ship.cannons,
            range,
            collect_reward: PLAYER_KILL_REWARD,
            look_direction: 0,
            ship_level: ship.upgrades,
        };
        self.board.set(slot, tile);
        Ok(())
    }

    /// Spawns a reward chest onto a uniformly drawn empty tile. Fails only
    /// when the board is full, changing nothing.
    pub fn spawn_chest(&mut self, depositor: PlayerId) -> (r: Result<(), SevenSeasError>)
        requires
            old(self).wf(),
        ensures
            final(self).wf(),
            final(self).action_id == old(self).action_id,
            r == Err::<(), SevenSeasError>(SevenSeasError::BoardIsFull) <==> empty_slots(
                old(self).board@,
            ).len() == 0,
            r is Err ==> final(self).board@ == old(self).board@,
            r is Ok <==> empty_slots(old(self).board@).len() > 0,
            r is Ok ==> final(self).board@ == old(self).board@.update(
                chest_spawn_index(old(self).board@),
                spawned_chest_tile(depositor),
            ),
    {
        let mut empty_slots_vec: Vec<usize> = Vec::new();
        let mut i: usize = 0;
        while i < BOARD_TILE_COUNT
            invariant
                i <= BOARD_TILE_COUNT,
                self.wf(),
                self.board@ == old(self).board@,
                self.action_id == old(self).action_id,
                empty_slots_vec@.len() <= i,
                empty_slots_vec@.len() == empty_slots_upto(self.board@, i as int).len(),
                forall|k: int| 0 <= k < empty_slots_vec@.len() ==> #[trigger] empty_slots_vec@[k]
                    as int == empty_slots_upto(self.board@, i as int)[k],
                forall|k: int| 0 <= k < empty_slots_vec@.len() ==> #[trigger] empty_slots_vec@[k]
                    < BOARD_TILE_COUNT,
            decreases BOARD_TILE_COUNT - i,
        {
            let t = self.board[i];
            if t.state == STATE_EMPTY {
                empty_slots_vec.push(i);
            }
            i = i + 1;
        }
        if empty_slots_vec.len() == 0 {
            return Err(SevenSeasError::BoardIsFull);
        }
        let len = empty_slots_vec.len();
        let mut rng = XorShift64 { a: (len + 1) as u64 };
        let draw = rng.next();
        let idx = (draw % (len as u64)) as usize;
        let slot = empty_slots_vec[idx];
        let tile = Tile {
            player: depositor,
            avatar: depositor,
            state: STATE_CHEST,
            health: 1,
            start_health: 1,
            damage: 0,
            range: 0,
            collect_reward: CHEST_REWARD,
            look_direction: 0,
            ship_level: 0,
        };
        self.board.set(slot, tile);
        Ok(())
    }

    /// A ship at `(x, y)` was destroyed: the tile is fully reset and the
    /// victim's configured reward moves from the chest pool to the attacker.
    fn on_ship_died(
        &mut self,
        x: usize,
        y: usize,
        attacked_tile: Tile,
        attacker: PlayerId,
        transfers: &mut Vec<ValueTransfer>,
    )
        requires
            old(self).wf(),
            x < BOARD_SIZE_X,
            y < BOARD_SIZE_Y,
        ensures
            final(self).wf(),
            final(self).action_id == old(self).action_id,
            final(self).board@ == old(self).board@.update(
                tile_index(x as int, y as int),
                Tile::empty_spec(),
            ),
            final(transfers)@ == old(transfers)@.push(ValueTransfer::PoolToPlayer {
                player: attacker,
                lamports: attacked_tile.collect_reward,
            }),
    {
        self.board.set(x * BOARD_SIZE_Y + y, Tile::default());
        transfers.push(ValueTransfer::PoolToPlayer {
            player: attacker,
            lamports: attacked_tile.collect_reward,
        });
    }

    /// Applies one attack to the tile at `(x, y)`: exactly the transition
    /// described by [`attack_one`].
    pub fn attack_tile(
        &mut self,
        x: usize,
        y: usize,
        damage: u64,
        attacker: PlayerId,
        game_actions: &mut GameActionHistory,
        transfers: &mut Vec<ValueTransfer>,
    )
        requires
            old(self).wf(),
            old(game_actions).wf(),
            x < BOARD_SIZE_X,
            y < BOARD_SIZE_Y,
        ensures
            final(self).wf(),
            final(game_actions).wf(),
            final(game_actions).id_counter == old(game_actions).id_counter,
            ({
                let (b2, log2, id2, tr2) = attack_one(
                    (
                        old(self).board@,
                        old(game_actions).game_actions@,
                        old(self).action_id,
                        old(transfers)@,
                    ),
                    tile_index(x as int, y as int),
                    damage,
                    attacker,
                );
                final(self).board@ == b2 && final(game_actions).game_actions@ == log2
                    && final(self).action_id == id2 && final(transfers)@ == tr2
            }),
    {
        let idx = x * BOARD_SIZE_Y + y;
        let attacked_tile = self.board[idx];
        if attacked_tile.state == STATE_PLAYER {
            if damage >= attacked_tile.health {
                self.on_ship_died(x, y, attacked_tile, attacker, transfers);
                transfers.push(ValueTransfer::VaultTokensToPlayer {
                    player: attacker,
                    amount: (attacked_tile.ship_level as u64) * DESTROY_SHIP_COIN_REWARD
                        * TOKEN_DECIMAL_MULTIPLIER,
                });
                let coins = GameAction {
                    action_id: self.action_id,
                    action_type: GAME_ACTION_SHIP_COINS_COLLECTED,
                    player: attacker,
                    target: attacked_tile.player,
                    damage: DESTROY_SHIP_COIN_REWARD,
                };
                self.add_new_game_action(game_actions, coins);
            } else {
                let new_health = attacked_tile.health - damage;
                let mut hurt = attacked_tile;
                hurt.health = new_health;
                self.board.set(idx, hurt);
            }
            let hit = GameAction {
                action_id: self.action_id,
                action_type: GAME_ACTION_SHIP_TAKEN_DAMAGE,
                player: attacker,
                target: attacked_tile.player,
                damage,
            };
            self.add_new_game_action(game_actions, hit);
        }
    }

    /// Where a step in `direction` from `current` lands, or
    /// `WrongDirectionInput` when it would leave the grid.
    fn calculate_new_position(&self, current: (usize, usize), direction: u8) -> (r: Result<
        (usize, usize),
        SevenSeasError,
    >)
        requires
            current.0 < BOARD_SIZE_X,
            current.1 < BOARD_SIZE_Y,
        ensures
            match r {
                Ok(pos) => pos.0 < BOARD_SIZE_X && pos.1 < BOARD_SIZE_Y && step_position(
                    current.0 as int,
                    current.1 as int,
                    direction,
                ) == Some((pos.0 as int, pos.1 as int)),
                Err(e) => e == SevenSeasError::WrongDirectionInput && step_position(
                    current.0 as int,
                    current.1 as int,
                    direction,
                ) is None,
            },
    {
        let (x, y) = current;
        if direction == 0 && y > 0 {
            Ok((x, y - 1))
        } else if direction == 1 && x < BOARD_SIZE_X - 1 {
            Ok((x + 1, y))
        } else if direction == 2 && y < BOARD_SIZE_Y - 1 {
            Ok((x, y + 1))
        } else if direction == 3 && x > 0 {
            Ok((x - 1, y))
        } else {
            Err(SevenSeasError::WrongDirectionInput)
        }
    }

    /// Relocates the ship at `current_pos` onto the empty (or about to be
    /// vacated) destination and resets the origin.
    fn move_to_empty_tile(
        &mut self,
        current_pos: (usize, usize),
        new_pos: (usize, usize),
        direction: u8,
    )
        requires
            old(self).wf(),
            current_pos.0 < BOARD_SIZE_X,
            current_pos.1 < BOARD_SIZE_Y,
            new_pos.0 < BOARD_SIZE_X,
            new_pos.1 < BOARD_SIZE_Y,
            old(self).board@[tile_index(current_pos.0 as int, current_pos.1 as int)].state
                == STATE_PLAYER,
        ensures
            final(self).wf(),
            final(self).action_id == old(self).action_id,
            final(self).board@ == relocated_board(
                old(self).board@,
                tile_index(current_pos.0 as int, current_pos.1 as int),
                tile_index(new_pos.0 as int, new_pos.1 as int),
                direction,
            ),
    {
        let src = current_pos.0 * BOARD_SIZE_Y + current_pos.1;
        let dst = new_pos.0 * BOARD_SIZE_Y + new_pos.1;
        let mut moved = self.board[src];
        moved.look_direction = direction;
        self.board.set(dst, moved);
        self.board.set(src, Tile::default());
    }

    /// The mover takes the chest on the destination tile: the ship
    /// relocates, the chest's reward moves from the pool to the mover, the
    /// fixed token reward is issued, and a coin-collection entry is logged.
    fn collect_chest(
        &mut self,
        current_pos: (usize, usize),
        new_pos: (usize, usize),
        direction: u8,
        player: PlayerId,
        game_actions: &mut GameActionHistory,
        transfers: &mut Vec<ValueTransfer>,
    )
        requires
            old(self).wf(),
            old(game_actions).wf(),
            current_pos.0 < BOARD_SIZE_X,
            current_pos.1 < BOARD_SIZE_Y,
            new_pos.0 < BOARD_SIZE_X,
            new_pos.1 < BOARD_SIZE_Y,
            old(self).board@[tile_index(current_pos.0 as int, current_pos.1 as int)].state
                == STATE_PLAYER,
        ensures
            final(self).wf(),
            final(game_actions).wf(),
            final(game_actions).id_counter == old(game_actions).id_counter,
            final(self).board@ == relocated_board(
                old(self).board@,
                tile_index(current_pos.0 as int, current_pos.1 as int),
                tile_index(new_pos.0 as int, new_pos.1 as int),
                direction,
            ),
            final(transfers)@ == old(transfers)@.push(ValueTransfer::PoolToPlayer {
                player,
                lamports: old(self).board@[tile_index(new_pos.0 as int, new_pos.1 as int)]
                    .collect_reward,
            }).push(ValueTransfer::VaultTokensToPlayer {
                player,
                amount: (CHEST_COIN_REWARD * TOKEN_DECIMAL_MULTIPLIER) as u64,
            }),
            final(game_actions).game_actions@ == log_append(
                old(game_actions).game_actions@,
                GameAction {
                    action_id: old(self).action_id,
                    action_type: GAME_ACTION_SHIP_COINS_COLLECTED,
                    player,
                    target: player,
                    damage: CHEST_COIN_REWARD,
                },
            ),
            final(self).action_id == next_action_id(old(self).action_id),
    {
        let dst = new_pos.0 * BOARD_SIZE_Y + new_pos.1;
        let chest_reward = self.board[dst].collect_reward;
        self.move_to_empty_tile(current_pos, new_pos, direction);
        transfers.push(ValueTransfer::PoolToPlayer { player, lamports: chest_reward });
        transfers.push(ValueTransfer::VaultTokensToPlayer {
            player,
            amount: CHEST_COIN_REWARD * TOKEN_DECIMAL_MULTIPLIER,
        });
        let action = GameAction {
            action_id: self.action_id,
            action_type: GAME_ACTION_SHIP_COINS_COLLECTED,
            player,
            target: player,
            damage: CHEST_COIN_REWARD,
        };
        self.add_new_game_action(game_actions, action);
    }

    /// Dispatches a move that lands on `new_pos` over the destination's
    /// occupancy: relocate onto empty, collect a chest, or fight a player
    /// (a melee hit of 1, the mover staying put).
    fn handle_movement(
        &mut self,
        current_pos: (usize, usize),
        new_pos: (usize, usize),
        direction: u8,
        player: PlayerId,
        game_actions: &mut GameActionHistory,
        transfers: &mut Vec<ValueTransfer>,
    ) -> (r: Result<(), SevenSeasError>)
        requires
            old(self).wf(),
            old(game_actions).wf(),
            current_pos.0 < BOARD_SIZE_X,
            current_pos.1 < BOARD_SIZE_Y,
            new_pos.0 < BOARD_SIZE_X,
            new_pos.1 < BOARD_SIZE_Y,
            old(self).board@[tile_index(current_pos.0 as int, current_pos.1 as int)].state
                == STATE_PLAYER,
        ensures
            final(self).wf(),
            final(game_actions).wf(),
            final(game_actions).id_counter == old(game_actions).id_counter,
            ({
                let src = tile_index(current_pos.0 as int, current_pos.1 as int);
                let dst = tile_index(new_pos.0 as int, new_pos.1 as int);
                let t = old(self).board@[dst];
                if t.state == STATE_EMPTY {
                    r is Ok && final(self).board@ == relocated_board(
                        old(self).board@,
                        src,
                        dst,
                        direction,
                    ) && final(self).action_id == old(self).action_id && final(game_actions).game_actions@ == old(game_actions).game_actions@ && final(transfers)@ == old(transfers)@
                } else if t.state == STATE_CHEST {
                    r is Ok && final(self).board@ == relocated_board(
                        old(self).board@,
                        src,
                        dst,
                        direction,
                    ) && final(self).action_id == next_action_id(old(self).action_id) && final(game_actions).game_actions@ == log_append(
                        old(game_actions).game_actions@,
                        GameAction {
                            action_id: old(self).action_id,
                            action_type: GAME_ACTION_SHIP_COINS_COLLECTED,
                            player,
                            target: player,
                            damage: CHEST_COIN_REWARD,
                        },
                    ) && final(transfers)@ == old(transfers)@.push(ValueTransfer::PoolToPlayer {
                        player,
                        lamports: t.collect_reward,
                    }).push(ValueTransfer::VaultTokensToPlayer {
                        player,
                        amount: (CHEST_COIN_REWARD * TOKEN_DECIMAL_MULTIPLIER) as u64,
                    })
                } else if t.state == STATE_PLAYER {
                    r is Ok && ({
                        let (b2, log2, id2, tr2) = attack_one(
                            (
                                old(self).board@,
                                old(game_actions).game_actions@,
                                old(self).action_id,
                                old(transfers)@,
                            ),
                            dst,
                            1,
                            player,
                        );
                        final(self).board@ == b2 && final(game_actions).game_actions@ == log2
                            && final(self).action_id == id2 && final(transfers)@ == tr2
                    })
                } else {
                    r == Err::<(), SevenSeasError>(SevenSeasError::InvalidTileState) && final(self).board@ == old(self).board@ && final(self).action_id == old(self).action_id
                        && final(game_actions).game_actions@ == old(game_actions).game_actions@
                        && final(transfers)@ == old(transfers)@
                }
            }),
    {
        let dst = new_pos.0 * BOARD_SIZE_Y + new_pos.1;
        let new_tile = self.board[dst];
        if new_tile.state == STATE_EMPTY {
            self.move_to_empty_tile(current_pos, new_pos, direction);
            Ok(())
        } else if new_tile.state == STATE_CHEST {
            self.collect_chest(current_pos, new_pos, direction, player, game_actions, transfers);
            Ok(())
        } else if new_tile.state == STATE_PLAYER {
            self.attack_tile(new_pos.0, new_pos.1, 1, player, game_actions, transfers);
            Ok(())
        } else {
            Err(SevenSeasError::InvalidTileState)
        }
    }

    /// Moves `player`'s ship one step in `direction` (0 up, 1 right, 2 down,
    /// 3 left): relocation onto an empty tile, chest collection, or a melee
    /// hit on an occupied one. A failed move changes nothing; under the
    /// board invariant the defensive `InvalidTileState` refusal cannot
    /// occur.
    pub fn move_in_direction(
        &mut self,
        direction: u8,
        player: PlayerId,
        game_actions: &mut GameActionHistory,
        transfers: &mut Vec<ValueTransfer>,
    ) -> (r: Result<(), SevenSeasError>)
        requires
            old(self).wf(),
            old(game_actions).wf(),
        ensures
            final(self).wf(),
            final(game_actions).wf(),
            final(game_actions).id_counter == old(game_actions).id_counter,
            r != Err::<(), SevenSeasError>(SevenSeasError::InvalidTileState),
            match find_player_first(old(self).board@, player, BOARD_TILE_COUNT as int) {
                None => r == Err::<(), SevenSeasError>(
                    SevenSeasError::TriedToMovePlayerThatWasNotOnTheBoard,
                ) && final(self).board@ == old(self).board@ && final(self).action_id == old(self).action_id && final(game_actions).game_actions@ == old(game_actions).game_actions@
                    && final(transfers)@ == old(transfers)@,
                Some(src) => match step_position(
                    src / (BOARD_SIZE_Y as int),
                    src % (BOARD_SIZE_Y as int),
                    direction,
                ) {
                    None => r == Err::<(), SevenSeasError>(SevenSeasError::WrongDirectionInput)
                        && final(self).board@ == old(self).board@ && final(self).action_id == old(self).action_id && final(game_actions).game_actions@ == old(game_actions).game_actions@ && final(transfers)@ == old(transfers)@,
                    Some(new_xy) => ({
                        let dst = tile_index(new_xy.0, new_xy.1);
                        let t = old(self).board@[dst];
                        if t.state == STATE_EMPTY {
                            r is Ok && final(self).board@ == relocated_board(
                                old(self).board@,
                                src,
                                dst,
                                direction,
                            ) && final(self).action_id == old(self).action_id && final(game_actions).game_actions@ == old(game_actions).game_actions@ && final(transfers)@
                                == old(transfers)@
                        } else if t.state == STATE_CHEST {
                            r is Ok && final(self).board@ == relocated_board(
                                old(self).board@,
                                src,
                                dst,
                                direction,
                            ) && final(self).action_id == next_action_id(old(self).action_id)
                                && final(game_actions).game_actions@ == log_append(
                                old(game_actions).game_actions@,
                                GameAction {
                                    action_id: old(self).action_id,
                                    action_type: GAME_ACTION_SHIP_COINS_COLLECTED,
                                    player,
                                    target: player,
                                    damage: CHEST_COIN_REWARD,
                                },
                            ) && final(transfers)@ == old(transfers)@.push(
                                ValueTransfer::PoolToPlayer { player, lamports: t.collect_reward },
                            ).push(ValueTransfer::VaultTokensToPlayer {
                                player,
                                amount: (CHEST_COIN_REWARD * TOKEN_DECIMAL_MULTIPLIER) as u64,
                            })
                        } else if t.state == STATE_PLAYER {
                            r is Ok && ({
                                let (b2, log2, id2, tr2) = attack_one(
                                    (
                                        old(self).board@,
                                        old(game_actions).game_actions@,
                                        old(self).action_id,
                                        old(transfers)@,
                                    ),
                                    dst,
                                    1,
                                    player,
                                );
                                final(self).board@ == b2 && final(game_actions).game_actions@
                                    == log2 && final(self).action_id == id2 && final(transfers)@
                                    == tr2
                            })
                        } else {
                            r == Err::<(), SevenSeasError>(SevenSeasError::InvalidTileState)
                                && final(self).board@ == old(self).board@ && final(self).action_id
                                == old(self).action_id && final(game_actions).game_actions@ == old(game_actions).game_actions@ && final(transfers)@ == old(transfers)@
                        }
                    }),
                },
            },
    {
        let current_pos = match self.find_player_position(player) {
            Ok(pos) => pos,
            Err(e) => {
                return Err(e);
            },
        };
        proof {
            lemma_find_first_some(self.board@, player, BOARD_TILE_COUNT as int);
        }
        let new_pos = match self.calculate_new_position(current_pos, direction) {
            Ok(pos) => pos,
            Err(e) => {
                return Err(e);
            },
        };
        self.handle_movement(current_pos, new_pos, direction, player, game_actions, transfers)
    }

    /// The monster, anchored at the grid origin, strikes the nearest ship:
    /// base damage plus a variance drawn from a generator seeded with the
    /// victim's health, saturating at zero health. A kill clears the tile
    /// but pays nothing; exactly one entry is logged. With no ship on the
    /// board the attack fails and changes nothing.
    pub fn cthulhu(&mut self, game_actions: &mut GameActionHistory) -> (r: Result<
        (),
        SevenSeasError,
    >)
        requires
            old(self).wf(),
            old(game_actions).wf(),
        ensures
            final(self).wf(),
            final(game_actions).wf(),
            final(game_actions).id_counter == old(game_actions).id_counter,
            match monster_target_upto(old(self).board@, BOARD_TILE_COUNT as int) {
                None => r == Err::<(), SevenSeasError>(SevenSeasError::CouldNotFindAShipToAttack)
                    && final(self).board@ == old(self).board@ && final(self).action_id == old(
                    self,
                ).action_id && final(game_actions).game_actions@ == old(game_actions).game_actions@,
                Some(i) => ({
                    let t = old(self).board@[i];
                    let d = monster_damage(t.health);
                    r is Ok && final(self).board@ == (if d >= t.health {
                        old(self).board@.update(i, Tile::empty_spec())
                    } else {
                        old(self).board@.update(i, Tile { health: (t.health - d) as u64, ..t })
                    }) && final(game_actions).game_actions@ == log_append(
                        old(game_actions).game_actions@,
                        GameAction {
                            action_id: old(self).action_id,
                            action_type: GAME_ACTION_SHIP_CTHULUH_ATTACKED_SHIP,
                            player: t.player,
                            target: t.player,
                            damage: d,
                        },
                    ) && final(self).action_id == next_action_id(old(self).action_id)
                }),
            },
    {
        let mut smallest_distance: u64 = 10_000_000_000;
        let mut attacked_player_position: Option<usize> = None;
        let mut i: usize = 0;
        while i < BOARD_TILE_COUNT
            invariant
                i <= BOARD_TILE_COUNT,
                self.wf(),
                self.board@ == old(self).board@,
                self.action_id == old(self).action_id,
                match monster_target_upto(self.board@, i as int) {
                    None => attacked_player_position is None && smallest_distance
                        == 10_000_000_000u64,
                    Some(j) => attacked_player_position matches Some(bi) && bi as int == j && 0 <= j
                        < i && smallest_distance as int == distance_sq_from_origin(j),
                },
            decreases BOARD_TILE_COUNT - i,
        {
            let t = self.board[i];
            if t.state == STATE_PLAYER {
                let x = i / BOARD_SIZE_Y;
                let y = i % BOARD_SIZE_Y;
                assert(x * x + y * y <= 162) by (nonlinear_arith)
                    requires
                        x <= 9,
                        y <= 9,
                ;
                let distance = (x * x + y * y) as u64;
                if distance < smallest_distance {
                    smallest_distance = distance;
                    attacked_player_position = Some(i);
                }
            }
            i = i + 1;
        }
        match attacked_player_position {
            None => Err(SevenSeasError::CouldNotFindAShipToAttack),
            Some(idx) => {
                let tile = self.board[idx];
                let victim = tile.player;
                let mut rng = XorShift64 { a: tile.health };
                let chtulu_damage: u64 = CTHULHU_BASE_DAMAGE;
                let damage = chtulu_damage + (rng.next() % CTHULHU_DAMAGE_VARIANT) + 1;
                let new_health = match tile.health.checked_sub(damage) {
                    None => 0,
                    Some(val) => val,
                };
                if new_health == 0 {
                    self.board.set(idx, Tile::default());
                } else {
                    let mut hurt = tile;
                    hurt.health = new_health;
                    self.board.set(idx, hurt);
                }
                let item = GameAction {
                    action_id: self.action_id,
                    action_type: GAME_ACTION_SHIP_CTHULUH_ATTACKED_SHIP,
                    player: victim,
                    target: victim,
                    damage,
                };
                self.add_new_game_action(game_actions, item);
                Ok(())
            },
        }
    }

    /// `player`'s ship fires: at each step out to its range it attacks both
    /// in-bounds ends of the axis its facing selects (horizontal for even
    /// facings, vertical for odd), then logs exactly one shot entry however
    /// many tiles were hit. The shooter's cell is the one a full scan
    /// remembers last.
    pub fn shoot(
        &mut self,
        player: PlayerId,
        game_actions: &mut GameActionHistory,
        transfers: &mut Vec<ValueTransfer>,
    ) -> (r: Result<(), SevenSeasError>)
        requires
            old(self).wf(),
            old(game_actions).wf(),
            forall|i: int|
                0 <= i < BOARD_TILE_COUNT && #[trigger] player_at(old(self).board@, i, player)
                    ==> old(self).board@[i].damage + 2 <= u64::MAX,
        ensures
            final(self).wf(),
            final(game_actions).wf(),
            final(game_actions).id_counter == old(game_actions).id_counter,
            match find_player_last(old(self).board@, player, BOARD_TILE_COUNT as int) {
                None => r == Err::<(), SevenSeasError>(
                    SevenSeasError::TriedToShootWithPlayerThatWasNotOnTheBoard,
                ) && final(self).board@ == old(self).board@ && final(self).action_id == old(
                    self,
                ).action_id && final(game_actions).game_actions@ == old(game_actions).game_actions@
                    && final(transfers)@ == old(transfers)@,
                Some(i) => ({
                    let t = old(self).board@[i];
                    let damage = (t.damage + 2) as u64;
                    let st = attack_all(
                        (
                            old(self).board@,
                            old(game_actions).game_actions@,
                            old(self).action_id,
                            old(transfers)@,
                        ),
                        shot_targets_upto(
                            i / (BOARD_SIZE_Y as int),
                            i % (BOARD_SIZE_Y as int),
                            t.look_direction,
                            t.range as int,
                        ),
                        damage,
                        player,
                    );
                    r is Ok && final(self).board@ == st.0 && final(game_actions).game_actions@
                        == log_append(
                        st.1,
                        GameAction {
                            action_id: st.2,
                            action_type: GAME_ACTION_SHIP_SHOT,
                            player,
                            target: player,
                            damage,
                        },
                    ) && final(self).action_id == next_action_id(st.2) && final(transfers)@ == st.3
                }),
            },
    {
        let mut player_position: Option<(usize, usize)> = None;
        let mut i: usize = 0;
        while i < BOARD_TILE_COUNT
            invariant
                i <= BOARD_TILE_COUNT,
                self.wf(),
                self.board@ == old(self).board@,
                self.action_id == old(self).action_id,
                match find_player_last(self.board@, player, i as int) {
                    None => player_position is None,
                    Some(j) => player_position matches Some(pos) && pos.0 < BOARD_SIZE_X && pos.1
                        < BOARD_SIZE_Y && tile_index(pos.0 as int, pos.1 as int) == j,
                },
            decreases BOARD_TILE_COUNT - i,
        {
            let t = self.board[i];
            if t.state == STATE_PLAYER && t.player == player {
                player_position = Some((i / BOARD_SIZE_Y, i % BOARD_SIZE_Y));
            }
            i = i + 1;
        }
        let (x, y) = match player_position {
            None => {
                return Err(SevenSeasError::TriedToShootWithPlayerThatWasNotOnTheBoard);
            },
            Some(pos) => pos,
        };
        let ghost src = tile_index(x as int, y as int);
        proof {
            lemma_find_last_some(self.board@, player, BOARD_TILE_COUNT as int);
            assert(player_at(self.board@, src, player));
        }
        let player_tile = self.board[x * BOARD_SIZE_Y + y];
        let range_usize: usize = player_tile.range as usize;
        let damage = player_tile.damage + 2;
        let ghost init: AttackState = (
            self.board@,
            game_actions.game_actions@,
            self.action_id,
            transfers@,
        );
        let mut step: usize = 1;
        while step <= range_usize
            invariant
                1 <= step <= range_usize + 1,
                range_usize <= u16::MAX as usize,
                x < BOARD_SIZE_X,
                y < BOARD_SIZE_Y,
                self.wf(),
                game_actions.wf(),
                game_actions.id_counter == old(game_actions).id_counter,
                (self.board@, game_actions.game_actions@, self.action_id, transfers@)
                    == attack_all(
                    init,
                    shot_targets_upto(
                        x as int,
                        y as int,
                        player_tile.look_direction,
                        step - 1,
                    ),
                    damage,
                    player,
                ),
            decreases range_usize + 1 - step,
        {
            let ghost s0: AttackState = (
                self.board@,
                game_actions.game_actions@,
                self.action_id,
                transfers@,
            );
            let even = player_tile.look_direction % 2 == 0;
            if even && x >= step {
                self.attack_tile(x - step, y, damage, player, game_actions, transfers);
            }
            if even && x + step < BOARD_SIZE_X {
                let ghost s1: AttackState = (
                    self.board@,
                    game_actions.game_actions@,
                    self.action_id,
                    transfers@,
                );
                self.attack_tile(x + step, y, damage, player, game_actions, transfers);
                proof {
                    lemma_attack_all_one(s1, tile_index(x as int + step, y as int), damage,
                        player);
                }
            }
            if !even && y + step < BOARD_SIZE_Y {
                self.attack_tile(x, y + step, damage, player, game_actions, transfers);
            }
            if !even && y >= step {
                let ghost s3: AttackState = (
                    self.board@,
                    game_actions.game_actions@,
                    self.action_id,
                    transfers@,
                );
                self.attack_tile(x, y - step, damage, player, game_actions, transfers);
                proof {
                    lemma_attack_all_one(s3, tile_index(x as int, y as int - step), damage,
                        player);
                }
            }
            proof {
                let ld = player_tile.look_direction;
                let stargets = shot_targets_at_step(x as int, y as int, ld, step as int);
                if ld % 2 == 0 {
                    let first: Seq<int> = if x >= step {
                        seq![tile_index(x as int - step, y as int)]
                    } else {
                        Seq::empty()
                    };
                    let second: Seq<int> = if x as int + step < BOARD_SIZE_X {
                        seq![tile_index(x as int + step, y as int)]
                    } else {
                        Seq::empty()
                    };
                    lemma_attack_all_concat(s0, first, second, damage, player);
                    if x >= step {
                        lemma_attack_all_one(s0, tile_index(x as int - step, y as int), damage,
                            player);
                    }
                    assert((self.board@, game_actions.game_actions@, self.action_id, transfers@)
                        == attack_all(s0, stargets, damage, player));
                } else {
                    let first: Seq<int> = if y as int + step < BOARD_SIZE_Y {
                        seq![tile_index(x as int, y as int + step)]
                    } else {
                        Seq::empty()
                    };
                    let second: Seq<int> = if y >= step {
                        seq![tile_index(x as int, y as int - step)]
                    } else {
                        Seq::empty()
                    };
                    lemma_attack_all_concat(s0, first, second, damage, player);
                    if y as int + step < BOARD_SIZE_Y {
                        lemma_attack_all_one(s0, tile_index(x as int, y as int + step), damage,
                            player);
                    }
                    assert((self.board@, game_actions.game_actions@, self.action_id, transfers@)
                        == attack_all(s0, stargets, damage, player));
                }
                lemma_attack_all_concat(
                    init,
                    shot_targets_upto(x as int, y as int, ld, step - 1),
                    stargets,
                    damage,
                    player,
                );
            }
            step = step + 1;
        }
        let item = GameAction {
            action_id: self.action_id,
            action_type: GAME_ACTION_SHIP_SHOT,
            player,
            target: player,
            damage,
        };
        self.add_new_game_action(game_actions, item);
        Ok(())
    }
}

} // verus!
