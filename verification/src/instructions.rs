//! The spawn entry point as a caller invokes it: the ship's cannon count
//! and bonus health are derived from token balances, the player's ship and
//! one chest are placed, and the deposits owed for both are requested as
//! transfers. The whole entry either fully commits or changes nothing.

use vstd::prelude::*;

use crate::game::{
    chest_spawn_index, empty_slots, has_player, lemma_empty_slots_update_occupied,
    lemma_empty_slots_upto_props, player_spawn_index, spawned_chest_tile, spawned_player_tile,
    GameDataAccount, BOARD_TILE_COUNT, STATE_EMPTY,
};
use crate::ship::Ship;
use crate::{PlayerId, SevenSeasError, ValueTransfer, CHEST_REWARD, PLAYER_KILL_REWARD,
    PLAY_GAME_FEE};

verus! {

/// The `e`-th power of ten.
pub open spec fn pow10(e: int) -> int
    decreases e,
{
    if e <= 0 {
        1
    } else {
        10 * pow10(e - 1)
    }
}

/// Powers of ten are positive.
pub proof fn lemma_pow10_pos(e: int)
    ensures
        pow10(e) >= 1,
    decreases e,
{
    if e > 0 {
        lemma_pow10_pos(e - 1);
    }
}

/// Powers of ten grow with the exponent.
pub proof fn lemma_pow10_mono(a: int, b: int)
    requires
        0 <= a <= b,
    ensures
        pow10(a) <= pow10(b),
    decreases b,
{
    if a < b {
        lemma_pow10_mono(a, b - 1);
        lemma_pow10_pos(b - 1);
    }
}

/// Powers of ten up to the 19th stay within one positive 64-bit word.
pub proof fn lemma_pow10_bounds(e: int)
    requires
        0 <= e <= 19,
    ensures
        1 <= pow10(e) <= 10_000_000_000_000_000_000,
{
    lemma_pow10_pos(e);
    lemma_pow10_mono(e, 19);
    assert(pow10(19) == 10_000_000_000_000_000_000) by {
        reveal_with_fuel(pow10, 20);
    }
}

/// Computes the `e`-th power of ten; `e` at most 19, so the result fits.
fn pow10_u64(e: u8) -> (r: u64)
    requires
        e <= 19,
    ensures
        r == pow10(e as int),
{
    let mut p: u64 = 1;
    let mut k: u8 = 0;
    while k < e
        invariant
            k <= e,
            e <= 19,
            p == pow10(k as int),
        decreases e - k,
    {
        proof {
            lemma_pow10_bounds(k as int + 1);
        }
        p = p * 10;
        k = k + 1;
    }
    p
}

/// How many whole tokens a raw balance holds under the mint's decimal
/// scaling: the balance divided by ten to the `decimals`.
pub fn token_whole_units(amount: u64, decimals: u8) -> (r: u64)
    requires
        decimals <= 19,
    ensures
        r == amount as int / pow10(decimals as int),
{
    let p = pow10_u64(decimals);
    proof {
        lemma_pow10_bounds(decimals as int);
    }
    amount / p
}

/// Spawns `player` and one chest in a single entry.
///
/// The ship's cannon count becomes the whole-token balance of the cannon
/// account and the bonus health the whole-token balance of the rum account,
/// both under the cannon mint's decimal scaling. On success the spawn
/// deposit and the chest deposit are requested from the player, in that
/// order. A refused entry — the player already aboard, or fewer than the
/// two empty tiles the pair of spawns needs — changes nothing.
pub fn spawn_player(
    game: &mut GameDataAccount,
    ship: &mut Ship,
    player: PlayerId,
    avatar: PlayerId,
    cannon_amount: u64,
    decimals: u8,
    rum_amount: u64,
    transfers: &mut Vec<ValueTransfer>,
) -> (r: Result<(), SevenSeasError>)
    requires
        old(game).wf(),
        decimals <= 19,
        old(ship).health + rum_amount as int / pow10(decimals as int) <= u64::MAX,
    ensures
        final(game).wf(),
        final(game).action_id == old(game).action_id,
        r == Err::<(), SevenSeasError>(SevenSeasError::PlayerAlreadyExists) <==> has_player(
            old(game).board@,
            player,
        ),
        r == Err::<(), SevenSeasError>(SevenSeasError::BoardIsFull) <==> (!has_player(
            old(game).board@,
            player,
        ) && empty_slots(old(game).board@).len() < 2),
        r is Err ==> final(game).board@ == old(game).board@ && *final(ship) == *old(ship)
            && final(transfers)@ == old(transfers)@,
        r is Ok <==> (!has_player(old(game).board@, player) && empty_slots(
            old(game).board@,
        ).len() >= 2),
        r is Ok ==> ({
            let new_ship = Ship {
                cannons: (cannon_amount as int / pow10(decimals as int)) as u64,
                ..*old(ship)
            };
            let extra = (rum_amount as int / pow10(decimals as int)) as u64;
            let b1 = old(game).board@.update(
                player_spawn_index(old(game).board@),
                spawned_player_tile(player, avatar, new_ship, extra),
            );
            *final(ship) == new_ship && final(game).board@ == b1.update(
                chest_spawn_index(b1),
                spawned_chest_tile(player),
            ) && final(transfers)@ == old(transfers)@.push(ValueTransfer::PlayerToPool {
                player,
                lamports: (PLAYER_KILL_REWARD + PLAY_GAME_FEE) as u64,
            }).push(ValueTransfer::PlayerToPool { player, lamports: CHEST_REWARD })
        }),
{
    let cannons = token_whole_units(cannon_amount, decimals);
    let extra_health = token_whole_units(rum_amount, decimals);
    if game.has_player_on_board(player) {
        return Err(SevenSeasError::PlayerAlreadyExists);
    }
    let empties = game.count_empty_tiles();
    if empties < 2 {
        return Err(SevenSeasError::BoardIsFull);
    }
    ship.cannons = cannons;
    let ghost b0 = game.board@;
    match game.spawn_player(player, avatar, ship, extra_health) {
        Ok(()) => {},
        Err(e) => {
            proof {
                assert(false);
            }
            return Err(e);
        },
    }
    transfers.push(ValueTransfer::PlayerToPool {
        player,
        lamports: PLAYER_KILL_REWARD + PLAY_GAME_FEE,
    });
    proof {
        lemma_empty_slots_upto_props(b0, b0.len() as int);
        let pi = player_spawn_index(b0);
        assert(0 <= pi < b0.len() && b0[pi].state == STATE_EMPTY);
        lemma_empty_slots_update_occupied(
            b0,
            pi,
            spawned_player_tile(player, avatar, *ship, extra_health),
            b0.len() as int,
        );
    }
    match game.spawn_chest(player) {
        Ok(()) => {},
        Err(e) => {
            proof {
                assert(false);
            }
            return Err(e);
        },
    }
    transfers.push(ValueTransfer::PlayerToPool { player, lamports: CHEST_REWARD });
    Ok(())
}

} // verus!
