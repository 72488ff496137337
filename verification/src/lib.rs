//! Deterministic engine for a grid-based multiplayer combat game.
//!
//! The engine owns a fixed 10x10 occupancy grid of tiles, a bounded action
//! log, and a deterministic pseudo-random generator. Every operation either
//! fully commits or leaves the state untouched, and every movement of value
//! between the custodial chest pool, the token vault and the participants is
//! returned to the caller as an explicit [`ValueTransfer`] request rather
//! than settled here: the hosting environment performs the settlement.

use vstd::prelude::*;

pub mod actions;
pub mod game;
pub mod instructions;
pub mod rng;
pub mod ship;

verus! {

/// Reward paid into the chest pool when a player spawns, and paid out to the
/// attacker that destroys the player's ship (one twentieth of one SOL-like
/// unit of the custodial balance).
pub const PLAYER_KILL_REWARD: u64 = 1_000_000_000 / 20;

/// Value deposited for, and paid out by, a spawned reward chest.
pub const CHEST_REWARD: u64 = 1_000_000_000 / 20;

/// Flat fee for joining the game, collected together with the spawn deposit.
pub const PLAY_GAME_FEE: u64 = 0;

/// Fungible-token amounts are scaled by this factor when a transfer request
/// is issued, so that whole coin rewards map onto the token's smallest unit.
pub const TOKEN_DECIMAL_MULTIPLIER: u64 = 1_000_000_000;

/// Opaque, comparable participant identity. It stands in for the signer
/// public key of the hosting environment; equality is the only operation the
/// engine needs from it.
#[derive(Clone, Copy, PartialEq, Eq, Structural, Debug)]
pub struct PlayerId {
    pub value: u64,
}

/// The default identity: the all-zero key, carried by vacated tiles.
impl Default for PlayerId {
    fn default() -> (r: PlayerId)
        ensures
            r.value == 0,
    {
        PlayerId { value: 0 }
    }
}

/// Every way an engine operation can refuse to act. A refused operation
/// leaves the board, the action log and the transfer plan untouched.
#[derive(Clone, Copy, PartialEq, Eq, Structural, Debug)]
pub enum SevenSeasError {
    PlayerAlreadyExists,
    BoardIsFull,
    TriedToMovePlayerThatWasNotOnTheBoard,
    TriedToShootWithPlayerThatWasNotOnTheBoard,
    WrongDirectionInput,
    InvalidTileState,
    CouldNotFindAShipToAttack,
    MaxShipLevelReached,
}

/// A value-transfer request issued by the engine. The engine decides how much
/// moves from whom to whom; the hosting environment settles the request
/// against the custodial chest pool, the token vault (signing with the vault
/// authority it holds) and the participants' accounts, and must settle each
/// request atomically or abort the whole operation.
#[derive(Clone, Copy, PartialEq, Eq, Structural, Debug)]
pub enum ValueTransfer {
    /// Custodial balance from the chest pool to a participant.
    PoolToPlayer { player: PlayerId, lamports: u64 },
    /// Custodial balance from a participant into the chest pool.
    PlayerToPool { player: PlayerId, lamports: u64 },
    /// Fungible tokens from the vault to a participant, signed by the
    /// vault authority.
    VaultTokensToPlayer { player: PlayerId, amount: u64 },
    /// Fungible tokens from a participant into the vault.
    PlayerTokensToVault { player: PlayerId, amount: u64 },
}

} // verus!
