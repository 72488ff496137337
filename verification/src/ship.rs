//! Per-player persistent combat profile.
//!
//! A ship is created once per participant, read by the placement engine when
//! the player spawns onto the board, and mutated only by the upgrade
//! operation here. Upgrading costs fungible tokens: the engine returns the
//! payment as a transfer request for the host to settle.

use vstd::prelude::*;

use crate::{PlayerId, SevenSeasError, ValueTransfer, TOKEN_DECIMAL_MULTIPLIER};

verus! {

/// Persistent combat profile of one participant's ship.
#[derive(Clone, Copy, PartialEq, Eq, Structural, Debug)]
pub struct Ship {
    /// Current health, copied onto the board tile at spawn time.
    pub health: u64,
    /// Ships destroyed by this ship.
    pub kills: u16,
    /// Cannon count; becomes the spawned tile's base damage.
    pub cannons: u64,
    /// Upgrade tier; decides attack range and scales destroy rewards.
    pub upgrades: u16,
    /// Experience points.
    pub xp: u16,
    /// Display level.
    pub level: u16,
    /// Health granted when the ship was last made whole.
    pub start_health: u64,
}

/// A ship before any initialization: every field zero.
impl Default for Ship {
    fn default() -> (r: Ship)
        ensures
            r == (Ship {
                health: 0,
                kills: 0,
                cannons: 0,
                upgrades: 0,
                xp: 0,
                level: 0,
                start_health: 0,
            }),
    {
        Ship { health: 0, kills: 0, cannons: 0, upgrades: 0, xp: 0, level: 0, start_health: 0 }
    }
}

/// Token cost of the upgrade taken at the given tier, in whole coins.
/// Meaningful for tiers 0 through 3; higher tiers cannot upgrade.
pub open spec fn upgrade_cost(upgrades: u16) -> u64 {
    if upgrades == 0 {
        5
    } else if upgrades == 1 {
        200
    } else if upgrades == 2 {
        1500
    } else {
        25000
    }
}

/// Health granted by the upgrade taken at the given tier.
pub open spec fn upgrade_health(upgrades: u16) -> u64 {
    if upgrades == 0 {
        100
    } else if upgrades == 1 {
        150
    } else if upgrades == 2 {
        300
    } else {
        500
    }
}

/// Gives a freshly created ship its starting stats.
pub fn initialize_ship(ship: &mut Ship)
    ensures
        *final(ship) == (Ship {
            health: 50,
            start_health: 50,
            level: 1,
            upgrades: 0,
            cannons: 1,
            kills: old(ship).kills,
            xp: old(ship).xp,
        }),
{
    ship.health = 50;
    ship.start_health = 50;
    ship.level = 1;
    ship.upgrades = 0;
    ship.cannons = 1;
}

/// Takes the next upgrade: raises the ship's health and tier and requests
/// the token payment, or refuses once the top tier is reached.
pub fn upgrade_ship(ship: &mut Ship, player: PlayerId, transfers: &mut Vec<ValueTransfer>) -> (r:
    Result<(), SevenSeasError>)
    ensures
        old(ship).upgrades <= 3 <==> r is Ok,
        r is Err ==> r == Err::<(), SevenSeasError>(SevenSeasError::MaxShipLevelReached)
            && *final(ship) == *old(ship) && final(transfers)@ == old(transfers)@,
        r is Ok ==> *final(ship) == (Ship {
            health: upgrade_health(old(ship).upgrades),
            upgrades: (old(ship).upgrades + 1) as u16,
            ..*old(ship)
        }) && final(transfers)@ == old(transfers)@.push(ValueTransfer::PlayerTokensToVault {
            player,
            amount: (upgrade_cost(old(ship).upgrades) * TOKEN_DECIMAL_MULTIPLIER) as u64,
        }),
{
    let cost: u64;
    if ship.upgrades == 0 {
        ship.health = 100;
        ship.upgrades = 1;
        cost = 5;
    } else if ship.upgrades == 1 {
        ship.health = 150;
        ship.upgrades = 2;
        cost = 200;
    } else if ship.upgrades == 2 {
        ship.health = 300;
        ship.upgrades = 3;
        cost = 1500;
    } else if ship.upgrades == 3 {
        ship.health = 500;
        ship.upgrades = 4;
        cost = 25000;
    } else {
        return Err(SevenSeasError::MaxShipLevelReached);
    }
    transfers.push(ValueTransfer::PlayerTokensToVault { player, amount: cost * TOKEN_DECIMAL_MULTIPLIER });
    Ok(())
}

} // verus!
