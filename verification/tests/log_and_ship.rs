//! The bounded action log, the ship profile, and the spawn entry point.

use seven_seas::actions::{GameAction, GameActionHistory, GAME_ACTION_SHIP_SHOT};
use seven_seas::game::{GameDataAccount, Tile, BOARD_SIZE_X, BOARD_SIZE_Y, STATE_CHEST,
    STATE_PLAYER};
use seven_seas::instructions::{spawn_player, token_whole_units};
use seven_seas::ship::{initialize_ship, upgrade_ship, Ship};
use seven_seas::{PlayerId, SevenSeasError, ValueTransfer, CHEST_REWARD, PLAYER_KILL_REWARD,
    TOKEN_DECIMAL_MULTIPLIER};

fn pid(value: u64) -> PlayerId {
    PlayerId { value }
}

fn entry(n: u64) -> GameAction {
    GameAction {
        action_id: n,
        action_type: GAME_ACTION_SHIP_SHOT,
        player: pid(1),
        target: pid(1),
        damage: 0,
    }
}

#[test]
fn action_log_capacity_and_batch_eviction() {
    let mut game = GameDataAccount::default();
    let mut log = GameActionHistory::new();
    for _ in 0..100 {
        let e = entry(game.action_id);
        game.add_new_game_action(&mut log, e);
        assert!(log.game_actions.len() <= 100);
    }
    assert_eq!(log.game_actions.len(), 100);
    assert_eq!(log.game_actions[0].action_id, 0);
    assert_eq!(log.game_actions[99].action_id, 99);
    // the append that would make it 101 drops the log to 96: the oldest
    // batch of 5 leaves and the new entry arrives
    let e = entry(game.action_id);
    game.add_new_game_action(&mut log, e);
    assert_eq!(log.game_actions.len(), 96);
    assert_eq!(log.game_actions[0].action_id, 5);
    assert_eq!(log.game_actions[95].action_id, 100);
    for (k, a) in log.game_actions.iter().enumerate() {
        assert_eq!(a.action_id, 5 + k as u64, "survivors are the most recent, in order");
    }
}

#[test]
fn action_log_append_keeps_id_counter() {
    let mut log = GameActionHistory::new();
    log.append(entry(0));
    assert_eq!(log.id_counter, 0);
    assert_eq!(log.game_actions.len(), 1);
}

#[test]
fn initialize_ship_values() {
    let mut ship = Ship::default();
    initialize_ship(&mut ship);
    assert_eq!(ship.health, 50);
    assert_eq!(ship.start_health, 50);
    assert_eq!(ship.level, 1);
    assert_eq!(ship.upgrades, 0);
    assert_eq!(ship.cannons, 1);
    assert_eq!(ship.kills, 0);
    assert_eq!(ship.xp, 0);
}

#[test]
fn upgrade_ship_tiers_costs_and_cap() {
    let mut ship = Ship::default();
    initialize_ship(&mut ship);
    let mut transfers: Vec<ValueTransfer> = Vec::new();
    let expected = [(100u64, 1u16, 5u64), (150, 2, 200), (300, 3, 1500), (500, 4, 25000)];
    for (health, tier, cost) in expected {
        assert!(upgrade_ship(&mut ship, pid(7), &mut transfers).is_ok());
        assert_eq!(ship.health, health);
        assert_eq!(ship.upgrades, tier);
        assert_eq!(
            transfers.last(),
            Some(&ValueTransfer::PlayerTokensToVault {
                player: pid(7),
                amount: cost * TOKEN_DECIMAL_MULTIPLIER,
            })
        );
    }
    let before = ship;
    let r = upgrade_ship(&mut ship, pid(7), &mut transfers);
    assert_eq!(r, Err(SevenSeasError::MaxShipLevelReached));
    assert_eq!(ship, before);
    assert_eq!(transfers.len(), 4);
}

#[test]
fn token_whole_units_examples() {
    assert_eq!(token_whole_units(2_500_000_000, 9), 2);
    assert_eq!(token_whole_units(999_999_999, 9), 0);
    assert_eq!(token_whole_units(42, 0), 42);
    assert_eq!(token_whole_units(u64::MAX, 19), 1);
}

#[test]
fn spawn_entry_places_ship_and_chest_and_requests_deposits() {
    let mut game = GameDataAccount::default();
    let mut ship = Ship::default();
    initialize_ship(&mut ship);
    let mut transfers: Vec<ValueTransfer> = Vec::new();
    let r = spawn_player(
        &mut game,
        &mut ship,
        pid(7),
        pid(8),
        3_000_000_000,
        9,
        2_000_000_000,
        &mut transfers,
    );
    assert!(r.is_ok());
    assert_eq!(ship.cannons, 3);
    // the player lands on the drawn slot (2,4); the chest on the next draw
    let t = game.tile_at(2, 4);
    assert_eq!(t.state, STATE_PLAYER);
    assert_eq!(t.player, pid(7));
    assert_eq!(t.health, 52, "profile health plus rum-derived bonus");
    assert_eq!(t.damage, 3);
    let c = game.tile_at(1, 1);
    assert_eq!(c.state, STATE_CHEST);
    assert_eq!(c.collect_reward, CHEST_REWARD);
    assert_eq!(
        transfers,
        vec![
            ValueTransfer::PlayerToPool { player: pid(7), lamports: PLAYER_KILL_REWARD },
            ValueTransfer::PlayerToPool { player: pid(7), lamports: CHEST_REWARD },
        ]
    );
}

#[test]
fn spawn_entry_refuses_full_board_with_zero_transfers() {
    let mut game = GameDataAccount::default();
    for x in 0..BOARD_SIZE_X {
        for y in 0..BOARD_SIZE_Y {
            game.set_tile(
                x,
                y,
                Tile { state: STATE_CHEST, health: 1, start_health: 1, ..Tile::default() },
            );
        }
    }
    let mut ship = Ship::default();
    initialize_ship(&mut ship);
    let ship_before = ship;
    let mut transfers: Vec<ValueTransfer> = Vec::new();
    let r = spawn_player(&mut game, &mut ship, pid(7), pid(7), 0, 9, 0, &mut transfers);
    assert_eq!(r, Err(SevenSeasError::BoardIsFull));
    assert_eq!(transfers.len(), 0);
    assert_eq!(ship, ship_before);
}

#[test]
fn spawn_entry_needs_room_for_ship_and_chest() {
    // a single empty tile is not enough: the pair of spawns is refused
    // whole, nothing changes
    let mut game = GameDataAccount::default();
    for x in 0..BOARD_SIZE_X {
        for y in 0..BOARD_SIZE_Y {
            if (x, y) != (9, 9) {
                game.set_tile(
                    x,
                    y,
                    Tile { state: STATE_CHEST, health: 1, start_health: 1, ..Tile::default() },
                );
            }
        }
    }
    let mut ship = Ship::default();
    initialize_ship(&mut ship);
    let mut transfers: Vec<ValueTransfer> = Vec::new();
    let r = spawn_player(&mut game, &mut ship, pid(7), pid(7), 0, 9, 0, &mut transfers);
    assert_eq!(r, Err(SevenSeasError::BoardIsFull));
    assert_eq!(transfers.len(), 0);
    assert_eq!(game.tile_at(9, 9), Tile::default());
}

#[test]
fn spawn_entry_refuses_a_player_already_aboard() {
    let mut game = GameDataAccount::default();
    game.set_tile(
        0,
        0,
        Tile { state: STATE_PLAYER, player: pid(7), health: 50, ..Tile::default() },
    );
    let mut ship = Ship::default();
    initialize_ship(&mut ship);
    let mut transfers: Vec<ValueTransfer> = Vec::new();
    let r = spawn_player(&mut game, &mut ship, pid(7), pid(7), 0, 9, 0, &mut transfers);
    assert_eq!(r, Err(SevenSeasError::PlayerAlreadyExists));
    assert_eq!(transfers.len(), 0);
}

#[test]
fn action_id_wraps_to_zero_on_overflow() {
    let mut game = GameDataAccount::default();
    game.action_id = u64::MAX;
    let mut log = GameActionHistory::new();
    let e = entry(game.action_id);
    game.add_new_game_action(&mut log, e);
    assert_eq!(game.action_id, 0);
}
