//! Board-engine scenarios: spawning, movement, combat and the monster.

use seven_seas::actions::{
    GameAction, GameActionHistory, GAME_ACTION_SHIP_COINS_COLLECTED,
    GAME_ACTION_SHIP_CTHULUH_ATTACKED_SHIP, GAME_ACTION_SHIP_SHOT, GAME_ACTION_SHIP_TAKEN_DAMAGE,
};
use seven_seas::game::{
    GameDataAccount, Tile, BOARD_SIZE_X, BOARD_SIZE_Y, CHEST_COIN_REWARD, STATE_CHEST,
    STATE_EMPTY, STATE_PLAYER,
};
use seven_seas::rng::XorShift64;
use seven_seas::ship::Ship;
use seven_seas::{PlayerId, SevenSeasError, ValueTransfer, PLAYER_KILL_REWARD,
    TOKEN_DECIMAL_MULTIPLIER};

fn pid(value: u64) -> PlayerId {
    PlayerId { value }
}

fn player_tile(owner: u64, health: u64, damage: u64, range: u16, look_direction: u8) -> Tile {
    Tile {
        player: pid(owner),
        avatar: pid(owner),
        state: STATE_PLAYER,
        health,
        start_health: health,
        damage,
        range,
        collect_reward: PLAYER_KILL_REWARD,
        look_direction,
        ship_level: 1,
    }
}

fn chest_tile(depositor: u64, collect_reward: u64) -> Tile {
    Tile {
        player: pid(depositor),
        avatar: pid(depositor),
        state: STATE_CHEST,
        health: 1,
        start_health: 1,
        damage: 0,
        range: 0,
        collect_reward,
        look_direction: 0,
        ship_level: 0,
    }
}

fn snapshot(game: &GameDataAccount) -> Vec<Tile> {
    let mut tiles = Vec::new();
    for x in 0..BOARD_SIZE_X {
        for y in 0..BOARD_SIZE_Y {
            tiles.push(game.tile_at(x, y));
        }
    }
    tiles
}

fn test_ship() -> Ship {
    let mut ship = Ship::default();
    seven_seas::ship::initialize_ship(&mut ship);
    ship
}

#[test]
fn xorshift_next_matches_transform() {
    let mut rng = XorShift64 { a: 1 };
    assert_eq!(rng.next(), 1082269761);
    let mut rng = XorShift64 { a: 100 };
    assert_eq!(rng.next(), 108225927524);
}

#[test]
fn spawn_on_empty_board_lands_on_drawn_slot() {
    let mut game = GameDataAccount::default();
    let ship = test_ship();
    let r = game.spawn_player(pid(7), pid(8), &ship, 0);
    assert!(r.is_ok());
    // 100 empty slots seed the generator; the draw picks flat index 24.
    let t = game.tile_at(2, 4);
    assert_eq!(t.state, STATE_PLAYER);
    assert_eq!(t.player, pid(7));
    assert_eq!(t.avatar, pid(8));
    assert_eq!(t.health, 50);
    assert_eq!(t.start_health, 50);
    assert_eq!(t.damage, 1);
    assert_eq!(t.range, 1);
    assert_eq!(t.look_direction, 0);
    assert_eq!(t.collect_reward, PLAYER_KILL_REWARD);
    // every other tile is untouched
    for x in 0..BOARD_SIZE_X {
        for y in 0..BOARD_SIZE_Y {
            if (x, y) != (2, 4) {
                assert_eq!(game.tile_at(x, y), Tile::default());
            }
        }
    }
}

#[test]
fn spawn_extra_health_and_upgraded_range() {
    let mut game = GameDataAccount::default();
    let mut ship = test_ship();
    ship.health = 100;
    ship.upgrades = 3;
    ship.cannons = 4;
    let r = game.spawn_player(pid(9), pid(9), &ship, 25);
    assert!(r.is_ok());
    let t = game.tile_at(2, 4);
    assert_eq!(t.health, 125);
    assert_eq!(t.start_health, 125);
    assert_eq!(t.range, 2);
    assert_eq!(t.damage, 4);
    assert_eq!(t.ship_level, 3);
}

#[test]
fn spawn_existing_player_fails_board_unchanged() {
    let mut game = GameDataAccount::default();
    game.set_tile(9, 9, player_tile(7, 50, 1, 1, 0));
    let before = snapshot(&game);
    let ship = test_ship();
    let r = game.spawn_player(pid(7), pid(7), &ship, 0);
    assert_eq!(r, Err(SevenSeasError::PlayerAlreadyExists));
    assert_eq!(snapshot(&game), before);
}

#[test]
fn spawn_on_full_board_fails() {
    let mut game = GameDataAccount::default();
    for x in 0..BOARD_SIZE_X {
        for y in 0..BOARD_SIZE_Y {
            game.set_tile(x, y, chest_tile(1, 5));
        }
    }
    let before = snapshot(&game);
    let ship = test_ship();
    assert_eq!(game.spawn_player(pid(7), pid(7), &ship, 0), Err(SevenSeasError::BoardIsFull));
    assert_eq!(game.spawn_chest(pid(7)), Err(SevenSeasError::BoardIsFull));
    assert_eq!(snapshot(&game), before);
}

#[test]
fn spawn_chest_on_empty_board_lands_on_drawn_slot() {
    let mut game = GameDataAccount::default();
    let r = game.spawn_chest(pid(3));
    assert!(r.is_ok());
    // seeded with one more than the 100 empty slots, the draw picks flat 41
    let t = game.tile_at(4, 1);
    assert_eq!(t.state, STATE_CHEST);
    assert_eq!(t.player, pid(3));
    assert_eq!(t.health, 1);
    assert_eq!(t.collect_reward, seven_seas::CHEST_REWARD);
}

#[test]
fn move_out_of_bounds_fails_board_unchanged() {
    let mut game = GameDataAccount::default();
    game.set_tile(3, 0, player_tile(7, 50, 1, 1, 0));
    let before = snapshot(&game);
    let mut log = GameActionHistory::new();
    let mut transfers: Vec<ValueTransfer> = Vec::new();
    // direction 0 is up: from y = 0 that leaves the grid
    let r = game.move_in_direction(0, pid(7), &mut log, &mut transfers);
    assert_eq!(r, Err(SevenSeasError::WrongDirectionInput));
    assert_eq!(snapshot(&game), before);
    assert_eq!(log.game_actions.len(), 0);
    assert_eq!(transfers.len(), 0);
    // an unknown direction fails the same way
    let r = game.move_in_direction(4, pid(7), &mut log, &mut transfers);
    assert_eq!(r, Err(SevenSeasError::WrongDirectionInput));
    assert_eq!(snapshot(&game), before);
}

#[test]
fn move_unknown_player_fails() {
    let mut game = GameDataAccount::default();
    let mut log = GameActionHistory::new();
    let mut transfers: Vec<ValueTransfer> = Vec::new();
    let r = game.move_in_direction(1, pid(7), &mut log, &mut transfers);
    assert_eq!(r, Err(SevenSeasError::TriedToMovePlayerThatWasNotOnTheBoard));
}

#[test]
fn move_onto_empty_relocates_and_faces_the_way() {
    let mut game = GameDataAccount::default();
    game.set_tile(5, 5, player_tile(7, 50, 3, 2, 0));
    let mut log = GameActionHistory::new();
    let mut transfers: Vec<ValueTransfer> = Vec::new();
    let r = game.move_in_direction(1, pid(7), &mut log, &mut transfers);
    assert!(r.is_ok());
    assert_eq!(game.tile_at(5, 5), Tile::default());
    let moved = game.tile_at(6, 5);
    assert_eq!(moved.state, STATE_PLAYER);
    assert_eq!(moved.player, pid(7));
    assert_eq!(moved.look_direction, 1);
    assert_eq!(moved.health, 50);
    assert_eq!(log.game_actions.len(), 0);
    assert_eq!(transfers.len(), 0);
}

#[test]
fn chest_collection_example() {
    // chest at (3,4) worth 5; the player at (3,3) moves down onto it
    let mut game = GameDataAccount::default();
    game.set_tile(3, 3, player_tile(7, 50, 1, 1, 2));
    game.set_tile(3, 4, chest_tile(1, 5));
    let mut log = GameActionHistory::new();
    let mut transfers: Vec<ValueTransfer> = Vec::new();
    let r = game.move_in_direction(2, pid(7), &mut log, &mut transfers);
    assert!(r.is_ok());
    assert_eq!(game.tile_at(3, 3), Tile::default());
    let moved = game.tile_at(3, 4);
    assert_eq!(moved.state, STATE_PLAYER);
    assert_eq!(moved.player, pid(7));
    assert_eq!(moved.look_direction, 2);
    assert_eq!(
        transfers,
        vec![
            ValueTransfer::PoolToPlayer { player: pid(7), lamports: 5 },
            ValueTransfer::VaultTokensToPlayer {
                player: pid(7),
                amount: CHEST_COIN_REWARD * TOKEN_DECIMAL_MULTIPLIER,
            },
        ]
    );
    assert_eq!(log.game_actions.len(), 1);
    let entry = log.game_actions[0];
    assert_eq!(entry.action_type, GAME_ACTION_SHIP_COINS_COLLECTED);
    assert_eq!(entry.player, pid(7));
    assert_eq!(entry.target, pid(7));
    assert_eq!(entry.damage, CHEST_COIN_REWARD);
    assert_eq!(entry.action_id, 0);
}

#[test]
fn melee_move_attacks_without_relocating() {
    let mut game = GameDataAccount::default();
    game.set_tile(4, 4, player_tile(7, 50, 3, 1, 0));
    game.set_tile(5, 4, player_tile(8, 20, 2, 1, 0));
    let mut log = GameActionHistory::new();
    let mut transfers: Vec<ValueTransfer> = Vec::new();
    let r = game.move_in_direction(1, pid(7), &mut log, &mut transfers);
    assert!(r.is_ok());
    // the mover stays; the defender loses exactly 1 health
    assert_eq!(game.tile_at(4, 4).player, pid(7));
    assert_eq!(game.tile_at(5, 4).health, 19);
    assert_eq!(transfers.len(), 0);
    assert_eq!(log.game_actions.len(), 1);
    let entry = log.game_actions[0];
    assert_eq!(entry.action_type, GAME_ACTION_SHIP_TAKEN_DAMAGE);
    assert_eq!(entry.player, pid(7));
    assert_eq!(entry.target, pid(8));
    assert_eq!(entry.damage, 1);
}

#[test]
fn lethal_attack_appends_two_entries_and_pays() {
    let mut game = GameDataAccount::default();
    let mut victim = player_tile(8, 1, 2, 1, 0);
    victim.collect_reward = 77;
    victim.ship_level = 3;
    game.set_tile(6, 6, victim);
    let mut log = GameActionHistory::new();
    let mut transfers: Vec<ValueTransfer> = Vec::new();
    game.attack_tile(6, 6, 5, pid(7), &mut log, &mut transfers);
    assert_eq!(game.tile_at(6, 6), Tile::default());
    assert_eq!(
        transfers,
        vec![
            ValueTransfer::PoolToPlayer { player: pid(7), lamports: 77 },
            ValueTransfer::VaultTokensToPlayer {
                player: pid(7),
                amount: 3 * 10 * TOKEN_DECIMAL_MULTIPLIER,
            },
        ]
    );
    assert_eq!(log.game_actions.len(), 2);
    let coins = log.game_actions[0];
    assert_eq!(coins.action_type, GAME_ACTION_SHIP_COINS_COLLECTED);
    assert_eq!(coins.player, pid(7));
    assert_eq!(coins.target, pid(8));
    assert_eq!(coins.damage, 10);
    assert_eq!(coins.action_id, 0);
    let hit = log.game_actions[1];
    assert_eq!(hit.action_type, GAME_ACTION_SHIP_TAKEN_DAMAGE);
    assert_eq!(hit.player, pid(7));
    assert_eq!(hit.target, pid(8));
    assert_eq!(hit.damage, 5);
    assert_eq!(hit.action_id, 1);
}

#[test]
fn attack_on_non_player_tile_is_a_no_op() {
    let mut game = GameDataAccount::default();
    game.set_tile(2, 2, chest_tile(1, 5));
    let before = snapshot(&game);
    let mut log = GameActionHistory::new();
    let mut transfers: Vec<ValueTransfer> = Vec::new();
    game.attack_tile(2, 2, 5, pid(7), &mut log, &mut transfers);
    game.attack_tile(0, 0, 5, pid(7), &mut log, &mut transfers);
    assert_eq!(snapshot(&game), before);
    assert_eq!(log.game_actions.len(), 0);
    assert_eq!(transfers.len(), 0);
}

#[test]
fn shoot_example_bidirectional() {
    // shooter at (5,5), range 2, facing 0 (even, horizontal), damage 3:
    // attacks are evaluated at (4,5), (6,5), (3,5), (7,5)
    let mut game = GameDataAccount::default();
    game.set_tile(5, 5, player_tile(7, 50, 3, 2, 0));
    for x in [3usize, 4, 6, 7] {
        game.set_tile(x, 5, player_tile(10 + x as u64, 100, 1, 1, 0));
    }
    let mut log = GameActionHistory::new();
    let mut transfers: Vec<ValueTransfer> = Vec::new();
    let r = game.shoot(pid(7), &mut log, &mut transfers);
    assert!(r.is_ok());
    for x in [3usize, 4, 6, 7] {
        assert_eq!(game.tile_at(x, 5).health, 95, "tile ({x},5) takes damage 5");
    }
    // tiles beyond the range or off the axis are untouched
    assert_eq!(game.tile_at(5, 5).health, 50);
    let shots: Vec<&GameAction> = log
        .game_actions
        .iter()
        .filter(|a| a.action_type == GAME_ACTION_SHIP_SHOT)
        .collect();
    assert_eq!(shots.len(), 1);
    assert_eq!(shots[0].player, pid(7));
    assert_eq!(shots[0].damage, 5);
    // four damage entries, one per hit ship
    let hits = log
        .game_actions
        .iter()
        .filter(|a| a.action_type == GAME_ACTION_SHIP_TAKEN_DAMAGE)
        .count();
    assert_eq!(hits, 4);
    assert_eq!(transfers.len(), 0);
}

#[test]
fn shoot_logs_one_entry_even_when_nothing_is_hit() {
    let mut game = GameDataAccount::default();
    game.set_tile(5, 5, player_tile(7, 50, 3, 2, 1));
    let mut log = GameActionHistory::new();
    let mut transfers: Vec<ValueTransfer> = Vec::new();
    let r = game.shoot(pid(7), &mut log, &mut transfers);
    assert!(r.is_ok());
    assert_eq!(log.game_actions.len(), 1);
    assert_eq!(log.game_actions[0].action_type, GAME_ACTION_SHIP_SHOT);
    assert_eq!(transfers.len(), 0);
}

#[test]
fn shoot_odd_facing_fires_vertically() {
    let mut game = GameDataAccount::default();
    game.set_tile(5, 5, player_tile(7, 50, 3, 1, 1));
    game.set_tile(5, 6, player_tile(8, 100, 1, 1, 0));
    game.set_tile(5, 4, player_tile(9, 100, 1, 1, 0));
    game.set_tile(6, 5, player_tile(10, 100, 1, 1, 0));
    let mut log = GameActionHistory::new();
    let mut transfers: Vec<ValueTransfer> = Vec::new();
    game.shoot(pid(7), &mut log, &mut transfers).unwrap();
    assert_eq!(game.tile_at(5, 6).health, 95);
    assert_eq!(game.tile_at(5, 4).health, 95);
    // horizontal neighbour is not on the vertical axis
    assert_eq!(game.tile_at(6, 5).health, 100);
}

#[test]
fn shoot_unknown_player_fails() {
    let mut game = GameDataAccount::default();
    let mut log = GameActionHistory::new();
    let mut transfers: Vec<ValueTransfer> = Vec::new();
    let r = game.shoot(pid(7), &mut log, &mut transfers);
    assert_eq!(r, Err(SevenSeasError::TriedToShootWithPlayerThatWasNotOnTheBoard));
    assert_eq!(log.game_actions.len(), 0);
}

#[test]
fn monster_attack_on_empty_board_fails() {
    let mut game = GameDataAccount::default();
    let before = snapshot(&game);
    let mut log = GameActionHistory::new();
    let r = game.cthulhu(&mut log);
    assert_eq!(r, Err(SevenSeasError::CouldNotFindAShipToAttack));
    assert_eq!(snapshot(&game), before);
    assert_eq!(log.game_actions.len(), 0);
}

#[test]
fn monster_attacks_nearest_ship_with_seeded_damage() {
    let mut game = GameDataAccount::default();
    game.set_tile(5, 5, player_tile(7, 40, 1, 1, 0));
    game.set_tile(2, 3, player_tile(8, 70, 1, 1, 0));
    let mut log = GameActionHistory::new();
    let r = game.cthulhu(&mut log);
    assert!(r.is_ok());
    // (2,3) is nearer the origin anchor than (5,5); with health 70 the
    // seeded draw gives damage 13
    assert_eq!(game.tile_at(2, 3).health, 70 - 13);
    assert_eq!(game.tile_at(5, 5).health, 40);
    assert_eq!(log.game_actions.len(), 1);
    let entry = log.game_actions[0];
    assert_eq!(entry.action_type, GAME_ACTION_SHIP_CTHULUH_ATTACKED_SHIP);
    assert_eq!(entry.player, pid(8));
    assert_eq!(entry.target, pid(8));
    assert_eq!(entry.damage, 13);
}

#[test]
fn monster_kill_clears_tile_and_pays_nothing() {
    let mut game = GameDataAccount::default();
    game.set_tile(1, 1, player_tile(7, 12, 1, 1, 0));
    let mut log = GameActionHistory::new();
    let r = game.cthulhu(&mut log);
    assert!(r.is_ok());
    // with health 12 the seeded draw gives damage 11, but saturation is
    // checked against the remaining health: 12 - 11 = 1 survives; strike
    // again to finish it
    assert_eq!(game.tile_at(1, 1).health, 1);
    let r = game.cthulhu(&mut log);
    assert!(r.is_ok());
    assert_eq!(game.tile_at(1, 1), Tile::default());
    assert_eq!(log.game_actions.len(), 2);
}

#[test]
fn reset_clears_every_tile() {
    let mut game = GameDataAccount::default();
    game.set_tile(4, 4, player_tile(7, 50, 1, 1, 0));
    game.set_tile(2, 2, chest_tile(1, 5));
    game.reset().unwrap();
    for x in 0..BOARD_SIZE_X {
        for y in 0..BOARD_SIZE_Y {
            assert_eq!(game.tile_at(x, y), Tile::default());
        }
    }
}

#[test]
fn reset_ship_keeps_chests_of_the_same_owner() {
    let mut game = GameDataAccount::default();
    game.set_tile(4, 4, player_tile(7, 50, 1, 1, 0));
    game.set_tile(2, 2, chest_tile(7, 5));
    game.set_tile(1, 1, player_tile(8, 50, 1, 1, 0));
    game.reset_ship(pid(7)).unwrap();
    assert_eq!(game.tile_at(4, 4), Tile::default());
    assert_eq!(game.tile_at(2, 2).state, STATE_CHEST);
    assert_eq!(game.tile_at(1, 1).state, STATE_PLAYER);
}

#[test]
fn vacated_tiles_are_fully_reset() {
    // a destroyed ship and a vacated origin leave no stale occupant data
    let mut game = GameDataAccount::default();
    game.set_tile(0, 0, player_tile(7, 50, 3, 2, 0));
    game.set_tile(0, 1, player_tile(8, 1, 2, 1, 0));
    let mut log = GameActionHistory::new();
    let mut transfers: Vec<ValueTransfer> = Vec::new();
    // melee kill of the one-health defender below
    game.move_in_direction(2, pid(7), &mut log, &mut transfers).unwrap();
    assert_eq!(game.tile_at(0, 1), Tile::default());
    // then relocate and check the origin is reset
    game.move_in_direction(1, pid(7), &mut log, &mut transfers).unwrap();
    assert_eq!(game.tile_at(0, 0), Tile::default());
    for x in 0..BOARD_SIZE_X {
        for y in 0..BOARD_SIZE_Y {
            let t = game.tile_at(x, y);
            if t.state == STATE_EMPTY {
                assert_eq!(t, Tile::default());
            }
        }
    }
}
