use cowboy::maps::{default_map, generate_default_map, initial_players};
use cowboy::types::{Direction, PlayerName, DEFAULT_NUM_PLAYERS, DEFAULT_PLAYER_HP};
use std::collections::HashSet;

#[test]
fn initial_players_start_on_side_centers_4_players() {
    let players = initial_players(11, 11, DEFAULT_PLAYER_HP, 4);
    assert_eq!(players.len(), 4);

    let a = players.iter().find(|p| p.player_name == PlayerName::A).unwrap();
    assert_eq!((a.row, a.col, a.shield), (0, 5, Direction::Up));
    assert_eq!(a.hp, DEFAULT_PLAYER_HP);

    let b = players.iter().find(|p| p.player_name == PlayerName::B).unwrap();
    assert_eq!((b.row, b.col, b.shield), (5, 0, Direction::Left));

    let c = players.iter().find(|p| p.player_name == PlayerName::C).unwrap();
    assert_eq!((c.row, c.col, c.shield), (10, 5, Direction::Down));

    let d = players.iter().find(|p| p.player_name == PlayerName::D).unwrap();
    assert_eq!((d.row, d.col, d.shield), (5, 10, Direction::Right));

    let unique_tiles: HashSet<(usize, usize)> = players.iter().map(|p| (p.row, p.col)).collect();
    assert_eq!(unique_tiles.len(), 4);

    let unique_ids: HashSet<String> = players.iter().map(|p| p.player_id.clone()).collect();
    assert_eq!(unique_ids.len(), 4);
}

#[test]
fn initial_players_default_2_players() {
    let players = initial_players(11, 11, DEFAULT_PLAYER_HP, DEFAULT_NUM_PLAYERS);
    assert_eq!(players.len(), 2);
    assert_eq!(players[0].player_name, PlayerName::A);
    assert_eq!(players[1].player_name, PlayerName::B);
}

#[test]
fn initial_players_3_players() {
    let players = initial_players(11, 11, DEFAULT_PLAYER_HP, 3);
    assert_eq!(players.len(), 3);
    assert_eq!(players[0].player_name, PlayerName::A);
    assert_eq!(players[1].player_name, PlayerName::B);
    assert_eq!(players[2].player_name, PlayerName::C);
}

#[test]
fn initial_players_1_player() {
    let players = initial_players(11, 11, DEFAULT_PLAYER_HP, 1);
    assert_eq!(players.len(), 1);
    assert_eq!(players[0].player_name, PlayerName::A);
}

#[test]
fn initial_players_clamps_zero_and_large_counts() {
    assert_eq!(initial_players(11, 11, DEFAULT_PLAYER_HP, 0).len(), 1);
    assert_eq!(initial_players(11, 11, DEFAULT_PLAYER_HP, 9).len(), 4);
}

#[test]
fn generate_default_map_keeps_spawn_positions_empty() {
    let map = generate_default_map(11, 11, 4);
    assert_eq!(map.cells[0][5], 0);
    assert_eq!(map.cells[5][0], 0);
    assert_eq!(map.cells[10][5], 0);
    assert_eq!(map.cells[5][10], 0);
}

#[test]
fn generate_default_map_2_players_keeps_2_spawns_empty() {
    let map = generate_default_map(11, 11, 2);
    assert_eq!(map.cells[0][5], 0);
    assert_eq!(map.cells[5][0], 0);
}

#[test]
fn generate_default_map_only_uses_supported_block_values() {
    let map = generate_default_map(31, 31, 4);
    for row in &map.cells {
        for value in row {
            assert!([-1, 0, 1, 2].contains(value));
        }
    }
}

#[test]
fn generated_maps_keep_spawns_empty_on_every_draw() {
    for _ in 0..50 {
        let map = generate_default_map(7, 9, 4);
        assert_eq!(map.rows, 7);
        assert_eq!(map.cols, 9);
        assert_eq!(map.cells.len(), 7);
        assert_eq!(map.cells[0][4], 0);
        assert_eq!(map.cells[3][0], 0);
        assert_eq!(map.cells[6][4], 0);
        assert_eq!(map.cells[3][8], 0);
    }
}

#[test]
fn build_default_map_maps_rolls_to_cells() {
    let rolls = vec![vec![0u8, 69, 70, 85], vec![86, 95, 96, 99], vec![99, 99, 99, 99]];
    let map = cowboy::maps::build_default_map(3, 4, 1, &rolls);
    assert_eq!(map.cells[0], vec![0, 0, 0, 1]);
    assert_eq!(map.cells[1], vec![2, 2, -1, -1]);
    assert_eq!(map.cells[2], vec![-1, -1, -1, -1]);
    let map = cowboy::maps::build_default_map(3, 4, 4, &rolls);
    assert_eq!(map.cells[0][2], 0);
    assert_eq!(map.cells[1][0], 0);
    assert_eq!(map.cells[2][2], 0);
    assert_eq!(map.cells[1][3], 0);
}

#[test]
fn built_in_default_map_has_valid_size_and_safe_spawns() {
    let map = default_map();
    assert_eq!(map.rows, 11);
    assert_eq!(map.cols, 11);
    assert_eq!(map.cells.len(), map.rows);
    assert_eq!(map.cells[0].len(), map.cols);
    assert_eq!(map.cells[0][5], 0);
    assert_eq!(map.cells[5][0], 0);
    assert_eq!(map.cells[10][5], 0);
    assert_eq!(map.cells[5][10], 0);
}
