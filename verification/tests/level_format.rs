use platformer::level::{
    build_level, check_level, level_art, tile_center, LevelError, Tile, TileKind, LEVEL_ROWS,
};
use platformer::GameState;

fn count_chars(rows: &[&str], wanted: &[char]) -> usize {
    rows.iter()
        .flat_map(|row| row.chars())
        .filter(|c| wanted.contains(c))
        .count()
}

/// The ASCII art is load-bearing, so guard its invariants.
#[test]
fn level_art_is_well_formed() {
    let level = level_art();
    let width = level[0].len();
    for (row, line) in level.iter().enumerate() {
        assert_eq!(line.len(), width, "row {row} is a different length");
    }

    let spawns = level
        .iter()
        .flat_map(|row| row.chars())
        .filter(|c| *c == 'P')
        .count();
    assert_eq!(spawns, 1, "there must be exactly one player spawn");

    let goals = level
        .iter()
        .flat_map(|row| row.chars())
        .filter(|c| *c == 'F')
        .count();
    assert_eq!(goals, 1, "there must be exactly one goal");

    assert_eq!(check_level(&level), Ok(()));
    assert_eq!(level.len(), LEVEL_ROWS);
}

#[test]
fn built_level_has_a_tile_per_character() {
    let level = level_art();
    let layout = build_level(&level);

    assert_eq!(layout.rows, 18);
    assert_eq!(layout.columns, 60);
    assert!(layout.total_coins > 0, "the level should contain coins");
    assert_eq!(layout.total_coins as usize, count_chars(&level, &['o']));
    assert_eq!(layout.total_coins, 15);

    let solids = layout
        .tiles
        .iter()
        .filter(|t| matches!(t.kind, TileKind::Solid | TileKind::OneWay))
        .count();
    assert_eq!(solids, count_chars(&level, &['#', '=']));

    let hazards = layout.tiles.iter().filter(|t| t.kind == TileKind::Hazard).count();
    assert_eq!(hazards, count_chars(&level, &['^']));
    let goals = layout.tiles.iter().filter(|t| t.kind == TileKind::Goal).count();
    assert_eq!(goals, 1);

    assert_eq!(layout.tiles.len(), count_chars(&level, &['#', '=', 'o', '^', 'P', 'F']));
    assert_eq!((layout.spawn_column, layout.spawn_row), (2, 16));
    assert_eq!(layout.bounds(), (60 * 32, 18 * 32));

    // A rebuild gives the same level.
    let again = build_level(&level_art());
    assert_eq!(again.tiles, layout.tiles);
    assert_eq!((again.spawn_column, again.spawn_row), (layout.spawn_column, layout.spawn_row));
    assert_eq!(again.total_coins, layout.total_coins);
}

#[test]
fn tiles_come_in_reading_order() {
    let rows = ["#o", ".P", "F^"];
    let layout = build_level(&rows);
    assert_eq!(
        layout.tiles,
        vec![
            Tile { kind: TileKind::Solid, column: 0, row: 0 },
            Tile { kind: TileKind::Coin, column: 1, row: 0 },
            Tile { kind: TileKind::Spawn, column: 1, row: 1 },
            Tile { kind: TileKind::Goal, column: 0, row: 2 },
            Tile { kind: TileKind::Hazard, column: 1, row: 2 },
        ]
    );
    assert_eq!(layout.total_coins, 1);
    assert_eq!((layout.spawn_column, layout.spawn_row), (1, 1));
}

#[test]
fn spaces_and_dots_are_empty() {
    let rows = [". =", "P  "];
    let layout = build_level(&rows);
    assert_eq!(
        layout.tiles,
        vec![
            Tile { kind: TileKind::OneWay, column: 2, row: 0 },
            Tile { kind: TileKind::Spawn, column: 0, row: 1 },
        ]
    );
    assert_eq!(layout.total_coins, 0);
}

#[test]
fn an_empty_level_is_refused() {
    let rows: [&str; 0] = [];
    assert_eq!(check_level(&rows), Err(LevelError::Empty));
}

#[test]
fn a_ragged_row_is_refused() {
    assert_eq!(check_level(&["P..", "...", ".."]), Err(LevelError::RaggedRow { row: 2 }));
    // Width is a byte count: a two-byte character counts twice.
    assert_eq!(check_level(&["P.", "éé"]), Err(LevelError::RaggedRow { row: 1 }));
    assert_eq!(
        check_level(&["P.", "é"]),
        Err(LevelError::UnknownCharacter { character: 'é', row: 1, column: 0 })
    );
}

#[test]
fn an_unknown_character_is_refused_at_its_position() {
    assert_eq!(
        check_level(&["P..", ".x.", "..y"]),
        Err(LevelError::UnknownCharacter { character: 'x', row: 1, column: 1 })
    );
}

#[test]
fn a_second_spawn_is_refused() {
    assert_eq!(
        check_level(&["P.P", "..x"]),
        Err(LevelError::SecondSpawn { row: 0, column: 2 })
    );
}

#[test]
fn the_first_problem_in_reading_order_wins() {
    assert_eq!(
        check_level(&["P.x", "P.."]),
        Err(LevelError::UnknownCharacter { character: 'x', row: 0, column: 2 })
    );
}

#[test]
fn a_level_without_a_spawn_is_refused() {
    assert_eq!(check_level(&["...", "###"]), Err(LevelError::NoSpawn));
}

#[test]
fn tile_centers_flip_rows_into_world_y() {
    // Column 0 of the bottom row is the tile whose corner is the world origin.
    assert_eq!(tile_center(0, 17), (16, 16));
    assert_eq!(tile_center(2, 16), (80, 48));
    assert_eq!(tile_center(0, 0), (16, 17 * 32 + 16));
    // Below the art, y goes negative.
    assert_eq!(tile_center(1, 18), (48, -16));
}

#[test]
fn a_fresh_attempt_starts_playing_with_a_clean_scoreboard() {
    let layout = build_level(&level_art());
    let (progress, state) = layout.fresh_attempt();
    assert_eq!(state, GameState::Playing);
    assert_eq!(progress.coins, 0);
    assert_eq!(progress.deaths, 0);
    assert_eq!(progress.total_coins, layout.total_coins);
    assert!(!progress.timer_started);
}
