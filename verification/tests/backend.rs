use game_backend::registry::{GameRegistry, PlayerState};
use game_backend::rng::{RandomSource, SeededRandom, ThreadRandom};
use game_backend::service::{play_game, start_game};
use game_backend::world::{find_spawn, generate, Cell, Facing, MapSize, OccupancyGrid, Position};
use game_backend::GameError;

fn empty_grid_10x10() -> OccupancyGrid {
    let size = MapSize { width: 10, height: 10 };
    let cells = vec![Cell::Empty; 100];
    OccupancyGrid { size, cells }
}

#[test]
fn generate_20x20_grid_and_spawn() {
    // 20x20 leaves at most 39 runs of at most 9 cells: walls can never
    // cover all 400 cells, so generation always succeeds.
    let mut rng = SeededRandom::new(42);
    let size = MapSize { width: 20, height: 20 };
    let (grid, spawn) = generate(size, &mut rng).unwrap();
    assert_eq!(grid.size, size);
    assert_eq!(grid.cells.len(), 400);
    assert!(0 <= spawn.x && spawn.x < 20);
    assert!(0 <= spawn.y && spawn.y < 20);
    assert_eq!(grid.cells[(spawn.y * 20 + spawn.x) as usize], Cell::Empty);
    assert_eq!(spawn.facing, Facing::Down);
    // At least one wall is always carved, and at most 39 runs of at most
    // 9 cells each can be: the grid is never all-empty nor all-wall.
    let walls = grid.cells.iter().filter(|c| **c == Cell::Wall).count();
    assert!(walls >= 1);
    assert!(walls <= 351);
}

#[test]
fn generate_with_thread_randomness() {
    let mut rng = ThreadRandom::new();
    let size = MapSize { width: 20, height: 20 };
    let (grid, spawn) = generate(size, &mut rng).unwrap();
    assert_eq!(grid.cells.len(), 400);
    assert_eq!(grid.cells[(spawn.y * 20 + spawn.x) as usize], Cell::Empty);
}

#[test]
fn generate_largest_size() {
    let mut rng = SeededRandom::new(7);
    let size = MapSize { width: 100, height: 100 };
    let (grid, spawn) = generate(size, &mut rng).unwrap();
    assert_eq!(grid.cells.len(), 10000);
    assert_eq!(grid.cells[(spawn.y * 100 + spawn.x) as usize], Cell::Empty);
    let walls = grid.cells.iter().filter(|c| **c == Cell::Wall).count();
    assert!(walls >= 1);
    assert!(walls <= 1911);
}

#[test]
fn generate_is_deterministic_under_one_seed() {
    let size = MapSize { width: 20, height: 20 };
    let mut a = SeededRandom::new(123);
    let mut b = SeededRandom::new(123);
    let (grid_a, spawn_a) = generate(size, &mut a).unwrap();
    let (grid_b, spawn_b) = generate(size, &mut b).unwrap();
    assert_eq!(grid_a.cells, grid_b.cells);
    assert_eq!(spawn_a, spawn_b);
}

#[test]
fn generate_rejects_out_of_bounds_sizes() {
    let mut rng = SeededRandom::new(1);
    let too_narrow = MapSize { width: 9, height: 20 };
    let too_wide = MapSize { width: 101, height: 20 };
    let too_short = MapSize { width: 20, height: 9 };
    let too_tall = MapSize { width: 20, height: 101 };
    assert_eq!(generate(too_narrow, &mut rng).unwrap_err(), GameError::InvalidSize);
    assert_eq!(generate(too_wide, &mut rng).unwrap_err(), GameError::InvalidSize);
    assert_eq!(generate(too_short, &mut rng).unwrap_err(), GameError::InvalidSize);
    assert_eq!(generate(too_tall, &mut rng).unwrap_err(), GameError::InvalidSize);
    let negative = MapSize { width: -5, height: -5 };
    assert_eq!(generate(negative, &mut rng).unwrap_err(), GameError::InvalidSize);
}

#[test]
fn find_spawn_on_all_wall_grid_is_degenerate() {
    let size = MapSize { width: 10, height: 10 };
    let grid = OccupancyGrid { size, cells: vec![Cell::Wall; 100] };
    let mut rng = SeededRandom::new(5);
    assert_eq!(find_spawn(&grid, &mut rng).unwrap_err(), GameError::DegenerateMap);
}

#[test]
fn find_spawn_finds_the_single_empty_cell() {
    let size = MapSize { width: 10, height: 10 };
    let mut cells = vec![Cell::Wall; 100];
    cells[57] = Cell::Empty;
    let grid = OccupancyGrid { size, cells };
    let mut rng = SeededRandom::new(5);
    let p = find_spawn(&grid, &mut rng).unwrap();
    assert_eq!((p.x, p.y), (7, 5));
    assert_eq!(p.facing, Facing::Down);
}

#[test]
fn start_game_without_size_is_invalid_argument() {
    let mut reg = GameRegistry::new();
    let mut rng = SeededRandom::new(2);
    let err = start_game(&mut reg, None, &mut rng).unwrap_err();
    assert_eq!(err, GameError::InvalidArgument);
    assert_eq!(reg.len(), 0);
}

#[test]
fn rejected_request_adds_no_instance() {
    let mut reg = GameRegistry::new();
    let mut rng = SeededRandom::new(3);
    let size = MapSize { width: 20, height: 20 };
    let first = start_game(&mut reg, Some(size), &mut rng).unwrap();
    assert_eq!(reg.len(), 1);
    let err = start_game(&mut reg, Some(MapSize { width: 5, height: 20 }), &mut rng).unwrap_err();
    assert_eq!(err, GameError::InvalidSize);
    assert_eq!(reg.len(), 1);
    let second = start_game(&mut reg, Some(size), &mut rng).unwrap();
    assert_eq!(reg.len(), 2);
    assert_eq!(first.game_id, 0);
    assert_eq!(second.game_id, 1);
}

#[test]
fn two_sequential_starts_get_ids_zero_then_one() {
    let mut reg = GameRegistry::new();
    let mut rng = ThreadRandom::new();
    let size = MapSize { width: 20, height: 20 };
    let first = start_game(&mut reg, Some(size), &mut rng).unwrap();
    let second = start_game(&mut reg, Some(size), &mut rng).unwrap();
    assert_eq!(first.game_id, 0);
    assert_eq!(second.game_id, 1);
}

#[test]
fn serialized_creates_get_distinct_ids() {
    let mut reg = GameRegistry::new();
    let mut ids = Vec::new();
    for _ in 0..5 {
        let id = reg.create(empty_grid_10x10(), Vec::new());
        ids.push(id);
    }
    assert_eq!(reg.len(), 5);
    assert_eq!(ids, vec![0, 1, 2, 3, 4]);
}

#[test]
fn play_game_returns_the_spawned_player() {
    let mut reg = GameRegistry::new();
    let mut rng = SeededRandom::new(9);
    let size = MapSize { width: 20, height: 20 };
    let started = start_game(&mut reg, Some(size), &mut rng).unwrap();
    let played = play_game(&reg, started.game_id).unwrap();
    assert_eq!(played.player_id, 0);
    assert_eq!(played.players.len(), 1);
    assert_eq!(played.players[0].player_id, 0);
    assert_eq!(played.players[0].position, started.spawn);
    assert_eq!(played.world_map.cells, started.world_map.cells);
    assert_eq!(played.world_map.size, started.world_map.size);
}

#[test]
fn lookup_past_the_end_is_not_found() {
    let mut reg = GameRegistry::new();
    assert_eq!(reg.get_map(0).unwrap_err(), GameError::NotFound);
    assert_eq!(reg.get_players(0).unwrap_err(), GameError::NotFound);
    assert_eq!(reg.snapshot(0).unwrap_err(), GameError::NotFound);
    reg.create(empty_grid_10x10(), Vec::new());
    assert_eq!(reg.get_map(1).unwrap_err(), GameError::NotFound);
    assert_eq!(reg.get_map(-1).unwrap_err(), GameError::NotFound);
    assert!(reg.get_map(0).is_ok());
    assert_eq!(play_game(&reg, 7).unwrap_err(), GameError::NotFound);
}

#[test]
fn reads_round_trip_what_create_stored() {
    let mut reg = GameRegistry::new();
    let grid = empty_grid_10x10();
    let spawn = Position { x: 3, y: 4, facing: Facing::Down };
    let players = vec![PlayerState { player_id: 0, position: spawn }];
    let id = reg.create(grid, players.clone());
    let map_back = reg.get_map(id).unwrap();
    assert_eq!(map_back.size, MapSize { width: 10, height: 10 });
    assert_eq!(map_back.cells, vec![Cell::Empty; 100]);
    let players_back = reg.get_players(id).unwrap();
    assert_eq!(players_back, players);
    let (snap_map, snap_players) = reg.snapshot(id).unwrap();
    assert_eq!(snap_map.cells, map_back.cells);
    assert_eq!(snap_players, players_back);
}

#[test]
fn mutating_a_returned_copy_leaves_the_registry_alone() {
    let mut reg = GameRegistry::new();
    let spawn = Position { x: 0, y: 0, facing: Facing::Down };
    let players = vec![PlayerState { player_id: 0, position: spawn }];
    let id = reg.create(empty_grid_10x10(), players);
    let mut map_copy = reg.get_map(id).unwrap();
    map_copy.cells[0] = Cell::Wall;
    let mut players_copy = reg.get_players(id).unwrap();
    players_copy.clear();
    let fresh_map = reg.get_map(id).unwrap();
    assert_eq!(fresh_map.cells[0], Cell::Empty);
    let fresh_players = reg.get_players(id).unwrap();
    assert_eq!(fresh_players.len(), 1);
}

#[test]
fn thread_random_draws_stay_in_range() {
    let mut rng = ThreadRandom::new();
    assert_eq!(rng.next_in(7, 8), 7);
    let mut seen_distinct = false;
    let first = rng.next_in(0, 1000);
    for _ in 0..64 {
        let draw = rng.next_in(0, 1000);
        assert!((0..1000).contains(&draw));
        if draw != first {
            seen_distinct = true;
        }
    }
    assert!(seen_distinct);
}

#[test]
fn seeded_random_draws_stay_in_range() {
    let mut rng = SeededRandom::new(77);
    for _ in 0..64 {
        let draw = rng.next_in(-50, 50);
        assert!((-50..50).contains(&draw));
    }
}
