//! The two backend operations, as pure request handlers: world creation
//! and state retrieval. The RPC transport decodes a request into plain
//! values, calls one of these functions, and encodes the result; every
//! failure is detected before any shared state changes.

use vstd::prelude::*;
use crate::registry::{GameRegistry, PlayerState, MAX_GAMES};
use crate::rng::RandomSource;
use crate::world::{Facing, MapSize, OccupancyGrid, Position};
use crate::world::generate;
use crate::GameError;

verus! {

/// A successful world creation: the registry identifier of the new
/// instance, the generated map, and the spawn the first player got.
#[derive(Debug)]
pub struct StartGameResponse {
    pub game_id: i32,
    pub world_map: OccupancyGrid,
    pub spawn: Position,
}

/// A successful state fetch: the calling player's identifier and a
/// point-in-time snapshot of the instance's map and players.
#[derive(Debug)]
pub struct PlayGameResponse {
    pub player_id: i32,
    pub world_map: OccupancyGrid,
    pub players: Vec<PlayerState>,
}

/// Handle a world-creation request: reject a missing or out-of-bounds
/// size before consuming any randomness, generate the world, and register
/// a new instance holding it with one player at the spawn.
///
/// The returned identifier equals the registry identifier of the new
/// instance, so it is usable in later `play_game` lookups. On every
/// failure the registry is left exactly as it was: no partial instance
/// ever becomes visible. Success is owed for every valid size whose
/// walls cannot cover the grid (`max_wall_cells` below the cell count).
pub fn start_game<R: RandomSource>(
    registry: &mut GameRegistry,
    world_size: Option<MapSize>,
    rng: &mut R,
) -> (res: Result<StartGameResponse, GameError>)
    requires
        old(registry).wf(),
        old(registry).games@.len() < MAX_GAMES,
    ensures
        match res {
            Ok(out) => {
                &&& world_size matches Some(size) && size.valid() && out.world_map.size == size
                &&& out.world_map.wf()
                &&& out.world_map.spawn_ok(out.spawn)
                &&& out.spawn.facing == Facing::Down
                &&& out.game_id as int == old(registry).games@.len()
                &&& final(registry).wf()
                &&& final(registry).games@.len() == old(registry).games@.len() + 1
                &&& forall|i: int|
                    0 <= i < old(registry).games@.len() ==> final(registry).games@[i] == old(
                        registry,
                    ).games@[i]
                &&& ({
                    let inst = final(registry).games@[old(registry).games@.len() as int];
                    &&& inst.id == out.game_id
                    &&& inst.map.size == out.world_map.size
                    &&& inst.map.cells@ == out.world_map.cells@
                    &&& inst.players@.len() == 1
                    &&& inst.players@[0].player_id == 0
                    &&& inst.players@[0].position == out.spawn
                })
            },
            Err(e) => {
                &&& *final(registry) == *old(registry)
                &&& (e == GameError::InvalidArgument <==> world_size is None)
                &&& (e == GameError::InvalidSize <==> (world_size matches Some(size)
                    && !size.valid()))
                &&& (e == GameError::DegenerateMap ==> (world_size matches Some(size)
                    && size.valid()))
                &&& e != GameError::NotFound
            },
        },
        (world_size matches Some(size) && size.valid() && size.max_wall_cells()
            < size.cell_count()) ==> res is Ok,
        (world_size is None || (world_size matches Some(size) && !size.valid())) ==> *final(rng)
            == *old(rng),
{
    let size = match world_size {
        None => { return Err(GameError::InvalidArgument); },
        Some(s) => s,
    };
    if !size.check_valid() {
        return Err(GameError::InvalidSize);
    }
    let (grid, spawn) = match generate(size, rng) {
        Ok(pair) => pair,
        Err(e) => { return Err(e); },
    };
    let world_map = grid.deep_copy();
    let mut players: Vec<PlayerState> = Vec::new();
    players.push(PlayerState { player_id: 0, position: spawn });
    let game_id = registry.create(grid, players);
    Ok(StartGameResponse { game_id, world_map, spawn })
}

/// Handle a state-fetch request: look the instance up in the registry
/// and return a consistent snapshot of its map and player list. Fails
/// with `NotFound` exactly when the identifier refers to no live
/// instance.
pub fn play_game(registry: &GameRegistry, game_id: i32) -> (res: Result<
    PlayGameResponse,
    GameError,
>)
    ensures
        match res {
            Ok(out) => {
                &&& 0 <= game_id && (game_id as int) < registry.games@.len()
                &&& out.player_id == 0
                &&& out.world_map.size == registry.games@[game_id as int].map.size
                &&& out.world_map.cells@ == registry.games@[game_id as int].map.cells@
                &&& out.players@ == registry.games@[game_id as int].players@
            },
            Err(e) => {
                &&& e == GameError::NotFound
                &&& !(0 <= game_id && (game_id as int) < registry.games@.len())
            },
        },
{
    match registry.snapshot(game_id) {
        Ok(pair) => {
            let (world_map, players) = pair;
            Ok(PlayGameResponse { player_id: 0, world_map, players })
        },
        Err(e) => Err(e),
    }
}

} // verus!
