//! The game registry: the store of all live game instances.
//!
//! One registry value owns every instance for the process lifetime. The
//! registry assigns identifiers monotonically — each new instance gets the
//! instance count at the moment of the append, so identifiers are exactly
//! the indices `0, 1, 2, ...` with no gaps and no reuse. Readers get deep
//! copies, never aliases into registry-owned storage. Callers that share
//! one registry across tasks serialize every operation under a single
//! lock; each operation here is one atomic read or append of the owned
//! value, so any serialized total order of calls satisfies these
//! contracts.

use vstd::prelude::*;
use crate::world::{OccupancyGrid, Position};
use crate::GameError;

verus! {

/// Most instances a registry can hold: identifiers must fit in `i32`.
pub const MAX_GAMES: usize = 0x7fff_ffff;

/// One player: its identifier (unique within an instance) and position.
#[derive(Clone, Copy, Debug, PartialEq, Eq, Structural)]
pub struct PlayerState {
    pub player_id: i32,
    pub position: Position,
}

/// One live game session: identifier, world map and its players.
#[derive(Debug)]
pub struct GameInstance {
    pub id: i32,
    pub map: OccupancyGrid,
    pub players: Vec<PlayerState>,
}

/// The ordered collection of live game instances.
#[derive(Debug)]
pub struct GameRegistry {
    pub games: Vec<GameInstance>,
}

impl GameRegistry {
    /// Each stored instance sits at the index equal to its identifier and
    /// carries a well-formed map; the count still leaves room for `i32`
    /// identifiers.
    pub open spec fn wf(self) -> bool {
        &&& self.games@.len() <= MAX_GAMES as int
        &&& forall|i: int|
            0 <= i < self.games@.len() ==> (#[trigger] self.games@[i]).id as int == i
                && self.games@[i].map.wf()
    }

    /// A registry with no instances.
    pub fn new() -> (r: GameRegistry)
        ensures
            r.games@.len() == 0,
            r.wf(),
    {
        GameRegistry { games: Vec::new() }
    }

    /// Number of live instances, which is also the next identifier.
    pub fn len(&self) -> (n: usize)
        ensures
            n == self.games@.len(),
    {
        self.games.len()
    }

    /// Append a new instance and return its identifier: the instance
    /// count before the append, so identifiers are assigned 0, 1, 2, ...
    /// in the serialized order of appends and are never reused.
    pub fn create(&mut self, map: OccupancyGrid, initial_players: Vec<PlayerState>) -> (id: i32)
        requires
            old(self).wf(),
            old(self).games@.len() < MAX_GAMES,
            map.wf(),
        ensures
            final(self).wf(),
            id as int == old(self).games@.len(),
            final(self).games@ == old(self).games@.push(
                (GameInstance { id, map, players: initial_players }),
            ),
    {
        let id = self.games.len() as i32;
        let instance = GameInstance { id, map, players: initial_players };
        self.games.push(instance);
        id
    }

    /// Look an instance up and return a deep copy of its map. Fails with
    /// `NotFound` exactly when the identifier is negative or at least the
    /// instance count.
    pub fn get_map(&self, id: i32) -> (res: Result<OccupancyGrid, GameError>)
        ensures
            match res {
                Ok(m) => {
                    &&& 0 <= id && (id as int) < self.games@.len()
                    &&& m.size == self.games@[id as int].map.size
                    &&& m.cells@ == self.games@[id as int].map.cells@
                },
                Err(e) => {
                    &&& e == GameError::NotFound
                    &&& !(0 <= id && (id as int) < self.games@.len())
                },
            },
    {
        if id < 0 {
            return Err(GameError::NotFound);
        }
        let idx = id as usize;
        if idx >= self.games.len() {
            return Err(GameError::NotFound);
        }
        Ok(self.games[idx].map.deep_copy())
    }

    /// Look an instance up and return a deep copy of its player list,
    /// under the same bounds contract as `get_map`.
    pub fn get_players(&self, id: i32) -> (res: Result<Vec<PlayerState>, GameError>)
        ensures
            match res {
                Ok(ps) => {
                    &&& 0 <= id && (id as int) < self.games@.len()
                    &&& ps@ == self.games@[id as int].players@
                },
                Err(e) => {
                    &&& e == GameError::NotFound
                    &&& !(0 <= id && (id as int) < self.games@.len())
                },
            },
    {
        if id < 0 {
            return Err(GameError::NotFound);
        }
        let idx = id as usize;
        if idx >= self.games.len() {
            return Err(GameError::NotFound);
        }
        Ok(copy_players(&self.games[idx].players))
    }

    /// Look an instance up and return deep copies of its map and player
    /// list together. Both parts come from the same instance under the
    /// same borrow of the registry, so they reflect one point in time.
    pub fn snapshot(&self, id: i32) -> (res: Result<(OccupancyGrid, Vec<PlayerState>), GameError>)
        ensures
            match res {
                Ok(pair) => {
                    &&& 0 <= id && (id as int) < self.games@.len()
                    &&& pair.0.size == self.games@[id as int].map.size
                    &&& pair.0.cells@ == self.games@[id as int].map.cells@
                    &&& pair.1@ == self.games@[id as int].players@
                },
                Err(e) => {
                    &&& e == GameError::NotFound
                    &&& !(0 <= id && (id as int) < self.games@.len())
                },
            },
    {
        if id < 0 {
            return Err(GameError::NotFound);
        }
        let idx = id as usize;
        if idx >= self.games.len() {
            return Err(GameError::NotFound);
        }
        let map = self.games[idx].map.deep_copy();
        let players = copy_players(&self.games[idx].players);
        Ok((map, players))
    }
}

/// Element-wise copy of a player list into fresh storage.
fn copy_players(v: &Vec<PlayerState>) -> (r: Vec<PlayerState>)
    ensures
        r@ == v@,
{
    let mut r: Vec<PlayerState> = Vec::new();
    let n = v.len();
    let mut i: usize = 0;
    while i < n
        invariant
            i <= n,
            n == v@.len(),
            r@ == v@.subrange(0, i as int),
        decreases n - i,
    {
        r.push(v[i]);
        proof {
            assert(r@ =~= v@.subrange(0, i + 1 as int));
        }
        i = i + 1;
    }
    proof {
        assert(r@ =~= v@);
    }
    r
}

/// Law: identifiers never collide. In a well-formed registry two distinct
/// instances carry distinct identifiers, so the identifiers handed out by
/// any serialized sequence of `create` calls are pairwise distinct and
/// the final count equals the number of calls.
pub proof fn lemma_ids_distinct(reg: GameRegistry, i: int, j: int)
    requires
        reg.wf(),
        0 <= i < reg.games@.len(),
        0 <= j < reg.games@.len(),
        i != j,
    ensures
        reg.games@[i].id != reg.games@[j].id,
{
}

/// Law: a created instance reads back unchanged. The slot `create`
/// appends holds exactly the instance that was passed in — the map and
/// players later returned by `get_map`, `get_players` and `snapshot` —
/// and every earlier slot keeps its value.
pub proof fn lemma_create_round_trip(games: Seq<GameInstance>, inst: GameInstance)
    ensures
        games.push(inst).len() == games.len() + 1,
        games.push(inst)[games.len() as int] == inst,
        forall|i: int| 0 <= i < games.len() ==> games.push(inst)[i] == games[i],
{
}

} // verus!
