//! Who drives each player: a person at the mouse, the computer, or nobody.
use vstd::prelude::*;

use bevy::utils::HashMap;

use crate::game::PlayerTurn;

verus! {

/// What moves the pieces of a player.
#[derive(Clone, Copy, Debug, Hash, PartialEq, Eq, Structural)]
pub enum PlayerDriver {
    Input,
    AI,
    Nobody,
}

/// The driver of each player, kept in bevy's `HashMap`.
#[verifier::external_body]
pub struct PlayerDrivers(HashMap<PlayerTurn, PlayerDriver>);

/// The pairs that the map of a `PlayerDrivers` holds.
pub uninterp spec fn drivers_of(drivers: PlayerDrivers) -> Map<PlayerTurn, PlayerDriver>;

impl PlayerDrivers {
    /// `HashMap::default` of bevy's `HashMap` (hashbrown with aHash): the
    /// map it makes holds no pair.
    #[verifier::external_body]
    fn empty() -> (res: PlayerDrivers)
        ensures
            drivers_of(res).is_empty(),
    {
        PlayerDrivers(HashMap::default())
    }

    /// `HashMap::insert`: afterwards `turn` maps to `driver` and the other
    /// pairs are kept; it returns the value that `turn` had, if any.
    #[verifier::external_body]
    fn insert(&mut self, turn: PlayerTurn, driver: PlayerDriver) -> (prev: Option<PlayerDriver>)
        ensures
            drivers_of(*final(self)) == drivers_of(*old(self)).insert(turn, driver),
            prev == drivers_of(*old(self)).get(turn),
    {
        self.0.insert(turn, driver)
    }

    /// `HashMap::contains_key`: whether `turn` has a value.
    #[verifier::external_body]
    fn contains_key(&self, turn: PlayerTurn) -> (res: bool)
        ensures
            res == drivers_of(*self).contains_key(turn),
    {
        self.0.contains_key(&turn)
    }

    /// Indexing a `HashMap` with `[&key]`, which panics where the key is
    /// absent: the value of `turn`.
    #[verifier::external_body]
    pub(crate) fn index(&self, turn: PlayerTurn) -> (res: PlayerDriver)
        requires
            drivers_of(*self).contains_key(turn),
        ensures
            res == drivers_of(*self)[turn],
    {
        self.0[&turn]
    }

    /// The drivers `x` for X and `o` for O.
    pub fn new(x: PlayerDriver, o: PlayerDriver) -> (res: PlayerDrivers)
        ensures
            drivers_of(res) == map![PlayerTurn::X => x, PlayerTurn::O => o],
    {
        let mut res = PlayerDrivers::empty();
        res.insert(PlayerTurn::X, x);
        res.insert(PlayerTurn::O, o);
        assert(drivers_of(res) =~= map![PlayerTurn::X => x, PlayerTurn::O => o]);
        res
    }

    /// Whether a driver was set for `turn`.
    pub fn has_driver(&self, turn: PlayerTurn) -> (res: bool)
        ensures
            res == drivers_of(*self).contains_key(turn),
    {
        self.contains_key(turn)
    }
}

} // verus!
