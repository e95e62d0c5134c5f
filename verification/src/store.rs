//! The per-guild session store: a map from guild id to [`PlayerState`].
//!
//! All mutation goes through `take`/`put`, so a caller holds a session
//! exclusively while changing it and the store is never observed mid-update.

use std::collections::HashMap;

use vstd::prelude::*;

use crate::player::{PlayerModel, PlayerState};

verus! {

broadcast use vstd::std_specs::hash::group_hash_axioms;

/// Map from guild id to its playback session.
pub struct GuildStateStore {
    states: HashMap<u64, PlayerState>,
}

impl View for GuildStateStore {
    type V = Map<u64, PlayerModel>;

    closed spec fn view(&self) -> Map<u64, PlayerModel> {
        Map::new(
            |g: u64| self.states@.contains_key(g),
            |g: u64| self.states@[g]@,
        )
    }
}

impl GuildStateStore {
    /// An empty store.
    pub fn new() -> (s: GuildStateStore)
        ensures
            s@ == Map::<u64, PlayerModel>::empty(),
            s@.dom().finite(),
    {
        let s = GuildStateStore { states: HashMap::new() };
        proof {
            assert(s@ =~= Map::<u64, PlayerModel>::empty());
        }
        s
    }

    /// Number of guilds with an active session.
    pub fn len(&self) -> (n: usize)
        ensures
            n == self@.dom().len(),
            self@.dom().finite(),
    {
        proof {
            assert(self@.dom() =~= self.states@.dom());
        }
        self.states.len()
    }

    /// Whether a guild has an active session.
    pub fn contains(&self, guild_id: u64) -> (b: bool)
        ensures
            b == self@.contains_key(guild_id),
    {
        self.states.contains_key(&guild_id)
    }

    /// Borrows a guild's session for reading.
    pub fn get(&self, guild_id: u64) -> (r: Option<&PlayerState>)
        ensures
            match r {
                Some(p) => self@.contains_key(guild_id) && p@ == self@[guild_id],
                None => !self@.contains_key(guild_id),
            },
    {
        self.states.get(&guild_id)
    }

    /// Takes a guild's session out of the store for exclusive mutation.
    pub fn take(&mut self, guild_id: u64) -> (r: Option<PlayerState>)
        ensures
            final(self)@ == old(self)@.remove(guild_id),
            final(self)@.dom().finite(),
            match r {
                Some(p) => old(self)@.contains_key(guild_id) && p@ == old(self)@[guild_id],
                None => !old(self)@.contains_key(guild_id),
            },
    {
        let r = self.states.remove(&guild_id);
        proof {
            assert(self@ =~= old(self)@.remove(guild_id));
            assert(self@.dom() =~= self.states@.dom());
        }
        r
    }

    /// Puts a session (back) into the store.
    pub fn put(&mut self, guild_id: u64, state: PlayerState)
        ensures
            final(self)@ == old(self)@.insert(guild_id, state@),
            final(self)@.dom().finite(),
    {
        self.states.insert(guild_id, state);
        proof {
            assert(self@ =~= old(self)@.insert(guild_id, state@));
            assert(self@.dom() =~= self.states@.dom());
        }
    }
}

} // verus!
