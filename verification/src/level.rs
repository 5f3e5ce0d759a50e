use std::collections::HashMap;
use vstd::prelude::*;
use crate::tilemap::{le_i32, load_error, Tilemap, TilemapLoadError};

verus! {

/// A level: the map that the actor moves in.
#[derive(Debug)]
pub struct Level {
    pub tilemap: Tilemap,
}

/// Why a level could not be loaded.
#[derive(Debug, Copy, Clone, PartialEq, Eq, Structural)]
pub enum LevelLoadError {
    /// The map of the level was not accepted.
    Tilemap(TilemapLoadError),
}

impl Level {
    /// A level is sound when its map is.
    pub open spec fn wf(&self) -> bool {
        self.tilemap.wf()
    }

    /// Reads a level from the bytes of its map file.
    pub fn from_bytes(bytes: &[u8]) -> (res: Result<Level, LevelLoadError>)
        ensures
            match res {
                Ok(level) => {
                    &&& load_error(bytes@) is None
                    &&& level.wf()
                    &&& level.tilemap.spec_width() == le_i32(bytes@, 4)
                    &&& level.tilemap.spec_height() == le_i32(bytes@, 8)
                    &&& forall|i: int|
                        0 <= i < level.tilemap@.len() ==> level.tilemap@[i]
                            == crate::tilemap::tile_of_byte(
                            #[trigger] bytes@[crate::tilemap::HEADER_LEN + i],
                        )
                },
                Err(LevelLoadError::Tilemap(error)) => load_error(bytes@) == Some(error),
            },
    {
        match Tilemap::from_bytes(bytes) {
            Ok(tilemap) => Ok(Level { tilemap }),
            Err(error) => Err(LevelLoadError::Tilemap(error)),
        }
    }
}

/// The keys of one group: how many the level holds and how many of them
/// have been collected.
#[derive(Debug, Default, Copy, Clone, PartialEq, Eq, Structural)]
pub struct CollectedKeys {
    pub total_key_count: usize,
    pub collected_key_count: usize,
}

/// Number of times that `group` occurs in `groups`.
pub open spec fn count_of(groups: Seq<i32>, group: i32) -> nat
    decreases groups.len(),
{
    if groups.len() == 0 {
        0
    } else {
        count_of(groups.drop_last(), group) + if groups.last() == group {
            1nat
        } else {
            0nat
        }
    }
}

/// A group occurs at most as often as there are entries, and at least once
/// if it occurs at all.
pub proof fn lemma_count_of(groups: Seq<i32>, group: i32)
    ensures
        count_of(groups, group) <= groups.len(),
        count_of(groups, group) > 0 <==> groups.contains(group),
    decreases groups.len(),
{
    if groups.len() > 0 {
        lemma_count_of(groups.drop_last(), group);
        if groups.drop_last().contains(group) {
            let i = choose|i: int| 0 <= i < groups.drop_last().len() && groups.drop_last()[i] == group;
            assert(groups[i] == group);
        }
        if groups.last() == group {
            assert(groups[groups.len() - 1] == group);
        }
        if groups.contains(group) {
            let i = choose|i: int| 0 <= i < groups.len() && groups[i] == group;
            if i < groups.len() - 1 {
                assert(groups.drop_last()[i] == group);
            }
        }
    }
}

/// What has been collected in a level, by group of keys.
#[derive(Debug)]
pub struct LevelState {
    keys_by_group: HashMap<i32, CollectedKeys>,
}

impl View for LevelState {
    type V = Map<i32, CollectedKeys>;

    closed spec fn view(&self) -> Map<i32, CollectedKeys> {
        self.keys_by_group@
    }
}

impl LevelState {
    /// The state of a level whose keys belong to the given groups, one
    /// entry per key, with nothing collected yet.
    pub fn new(groups: &[i32]) -> (state: LevelState)
        ensures
            forall|group: i32| state@.contains_key(group) <==> groups@.contains(group),
            forall|group: i32| #[trigger]
                state@.contains_key(group) ==> state@[group] == (CollectedKeys {
                    total_key_count: count_of(groups@, group) as usize,
                    collected_key_count: 0,
                }),
    {
        let mut keys_by_group: HashMap<i32, CollectedKeys> = HashMap::new();
        let mut i: usize = 0;
        while i < groups.len()
            invariant
                i <= groups@.len(),
                forall|group: i32|
                    keys_by_group@.contains_key(group) <==> count_of(groups@.take(i as int), group)
                        > 0,
                forall|group: i32| #[trigger]
                    keys_by_group@.contains_key(group) ==> keys_by_group@[group] == (CollectedKeys {
                        total_key_count: count_of(groups@.take(i as int), group) as usize,
                        collected_key_count: 0,
                    }),
            decreases groups@.len() - i,
        {
            let group = groups[i];
            proof {
                assert(groups@.take(i + 1).drop_last() =~= groups@.take(i as int));
                assert(groups@.take(i + 1).last() == group);
                lemma_count_of(groups@.take(i as int), group);
            }
            let total = match keys_by_group.get(&group) {
                Some(entry) => entry.total_key_count,
                None => 0,
            };
            keys_by_group.insert(
                group,
                CollectedKeys { total_key_count: total + 1, collected_key_count: 0 },
            );
            i += 1;
        }
        proof {
            assert(groups@.take(groups@.len() as int) =~= groups@);
            assert forall|group: i32| keys_by_group@.contains_key(group) <==> groups@.contains(
                group,
            ) by {
                lemma_count_of(groups@, group);
            }
        }
        LevelState { keys_by_group }
    }

    /// Counts one more key of a group as collected.
    pub fn add_collected_key(&mut self, group: i32)
        requires
            old(self)@.contains_key(group) ==> old(self)@[group].collected_key_count < usize::MAX,
        ensures
            final(self)@ == old(self)@.insert(
                group,
                if old(self)@.contains_key(group) {
                    CollectedKeys {
                        total_key_count: old(self)@[group].total_key_count,
                        collected_key_count: (old(self)@[group].collected_key_count + 1) as usize,
                    }
                } else {
                    CollectedKeys { total_key_count: 0, collected_key_count: 1 }
                },
            ),
    {
        let entry = match self.keys_by_group.get(&group) {
            Some(entry) => *entry,
            None => CollectedKeys { total_key_count: 0, collected_key_count: 0 },
        };
        self.keys_by_group.insert(
            group,
            CollectedKeys {
                total_key_count: entry.total_key_count,
                collected_key_count: entry.collected_key_count + 1,
            },
        );
    }

    /// The counts of a group, if the level has keys of it.
    pub fn collected_keys(&self, group: i32) -> (res: Option<CollectedKeys>)
        ensures
            res == if self@.contains_key(group) {
                Some(self@[group])
            } else {
                None
            },
    {
        match self.keys_by_group.get(&group) {
            Some(entry) => Some(*entry),
            None => None,
        }
    }

    /// Whether every key of a group has been collected.
    pub fn all_keys_collected(&self, group: i32) -> (res: bool)
        requires
            self@.contains_key(group),
        ensures
            res == (self@[group].collected_key_count >= self@[group].total_key_count),
    {
        match self.keys_by_group.get(&group) {
            Some(entry) => entry.collected_key_count >= entry.total_key_count,
            None => true,
        }
    }
}

impl Default for Level {
    /// The blank level.
    fn default() -> (level: Level)
        ensures
            level.wf(),
            level.tilemap.spec_width() == 48,
            level.tilemap.spec_height() == 27,
    {
        Level { tilemap: Tilemap::default() }
    }
}

} // verus!
