//! The static enemy roster loaded from configuration files, and the
//! load-time checks that make a roster safe to hand to the engine: every
//! drop table's parallel lists line up, and no identity key appears twice.

use crate::combat::{Enemy, EnemyId};
use vstd::prelude::*;

verus! {

/// Every enemy template the game content defines.
#[derive(Clone, Debug)]
pub struct EnemiesData {
    pub enemies: Vec<Enemy>,
}

impl EnemiesData {
    /// A roster is well formed when every template is and no `enemy_id`
    /// occurs twice: an identity key must pick out one template.
    pub open spec fn wf(self) -> bool {
        &&& forall|i: int| 0 <= i < self.enemies@.len() ==> (#[trigger] self.enemies@[i]).wf()
        &&& forall|i: int, j: int|
            0 <= i < j < self.enemies@.len() ==> (#[trigger] self.enemies@[i]).enemy_id != (
            #[trigger] self.enemies@[j]).enemy_id
    }

    /// Looks an identity key up in the roster: the index of the first
    /// template carrying it, or `None` when the roster has no such template
    /// (a configuration error for the caller to fail on; enemies have no
    /// fallback).
    pub fn find(&self, id: &EnemyId) -> (r: Option<usize>)
        ensures
            match r {
                Some(i) => i < self.enemies@.len() && self.enemies@[i as int].enemy_id == *id
                    && forall|j: int| 0 <= j < i ==> (#[trigger] self.enemies@[j]).enemy_id != *id,
                None => forall|j: int|
                    0 <= j < self.enemies@.len() ==> (#[trigger] self.enemies@[j]).enemy_id != *id,
            },
    {
        let mut i: usize = 0;
        while i < self.enemies.len()
            invariant
                i <= self.enemies@.len(),
                forall|j: int| 0 <= j < i ==> (#[trigger] self.enemies@[j]).enemy_id != *id,
            decreases self.enemies@.len() - i,
        {
            if self.enemies[i].enemy_id == *id {
                return Some(i);
            }
            i = i + 1;
        }
        None
    }
}

impl Default for EnemiesData {
    /// An empty roster; trivially well formed.
    fn default() -> (r: Self)
        ensures
            r.enemies@.len() == 0,
            r.wf(),
    {
        EnemiesData { enemies: Vec::new() }
    }
}

/// Checks a freshly deserialized roster before the game uses it. The I/O
/// side of loading (reading the file, decoding its format) lives with the
/// caller; this is the part that decides whether what came in is usable.
#[derive(Default)]
pub struct EnemiesDataLoader;

impl EnemiesDataLoader {
    /// Decides whether a loaded roster satisfies the `EnemiesData` invariant:
    /// true exactly when every drop table's lists line up, every stat block
    /// has a non-negative `max_health`, and all identity keys are distinct.
    /// A `false` here is a fatal configuration error.
    pub fn validate(data: &EnemiesData) -> (r: bool)
        ensures
            r == data.wf(),
    {
        let n = data.enemies.len();
        let mut i: usize = 0;
        while i < n
            invariant
                n == data.enemies@.len(),
                i <= n,
                forall|k: int| 0 <= k < i ==> (#[trigger] data.enemies@[k]).wf(),
                forall|k: int, l: int|
                    0 <= k < l < i ==> (#[trigger] data.enemies@[k]).enemy_id != (
                    #[trigger] data.enemies@[l]).enemy_id,
            decreases n - i,
        {
            if !data.enemies[i].drop_table.validate() {
                return false;
            }
            if data.enemies[i].combat_stats.max_health < 0 {
                return false;
            }
            let mut j: usize = 0;
            while j < i
                invariant
                    n == data.enemies@.len(),
                    i < n,
                    j <= i,
                    forall|k: int|
                        0 <= k < j ==> (#[trigger] data.enemies@[k]).enemy_id != data.enemies@[i as int].enemy_id,
                decreases i - j,
            {
                if data.enemies[j].enemy_id == data.enemies[i].enemy_id {
                    return false;
                }
                j = j + 1;
            }
            i = i + 1;
        }
        true
    }
}

} // verus!
