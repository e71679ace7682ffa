//! Player statistics and build data from the stats service.
use crate::player::ArkPassiveData;
use vstd::prelude::*;

verus! {

/// Combat stats of a player. On the wire they come as a map from stat
/// index (0 crit, 1 specialization, 2 swiftness, 3 expertise, 4 attack
/// power, 5 additional damage) to value.
#[derive(Debug, Clone, Copy, Default, PartialEq, Eq, Structural)]
pub struct Stats {
    pub crit: u32,
    pub spec: u32,
    pub swift: u32,
    pub exp: u32,
    pub atk_power: u32,
    pub add_dmg: u32,
}

/// `s` with stat `key` set to `value`; unknown keys leave it unchanged.
pub open spec fn with_stat(s: Stats, key: usize, value: u32) -> Stats {
    if key == 0 {
        Stats { crit: value, ..s }
    } else if key == 1 {
        Stats { spec: value, ..s }
    } else if key == 2 {
        Stats { swift: value, ..s }
    } else if key == 3 {
        Stats { exp: value, ..s }
    } else if key == 4 {
        Stats { atk_power: value, ..s }
    } else if key == 5 {
        Stats { add_dmg: value, ..s }
    } else {
        s
    }
}

/// The stats after the first `n` entries, from all zero; a later entry for
/// the same index wins.
pub open spec fn stats_of(entries: Seq<(usize, u32)>, n: nat) -> Stats
    decreases n,
{
    if n == 0 || n > entries.len() {
        Stats { crit: 0, spec: 0, swift: 0, exp: 0, atk_power: 0, add_dmg: 0 }
    } else {
        with_stat(stats_of(entries, (n - 1) as nat), entries[n - 1].0, entries[n - 1].1)
    }
}

impl Stats {
    /// The stats that a sequence of `(index, value)` entries describes.
    pub fn from_entries(entries: &Vec<(usize, u32)>) -> (r: Stats)
        ensures
            r == stats_of(entries@, entries@.len()),
    {
        let mut stats = Stats { crit: 0, spec: 0, swift: 0, exp: 0, atk_power: 0, add_dmg: 0 };
        let mut i: usize = 0;
        while i < entries.len()
            invariant
                i <= entries@.len(),
                stats == stats_of(entries@, i as nat),
            decreases entries@.len() - i,
        {
            let (key, value) = entries[i];
            if key == 0 {
                stats.crit = value;
            } else if key == 1 {
                stats.spec = value;
            } else if key == 2 {
                stats.swift = value;
            } else if key == 3 {
                stats.exp = value;
            } else if key == 4 {
                stats.atk_power = value;
            } else if key == 5 {
                stats.add_dmg = value;
            }
            i = i + 1;
        }
        stats
    }
}

#[derive(Debug, Clone, Default)]
pub struct PlayerStats {
    pub ark_passive_enabled: bool,
    pub ark_passive_data: Option<ArkPassiveData>,
    pub engravings: Option<Vec<u32>>,
    pub gems: Option<Vec<GemData>>,
}

#[derive(Debug, Clone, Default)]
pub struct ElixirData {
    pub slot: u8,
    pub entries: Vec<ElixirEntry>,
}

#[derive(Debug, Clone, Copy, Default, PartialEq, Eq, Structural)]
pub struct ElixirEntry {
    pub id: u32,
    pub level: u8,
}

#[derive(Debug, Clone, Copy, Default, PartialEq, Eq, Structural)]
pub struct GemData {
    pub tier: u8,
    pub skill_id: u32,
    pub gem_type: u8,
    pub value: u32,
}

#[derive(Debug, Clone, Copy, Default, PartialEq, Eq, Structural)]
pub struct Engraving {
    pub id: u32,
    pub level: u8,
}

#[derive(Debug, Clone, Default)]
pub struct PlayerHash {
    pub name: String,
    pub hash: String,
    pub id: u64,
}

} // verus!
