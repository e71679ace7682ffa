//! Live combat participants and the directory that resolves them by id.
use std::collections::HashMap;
use vstd::prelude::*;

verus! {

broadcast use vstd::std_specs::hash::group_hash_axioms;

/// What kind of participant an entity is. `Unknown` until a spawn or stat
/// packet confirms a type.
#[derive(Debug, Clone, Copy, PartialEq, Eq, Structural, Default)]
pub enum EntityType {
    #[default]
    Unknown,
    Monster,
    Boss,
    Guardian,
    Player,
    Npc,
    Esther,
    Projectile,
    Summon,
}

impl EntityType {
    /// The type after new evidence `new` arrives: a specific type always
    /// wins, and `Unknown` never replaces what is already known.
    pub open spec fn refined_by(self, new: EntityType) -> EntityType {
        if new == EntityType::Unknown {
            self
        } else {
            new
        }
    }

    pub fn refine(self, new: EntityType) -> (r: EntityType)
        ensures
            r == self.refined_by(new),
    {
        if new == EntityType::Unknown {
            self
        } else {
            new
        }
    }

    /// Entities whose damage belongs to the entity that owns them.
    pub open spec fn is_owned_kind(self) -> bool {
        self == EntityType::Projectile || self == EntityType::Summon
    }
}

/// Grade of a non-player character from the reference catalog.
#[derive(Debug, Clone, Copy, PartialEq, Eq, Structural, Default, Hash, PartialOrd, Ord)]
pub enum NpcGrade {
    #[default]
    NoGrade,
    Normal,
    Named,
    Underling,
    Lucky,
    Seed,
    Elite,
    Commander,
    Raid,
    Boss,
    EpicRaid,
}

/// A non-player character of the reference catalog.
#[derive(Debug, Clone, Default)]
pub struct Npc {
    pub id: i32,
    pub name: Option<String>,
    pub grade: NpcGrade,
    pub hp_bars: u16,
    pub npc_type: String,
}

/// The name holds no underscore and only ASCII characters.
pub open spec fn valid_npc_name(name: Seq<char>) -> bool {
    &&& vstd::utf8::is_ascii_chars(name)
    &&& !name.contains('_')
}

impl Npc {
    pub open spec fn spec_is_boss(&self) -> bool {
        match self.grade {
            NpcGrade::Boss | NpcGrade::Commander | NpcGrade::Raid | NpcGrade::EpicRaid => true,
            _ => false,
        }
    }

    /// Bosses are the grades Boss, Commander, Raid and EpicRaid.
    pub fn is_boss(&self) -> (r: bool)
        ensures
            r == self.spec_is_boss(),
    {
        match self.grade {
            NpcGrade::Boss | NpcGrade::Commander | NpcGrade::Raid | NpcGrade::EpicRaid => true,
            _ => false,
        }
    }

    /// A name is valid when present, ASCII only and free of underscores
    /// (an underscore marks a raw catalog key).
    pub fn has_valid_name(&self) -> (r: bool)
        ensures
            r == (self.name is Some && valid_npc_name(self.name->0@)),
    {
        match &self.name {
            Some(name) => {
                let s = name.as_str();
                if !s.is_ascii() {
                    return false;
                }
                proof {
                    vstd::utf8::is_ascii_chars_encode_utf8(s@);
                }
                let bytes = s.as_bytes();
                let mut i: usize = 0;
                while i < bytes.len()
                    invariant
                        i <= bytes@.len(),
                        self.name == Some(*name),
                        s@ == name@,
                        bytes@ == vstd::utf8::encode_utf8(s@),
                        bytes@.len() == s@.len(),
                        vstd::utf8::is_ascii_chars(s@),
                        forall|k: int| 0 <= k < s@.len() ==> s@[k] as u8 == bytes@[k],
                        forall|k: int| 0 <= k < i ==> s@[k] != '_',
                    decreases bytes@.len() - i,
                {
                    if bytes[i] == 95u8 {
                        assert(s@[i as int] == '_') by {
                            vstd::utf8::is_ascii_chars_nat_bound(s@);
                            assert(s@[i as int] as u8 == 95u8);
                            assert((s@[i as int] as nat) < 128);
                            assert((s@[i as int] as nat) == 95);
                            assert(('_' as nat) == 95);
                        }
                        assert(s@.contains('_'));
                        return false;
                    }
                    assert(s@[i as int] != '_');
                    i += 1;
                }
                true
            },
            None => false,
        }
    }
}

/// A companion character summoned by a player.
#[derive(Debug, Clone, Default)]
pub struct Esther {
    pub name: String,
    pub icon: String,
    pub skills: Vec<i32>,
    pub npc_ids: Vec<u32>,
}


/// A live participant of the encounter. Gear level is in hundredths of a
/// level; `owner_id` names the caster of a projectile or summon.
#[derive(Debug, Clone, Default)]
pub struct Entity {
    pub id: u64,
    pub is_local_player: bool,
    pub entity_type: EntityType,
    pub name: String,
    pub npc_id: u32,
    pub class_id: u32,
    pub gear_level: i64,
    pub character_id: u64,
    pub owner_id: u64,
    pub skill_effect_id: u32,
    pub skill_id: u32,
    pub stance: u8,
    pub grade: String,
    pub push_immune: bool,
    pub level: u16,
    pub balance_level: u16,
}

/// What a packet says about an entity. `None` (and `Unknown` for the type)
/// means the packet does not say; such fields never erase what is known.
#[derive(Debug, Clone, Default)]
pub struct EntityUpdate {
    pub entity_type: EntityType,
    pub name: Option<String>,
    pub npc_id: Option<u32>,
    pub class_id: Option<u32>,
    pub gear_level: Option<i64>,
    pub character_id: Option<u64>,
    pub owner_id: Option<u64>,
    pub is_local_player: Option<bool>,
}

pub open spec fn pick<T>(new: Option<T>, known: T) -> T {
    match new {
        Some(v) => v,
        None => known,
    }
}

/// An entity seen for the first time: every field empty, type `Unknown`.
pub open spec fn blank_entity(e: Entity, id: u64) -> bool {
    &&& e.id == id
    &&& !e.is_local_player
    &&& e.entity_type == EntityType::Unknown
    &&& e.name@ == Seq::<char>::empty()
    &&& e.npc_id == 0
    &&& e.class_id == 0
    &&& e.gear_level == 0
    &&& e.character_id == 0
    &&& e.owner_id == 0
    &&& e.skill_effect_id == 0
    &&& e.skill_id == 0
    &&& e.stance == 0
    &&& e.grade@ == Seq::<char>::empty()
    &&& !e.push_immune
    &&& e.level == 0
    &&& e.balance_level == 0
}

/// `e` with every field that `u` supplies taken from `u`.
pub open spec fn merged(e: Entity, u: EntityUpdate) -> Entity {
    Entity {
        entity_type: e.entity_type.refined_by(u.entity_type),
        name: pick(u.name, e.name),
        npc_id: pick(u.npc_id, e.npc_id),
        class_id: pick(u.class_id, e.class_id),
        gear_level: pick(u.gear_level, e.gear_level),
        character_id: pick(u.character_id, e.character_id),
        owner_id: pick(u.owner_id, e.owner_id),
        is_local_player: pick(u.is_local_player, e.is_local_player),
        ..e
    }
}

fn take<T>(new: Option<T>, known: T) -> (r: T)
    ensures
        r == pick(new, known),
{
    match new {
        Some(v) => v,
        None => known,
    }
}

fn merge(e: Entity, u: EntityUpdate) -> (r: Entity)
    ensures
        r == merged(e, u),
{
    Entity {
        entity_type: e.entity_type.refine(u.entity_type),
        name: take(u.name, e.name),
        npc_id: take(u.npc_id, e.npc_id),
        class_id: take(u.class_id, e.class_id),
        gear_level: take(u.gear_level, e.gear_level),
        character_id: take(u.character_id, e.character_id),
        owner_id: take(u.owner_id, e.owner_id),
        is_local_player: take(u.is_local_player, e.is_local_player),
        ..e
    }
}

fn new_entity(id: u64) -> (r: Entity)
    ensures
        blank_entity(r, id),
{
    Entity {
        id,
        is_local_player: false,
        entity_type: EntityType::Unknown,
        name: String::new(),
        npc_id: 0,
        class_id: 0,
        gear_level: 0,
        character_id: 0,
        owner_id: 0,
        skill_effect_id: 0,
        skill_id: 0,
        stance: 0,
        grade: String::new(),
        push_immune: false,
        level: 0,
        balance_level: 0,
    }
}

/// Most hops followed from a projectile or summon to the entity credited
/// with its damage. Longer chains are taken as malformed.
pub const MAX_OWNER_DEPTH: u64 = 8;

/// The authoritative map from entity id to live entity record.
pub struct EntityDirectory {
    entities: HashMap<u64, Entity>,
}

/// The entity credited for the actions of `id`, following owner links from
/// projectiles and summons for at most `fuel` hops. `None` when `id` or an
/// owner on the chain is unknown, or the chain is longer than `fuel`.
pub open spec fn owner_chain(m: Map<u64, Entity>, id: u64, fuel: nat) -> Option<u64>
    decreases fuel,
{
    if !m.contains_key(id) {
        None
    } else if m[id].entity_type.is_owned_kind() {
        if fuel == 0 {
            None
        } else {
            owner_chain(m, m[id].owner_id, (fuel - 1) as nat)
        }
    } else {
        Some(id)
    }
}

/// `e` is the record for `id` after `u` is applied to directory `m`: the
/// known record merged with `u`, or a blank one merged with `u` if `id` is new.
pub open spec fn upserted(m: Map<u64, Entity>, id: u64, u: EntityUpdate, e: Entity) -> bool {
    if m.contains_key(id) {
        e == merged(m[id], u)
    } else {
        exists|b: Entity| blank_entity(b, id) && e == merged(b, u)
    }
}

impl View for EntityDirectory {
    type V = Map<u64, Entity>;

    closed spec fn view(&self) -> Map<u64, Entity> {
        self.entities@
    }
}

impl EntityDirectory {
    /// Every record is stored under its own id.
    pub closed spec fn wf(&self) -> bool {
        forall|id: u64| #[trigger] self.entities@.contains_key(id) ==> self.entities@[id].id == id
    }

    pub fn new() -> (r: EntityDirectory)
        ensures
            r@ == Map::<u64, Entity>::empty(),
            r.wf(),
    {
        EntityDirectory { entities: HashMap::new() }
    }

    /// Creates the entity on first sight, else merges what `u` supplies into
    /// the known record.
    pub fn upsert(&mut self, id: u64, u: EntityUpdate)
        requires
            old(self).wf(),
        ensures
            final(self).wf(),
            final(self)@ == old(self)@.insert(id, final(self)@[id]),
            upserted(old(self)@, id, u, final(self)@[id]),
    {
        let current = match self.entities.remove(&id) {
            Some(e) => e,
            None => new_entity(id),
        };
        let ghost base = current;
        let e = merge(current, u);
        self.entities.insert(id, e);
        proof {
            assert forall|k: u64| #[trigger] self.entities@.contains_key(k) implies self.entities@[k].id
                == k by {
                if k != id {
                    assert(old(self).entities@.contains_key(k));
                }
            }
            assert(self.entities@ == old(self).entities@.insert(id, e));
            if !old(self)@.contains_key(id) {
                assert(blank_entity(base, id) && e == merged(base, u));
            }
        }
    }

    pub open spec fn spec_classify(&self, id: u64) -> EntityType {
        if self@.contains_key(id) {
            self@[id].entity_type
        } else {
            EntityType::Unknown
        }
    }

    /// The known type of `id`; `Unknown` for an entity never seen.
    pub fn classify(&self, id: u64) -> (r: EntityType)
        ensures
            r == self.spec_classify(id),
    {
        match self.entities.get(&id) {
            Some(e) => e.entity_type,
            None => EntityType::Unknown,
        }
    }

    /// The record of `id`, if any.
    pub fn get(&self, id: u64) -> (r: Option<&Entity>)
        requires
            self.wf(),
        ensures
            match r {
                Some(e) => self@.contains_key(id) && *e == self@[id] && e.id == id,
                None => !self@.contains_key(id),
            },
    {
        self.entities.get(&id)
    }

    /// Whether `id` has a record.
    pub fn contains(&self, id: u64) -> (r: bool)
        ensures
            r == self@.contains_key(id),
    {
        self.entities.contains_key(&id)
    }

    /// The entity credited with what `id` does: `id` itself unless it is a
    /// projectile or summon, whose owner chain is followed for at most
    /// `MAX_OWNER_DEPTH` hops.
    pub fn resolve_owner(&self, id: u64) -> (r: Option<u64>)
        ensures
            r == owner_chain(self@, id, MAX_OWNER_DEPTH as nat),
    {
        let mut cur = id;
        let mut fuel: u64 = MAX_OWNER_DEPTH;
        loop
            invariant
                fuel <= MAX_OWNER_DEPTH,
                owner_chain(self@, cur, fuel as nat) == owner_chain(self@, id, MAX_OWNER_DEPTH as nat),
            decreases fuel,
        {
            match self.entities.get(&cur) {
                None => {
                    return None;
                },
                Some(e) => {
                    if e.entity_type == EntityType::Projectile || e.entity_type == EntityType::Summon {
                        if fuel == 0 {
                            return None;
                        }
                        cur = e.owner_id;
                        fuel = fuel - 1;
                    } else {
                        return Some(cur);
                    }
                },
            }
        }
    }
}

} // verus!
