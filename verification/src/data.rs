use vstd::prelude::*;

verus! {

/// The first element of a sequence that satisfies a predicate.
pub open spec fn first_match<T>(s: Seq<T>, p: spec_fn(T) -> bool) -> Option<T>
    decreases s.len(),
{
    if s.len() == 0 {
        None
    } else if p(s[0]) {
        Some(s[0])
    } else {
        first_match(s.drop_first(), p)
    }
}

/// Searching from position `i` on: a match at `i` is the answer, else the
/// search goes on from `i + 1`.
pub proof fn lemma_first_match_step<T>(s: Seq<T>, p: spec_fn(T) -> bool, i: int)
    requires
        0 <= i < s.len(),
    ensures
        p(s[i]) ==> first_match(s.skip(i), p) == Some(s[i]),
        !p(s[i]) ==> first_match(s.skip(i), p) == first_match(s.skip(i + 1), p),
{
    assert(s.skip(i).drop_first() =~= s.skip(i + 1));
    assert(s.skip(i)[0] == s[i]);
}

/// A found element satisfies the predicate and is an element of the sequence.
pub proof fn lemma_first_match_found<T>(s: Seq<T>, p: spec_fn(T) -> bool)
    ensures
        first_match(s, p) matches Some(x) ==> p(x) && s.contains(x),
        first_match(s, p) is None <==> forall|j: int| 0 <= j < s.len() ==> !p(#[trigger] s[j]),
    decreases s.len(),
{
    if s.len() > 0 {
        lemma_first_match_found(s.drop_first(), p);
        if !p(s[0]) {
            assert forall|j: int| 0 <= j < s.len() && j != 0 implies s[j] == s.drop_first()[j - 1] by {}
            if let Some(x) = first_match(s.drop_first(), p) {
                let k = choose|k: int| 0 <= k < s.drop_first().len() && s.drop_first()[k] == x;
                assert(s[k + 1] == x);
            }
        } else {
            assert(s[0] == s[0]);
        }
    }
}

/// The position of the first element of a sequence that satisfies a predicate.
pub open spec fn first_index<T>(s: Seq<T>, p: spec_fn(T) -> bool) -> Option<int>
    decreases s.len(),
{
    if s.len() == 0 {
        None
    } else if p(s[0]) {
        Some(0)
    } else {
        match first_index(s.drop_first(), p) {
            Some(i) => Some(i + 1),
            None => None,
        }
    }
}

/// A first index is in bounds, satisfies the predicate, and nothing before it
/// does; no index means that nothing does.
pub proof fn lemma_first_index<T>(s: Seq<T>, p: spec_fn(T) -> bool)
    ensures
        first_index(s, p) matches Some(i) ==> 0 <= i < s.len() && p(s[i]) && forall|j: int|
            0 <= j < i ==> !p(#[trigger] s[j]),
        first_index(s, p) is None ==> forall|j: int| 0 <= j < s.len() ==> !p(#[trigger] s[j]),
    decreases s.len(),
{
    if s.len() > 0 {
        lemma_first_index(s.drop_first(), p);
        assert forall|j: int| 1 <= j < s.len() implies #[trigger] s[j] == s.drop_first()[j - 1] by {}
        if !p(s[0]) {
            if let Some(i) = first_index(s.drop_first(), p) {
                assert forall|j: int| 0 <= j < i + 1 implies !p(#[trigger] s[j]) by {
                    if j > 0 {
                        assert(s[j] == s.drop_first()[j - 1]);
                    }
                }
            } else {
                assert forall|j: int| 0 <= j < s.len() implies !p(#[trigger] s[j]) by {
                    if j > 0 {
                        assert(s[j] == s.drop_first()[j - 1]);
                    }
                }
            }
        }
    }
}

/// The first index is determined by where the predicate holds.
pub proof fn lemma_first_index_unique<T>(s: Seq<T>, p: spec_fn(T) -> bool, i: int)
    requires
        0 <= i < s.len(),
        p(s[i]),
        forall|j: int| 0 <= j < i ==> !p(#[trigger] s[j]),
    ensures
        first_index(s, p) == Some(i),
{
    lemma_first_index(s, p);
    if let Some(k) = first_index(s, p) {
        if k < i {
            assert(!p(s[k]));
        }
        if k > i {
            assert(!p(s[i]));
        }
    }
}

/// When nothing satisfies the predicate there is no first index.
pub proof fn lemma_first_index_none<T>(s: Seq<T>, p: spec_fn(T) -> bool)
    requires
        forall|j: int| 0 <= j < s.len() ==> !p(#[trigger] s[j]),
    ensures
        first_index(s, p) is None,
{
    lemma_first_index(s, p);
    if let Some(k) = first_index(s, p) {
        assert(!p(s[k]));
    }
}

#[derive(Debug, Clone)]
pub struct Spell {
    pub expansion_id: u8,
    pub id: u32,
    pub localization_id: u32,
    pub subtext_localization_id: u32,
    pub cost: u16,
    pub cost_in_percent: bool,
    pub power_type: u8,
    pub range_max: u32,
    pub icon: u16,
}

#[derive(Debug, Clone)]
pub struct PowerType {
    pub id: u8,
    pub localization_id: u32,
}

#[derive(Debug, Clone)]
pub struct Localization {
    pub language_id: u8,
    pub id: u32,
    pub content: String,
}

#[derive(Debug, Clone)]
pub struct Icon {
    pub id: u16,
    pub name: String,
}

/// The description text of a spell in one language.
#[derive(Debug, Clone)]
pub struct LocalizedSpellDescription {
    pub expansion_id: u8,
    pub language_id: u8,
    pub spell_id: u32,
    pub content: String,
}

/// The name under which a spell appears in the combat log.
#[derive(Debug, Clone)]
pub struct SpellName {
    pub expansion_id: u8,
    pub spell_id: u32,
    pub name: String,
}

#[derive(Debug, Clone)]
pub struct MapInfo {
    pub id: u16,
    pub name: String,
}

#[derive(Debug, Clone)]
pub struct NPC {
    pub expansion_id: u8,
    pub id: u32,
    pub name: String,
    pub map_id: Option<u16>,
}

/// The static game data store. Each lookup answers with the first record
/// that fits.
pub struct Data {
    pub spells: Vec<Spell>,
    pub power_types: Vec<PowerType>,
    pub localizations: Vec<Localization>,
    pub icons: Vec<Icon>,
    pub spell_descriptions: Vec<LocalizedSpellDescription>,
    pub spell_names: Vec<SpellName>,
    pub maps: Vec<MapInfo>,
    pub npcs: Vec<NPC>,
}

pub open spec fn spell_key(expansion_id: u8, spell_id: u32) -> spec_fn(Spell) -> bool {
    |s: Spell| s.expansion_id == expansion_id && s.id == spell_id
}

pub open spec fn find_spell(data: &Data, expansion_id: u8, spell_id: u32) -> Option<Spell> {
    first_match(data.spells@, spell_key(expansion_id, spell_id))
}

pub open spec fn power_type_key(id: u8) -> spec_fn(PowerType) -> bool {
    |p: PowerType| p.id == id
}

pub open spec fn localization_key(language_id: u8, id: u32) -> spec_fn(Localization) -> bool {
    |l: Localization| l.language_id == language_id && l.id == id
}

pub open spec fn icon_key(id: u16) -> spec_fn(Icon) -> bool {
    |i: Icon| i.id == id
}

pub open spec fn spell_description_key(expansion_id: u8, language_id: u8, spell_id: u32) -> spec_fn(
    LocalizedSpellDescription,
) -> bool {
    |d: LocalizedSpellDescription|
        d.expansion_id == expansion_id && d.language_id == language_id && d.spell_id == spell_id
}

pub open spec fn spell_name_key(expansion_id: u8, name: Seq<char>) -> spec_fn(SpellName) -> bool {
    |s: SpellName| s.expansion_id == expansion_id && s.name@ == name
}

pub open spec fn map_name_key(name: Seq<char>) -> spec_fn(MapInfo) -> bool {
    |m: MapInfo| m.name@ == name
}

pub open spec fn npc_key(expansion_id: u8, id: u32) -> spec_fn(NPC) -> bool {
    |n: NPC| n.expansion_id == expansion_id && n.id == id
}

pub open spec fn npc_name_key(expansion_id: u8, name: Seq<char>) -> spec_fn(NPC) -> bool {
    |n: NPC| n.expansion_id == expansion_id && n.name@ == name
}

pub open spec fn find_power_type(data: &Data, id: u8) -> Option<PowerType> {
    first_match(data.power_types@, power_type_key(id))
}

pub open spec fn find_localization(data: &Data, language_id: u8, id: u32) -> Option<Localization> {
    first_match(data.localizations@, localization_key(language_id, id))
}

pub open spec fn find_icon(data: &Data, id: u16) -> Option<Icon> {
    first_match(data.icons@, icon_key(id))
}

pub open spec fn find_spell_description(
    data: &Data,
    expansion_id: u8,
    language_id: u8,
    spell_id: u32,
) -> Option<LocalizedSpellDescription> {
    first_match(data.spell_descriptions@, spell_description_key(expansion_id, language_id, spell_id))
}

pub open spec fn find_spell_name(data: &Data, expansion_id: u8, name: Seq<char>) -> Option<SpellName> {
    first_match(data.spell_names@, spell_name_key(expansion_id, name))
}

pub open spec fn find_map_by_name(data: &Data, name: Seq<char>) -> Option<MapInfo> {
    first_match(data.maps@, map_name_key(name))
}

pub open spec fn find_npc(data: &Data, expansion_id: u8, id: u32) -> Option<NPC> {
    first_match(data.npcs@, npc_key(expansion_id, id))
}

pub open spec fn find_npc_by_name(data: &Data, expansion_id: u8, name: Seq<char>) -> Option<NPC> {
    first_match(data.npcs@, npc_name_key(expansion_id, name))
}

/// An optional reference that points at the optional value `s`.
pub open spec fn refers_to<T>(r: Option<&T>, s: Option<T>) -> bool {
    match r {
        Some(x) => s == Some(*x),
        None => s is None,
    }
}

impl Data {
    pub fn get_spell(&self, expansion_id: u8, spell_id: u32) -> (r: Option<&Spell>)
        ensures
            refers_to(r, find_spell(self, expansion_id, spell_id)),
    {
        let mut i: usize = 0;
        assert(self.spells@.skip(0) =~= self.spells@);
        while i < self.spells.len()
            invariant
                i <= self.spells@.len(),
                find_spell(self, expansion_id, spell_id) == first_match(self.spells@.skip(i as int), spell_key(expansion_id, spell_id)),
            decreases self.spells@.len() - i,
        {
            proof { lemma_first_match_step(self.spells@, spell_key(expansion_id, spell_id), i as int); }
            let hit = self.spells[i].expansion_id == expansion_id && self.spells[i].id == spell_id;
            assert(hit == spell_key(expansion_id, spell_id)(self.spells@[i as int]));
            if hit {
                return Some(&self.spells[i]);
            }
            i = i + 1;
        }
        assert(self.spells@.skip(i as int) =~= Seq::<Spell>::empty());
        None
    }

    pub fn get_power_type(&self, id: u8) -> (r: Option<&PowerType>)
        ensures
            refers_to(r, find_power_type(self, id)),
    {
        let mut i: usize = 0;
        assert(self.power_types@.skip(0) =~= self.power_types@);
        while i < self.power_types.len()
            invariant
                i <= self.power_types@.len(),
                find_power_type(self, id) == first_match(self.power_types@.skip(i as int), power_type_key(id)),
            decreases self.power_types@.len() - i,
        {
            proof { lemma_first_match_step(self.power_types@, power_type_key(id), i as int); }
            let hit = self.power_types[i].id == id;
            assert(hit == power_type_key(id)(self.power_types@[i as int]));
            if hit {
                return Some(&self.power_types[i]);
            }
            i = i + 1;
        }
        assert(self.power_types@.skip(i as int) =~= Seq::<PowerType>::empty());
        None
    }

    pub fn get_localization(&self, language_id: u8, localization_id: u32) -> (r: Option<&Localization>)
        ensures
            refers_to(r, find_localization(self, language_id, localization_id)),
    {
        let mut i: usize = 0;
        assert(self.localizations@.skip(0) =~= self.localizations@);
        while i < self.localizations.len()
            invariant
                i <= self.localizations@.len(),
                find_localization(self, language_id, localization_id) == first_match(self.localizations@.skip(i as int), localization_key(language_id, localization_id)),
            decreases self.localizations@.len() - i,
        {
            proof { lemma_first_match_step(self.localizations@, localization_key(language_id, localization_id), i as int); }
            let hit = self.localizations[i].language_id == language_id && self.localizations[i].id == localization_id;
            assert(hit == localization_key(language_id, localization_id)(self.localizations@[i as int]));
            if hit {
                return Some(&self.localizations[i]);
            }
            i = i + 1;
        }
        assert(self.localizations@.skip(i as int) =~= Seq::<Localization>::empty());
        None
    }

    pub fn get_icon(&self, id: u16) -> (r: Option<&Icon>)
        ensures
            refers_to(r, find_icon(self, id)),
    {
        let mut i: usize = 0;
        assert(self.icons@.skip(0) =~= self.icons@);
        while i < self.icons.len()
            invariant
                i <= self.icons@.len(),
                find_icon(self, id) == first_match(self.icons@.skip(i as int), icon_key(id)),
            decreases self.icons@.len() - i,
        {
            proof { lemma_first_match_step(self.icons@, icon_key(id), i as int); }
            let hit = self.icons[i].id == id;
            assert(hit == icon_key(id)(self.icons@[i as int]));
            if hit {
                return Some(&self.icons[i]);
            }
            i = i + 1;
        }
        assert(self.icons@.skip(i as int) =~= Seq::<Icon>::empty());
        None
    }

    pub fn find_localized_spell_description(&self, expansion_id: u8, language_id: u8, spell_id: u32) -> (r: Option<&LocalizedSpellDescription>)
        ensures
            refers_to(r, find_spell_description(self, expansion_id, language_id, spell_id)),
    {
        let mut i: usize = 0;
        assert(self.spell_descriptions@.skip(0) =~= self.spell_descriptions@);
        while i < self.spell_descriptions.len()
            invariant
                i <= self.spell_descriptions@.len(),
                find_spell_description(self, expansion_id, language_id, spell_id) == first_match(self.spell_descriptions@.skip(i as int), spell_description_key(expansion_id, language_id, spell_id)),
            decreases self.spell_descriptions@.len() - i,
        {
            proof { lemma_first_match_step(self.spell_descriptions@, spell_description_key(expansion_id, language_id, spell_id), i as int); }
            let hit = self.spell_descriptions[i].expansion_id == expansion_id && self.spell_descriptions[i].language_id == language_id && self.spell_descriptions[i].spell_id == spell_id;
            assert(hit == spell_description_key(expansion_id, language_id, spell_id)(self.spell_descriptions@[i as int]));
            if hit {
                return Some(&self.spell_descriptions[i]);
            }
            i = i + 1;
        }
        assert(self.spell_descriptions@.skip(i as int) =~= Seq::<LocalizedSpellDescription>::empty());
        None
    }

    pub fn get_spell_name(&self, expansion_id: u8, name: &String) -> (r: Option<&SpellName>)
        ensures
            refers_to(r, find_spell_name(self, expansion_id, name@)),
    {
        let mut i: usize = 0;
        assert(self.spell_names@.skip(0) =~= self.spell_names@);
        while i < self.spell_names.len()
            invariant
                i <= self.spell_names@.len(),
                find_spell_name(self, expansion_id, name@) == first_match(self.spell_names@.skip(i as int), spell_name_key(expansion_id, name@)),
            decreases self.spell_names@.len() - i,
        {
            proof { lemma_first_match_step(self.spell_names@, spell_name_key(expansion_id, name@), i as int); }
            let hit = self.spell_names[i].expansion_id == expansion_id && self.spell_names[i].name == *name;
            assert(hit == spell_name_key(expansion_id, name@)(self.spell_names@[i as int]));
            if hit {
                return Some(&self.spell_names[i]);
            }
            i = i + 1;
        }
        assert(self.spell_names@.skip(i as int) =~= Seq::<SpellName>::empty());
        None
    }

    pub fn get_map_by_name(&self, name: &String) -> (r: Option<&MapInfo>)
        ensures
            refers_to(r, find_map_by_name(self, name@)),
    {
        let mut i: usize = 0;
        assert(self.maps@.skip(0) =~= self.maps@);
        while i < self.maps.len()
            invariant
                i <= self.maps@.len(),
                find_map_by_name(self, name@) == first_match(self.maps@.skip(i as int), map_name_key(name@)),
            decreases self.maps@.len() - i,
        {
            proof { lemma_first_match_step(self.maps@, map_name_key(name@), i as int); }
            let hit = self.maps[i].name == *name;
            assert(hit == map_name_key(name@)(self.maps@[i as int]));
            if hit {
                return Some(&self.maps[i]);
            }
            i = i + 1;
        }
        assert(self.maps@.skip(i as int) =~= Seq::<MapInfo>::empty());
        None
    }

    pub fn get_npc(&self, expansion_id: u8, id: u32) -> (r: Option<&NPC>)
        ensures
            refers_to(r, find_npc(self, expansion_id, id)),
    {
        let mut i: usize = 0;
        assert(self.npcs@.skip(0) =~= self.npcs@);
        while i < self.npcs.len()
            invariant
                i <= self.npcs@.len(),
                find_npc(self, expansion_id, id) == first_match(self.npcs@.skip(i as int), npc_key(expansion_id, id)),
            decreases self.npcs@.len() - i,
        {
            proof { lemma_first_match_step(self.npcs@, npc_key(expansion_id, id), i as int); }
            let hit = self.npcs[i].expansion_id == expansion_id && self.npcs[i].id == id;
            assert(hit == npc_key(expansion_id, id)(self.npcs@[i as int]));
            if hit {
                return Some(&self.npcs[i]);
            }
            i = i + 1;
        }
        assert(self.npcs@.skip(i as int) =~= Seq::<NPC>::empty());
        None
    }

    pub fn get_npc_by_name(&self, expansion_id: u8, name: &String) -> (r: Option<&NPC>)
        ensures
            refers_to(r, find_npc_by_name(self, expansion_id, name@)),
    {
        let mut i: usize = 0;
        assert(self.npcs@.skip(0) =~= self.npcs@);
        while i < self.npcs.len()
            invariant
                i <= self.npcs@.len(),
                find_npc_by_name(self, expansion_id, name@) == first_match(self.npcs@.skip(i as int), npc_name_key(expansion_id, name@)),
            decreases self.npcs@.len() - i,
        {
            proof { lemma_first_match_step(self.npcs@, npc_name_key(expansion_id, name@), i as int); }
            let hit = self.npcs[i].expansion_id == expansion_id && self.npcs[i].name == *name;
            assert(hit == npc_name_key(expansion_id, name@)(self.npcs@[i as int]));
            if hit {
                return Some(&self.npcs[i]);
            }
            i = i + 1;
        }
        assert(self.npcs@.skip(i as int) =~= Seq::<NPC>::empty());
        None
    }

    /// The description of a spell in the given language.
    pub fn get_localized_spell_description(&self, expansion_id: u8, language_id: u8, spell_id: u32) -> (r: Option<String>)
        ensures
            match find_spell_description(self, expansion_id, language_id, spell_id) {
                Some(d) => r matches Some(t) && t@ == d.content@,
                None => r is None,
            },
    {
        match self.find_localized_spell_description(expansion_id, language_id, spell_id) {
            Some(d) => Some(d.content.clone()),
            None => None,
        }
    }

}

} // verus!
