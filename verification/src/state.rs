use vstd::prelude::*;
use crate::data::{find_npc, first_index, lemma_first_index, Data};
use crate::dto::Unit;
use crate::regex_bridge::LinePattern;
use crate::units::{get_entry, guid_entry, vanilla_expansion};

verus! {

/// One gear slot: an item and its enchantment, if the slot is filled.
pub type GearSlot = Option<(u32, Option<u32>)>;

/// What the parser knows of a unit that took part in the log.
#[derive(Debug, Clone)]
pub struct Participant {
    pub id: u64,
    pub is_player: bool,
    pub name: String,
    pub hero_class_id: Option<u8>,
    pub gender_id: Option<bool>,
    pub race_id: Option<u8>,
    pub guild_args: Option<(String, String, u8)>,
    pub gear_setups: Option<Vec<(u64, Vec<GearSlot>)>>,
    pub last_seen: u64,
}

pub struct ParticipantView {
    pub id: u64,
    pub is_player: bool,
    pub name: Seq<char>,
    pub hero_class_id: Option<u8>,
    pub gender_id: Option<bool>,
    pub race_id: Option<u8>,
    pub guild_args: Option<(Seq<char>, Seq<char>, u8)>,
    pub gear_setups: Option<Seq<(u64, Seq<GearSlot>)>>,
    pub last_seen: u64,
}

pub open spec fn gear_setups_view(g: Seq<(u64, Vec<GearSlot>)>) -> Seq<(u64, Seq<GearSlot>)> {
    g.map_values(|e: (u64, Vec<GearSlot>)| (e.0, e.1@))
}

impl View for Participant {
    type V = ParticipantView;

    open spec fn view(&self) -> ParticipantView {
        ParticipantView {
            id: self.id,
            is_player: self.is_player,
            name: self.name@,
            hero_class_id: self.hero_class_id,
            gender_id: self.gender_id,
            race_id: self.race_id,
            guild_args: match self.guild_args {
                Some(g) => Some((g.0@, g.1@, g.2)),
                None => None,
            },
            gear_setups: match self.gear_setups {
                Some(g) => Some(gear_setups_view(g@)),
                None => None,
            },
            last_seen: self.last_seen,
        }
    }
}

/// A participant seen for the first time: nothing is known of it but its
/// name.
pub open spec fn new_participant(id: u64, is_player: bool, name: Seq<char>, ts: u64) -> ParticipantView {
    ParticipantView {
        id,
        is_player,
        name,
        hero_class_id: None,
        gender_id: None,
        race_id: None,
        guild_args: None,
        gear_setups: None,
        last_seen: ts,
    }
}

impl Participant {
    pub fn new(id: u64, is_player: bool, name: String, last_seen: u64) -> (p: Participant)
        ensures
            p@ == new_participant(id, is_player, name@, last_seen),
    {
        Participant {
            id,
            is_player,
            name,
            hero_class_id: None,
            gender_id: None,
            race_id: None,
            guild_args: None,
            gear_setups: None,
            last_seen,
        }
    }
}

/// A map that NPCs of the log belong to, with the time span it was seen in.
#[derive(Debug, Clone, Copy, PartialEq, Eq, Structural)]
pub struct ActiveMap {
    pub map_id: u16,
    pub first_seen: u64,
    pub last_seen: u64,
}

/// The combat log parser of the vanilla client. It learns the participants
/// of a log, the maps that its NPCs belong to and which pet belongs to whom.
pub struct WoWVanillaParser {
    pub server_id: u32,
    pub participants: Vec<Participant>,
    pub active_map: Vec<ActiveMap>,
    pub pet_owner: Vec<(u64, u64)>,
    pub patterns: Vec<LinePattern>,
}

pub struct ParserView {
    pub server_id: u32,
    pub participants: Seq<ParticipantView>,
    pub active_map: Seq<ActiveMap>,
    pub pet_owner: Seq<(u64, u64)>,
}

impl View for WoWVanillaParser {
    type V = ParserView;

    open spec fn view(&self) -> ParserView {
        ParserView {
            server_id: self.server_id,
            participants: self.participants@.map_values(|p: Participant| p@),
            active_map: self.active_map@,
            pet_owner: self.pet_owner@,
        }
    }
}

pub open spec fn participant_key(id: u64) -> spec_fn(ParticipantView) -> bool {
    |p: ParticipantView| p.id == id
}

/// Where the participant with an id stands.
pub open spec fn participant_index(ps: Seq<ParticipantView>, id: u64) -> Option<int> {
    first_index(ps, participant_key(id))
}

pub open spec fn seen_at(p: ParticipantView, ts: u64) -> ParticipantView {
    ParticipantView { last_seen: ts, ..p }
}

/// Participants after a unit was seen under a name at a time: a known unit
/// is marked as seen, a new one is added.
pub open spec fn collect_participant_spec(
    ps: Seq<ParticipantView>,
    unit: Unit,
    name: Seq<char>,
    ts: u64,
) -> Seq<ParticipantView> {
    match participant_index(ps, unit.unit_id) {
        Some(i) => ps.update(i, seen_at(ps[i], ts)),
        None => ps.push(new_participant(unit.unit_id, unit.is_player, name, ts)),
    }
}

/// The map of the NPC that a unit is, if the data knows one.
pub open spec fn unit_map(data: &Data, unit: Unit) -> Option<u16> {
    match guid_entry(unit.unit_id) {
        Some(entry) => match find_npc(data, vanilla_expansion(), entry) {
            Some(npc) => npc.map_id,
            None => None,
        },
        None => None,
    }
}

pub open spec fn active_map_key(map_id: u16) -> spec_fn(ActiveMap) -> bool {
    |m: ActiveMap| m.map_id == map_id
}

/// Active maps after a unit was seen at a time: the map of an NPC is marked
/// as seen, or added.
pub open spec fn collect_active_map_spec(ms: Seq<ActiveMap>, data: &Data, unit: Unit, ts: u64) -> Seq<
    ActiveMap,
> {
    match unit_map(data, unit) {
        None => ms,
        Some(map_id) => match first_index(ms, active_map_key(map_id)) {
            Some(i) => ms.update(i, ActiveMap { last_seen: ts, ..ms[i] }),
            None => ms.push(ActiveMap { map_id, first_seen: ts, last_seen: ts }),
        },
    }
}

pub open spec fn pet_key(pet: u64) -> spec_fn((u64, u64)) -> bool {
    |e: (u64, u64)| e.0 == pet
}

/// Pet owners after a pet was given an owner: a known pet changes owner, a
/// new one is added.
pub open spec fn insert_pet_owner_spec(po: Seq<(u64, u64)>, pet: u64, owner: u64) -> Seq<(u64, u64)> {
    match first_index(po, pet_key(pet)) {
        Some(i) => po.update(i, (pet, owner)),
        None => po.push((pet, owner)),
    }
}

/// Two units of one line were seen: both are collected as participants,
/// then the maps of both are collected.
pub open spec fn observe_two(
    st: ParserView,
    data: &Data,
    u1: Unit,
    n1: Seq<char>,
    u2: Unit,
    n2: Seq<char>,
    ts: u64,
) -> ParserView {
    ParserView {
        participants: collect_participant_spec(
            collect_participant_spec(st.participants, u1, n1, ts),
            u2,
            n2,
            ts,
        ),
        active_map: collect_active_map_spec(
            collect_active_map_spec(st.active_map, data, u1, ts),
            data,
            u2,
            ts,
        ),
        ..st
    }
}

/// One unit of a line was seen.
pub open spec fn observe_one(st: ParserView, data: &Data, u: Unit, n: Seq<char>, ts: u64) -> ParserView {
    ParserView {
        participants: collect_participant_spec(st.participants, u, n, ts),
        active_map: collect_active_map_spec(st.active_map, data, u, ts),
        ..st
    }
}

/// No two participants share an id, no two active maps share a map, and no
/// pet has two owners.
pub open spec fn state_keys_unique(st: ParserView) -> bool {
    &&& forall|i: int, j: int|
        0 <= i < j < st.participants.len() ==> st.participants[i].id != st.participants[j].id
    &&& forall|i: int, j: int|
        0 <= i < j < st.active_map.len() ==> st.active_map[i].map_id != st.active_map[j].map_id
    &&& forall|i: int, j: int|
        0 <= i < j < st.pet_owner.len() ==> st.pet_owner[i].0 != st.pet_owner[j].0
}

impl WoWVanillaParser {
    /// Where the participant with an id stands.
    pub(crate) fn find_participant(&self, id: u64) -> (r: Option<usize>)
        ensures
            match r {
                Some(i) => participant_index(self@.participants, id) == Some(i as int),
                None => participant_index(self@.participants, id) is None,
            },
    {
        let ghost ps = self@.participants;
        let mut i: usize = 0;
        while i < self.participants.len()
            invariant
                i <= self.participants@.len(),
                ps == self@.participants,
                forall|j: int| 0 <= j < i ==> ps[j].id != id,
            decreases self.participants@.len() - i,
        {
            if self.participants[i].id == id {
                proof {
                    crate::data::lemma_first_index_unique(ps, participant_key(id), i as int);
                }
                return Some(i);
            }
            i = i + 1;
        }
        proof {
            crate::data::lemma_first_index_none(ps, participant_key(id));
        }
        None
    }

    /// Marks a unit as seen under a name at a time.
    pub(crate) fn collect_participant(&mut self, unit: &Unit, name: &String, ts: u64)
        ensures
            final(self)@ == (ParserView {
                participants: collect_participant_spec(old(self)@.participants, *unit, name@, ts),
                ..old(self)@
            }),
            final(self).patterns@ == old(self).patterns@,
    {
        proof { lemma_first_index(self@.participants, participant_key(unit.unit_id)); }
        match self.find_participant(unit.unit_id) {
            Some(i) => {
                let ghost old_ps = self.participants@;
                self.participants[i].last_seen = ts;
                assert(self.participants@[i as int]@ == seen_at(old_ps[i as int]@, ts));
                assert(forall|j: int| 0 <= j < old_ps.len() && j != i ==> self.participants@[j] == old_ps[j]);
                assert(self@.participants =~= collect_participant_spec(
                    old(self)@.participants,
                    *unit,
                    name@,
                    ts,
                ));
            },
            None => {
                self.participants.push(Participant::new(unit.unit_id, unit.is_player, name.clone(), ts));
                assert(self@.participants =~= collect_participant_spec(
                    old(self)@.participants,
                    *unit,
                    name@,
                    ts,
                ));
            },
        }
    }

    /// Marks the map of an NPC unit as seen at a time.
    pub(crate) fn collect_active_map(&mut self, data: &Data, unit: &Unit, ts: u64)
        ensures
            final(self)@ == (ParserView {
                active_map: collect_active_map_spec(old(self)@.active_map, data, *unit, ts),
                ..old(self)@
            }),
            final(self).patterns@ == old(self).patterns@,
    {
        let entry = match get_entry(unit.unit_id) {
            Some(e) => e,
            None => return,
        };
        let map_id = match data.get_npc(1, entry) {
            Some(npc) => match npc.map_id {
                Some(m) => m,
                None => return,
            },
            None => return,
        };
        proof { lemma_first_index(self.active_map@, active_map_key(map_id)); }
        assert(unit_map(data, *unit) == Some(map_id));
        match self.find_active_map(map_id) {
            Some(i) => {
                let seen = ActiveMap { last_seen: ts, ..self.active_map[i] };
                assert(first_index(old(self).active_map@, active_map_key(map_id)) == Some(i as int));
                assert(seen == ActiveMap { last_seen: ts, ..old(self).active_map@[i as int] });
                self.active_map.set(i, seen);
                assert(self.active_map@ == old(self).active_map@.update(i as int, seen));
                assert(self.active_map@ =~= collect_active_map_spec(old(self)@.active_map, data, *unit, ts));
            },
            None => {
                self.active_map.push(ActiveMap { map_id, first_seen: ts, last_seen: ts });
            },
        }
    }

    /// Where the active map of a map id stands.
    pub(crate) fn find_active_map(&self, map_id: u16) -> (r: Option<usize>)
        ensures
            match r {
                Some(i) => first_index(self.active_map@, active_map_key(map_id)) == Some(i as int),
                None => first_index(self.active_map@, active_map_key(map_id)) is None,
            },
    {
        let ghost ms = self.active_map@;
        let mut i: usize = 0;
        while i < self.active_map.len()
            invariant
                i <= self.active_map@.len(),
                ms == self.active_map@,
                forall|j: int| 0 <= j < i ==> ms[j].map_id != map_id,
            decreases self.active_map@.len() - i,
        {
            if self.active_map[i].map_id == map_id {
                proof {
                    crate::data::lemma_first_index_unique(ms, active_map_key(map_id), i as int);
                }
                return Some(i);
            }
            i = i + 1;
        }
        proof {
            crate::data::lemma_first_index_none(ms, active_map_key(map_id));
        }
        None
    }

    /// Where the owner entry of a pet stands.
    pub(crate) fn find_pet(&self, pet: u64) -> (r: Option<usize>)
        ensures
            match r {
                Some(i) => first_index(self.pet_owner@, pet_key(pet)) == Some(i as int),
                None => first_index(self.pet_owner@, pet_key(pet)) is None,
            },
    {
        let ghost po = self.pet_owner@;
        let mut i: usize = 0;
        while i < self.pet_owner.len()
            invariant
                i <= self.pet_owner@.len(),
                po == self.pet_owner@,
                forall|j: int| 0 <= j < i ==> po[j].0 != pet,
            decreases self.pet_owner@.len() - i,
        {
            if self.pet_owner[i].0 == pet {
                proof {
                    crate::data::lemma_first_index_unique(po, pet_key(pet), i as int);
                }
                return Some(i);
            }
            i = i + 1;
        }
        proof {
            crate::data::lemma_first_index_none(po, pet_key(pet));
        }
        None
    }

    /// Gives a pet an owner.
    pub(crate) fn insert_pet_owner(&mut self, pet: u64, owner: u64)
        ensures
            final(self)@ == (ParserView {
                pet_owner: insert_pet_owner_spec(old(self)@.pet_owner, pet, owner),
                ..old(self)@
            }),
            final(self).patterns@ == old(self).patterns@,
    {
        proof { lemma_first_index(self.pet_owner@, pet_key(pet)); }
        match self.find_pet(pet) {
            Some(i) => {
                self.pet_owner.set(i, (pet, owner));
            },
            None => {
                self.pet_owner.push((pet, owner));
            },
        }
    }

    /// Two units of one line were seen.
    pub(crate) fn observe_two(&mut self, data: &Data, u1: &Unit, n1: &String, u2: &Unit, n2: &String, ts: u64)
        ensures
            final(self)@ == observe_two(old(self)@, data, *u1, n1@, *u2, n2@, ts),
            final(self).patterns@ == old(self).patterns@,
    {
        self.collect_participant(u1, n1, ts);
        self.collect_participant(u2, n2, ts);
        self.collect_active_map(data, u1, ts);
        self.collect_active_map(data, u2, ts);
    }

    /// One unit of a line was seen.
    pub(crate) fn observe_one(&mut self, data: &Data, u: &Unit, n: &String, ts: u64)
        ensures
            final(self)@ == observe_one(old(self)@, data, *u, n@, ts),
            final(self).patterns@ == old(self).patterns@,
    {
        self.collect_participant(u, n, ts);
        self.collect_active_map(data, u, ts);
    }
}

} // verus!
