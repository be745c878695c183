use vstd::prelude::*;
use crate::state::{gear_setups_view, ActiveMap, GearSlot, Participant, WoWVanillaParser};

verus! {

fn copy_slots(v: &Vec<GearSlot>) -> (r: Vec<GearSlot>)
    ensures
        r@ == v@,
{
    let mut r: Vec<GearSlot> = Vec::with_capacity(v.len());
    let mut i: usize = 0;
    while i < v.len()
        invariant
            i <= v@.len(),
            r@ == v@.take(i as int),
        decreases v@.len() - i,
    {
        r.push(v[i]);
        assert(r@ =~= v@.take(i + 1));
        i = i + 1;
    }
    assert(v@.take(i as int) =~= v@);
    r
}

fn copy_gear_setups(gs: &Vec<(u64, Vec<GearSlot>)>) -> (r: Vec<(u64, Vec<GearSlot>)>)
    ensures
        gear_setups_view(r@) == gear_setups_view(gs@),
{
    let mut r: Vec<(u64, Vec<GearSlot>)> = Vec::with_capacity(gs.len());
    let mut i: usize = 0;
    while i < gs.len()
        invariant
            i <= gs@.len(),
            r@.len() == i,
            gear_setups_view(r@) == gear_setups_view(gs@).take(i as int),
        decreases gs@.len() - i,
    {
        let slots = copy_slots(&gs[i].1);
        let ghost before = r@;
        r.push((gs[i].0, slots));
        assert(r@[i as int].1@ == gs@[i as int].1@);
        assert(gear_setups_view(r@)[i as int] == gear_setups_view(gs@)[i as int]);
        assert(forall|k: int| 0 <= k < i ==> r@[k] == before[k]);
        assert(gear_setups_view(r@) =~= gear_setups_view(gs@).take(i + 1));
        i = i + 1;
    }
    assert(gear_setups_view(gs@).take(i as int) =~= gear_setups_view(gs@));
    r
}

impl Participant {
    /// A copy of what is known of a participant.
    pub fn duplicate(&self) -> (p: Participant)
        ensures
            p@ == self@,
    {
        let guild_args = match &self.guild_args {
            Some(g) => Some((g.0.clone(), g.1.clone(), g.2)),
            None => None,
        };
        let gear_setups = match &self.gear_setups {
            Some(gs) => Some(copy_gear_setups(gs)),
            None => None,
        };
        Participant {
            id: self.id,
            is_player: self.is_player,
            name: self.name.clone(),
            hero_class_id: self.hero_class_id,
            gender_id: self.gender_id,
            race_id: self.race_id,
            guild_args,
            gear_setups,
            last_seen: self.last_seen,
        }
    }
}

impl WoWVanillaParser {
    /// The vanilla log names no servers.
    pub fn get_involved_server(&self) -> (r: Option<Vec<(u32, String, String)>>)
        ensures
            r is None,
    {
        None
    }

    /// Everything known of the participants, in the order they were first seen.
    pub fn get_participants(&self) -> (r: Vec<Participant>)
        ensures
            r@.map_values(|p: Participant| p@) == self@.participants,
    {
        let mut r: Vec<Participant> = Vec::new();
        let mut i: usize = 0;
        while i < self.participants.len()
            invariant
                i <= self.participants@.len(),
                r@.len() == i,
                r@.map_values(|p: Participant| p@) == self@.participants.take(i as int),
            decreases self.participants@.len() - i,
        {
            let p = self.participants[i].duplicate();
            let ghost before = r@;
            r.push(p);
            assert(r@[i as int]@ == self@.participants[i as int]);
            assert(forall|k: int| 0 <= k < i ==> r@[k] == before[k]);
            assert(r@.map_values(|p: Participant| p@) =~= self@.participants.take(i + 1));
            i = i + 1;
        }
        assert(self@.participants.take(i as int) =~= self@.participants);
        r
    }

    /// The maps that NPCs of the log belong to.
    pub fn get_active_maps(&self) -> (r: Vec<ActiveMap>)
        ensures
            r@ == self@.active_map,
    {
        let mut r: Vec<ActiveMap> = Vec::new();
        let mut i: usize = 0;
        while i < self.active_map.len()
            invariant
                i <= self.active_map@.len(),
                r@ == self.active_map@.take(i as int),
            decreases self.active_map@.len() - i,
        {
            r.push(self.active_map[i]);
            assert(r@ =~= self.active_map@.take(i + 1));
            i = i + 1;
        }
        assert(self.active_map@.take(i as int) =~= self.active_map@);
        r
    }

    /// Kel'Thuzad (15990) appears 228 seconds before his first log line.
    pub fn get_npc_appearance_offset(&self, entry: u32) -> (r: Option<i64>)
        ensures
            r == (if entry == 15990 {
                Some(-228000i64)
            } else {
                None
            }),
    {
        if entry == 15990 {
            return Some(-228000);
        }
        None
    }

    /// Kel'Thuzad (15990) may stay silent for 228 seconds.
    pub fn get_npc_timeout(&self, entry: u32) -> (r: Option<u64>)
        ensures
            r == (if entry == 15990 {
                Some(228000u64)
            } else {
                None
            }),
    {
        if entry == 15990 {
            return Some(228000);
        }
        None
    }

    /// The death of 15929 or 15930 puts 15928 in combat a second earlier.
    pub fn get_death_implied_npc_combat_state_and_offset(&self, entry: u32) -> (r: Option<Vec<(u32, i64)>>)
        ensures
            (entry == 15929 || entry == 15930) ==> (r matches Some(v) && v@ == seq![(15928u32, -1000i64)]),
            !(entry == 15929 || entry == 15930) ==> r is None,
    {
        if entry == 15929 || entry == 15930 {
            let v = vec![(15928u32, -1000i64)];
            assert(v@ =~= seq![(15928u32, -1000i64)]);
            Some(v)
        } else {
            None
        }
    }

    /// No NPC of the vanilla log implies another to be in combat.
    pub fn get_in_combat_implied_npc_combat(&self, _entry: u32) -> (r: Option<Vec<u32>>)
        ensures
            r is None,
    {
        None
    }

    /// The vanilla expansion.
    pub fn get_expansion_id(&self) -> (r: u8)
        ensures
            r == 1,
    {
        1
    }

    pub fn get_server_id(&self) -> (r: Option<u32>)
        ensures
            r == Some(self.server_id),
    {
        Some(self.server_id)
    }
}

} // verus!
