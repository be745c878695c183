use vstd::prelude::*;
use crate::state::{GearSlot, Participant, ParticipantView, WoWVanillaParser};
use crate::units::{get_hashed_player_unit_id, name_hash};

verus! {

#[derive(Debug, Clone)]
pub struct CharacterItemDto {
    pub item_id: u32,
    pub random_property_id: Option<i16>,
    pub enchant_id: Option<u32>,
    pub gem_ids: Vec<Option<u32>>,
}

#[derive(Debug, Clone)]
pub struct CharacterGearDto {
    pub head: Option<CharacterItemDto>,
    pub neck: Option<CharacterItemDto>,
    pub shoulder: Option<CharacterItemDto>,
    pub back: Option<CharacterItemDto>,
    pub chest: Option<CharacterItemDto>,
    pub shirt: Option<CharacterItemDto>,
    pub tabard: Option<CharacterItemDto>,
    pub wrist: Option<CharacterItemDto>,
    pub main_hand: Option<CharacterItemDto>,
    pub off_hand: Option<CharacterItemDto>,
    pub ternary_hand: Option<CharacterItemDto>,
    pub glove: Option<CharacterItemDto>,
    pub belt: Option<CharacterItemDto>,
    pub leg: Option<CharacterItemDto>,
    pub boot: Option<CharacterItemDto>,
    pub ring1: Option<CharacterItemDto>,
    pub ring2: Option<CharacterItemDto>,
    pub trinket1: Option<CharacterItemDto>,
    pub trinket2: Option<CharacterItemDto>,
}

#[derive(Debug, Clone)]
pub struct CharacterInfoDto {
    pub gear: CharacterGearDto,
    pub hero_class_id: u8,
    pub level: u8,
    pub gender: bool,
    pub profession1: Option<u8>,
    pub profession2: Option<u8>,
    pub talent_specialization: Option<String>,
    pub race_id: u8,
}

#[derive(Debug, Clone)]
pub struct GuildDto {
    pub server_uid: u64,
    pub name: String,
}

#[derive(Debug, Clone)]
pub struct GuildRank {
    pub index: u8,
    pub name: String,
}

#[derive(Debug, Clone)]
pub struct CharacterGuildDto {
    pub guild: GuildDto,
    pub rank: GuildRank,
}

#[derive(Debug, Clone, Copy)]
pub struct CharacterFacialDto {
    pub skin_color: u8,
    pub face_style: u8,
    pub hair_style: u8,
    pub hair_color: u8,
    pub facial_hair: u8,
}

#[derive(Debug, Clone)]
pub struct ArenaTeamDto {
    pub team_id: u64,
    pub name: String,
    pub size_type: u8,
}

#[derive(Debug, Clone)]
pub struct CharacterHistoryDto {
    pub character_info: CharacterInfoDto,
    pub character_name: String,
    pub character_guild: Option<CharacterGuildDto>,
    pub character_title: Option<u16>,
    pub profession_skill_points1: Option<u16>,
    pub profession_skill_points2: Option<u16>,
    pub facial: Option<CharacterFacialDto>,
    pub arena_teams: Vec<ArenaTeamDto>,
}

#[derive(Debug, Clone)]
pub struct CharacterDto {
    pub server_uid: u64,
    pub character_history: Option<CharacterHistoryDto>,
}

/// The item of a gear slot: the item and its enchantment, with nothing else.
pub open spec fn item_matches(r: Option<CharacterItemDto>, slot: GearSlot) -> bool {
    match slot {
        None => r is None,
        Some((item_id, enchant_id)) => r matches Some(d) && d.item_id == item_id && d.random_property_id is None
            && d.enchant_id == enchant_id && d.gem_ids@.len() == 0,
    }
}

/// The item of a filled gear slot, and none for an empty one.
pub fn create_character_item_dto(item: &Option<(u32, Option<u32>)>) -> (r: Option<CharacterItemDto>)
    ensures
        item_matches(r, *item),
{
    match item {
        Some((item_id, enchant_id)) => Some(
            CharacterItemDto {
                item_id: *item_id,
                random_property_id: None,
                enchant_id: *enchant_id,
                gem_ids: Vec::new(),
            },
        ),
        None => None,
    }
}

/// The gear of a character from the slots of a gear setup, in the order of
/// the combat log: head, neck, shoulder, shirt, chest, belt, legs, boots,
/// wrists, gloves, two rings, two trinkets, back, main, off and ranged hand,
/// tabard. Without a setup every slot is empty.
pub open spec fn gear_matches(g: CharacterGearDto, gear: Option<Seq<GearSlot>>) -> bool {
    match gear {
        None => {
            &&& g.head is None && g.neck is None && g.shoulder is None && g.back is None
            &&& g.chest is None && g.shirt is None && g.tabard is None && g.wrist is None
            &&& g.main_hand is None && g.off_hand is None && g.ternary_hand is None
            &&& g.glove is None && g.belt is None && g.leg is None && g.boot is None
            &&& g.ring1 is None && g.ring2 is None && g.trinket1 is None && g.trinket2 is None
        },
        Some(s) => {
            &&& item_matches(g.head, s[0]) && item_matches(g.neck, s[1]) && item_matches(g.shoulder, s[2])
            &&& item_matches(g.back, s[14]) && item_matches(g.chest, s[4]) && item_matches(g.shirt, s[3])
            &&& item_matches(g.tabard, s[18]) && item_matches(g.wrist, s[8])
            &&& item_matches(g.main_hand, s[15]) && item_matches(g.off_hand, s[16])
            &&& item_matches(g.ternary_hand, s[17]) && item_matches(g.glove, s[9])
            &&& item_matches(g.belt, s[5]) && item_matches(g.leg, s[6]) && item_matches(g.boot, s[7])
            &&& item_matches(g.ring1, s[10]) && item_matches(g.ring2, s[11])
            &&& item_matches(g.trinket1, s[12]) && item_matches(g.trinket2, s[13])
        },
    }
}

/// The guild of a character from the guild of a participant.
pub open spec fn guild_matches(r: Option<CharacterGuildDto>, g: Option<(Seq<char>, Seq<char>, u8)>) -> bool {
    match g {
        None => r is None,
        Some((guild_name, rank_name, rank_index)) => r matches Some(d) && d.guild.server_uid == name_hash(
            guild_name,
        ) as u64 && d.guild.name@ == guild_name && d.rank.index == rank_index && d.rank.name@ == rank_name,
    }
}

/// The character build of a player: its profile (class, gender and race
/// where unknown default to 1, male and 1; level 60), name, guild and gear.
pub open spec fn build_matches(b: (Option<u32>, CharacterDto), p: ParticipantView, gear: Option<Seq<GearSlot>>) -> bool {
    &&& b.0 is None
    &&& b.1.server_uid == p.id
    &&& b.1.character_history matches Some(h) && {
        &&& gear_matches(h.character_info.gear, gear)
        &&& h.character_info.hero_class_id == (match p.hero_class_id {
            Some(c) => c,
            None => 1u8,
        })
        &&& h.character_info.level == 60
        &&& h.character_info.gender == (match p.gender_id {
            Some(g) => g,
            None => false,
        })
        &&& h.character_info.profession1 is None && h.character_info.profession2 is None
        &&& h.character_info.talent_specialization is None
        &&& h.character_info.race_id == (match p.race_id {
            Some(r) => r,
            None => 1u8,
        })
        &&& h.character_name@ == p.name
        &&& guild_matches(h.character_guild, p.guild_args)
        &&& h.character_title is None && h.profession_skill_points1 is None
        &&& h.profession_skill_points2 is None && h.facial is None
        &&& h.arena_teams@.len() == 0
    }
}

/// The builds of one participant: one per gear setup of a player, or one
/// without gear for a player without setups; none for an NPC.
pub open spec fn participant_builds(p: ParticipantView) -> Seq<(ParticipantView, Option<Seq<GearSlot>>)> {
    if !p.is_player {
        seq![]
    } else {
        match p.gear_setups {
            Some(gs) => gs.map_values(|s: (u64, Seq<GearSlot>)| (p, Some(s.1))),
            None => seq![(p, None)],
        }
    }
}

/// The builds of all participants, in order.
pub open spec fn build_entries(ps: Seq<ParticipantView>) -> Seq<(ParticipantView, Option<Seq<GearSlot>>)>
    decreases ps.len(),
{
    if ps.len() == 0 {
        seq![]
    } else {
        build_entries(ps.drop_last()) + participant_builds(ps.last())
    }
}

/// Every gear setup of a player has a slot for each of the 19 items.
pub open spec fn gear_setups_complete(ps: Seq<ParticipantView>) -> bool {
    forall|i: int, j: int|
        0 <= i < ps.len() && ps[i].is_player && ps[i].gear_setups is Some && 0 <= j < ps[i].gear_setups.unwrap().len()
            ==> (#[trigger] ps[i].gear_setups.unwrap()[j]).1.len() >= 19
}

fn empty_gear() -> (g: CharacterGearDto)
    ensures
        gear_matches(g, None),
{
    CharacterGearDto {
        head: None,
        neck: None,
        shoulder: None,
        back: None,
        chest: None,
        shirt: None,
        tabard: None,
        wrist: None,
        main_hand: None,
        off_hand: None,
        ternary_hand: None,
        glove: None,
        belt: None,
        leg: None,
        boot: None,
        ring1: None,
        ring2: None,
        trinket1: None,
        trinket2: None,
    }
}

fn gear_of(gear: &Vec<GearSlot>) -> (g: CharacterGearDto)
    requires
        gear@.len() >= 19,
    ensures
        gear_matches(g, Some(gear@)),
{
    CharacterGearDto {
        head: create_character_item_dto(&gear[0]),
        neck: create_character_item_dto(&gear[1]),
        shoulder: create_character_item_dto(&gear[2]),
        back: create_character_item_dto(&gear[14]),
        chest: create_character_item_dto(&gear[4]),
        shirt: create_character_item_dto(&gear[3]),
        tabard: create_character_item_dto(&gear[18]),
        wrist: create_character_item_dto(&gear[8]),
        main_hand: create_character_item_dto(&gear[15]),
        off_hand: create_character_item_dto(&gear[16]),
        ternary_hand: create_character_item_dto(&gear[17]),
        glove: create_character_item_dto(&gear[9]),
        belt: create_character_item_dto(&gear[5]),
        leg: create_character_item_dto(&gear[6]),
        boot: create_character_item_dto(&gear[7]),
        ring1: create_character_item_dto(&gear[10]),
        ring2: create_character_item_dto(&gear[11]),
        trinket1: create_character_item_dto(&gear[12]),
        trinket2: create_character_item_dto(&gear[13]),
    }
}

fn guild_of(g: &Option<(String, String, u8)>) -> (r: Option<CharacterGuildDto>)
    ensures
        guild_matches(
            r,
            match g {
                Some(x) => Some((x.0@, x.1@, x.2)),
                None => None,
            },
        ),
{
    match g {
        Some((guild_name, rank_name, rank_index)) => Some(
            CharacterGuildDto {
                guild: GuildDto {
                    server_uid: get_hashed_player_unit_id(guild_name.as_str()),
                    name: guild_name.clone(),
                },
                rank: GuildRank { index: *rank_index, name: rank_name.clone() },
            },
        ),
        None => None,
    }
}

/// The build of a participant with the given gear.
fn build_of(p: &Participant, gear: CharacterGearDto) -> (b: (Option<u32>, CharacterDto))
    requires
        gear_matches(gear, None) || p.gear_setups is Some,
    ensures
        forall|s: Option<Seq<GearSlot>>| gear_matches(gear, s) ==> #[trigger] build_matches(b, p@, s),
{
    let hero_class_id = match p.hero_class_id {
        Some(c) => c,
        None => 1,
    };
    let gender = match p.gender_id {
        Some(g) => g,
        None => false,
    };
    let race_id = match p.race_id {
        Some(r) => r,
        None => 1,
    };
    (
        None,
        CharacterDto {
            server_uid: p.id,
            character_history: Some(
                CharacterHistoryDto {
                    character_info: CharacterInfoDto {
                        gear,
                        hero_class_id,
                        level: 60,
                        gender,
                        profession1: None,
                        profession2: None,
                        talent_specialization: None,
                        race_id,
                    },
                    character_name: p.name.clone(),
                    character_guild: guild_of(&p.guild_args),
                    character_title: None,
                    profession_skill_points1: None,
                    profession_skill_points2: None,
                    facial: None,
                    arena_teams: Vec::new(),
                },
            ),
        },
    )
}

impl WoWVanillaParser {
    /// The character builds of all players that took part: one per gear
    /// setup, or one without gear for a player whose gear is unknown.
    pub fn get_involved_character_builds(&self) -> (r: Vec<(Option<u32>, CharacterDto)>)
        requires
            gear_setups_complete(self@.participants),
        ensures
            r@.len() == build_entries(self@.participants).len(),
            forall|i: int|
                0 <= i < r@.len() ==> build_matches(
                    #[trigger] r@[i],
                    build_entries(self@.participants)[i].0,
                    build_entries(self@.participants)[i].1,
                ),
    {
        let ghost ps = self@.participants;
        let mut acc: Vec<(Option<u32>, CharacterDto)> = Vec::new();
        let mut i: usize = 0;
        while i < self.participants.len()
            invariant
                i <= self.participants@.len(),
                ps == self@.participants,
                gear_setups_complete(ps),
                acc@.len() == build_entries(ps.take(i as int)).len(),
                forall|k: int|
                    0 <= k < acc@.len() ==> build_matches(
                        #[trigger] acc@[k],
                        build_entries(ps.take(i as int))[k].0,
                        build_entries(ps.take(i as int))[k].1,
                    ),
            decreases self.participants@.len() - i,
        {
            let p = &self.participants[i];
            let ghost pv = ps[i as int];
            assert(p@ == pv);
            let ghost prev = build_entries(ps.take(i as int));
            assert(ps.take(i + 1).drop_last() =~= ps.take(i as int));
            assert(ps.take(i + 1).last() == pv);
            let ghost start = acc@.len();
            if p.is_player {
                match &p.gear_setups {
                    Some(setups) => {
                        let mut j: usize = 0;
                        while j < setups.len()
                            invariant
                                j <= setups@.len(),
                                p@ == pv,
                                pv.is_player,
                                pv.gear_setups == Some(crate::state::gear_setups_view(setups@)),
                                gear_setups_complete(ps),
                                0 <= i < ps.len(),
                                ps[i as int] == pv,
                                start == prev.len(),
                                acc@.len() == start + j,
                                forall|k: int|
                                    0 <= k < start ==> build_matches(#[trigger] acc@[k], prev[k].0, prev[k].1),
                                forall|k: int|
                                    start <= k < acc@.len() ==> build_matches(
                                        #[trigger] acc@[k],
                                        pv,
                                        Some(setups@[k - start].1@),
                                    ),
                            decreases setups@.len() - j,
                        {
                            let gear = &setups[j].1;
                            assert(crate::state::gear_setups_view(setups@)[j as int].1 == gear@);
                            assert(ps[i as int].gear_setups == Some(crate::state::gear_setups_view(setups@)));
                            assert(crate::state::gear_setups_view(setups@).len() == setups@.len());
                            assert(0 <= j < ps[i as int].gear_setups.unwrap().len());
                            assert(ps[i as int].is_player);
                            assert(ps[i as int].gear_setups.unwrap()[j as int].1.len() >= 19);
                            let g = gear_of(gear);
                            let b = build_of(p, g);
                            assert(build_matches(b, pv, Some(gear@)));
                            acc.push(b);
                            j = j + 1;
                        }
                        proof {
                            let gs = crate::state::gear_setups_view(setups@);
                            assert(participant_builds(pv) =~= gs.map_values(
                                |s: (u64, Seq<GearSlot>)| (pv, Some(s.1)),
                            ));
                            assert forall|k: int| start <= k < acc@.len() implies build_matches(
                                #[trigger] acc@[k],
                                build_entries(ps.take(i + 1))[k].0,
                                build_entries(ps.take(i + 1))[k].1,
                            ) by {
                                assert(build_entries(ps.take(i + 1))[k] == participant_builds(pv)[k - start]);
                            }
                            assert forall|k: int| 0 <= k < start implies build_matches(
                                #[trigger] acc@[k],
                                build_entries(ps.take(i + 1))[k].0,
                                build_entries(ps.take(i + 1))[k].1,
                            ) by {
                                assert(build_entries(ps.take(i + 1))[k] == prev[k]);
                            }
                        }
                    },
                    None => {
                        let g = empty_gear();
                        let b = build_of(p, g);
                        assert(build_matches(b, pv, None));
                        acc.push(b);
                        proof {
                            assert forall|k: int| 0 <= k < acc@.len() implies build_matches(
                                #[trigger] acc@[k],
                                build_entries(ps.take(i + 1))[k].0,
                                build_entries(ps.take(i + 1))[k].1,
                            ) by {
                                if k < start {
                                    assert(build_entries(ps.take(i + 1))[k] == prev[k]);
                                } else {
                                    assert(build_entries(ps.take(i + 1))[k] == participant_builds(pv)[0]);
                                }
                            }
                        }
                    },
                }
            } else {
                assert(build_entries(ps.take(i + 1)) =~= prev);
            }
            i = i + 1;
        }
        assert(ps.take(i as int) =~= ps);
        acc
    }
}

} // verus!
