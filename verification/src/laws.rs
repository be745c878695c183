use vstd::prelude::*;
use crate::combatant::{combatant_args, combatant_entry, combatant_gear, combatant_info_spec, combatant_profile};
use crate::data::{lemma_first_index, Data};
use crate::dto::Unit;
use crate::hit_type::{hit_type_mask, HitType};
use crate::line_spec::line_outcome;
use crate::parser::{first_line_match, parse_line_panics, parse_line_spec};
use crate::state::{active_map_key, collect_active_map_spec, collect_participant_spec, insert_pet_owner_spec, observe_one, observe_two, participant_key, pet_key, state_keys_unique, ActiveMap, ParserView, ParticipantView};

verus! {

/// The participants of `st2` keep those of `st1`: none is lost, each stays
/// in its place with its id and kind.
pub open spec fn participants_kept(st1: ParserView, st2: ParserView) -> bool {
    &&& st1.participants.len() <= st2.participants.len()
    &&& forall|j: int|
        0 <= j < st1.participants.len() ==> (#[trigger] st2.participants[j]).id == st1.participants[j].id
            && st2.participants[j].is_player == st1.participants[j].is_player
}

proof fn lemma_collect_participant(ps: Seq<ParticipantView>, u: Unit, n: Seq<char>, ts: u64)
    ensures
        (forall|i: int, j: int| 0 <= i < j < ps.len() ==> ps[i].id != ps[j].id) ==> (forall|i: int, j: int|
            0 <= i < j < collect_participant_spec(ps, u, n, ts).len() ==> collect_participant_spec(
                ps,
                u,
                n,
                ts,
            )[i].id != collect_participant_spec(ps, u, n, ts)[j].id),
        ps.len() <= collect_participant_spec(ps, u, n, ts).len(),
        forall|j: int|
            0 <= j < ps.len() ==> (#[trigger] collect_participant_spec(ps, u, n, ts)[j]).id == ps[j].id
                && collect_participant_spec(ps, u, n, ts)[j].is_player == ps[j].is_player,
{
    lemma_first_index(ps, participant_key(u.unit_id));
}

proof fn lemma_collect_active_map(ms: Seq<ActiveMap>, data: &Data, u: Unit, ts: u64)
    ensures
        (forall|i: int, j: int| 0 <= i < j < ms.len() ==> ms[i].map_id != ms[j].map_id) ==> (forall|
            i: int,
            j: int,
        |
            0 <= i < j < collect_active_map_spec(ms, data, u, ts).len() ==> collect_active_map_spec(
                ms,
                data,
                u,
                ts,
            )[i].map_id != collect_active_map_spec(ms, data, u, ts)[j].map_id),
{
    if let Some(m) = crate::state::unit_map(data, u) {
        lemma_first_index(ms, active_map_key(m));
    }
}

proof fn lemma_insert_pet_owner(po: Seq<(u64, u64)>, pet: u64, owner: u64)
    ensures
        (forall|i: int, j: int| 0 <= i < j < po.len() ==> po[i].0 != po[j].0) ==> (forall|i: int, j: int|
            0 <= i < j < insert_pet_owner_spec(po, pet, owner).len() ==> insert_pet_owner_spec(
                po,
                pet,
                owner,
            )[i].0 != insert_pet_owner_spec(po, pet, owner)[j].0),
{
    lemma_first_index(po, pet_key(pet));
}

proof fn lemma_observe_one(st: ParserView, data: &Data, u: Unit, n: Seq<char>, ts: u64)
    ensures
        state_keys_unique(st) ==> state_keys_unique(observe_one(st, data, u, n, ts)),
        participants_kept(st, observe_one(st, data, u, n, ts)),
{
    lemma_collect_participant(st.participants, u, n, ts);
    lemma_collect_active_map(st.active_map, data, u, ts);
}

proof fn lemma_observe_two(
    st: ParserView,
    data: &Data,
    u1: Unit,
    n1: Seq<char>,
    u2: Unit,
    n2: Seq<char>,
    ts: u64,
)
    ensures
        state_keys_unique(st) ==> state_keys_unique(observe_two(st, data, u1, n1, u2, n2, ts)),
        participants_kept(st, observe_two(st, data, u1, n1, u2, n2, ts)),
{
    let ps1 = collect_participant_spec(st.participants, u1, n1, ts);
    lemma_collect_participant(st.participants, u1, n1, ts);
    lemma_collect_participant(ps1, u2, n2, ts);
    let ms1 = collect_active_map_spec(st.active_map, data, u1, ts);
    lemma_collect_active_map(st.active_map, data, u1, ts);
    lemma_collect_active_map(ms1, data, u2, ts);
    let st2 = observe_two(st, data, u1, n1, u2, n2, ts);
    assert forall|j: int| 0 <= j < st.participants.len() implies (#[trigger] st2.participants[j]).id
        == st.participants[j].id && st2.participants[j].is_player == st.participants[j].is_player by {
        assert(ps1[j].id == st.participants[j].id);
    }
}

/// A step from `st1` to `st2` keeps unique keys unique and keeps the
/// participants.
pub open spec fn step_ok(st1: ParserView, st2: ParserView) -> bool {
    &&& state_keys_unique(st1) ==> state_keys_unique(st2)
    &&& participants_kept(st1, st2)
}

proof fn lemma_observe_all(st: ParserView, data: &Data, ts: u64)
    ensures
        step_ok(st, st),
        forall|u: Unit, n: Seq<char>| step_ok(st, #[trigger] observe_one(st, data, u, n, ts)),
        forall|u1: Unit, n1: Seq<char>, u2: Unit, n2: Seq<char>|
            step_ok(st, #[trigger] observe_two(st, data, u1, n1, u2, n2, ts)),
{
    assert forall|u: Unit, n: Seq<char>| step_ok(st, #[trigger] observe_one(st, data, u, n, ts)) by {
        lemma_observe_one(st, data, u, n, ts);
    }
    assert forall|u1: Unit, n1: Seq<char>, u2: Unit, n2: Seq<char>|
        step_ok(st, #[trigger] observe_two(st, data, u1, n1, u2, n2, ts)) by {
        lemma_observe_two(st, data, u1, n1, u2, n2, ts);
    }
}

proof fn lemma_step_damage_hit_or_crit(g: crate::line_spec::Groups, st: ParserView, data: &Data, ts: u64)
    ensures
        step_ok(st, crate::line_spec::damage_hit_or_crit(g, st, data, ts).0),
{
    lemma_observe_all(st, data, ts);
}

proof fn lemma_step_damage_hit_or_crit_school(g: crate::line_spec::Groups, st: ParserView, data: &Data, ts: u64)
    ensures
        step_ok(st, crate::line_spec::damage_hit_or_crit_school(g, st, data, ts).0),
{
    lemma_observe_all(st, data, ts);
}

proof fn lemma_step_damage_plain(g: crate::line_spec::Groups, st: ParserView, data: &Data, ts: u64, mask: u32)
    ensures
        step_ok(st, crate::line_spec::damage_plain(g, st, data, ts, mask).0),
{
    lemma_observe_all(st, data, ts);
}

proof fn lemma_step_damage_avoided(g: crate::line_spec::Groups, st: ParserView, data: &Data, ts: u64)
    ensures
        step_ok(st, crate::line_spec::damage_avoided(g, st, data, ts).0),
{
    lemma_observe_all(st, data, ts);
}

proof fn lemma_step_damage_negated(g: crate::line_spec::Groups, st: ParserView, data: &Data, ts: u64)
    ensures
        step_ok(st, crate::line_spec::damage_negated(g, st, data, ts).0),
{
    lemma_observe_all(st, data, ts);
}

proof fn lemma_step_spell_hit_or_crit(g: crate::line_spec::Groups, st: ParserView, data: &Data, ts: u64)
    ensures
        step_ok(st, crate::line_spec::spell_hit_or_crit(g, st, data, ts).0),
{
    lemma_observe_all(st, data, ts);
}

proof fn lemma_step_spell_hit_or_crit_school(g: crate::line_spec::Groups, st: ParserView, data: &Data, ts: u64)
    ensures
        step_ok(st, crate::line_spec::spell_hit_or_crit_school(g, st, data, ts).0),
{
    lemma_observe_all(st, data, ts);
}

proof fn lemma_step_damage_periodic(g: crate::line_spec::Groups, st: ParserView, data: &Data, ts: u64)
    ensures
        step_ok(st, crate::line_spec::damage_periodic(g, st, data, ts).0),
{
    lemma_observe_all(st, data, ts);
}

proof fn lemma_step_spell_split(g: crate::line_spec::Groups, st: ParserView, data: &Data, ts: u64)
    ensures
        step_ok(st, crate::line_spec::spell_split(g, st, data, ts).0),
{
    lemma_observe_all(st, data, ts);
}

proof fn lemma_step_spell_plain(g: crate::line_spec::Groups, st: ParserView, data: &Data, ts: u64, mask: u32, swapped: bool)
    ensures
        step_ok(st, crate::line_spec::spell_plain(g, st, data, ts, mask, swapped).0),
{
    lemma_observe_all(st, data, ts);
}

proof fn lemma_step_spell_avoided(g: crate::line_spec::Groups, st: ParserView, data: &Data, ts: u64)
    ensures
        step_ok(st, crate::line_spec::spell_avoided(g, st, data, ts).0),
{
    lemma_observe_all(st, data, ts);
}

proof fn lemma_step_damage_shield(g: crate::line_spec::Groups, st: ParserView, data: &Data, ts: u64)
    ensures
        step_ok(st, crate::line_spec::damage_shield(g, st, data, ts).0),
{
    lemma_observe_all(st, data, ts);
}

proof fn lemma_step_heal_periodic(g: crate::line_spec::Groups, st: ParserView, data: &Data, ts: u64)
    ensures
        step_ok(st, crate::line_spec::heal_periodic(g, st, data, ts).0),
{
    lemma_observe_all(st, data, ts);
}

proof fn lemma_step_heal_hit_or_crit(g: crate::line_spec::Groups, st: ParserView, data: &Data, ts: u64)
    ensures
        step_ok(st, crate::line_spec::heal_hit_or_crit(g, st, data, ts).0),
{
    lemma_observe_all(st, data, ts);
}

proof fn lemma_step_aura_gain(g: crate::line_spec::Groups, st: ParserView, data: &Data, ts: u64)
    ensures
        step_ok(st, crate::line_spec::aura_gain(g, st, data, ts).0),
{
    lemma_observe_all(st, data, ts);
}

proof fn lemma_step_aura_fade(g: crate::line_spec::Groups, st: ParserView, data: &Data, ts: u64)
    ensures
        step_ok(st, crate::line_spec::aura_fade(g, st, data, ts).0),
{
    lemma_observe_all(st, data, ts);
}

proof fn lemma_step_aura_dispel(g: crate::line_spec::Groups, st: ParserView, data: &Data, ts: u64)
    ensures
        step_ok(st, crate::line_spec::aura_dispel(g, st, data, ts).0),
{
    lemma_observe_all(st, data, ts);
}

proof fn lemma_step_aura_interrupt(g: crate::line_spec::Groups, st: ParserView, data: &Data, ts: u64)
    ensures
        step_ok(st, crate::line_spec::aura_interrupt(g, st, data, ts).0),
{
    lemma_observe_all(st, data, ts);
}

proof fn lemma_step_spell_cast_perform(g: crate::line_spec::Groups, st: ParserView, data: &Data, ts: u64)
    ensures
        step_ok(st, crate::line_spec::spell_cast_perform(g, st, data, ts).0),
{
    lemma_observe_all(st, data, ts);
}

proof fn lemma_step_spell_cast_perform_unknown(g: crate::line_spec::Groups, st: ParserView, data: &Data, ts: u64)
    ensures
        step_ok(st, crate::line_spec::spell_cast_perform_unknown(g, st, data, ts).0),
{
    lemma_observe_all(st, data, ts);
}

proof fn lemma_step_unit_die(g: crate::line_spec::Groups, st: ParserView, data: &Data, ts: u64)
    ensures
        step_ok(st, crate::line_spec::unit_die(g, st, data, ts).0),
{
    lemma_observe_all(st, data, ts);
}

proof fn lemma_step_unit_slay(g: crate::line_spec::Groups, st: ParserView, data: &Data, ts: u64)
    ensures
        step_ok(st, crate::line_spec::unit_slay(g, st, data, ts).0),
{
    lemma_observe_all(st, data, ts);
}

proof fn lemma_step_loot(g: crate::line_spec::Groups, st: ParserView, data: &Data, ts: u64)
    ensures
        step_ok(st, crate::line_spec::loot(g, st, data, ts).0),
{
    lemma_observe_all(st, data, ts);
}

proof fn lemma_step_zone_info(g: crate::line_spec::Groups, st: ParserView, data: &Data, ts: u64)
    ensures
        step_ok(st, crate::line_spec::zone_info(g, st, data, ts).0),
{
    lemma_observe_all(st, data, ts);
}

/// A line of any kind keeps the keys of the parser's state unique and keeps
/// its participants.
proof fn lemma_line_outcome(k: int, g: crate::line_spec::Groups, st: ParserView, data: &Data, ts: u64)
    ensures
        step_ok(st, line_outcome(k, g, st, data, ts).0),
{
    if k == 0 {
        lemma_step_damage_hit_or_crit(g, st, data, ts);
    } else if k == 1 {
        lemma_step_damage_hit_or_crit_school(g, st, data, ts);
    } else if k == 2 {
        lemma_step_damage_plain(g, st, data, ts, hit_type_mask(HitType::Miss));
    } else if k == 3 {
        lemma_step_damage_avoided(g, st, data, ts);
    } else if k == 4 {
        lemma_step_damage_negated(g, st, data, ts);
    } else if k == 5 {
        lemma_step_damage_plain(g, st, data, ts, hit_type_mask(HitType::Immune));
    } else if k == 6 {
        lemma_step_spell_hit_or_crit(g, st, data, ts);
    } else if k == 7 {
        lemma_step_spell_hit_or_crit_school(g, st, data, ts);
    } else if k == 8 {
        lemma_step_damage_periodic(g, st, data, ts);
    } else if k == 9 {
        lemma_step_spell_split(g, st, data, ts);
    } else if k == 10 {
        lemma_step_spell_plain(g, st, data, ts, hit_type_mask(HitType::Miss), false);
    } else if k == 11 {
        lemma_step_spell_avoided(g, st, data, ts);
    } else if k == 12 {
        lemma_step_spell_plain(g, st, data, ts, hit_type_mask(HitType::FullAbsorb), false);
    } else if k == 13 {
        lemma_step_spell_plain(g, st, data, ts, hit_type_mask(HitType::FullAbsorb), true);
    } else if k == 14 {
        lemma_step_spell_plain(g, st, data, ts, hit_type_mask(HitType::Reflect), false);
    } else if k == 15 {
        lemma_step_spell_plain(g, st, data, ts, hit_type_mask(HitType::FullResist), true);
    } else if k == 16 {
        lemma_step_spell_plain(g, st, data, ts, hit_type_mask(HitType::Immune), false);
    } else if k == 17 {
        lemma_step_damage_shield(g, st, data, ts);
    } else if k == 18 {
        lemma_step_heal_periodic(g, st, data, ts);
    } else if k == 19 {
        lemma_step_aura_gain(g, st, data, ts);
    } else if k == 20 {
        lemma_step_aura_fade(g, st, data, ts);
    } else if k == 21 {
        lemma_step_aura_dispel(g, st, data, ts);
    } else if k == 22 {
        lemma_step_aura_interrupt(g, st, data, ts);
    } else if k == 23 {
        lemma_step_spell_cast_perform(g, st, data, ts);
    } else if k == 24 {
        lemma_step_spell_cast_perform_unknown(g, st, data, ts);
    } else if k == 25 {
        lemma_step_unit_die(g, st, data, ts);
    } else if k == 26 {
        lemma_step_unit_slay(g, st, data, ts);
    } else if k == 27 {
        lemma_step_loot(g, st, data, ts);
    } else if k == 28 {
        lemma_step_zone_info(g, st, data, ts);
    } else {
        lemma_step_heal_hit_or_crit(g, st, data, ts);
    }
}

proof fn lemma_profile_keeps_id(p: ParticipantView, args: Seq<Seq<char>>, ts: u64)
    ensures
        combatant_profile(p, args).0.id == p.id,
        combatant_profile(p, args).0.is_player == p.is_player,
        combatant_gear(p, args, ts).id == p.id,
        combatant_gear(p, args, ts).is_player == p.is_player,
{
    reveal(combatant_profile);
    reveal(combatant_gear);
}

proof fn lemma_combatant(st: ParserView, data: &Data, ts: u64, content: Seq<char>)
    requires
        combatant_args(content).len() >= 8,
    ensures
        state_keys_unique(st) ==> state_keys_unique(combatant_info_spec(st, data, ts, content)),
        participants_kept(st, combatant_info_spec(st, data, ts, content)),
{
    reveal(combatant_entry);
    let args = combatant_args(content);
    let unit_id = crate::combatant::combatant_unit_id(args);
    lemma_first_index(st.participants, participant_key(unit_id));
    let (ps0, i) = combatant_entry(st, args, ts);
    let (p, reached) = combatant_profile(ps0[i], args);
    lemma_profile_keeps_id(ps0[i], args, ts);
    lemma_profile_keeps_id(p, args, ts);
    let owner = crate::combatant::combatant_unit_id(args);
    let pet = crate::units::unit_of_name(data, args[4]).unit_id;
    lemma_insert_pet_owner(st.pet_owner, pet, owner);
    let fin = combatant_info_spec(st, data, ts, content);
    assert(fin.participants.len() == ps0.len());
    assert forall|j: int| 0 <= j < ps0.len() implies (#[trigger] fin.participants[j]).id == ps0[j].id
        && fin.participants[j].is_player == ps0[j].is_player by {}
}

/// Parsing a line keeps the keys of the parser's state unique: no two
/// participants share an id, no two active maps a map, no pet two owners.
pub proof fn lemma_parse_keeps_keys_unique(st: ParserView, data: &Data, ts: u64, content: Seq<char>)
    requires
        state_keys_unique(st),
        !parse_line_panics(st, data, ts, content),
    ensures
        state_keys_unique(parse_line_spec(st, data, ts, content).0),
{
    lemma_parse_cases(st, data, ts, content);
}

/// Parsing a line loses no participant: each keeps its place, id and kind.
pub proof fn lemma_parse_keeps_participants(st: ParserView, data: &Data, ts: u64, content: Seq<char>)
    requires
        !parse_line_panics(st, data, ts, content),
    ensures
        participants_kept(st, parse_line_spec(st, data, ts, content).0),
{
    lemma_parse_cases(st, data, ts, content);
}

proof fn lemma_parse_cases(st: ParserView, data: &Data, ts: u64, content: Seq<char>)
    requires
        !parse_line_panics(st, data, ts, content),
    ensures
        state_keys_unique(st) ==> state_keys_unique(parse_line_spec(st, data, ts, content).0),
        participants_kept(st, parse_line_spec(st, data, ts, content).0),
{
    match first_line_match(content, 0) {
        Some((k, g)) => lemma_line_outcome(k, g, st, data, ts),
        None => {
            if crate::text_split::has_prefix(content, "COMBATANT_INFO:"@) {
                lemma_combatant(st, data, ts, content);
            }
        },
    }
}

} // verus!
