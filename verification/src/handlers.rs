use vstd::prelude::*;
use crate::data::Data;
use crate::dto::{DamageComponent, DamageDone, SpellCast, Unit};
use crate::hit_type::HitType;
use crate::line_spec::{caster_spell, hit_result, possessive, possessive_from, group, hit_or_crit_mask, heal_mask, school_of_word, melee_avoid_word, melee_negate_word, spell_avoid_word, melee_hit_result, melee_plain_result, spell_result, spell_hit_result};
use crate::message_type::{MessageType, MessageView};

use crate::regex_bridge::groups_view;
use crate::school::School;
use crate::state::WoWVanillaParser;
use crate::text::text_is;
use crate::trailer::{add_trailer_mask, parse_trailer, trailer_amount_of};
use crate::units::{parse_spell_args, parse_unit};

verus! {

/// The messages a line yields, as values.
pub open spec fn messages_view(r: Option<Vec<MessageType>>) -> Option<Seq<MessageView>> {
    match r {
        Some(v) => Some(v@.map_values(|m: MessageType| m@)),
        None => None,
    }
}

/// The text of capture group `i`.
pub fn group_at(caps: &Vec<Option<String>>, i: usize) -> (r: Option<&String>)
    ensures
        match r {
            Some(s) => group(groups_view(caps@), i as int) == Some(s@),
            None => group(groups_view(caps@), i as int) is None,
        },
{
    if i < caps.len() {
        match &caps[i] {
            Some(s) => Some(s),
            None => None,
        }
    } else {
        None
    }
}

pub fn hit_or_crit(w: &String) -> (m: u32)
    ensures
        m == hit_or_crit_mask(w@),
{
    if text_is(w.as_str(), "cr") {
        HitType::Crit.to_mask()
    } else {
        HitType::Hit.to_mask()
    }
}

/// The hit mask of a heal verb.
pub fn heal_kind(w: &String) -> (m: u32)
    ensures
        m == heal_mask(w@),
{
    if text_is(w.as_str(), "critically heals") {
        HitType::Crit.to_mask()
    } else {
        HitType::Hit.to_mask()
    }
}

pub fn school_word(w: &String) -> (r: Option<School>)
    ensures
        r == school_of_word(w@),
{
    let w = w.as_str();
    if text_is(w, "Arcane") {
        Some(School::Arcane)
    } else if text_is(w, "Fire") {
        Some(School::Fire)
    } else if text_is(w, "Frost") {
        Some(School::Frost)
    } else if text_is(w, "Shadow") {
        Some(School::Shadow)
    } else if text_is(w, "Nature") {
        Some(School::Nature)
    } else if text_is(w, "Holy") {
        Some(School::Holy)
    } else {
        None
    }
}

pub fn melee_avoid(w: &String) -> (r: Option<HitType>)
    ensures
        r == melee_avoid_word(w@),
{
    let w = w.as_str();
    if text_is(w, "blocks") {
        Some(HitType::FullBlock)
    } else if text_is(w, "parries") {
        Some(HitType::Parry)
    } else if text_is(w, "evades") {
        Some(HitType::Evade)
    } else if text_is(w, "dodges") {
        Some(HitType::Dodge)
    } else if text_is(w, "deflects") {
        Some(HitType::Deflect)
    } else {
        None
    }
}

pub fn melee_negate(w: &String) -> (r: Option<HitType>)
    ensures
        r == melee_negate_word(w@),
{
    let w = w.as_str();
    if text_is(w, "absorbs") {
        Some(HitType::FullAbsorb)
    } else if text_is(w, "resists") {
        Some(HitType::FullResist)
    } else {
        None
    }
}

pub fn spell_avoid(w: &String) -> (r: Option<HitType>)
    ensures
        r == spell_avoid_word(w@),
{
    let w = w.as_str();
    if text_is(w, "blocked") {
        Some(HitType::FullBlock)
    } else if text_is(w, "parried") {
        Some(HitType::Parry)
    } else if text_is(w, "evaded") {
        Some(HitType::Evade)
    } else if text_is(w, "dodged") {
        Some(HitType::Dodge)
    } else if text_is(w, "deflected") {
        Some(HitType::Deflect)
    } else if text_is(w, "resisted") {
        Some(HitType::FullResist)
    } else {
        None
    }
}

/// The caster and known spell that a hitting name stands for, where it reads
/// as `Caster's Spell`.
pub fn caster_spell_of(data: &Data, n: &String) -> (r: Option<(String, u32)>)
    ensures
        match caster_spell(data, n@) {
            Some((c, spell)) => r matches Some((c2, s2)) && c2@ == c && s2 == spell,
            None => r is None,
        },
{
    let s = n.as_str();
    let len = s.unicode_len();
    if len < 5 {
        return None;
    }
    proof {
        reveal_strlit("'s ");
    }
    let mut k: usize = len - 4;
    while k >= 1
        invariant
            s@ == n@,
            len == n@.len(),
            len >= 5,
            k <= len - 4,
            possessive(n@) == possessive_from(n@, k as int),
            "'s "@ == seq!['\'', 's', ' '],
        decreases k,
    {
        let c0 = s.get_char(k);
        let c1 = s.get_char(k + 1);
        let c2 = s.get_char(k + 2);
        if c0 == '\'' && c1 == 's' && c2 == ' ' {
            assert(n@.subrange(k as int, k + 3) =~= "'s "@);
            let spell_name = s.substring_char(k + 3, len).to_owned();
            assert(spell_name@ =~= n@.skip(k + 3));
            match parse_spell_args(data, &spell_name) {
                Some(spell) => {
                    let caster = s.substring_char(0, k).to_owned();
                    assert(caster@ =~= n@.take(k as int));
                    return Some((caster, spell));
                },
                None => return None,
            }
        }
        assert(n@.subrange(k as int, k + 3)[0] == c0);
        assert(n@.subrange(k as int, k + 3)[1] == c1);
        assert(n@.subrange(k as int, k + 3)[2] == c2);
        k = k - 1;
    }
    None
}

impl WoWVanillaParser {
    /// A hit: a spell hit where the hitting name reads as a caster's known
    /// spell, else a melee hit.
    pub(crate) fn hit_result(
        &mut self,
        data: &Data,
        ts: u64,
        a: &String,
        w: &String,
        v: &String,
        damage: u32,
        school: u8,
        t: &String,
    ) -> (r: Option<Vec<MessageType>>)
        ensures
            (final(self)@, messages_view(r)) == hit_result(old(self)@, data, ts, a@, w@, v@, damage, school, t@),
            final(self).patterns@ == old(self).patterns@,
    {
        match caster_spell_of(data, a) {
            Some((c, spell)) => self.spell_hit_result(data, ts, &c, v, spell, hit_or_crit(w), damage, school, t),
            None => self.melee_hit_result(data, ts, a, w, v, damage, school, t),
        }
    }

    pub(crate) fn melee_hit_result(
        &mut self,
        data: &Data,
        ts: u64,
        a: &String,
        w: &String,
        v: &String,
        damage: u32,
        school: u8,
        t: &String,
    ) -> (r: Option<Vec<MessageType>>)
        ensures
            (final(self)@, messages_view(r)) == melee_hit_result(old(self)@, data, ts, a@, w@, v@, damage, school, t@),
            final(self).patterns@ == old(self).patterns@,
    {
        let attacker = parse_unit(data, a);
        let victim = parse_unit(data, v);
        let tr = parse_trailer(t.as_str());
        let hit_mask = add_trailer_mask(hit_or_crit(w), &tr);
        let blocked = trailer_amount_of(&tr, HitType::PartialBlock);
        let component = DamageComponent {
            school_mask: school,
            damage,
            resisted_or_glanced: trailer_amount_of(&tr, HitType::PartialResist),
            absorbed: trailer_amount_of(&tr, HitType::PartialAbsorb),
        };
        self.observe_two(data, &attacker, a, &victim, v, ts);
        let components = vec![component];
        assert(components@ =~= seq![component]);
        let r = vec![
            MessageType::MeleeDamage(
                DamageDone {
                    attacker,
                    victim,
                    spell_id: None,
                    hit_mask,
                    blocked,
                    damage_over_time: false,
                    damage_components: components,
                },
            ),
        ];
        assert(r@.map_values(|m: MessageType| m@) =~= melee_hit_result(old(self)@, data, ts, a@, w@, v@, damage, school, t@).1.unwrap());
        Some(r)
    }

    pub(crate) fn melee_plain_result(&mut self, data: &Data, ts: u64, a: &String, v: &String, mask: u32) -> (r: Option<
        Vec<MessageType>,
    >)
        ensures
            (final(self)@, messages_view(r)) == melee_plain_result(old(self)@, data, ts, a@, v@, mask),
            final(self).patterns@ == old(self).patterns@,
    {
        let attacker = parse_unit(data, a);
        let victim = parse_unit(data, v);
        self.observe_two(data, &attacker, a, &victim, v, ts);
        let r = vec![
            MessageType::MeleeDamage(
                DamageDone {
                    attacker,
                    victim,
                    spell_id: None,
                    hit_mask: mask,
                    blocked: 0,
                    damage_over_time: false,
                    damage_components: vec![],
                },
            ),
        ];
        assert(r@.map_values(|m: MessageType| m@) =~= melee_plain_result(old(self)@, data, ts, a@, v@, mask).1.unwrap());
        Some(r)
    }

    pub(crate) fn spell_result(
        &mut self,
        data: &Data,
        ts: u64,
        attacker: Unit,
        a_name: &String,
        victim: Unit,
        v_name: &String,
        spell: u32,
        mask: u32,
        blocked: u32,
        components: Vec<DamageComponent>,
    ) -> (r: Option<Vec<MessageType>>)
        ensures
            (final(self)@, messages_view(r)) == spell_result(
                old(self)@,
                data,
                ts,
                attacker,
                a_name@,
                victim,
                v_name@,
                spell,
                mask,
                blocked,
                components@,
            ),
            final(self).patterns@ == old(self).patterns@,
    {
        self.observe_two(data, &attacker, a_name, &victim, v_name, ts);
        let ghost comps = components@;
        let r = vec![
            MessageType::SpellCast(
                SpellCast { caster: attacker, target: Some(victim), spell_id: spell, hit_mask: mask },
            ),
            MessageType::SpellDamage(
                DamageDone {
                    attacker,
                    victim,
                    spell_id: Some(spell),
                    hit_mask: mask,
                    blocked,
                    damage_over_time: false,
                    damage_components: components,
                },
            ),
        ];
        assert(r@.map_values(|m: MessageType| m@) =~= spell_result(
            old(self)@,
            data,
            ts,
            attacker,
            a_name@,
            victim,
            v_name@,
            spell,
            mask,
            blocked,
            comps,
        ).1.unwrap());
        Some(r)
    }

    pub(crate) fn spell_hit_result(
        &mut self,
        data: &Data,
        ts: u64,
        a: &String,
        v: &String,
        spell: u32,
        base_mask: u32,
        damage: u32,
        school: u8,
        t: &String,
    ) -> (r: Option<Vec<MessageType>>)
        ensures
            (final(self)@, messages_view(r)) == spell_hit_result(
                old(self)@,
                data,
                ts,
                a@,
                v@,
                spell,
                base_mask,
                damage,
                school,
                t@,
            ),
            final(self).patterns@ == old(self).patterns@,
    {
        let tr = parse_trailer(t.as_str());
        let mask = add_trailer_mask(base_mask, &tr);
        let blocked = trailer_amount_of(&tr, HitType::PartialBlock);
        let component = DamageComponent {
            school_mask: school,
            damage,
            resisted_or_glanced: trailer_amount_of(&tr, HitType::PartialResist),
            absorbed: trailer_amount_of(&tr, HitType::PartialAbsorb),
        };
        let components = vec![component];
        assert(components@ =~= seq![component]);
        let attacker = parse_unit(data, a);
        let victim = parse_unit(data, v);
        self.spell_result(data, ts, attacker, a, victim, v, spell, mask, blocked, components)
    }
}

} // verus!
