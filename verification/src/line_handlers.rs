use vstd::prelude::*;
use crate::data::Data;
use crate::dto::{AuraApplication, DamageComponent, Death, HealDone, InstanceMap, Interrupt, Loot, SpellCast, UnAura, Unit};
use crate::handlers::{group_at, heal_kind, hit_or_crit, melee_avoid, melee_negate, messages_view, school_word, spell_avoid};
use crate::hit_type::HitType;
use crate::line_spec::{damage_hit_or_crit, damage_hit_or_crit_school, damage_hit_or_crit_school_panics, damage_plain, damage_avoided, damage_avoided_panics, damage_negated, damage_negated_panics, spell_hit_or_crit, spell_hit_or_crit_school, spell_hit_or_crit_school_panics, damage_periodic, school_after_amount_panics, spell_split, spell_plain, spell_avoided, spell_avoided_panics, damage_shield, heal_periodic, heal_hit_or_crit, aura_gain, aura_fade, aura_dispel, aura_interrupt, spell_cast_perform, spell_cast_perform_unknown, unit_die, unit_slay, loot, zone_messages, zone_info, zone_info_panics};
use crate::message_type::MessageType;
use crate::numbers::{parse_u32, parse_u8};
use crate::regex_bridge::groups_view;
use crate::school::School;
use crate::state::WoWVanillaParser;
use crate::units::{parse_spell_args, parse_unit};

verus! {

impl WoWVanillaParser {

    pub(crate) fn on_damage_hit_or_crit(&mut self, data: &Data, ts: u64, caps: &Vec<Option<String>>) -> (r: Option<Vec<MessageType>>)
        ensures
            (final(self)@, messages_view(r)) == damage_hit_or_crit(groups_view(caps@), old(self)@, data, ts),
            final(self).patterns@ == old(self).patterns@,
    {
        let a = match group_at(caps, 1) { Some(x) => x, None => return None };
        let w = match group_at(caps, 2) { Some(x) => x, None => return None };
        let v = match group_at(caps, 3) { Some(x) => x, None => return None };
        let d = match group_at(caps, 4) { Some(x) => x, None => return None };
        let damage = match parse_u32(d.as_str()) { Some(x) => x, None => return None };
        let t = match group_at(caps, 5) { Some(x) => x, None => return None };
        self.hit_result(data, ts, a, w, v, damage, School::Physical.to_mask(), t)
    }

    pub(crate) fn on_damage_hit_or_crit_school(&mut self, data: &Data, ts: u64, caps: &Vec<Option<String>>) -> (r: Option<Vec<MessageType>>)
        requires
            !damage_hit_or_crit_school_panics(groups_view(caps@)),
        ensures
            (final(self)@, messages_view(r)) == damage_hit_or_crit_school(groups_view(caps@), old(self)@, data, ts),
            final(self).patterns@ == old(self).patterns@,
    {
        let a = match group_at(caps, 1) { Some(x) => x, None => return None };
        let w = match group_at(caps, 2) { Some(x) => x, None => return None };
        let v = match group_at(caps, 3) { Some(x) => x, None => return None };
        let d = match group_at(caps, 4) { Some(x) => x, None => return None };
        let damage = match parse_u32(d.as_str()) { Some(x) => x, None => return None };
        let sw = match group_at(caps, 5) { Some(x) => x, None => return None };
        let school = match school_word(sw) { Some(x) => x.to_mask(), None => return None };
        let t = match group_at(caps, 6) { Some(x) => x, None => return None };
        self.hit_result(data, ts, a, w, v, damage, school, t)
    }

    pub(crate) fn on_damage_plain(&mut self, data: &Data, ts: u64, caps: &Vec<Option<String>>, mask: u32) -> (r: Option<Vec<MessageType>>)
        ensures
            (final(self)@, messages_view(r)) == damage_plain(groups_view(caps@), old(self)@, data, ts, mask),
            final(self).patterns@ == old(self).patterns@,
    {
        let a = match group_at(caps, 1) { Some(x) => x, None => return None };
        let v = match group_at(caps, 2) { Some(x) => x, None => return None };
        self.melee_plain_result(data, ts, a, v, mask)
    }

    pub(crate) fn on_damage_avoided(&mut self, data: &Data, ts: u64, caps: &Vec<Option<String>>) -> (r: Option<Vec<MessageType>>)
        requires
            !damage_avoided_panics(groups_view(caps@)),
        ensures
            (final(self)@, messages_view(r)) == damage_avoided(groups_view(caps@), old(self)@, data, ts),
            final(self).patterns@ == old(self).patterns@,
    {
        let a = match group_at(caps, 1) { Some(x) => x, None => return None };
        let v = match group_at(caps, 2) { Some(x) => x, None => return None };
        let w = match group_at(caps, 3) { Some(x) => x, None => return None };
        let h = match melee_avoid(w) { Some(x) => x, None => return None };
        self.melee_plain_result(data, ts, a, v, h.to_mask())
    }

    pub(crate) fn on_damage_negated(&mut self, data: &Data, ts: u64, caps: &Vec<Option<String>>) -> (r: Option<Vec<MessageType>>)
        requires
            !damage_negated_panics(groups_view(caps@)),
        ensures
            (final(self)@, messages_view(r)) == damage_negated(groups_view(caps@), old(self)@, data, ts),
            final(self).patterns@ == old(self).patterns@,
    {
        let a = match group_at(caps, 1) { Some(x) => x, None => return None };
        let v = match group_at(caps, 2) { Some(x) => x, None => return None };
        let w = match group_at(caps, 3) { Some(x) => x, None => return None };
        let h = match melee_negate(w) { Some(x) => x, None => return None };
        self.melee_plain_result(data, ts, a, v, h.to_mask())
    }

    pub(crate) fn on_spell_hit_or_crit(&mut self, data: &Data, ts: u64, caps: &Vec<Option<String>>) -> (r: Option<Vec<MessageType>>)
        ensures
            (final(self)@, messages_view(r)) == spell_hit_or_crit(groups_view(caps@), old(self)@, data, ts),
            final(self).patterns@ == old(self).patterns@,
    {
        let a = match group_at(caps, 1) { Some(x) => x, None => return None };
        let sn = match group_at(caps, 2) { Some(x) => x, None => return None };
        let spell = match parse_spell_args(data, sn) { Some(x) => x, None => return None };
        let w = match group_at(caps, 3) { Some(x) => x, None => return None };
        let v = match group_at(caps, 4) { Some(x) => x, None => return None };
        let d = match group_at(caps, 5) { Some(x) => x, None => return None };
        let damage = match parse_u32(d.as_str()) { Some(x) => x, None => return None };
        let t = match group_at(caps, 6) { Some(x) => x, None => return None };
        self.spell_hit_result(data, ts, a, v, spell, hit_or_crit(w), damage, School::Physical.to_mask(), t)
    }

    pub(crate) fn on_spell_hit_or_crit_school(&mut self, data: &Data, ts: u64, caps: &Vec<Option<String>>) -> (r: Option<Vec<MessageType>>)
        requires
            !spell_hit_or_crit_school_panics(groups_view(caps@), data),
        ensures
            (final(self)@, messages_view(r)) == spell_hit_or_crit_school(groups_view(caps@), old(self)@, data, ts),
            final(self).patterns@ == old(self).patterns@,
    {
        let a = match group_at(caps, 1) { Some(x) => x, None => return None };
        let sn = match group_at(caps, 2) { Some(x) => x, None => return None };
        let spell = match parse_spell_args(data, sn) { Some(x) => x, None => return None };
        let w = match group_at(caps, 3) { Some(x) => x, None => return None };
        let v = match group_at(caps, 4) { Some(x) => x, None => return None };
        let d = match group_at(caps, 5) { Some(x) => x, None => return None };
        let damage = match parse_u32(d.as_str()) { Some(x) => x, None => return None };
        let sw = match group_at(caps, 6) { Some(x) => x, None => return None };
        let school = match school_word(sw) { Some(x) => x.to_mask(), None => return None };
        let t = match group_at(caps, 7) { Some(x) => x, None => return None };
        self.spell_hit_result(data, ts, a, v, spell, hit_or_crit(w), damage, school, t)
    }

    pub(crate) fn on_damage_periodic(&mut self, data: &Data, ts: u64, caps: &Vec<Option<String>>) -> (r: Option<Vec<MessageType>>)
        requires
            !school_after_amount_panics(groups_view(caps@)),
        ensures
            (final(self)@, messages_view(r)) == damage_periodic(groups_view(caps@), old(self)@, data, ts),
            final(self).patterns@ == old(self).patterns@,
    {
        let v = match group_at(caps, 1) { Some(x) => x, None => return None };
        let d = match group_at(caps, 2) { Some(x) => x, None => return None };
        let damage = match parse_u32(d.as_str()) { Some(x) => x, None => return None };
        let sw = match group_at(caps, 3) { Some(x) => x, None => return None };
        let school = match school_word(sw) { Some(x) => x.to_mask(), None => return None };
        let a = match group_at(caps, 4) { Some(x) => x, None => return None };
        let sn = match group_at(caps, 5) { Some(x) => x, None => return None };
        let spell = match parse_spell_args(data, sn) { Some(x) => x, None => return None };
        let t = match group_at(caps, 6) { Some(x) => x, None => return None };
        self.spell_hit_result(data, ts, a, v, spell, HitType::Hit.to_mask(), damage, school, t)
    }

    pub(crate) fn on_spell_split(&mut self, data: &Data, ts: u64, caps: &Vec<Option<String>>) -> (r: Option<Vec<MessageType>>)
        ensures
            (final(self)@, messages_view(r)) == spell_split(groups_view(caps@), old(self)@, data, ts),
            final(self).patterns@ == old(self).patterns@,
    {
        let a = match group_at(caps, 1) { Some(x) => x, None => return None };
        let sn = match group_at(caps, 2) { Some(x) => x, None => return None };
        let spell = match parse_spell_args(data, sn) { Some(x) => x, None => return None };
        let v = match group_at(caps, 3) { Some(x) => x, None => return None };
        let d = match group_at(caps, 4) { Some(x) => x, None => return None };
        let damage = match parse_u32(d.as_str()) { Some(x) => x, None => return None };
        let t = match group_at(caps, 5) { Some(x) => x, None => return None };
        self.spell_hit_result(data, ts, a, v, spell, HitType::Hit.to_mask(), damage, School::Physical.to_mask(), t)
    }

    pub(crate) fn on_spell_plain(&mut self, data: &Data, ts: u64, caps: &Vec<Option<String>>, mask: u32, swapped: bool) -> (r: Option<Vec<MessageType>>)
        ensures
            (final(self)@, messages_view(r)) == spell_plain(groups_view(caps@), old(self)@, data, ts, mask, swapped),
            final(self).patterns@ == old(self).patterns@,
    {
        let n1 = match group_at(caps, 1) { Some(x) => x, None => return None };
        let n2 = match group_at(caps, 2) { Some(x) => x, None => return None };
        if swapped {
            let sn = match group_at(caps, 3) { Some(x) => x, None => return None };
            let spell = match parse_spell_args(data, sn) { Some(x) => x, None => return None };
            let victim = parse_unit(data, n1);
            let attacker = parse_unit(data, n2);
            let components: Vec<DamageComponent> = Vec::new();
            assert(components@ =~= seq![]);
            self.spell_result(data, ts, attacker, n1, victim, n2, spell, mask, 0, components)
        } else {
            let spell = match parse_spell_args(data, n2) { Some(x) => x, None => return None };
            let v = match group_at(caps, 3) { Some(x) => x, None => return None };
            let attacker = parse_unit(data, n1);
            let victim = parse_unit(data, v);
            let components: Vec<DamageComponent> = Vec::new();
            assert(components@ =~= seq![]);
            self.spell_result(data, ts, attacker, n1, victim, v, spell, mask, 0, components)
        }
    }

    pub(crate) fn on_spell_avoided(&mut self, data: &Data, ts: u64, caps: &Vec<Option<String>>) -> (r: Option<Vec<MessageType>>)
        requires
            !spell_avoided_panics(groups_view(caps@), data),
        ensures
            (final(self)@, messages_view(r)) == spell_avoided(groups_view(caps@), old(self)@, data, ts),
            final(self).patterns@ == old(self).patterns@,
    {
        let a = match group_at(caps, 1) { Some(x) => x, None => return None };
        let sn = match group_at(caps, 2) { Some(x) => x, None => return None };
        let spell = match parse_spell_args(data, sn) { Some(x) => x, None => return None };
        let w = match group_at(caps, 3) { Some(x) => x, None => return None };
        let h = match spell_avoid(w) { Some(x) => x, None => return None };
        let v = match group_at(caps, 4) { Some(x) => x, None => return None };
        let attacker = parse_unit(data, a);
        let victim = parse_unit(data, v);
        let components: Vec<DamageComponent> = Vec::new();
        assert(components@ =~= seq![]);
        self.spell_result(data, ts, attacker, a, victim, v, spell, h.to_mask(), 0, components)
    }

    pub(crate) fn on_damage_shield(&mut self, data: &Data, ts: u64, caps: &Vec<Option<String>>) -> (r: Option<Vec<MessageType>>)
        requires
            !school_after_amount_panics(groups_view(caps@)),
        ensures
            (final(self)@, messages_view(r)) == damage_shield(groups_view(caps@), old(self)@, data, ts),
            final(self).patterns@ == old(self).patterns@,
    {
        let a = match group_at(caps, 1) { Some(x) => x, None => return None };
        let d = match group_at(caps, 2) { Some(x) => x, None => return None };
        let damage = match parse_u32(d.as_str()) { Some(x) => x, None => return None };
        let sw = match group_at(caps, 3) { Some(x) => x, None => return None };
        let school = match school_word(sw) { Some(x) => x.to_mask(), None => return None };
        let v = match group_at(caps, 4) { Some(x) => x, None => return None };
        let attacker = parse_unit(data, a);
        let victim = parse_unit(data, v);
        let component = DamageComponent { school_mask: school, damage, resisted_or_glanced: 0, absorbed: 0 };
        let components = vec![component];
        assert(components@ =~= seq![component]);
        self.spell_result(data, ts, attacker, a, victim, v, 2, HitType::Hit.to_mask(), 0, components)
    }

    pub(crate) fn on_heal_periodic(&mut self, data: &Data, ts: u64, caps: &Vec<Option<String>>) -> (r: Option<Vec<MessageType>>)
        ensures
            (final(self)@, messages_view(r)) == heal_periodic(groups_view(caps@), old(self)@, data, ts),
            final(self).patterns@ == old(self).patterns@,
    {
        let tn = match group_at(caps, 1) { Some(x) => x, None => return None };
        let d = match group_at(caps, 2) { Some(x) => x, None => return None };
        let amount = match parse_u32(d.as_str()) { Some(x) => x, None => return None };
        let cn = match group_at(caps, 3) { Some(x) => x, None => return None };
        let sn = match group_at(caps, 4) { Some(x) => x, None => return None };
        let spell = match parse_spell_args(data, sn) { Some(x) => x, None => return None };
        let target = parse_unit(data, tn);
        let caster = parse_unit(data, cn);
        self.observe_two(data, &caster, cn, &target, tn, ts);
        let hit = HitType::Hit.to_mask();
        let r = vec![
            MessageType::SpellCast(SpellCast { caster, target: Some(target), spell_id: spell, hit_mask: hit }),
            MessageType::Heal(HealDone { caster, target, spell_id: spell, total_heal: amount, effective_heal: amount, absorb: 0, hit_mask: hit }),
        ];
        assert(r@.map_values(|m: MessageType| m@) =~= heal_periodic(groups_view(caps@), old(self)@, data, ts).1.unwrap());
        Some(r)
    }

    pub(crate) fn on_heal_hit_or_crit(&mut self, data: &Data, ts: u64, caps: &Vec<Option<String>>) -> (r: Option<Vec<MessageType>>)
        ensures
            (final(self)@, messages_view(r)) == heal_hit_or_crit(groups_view(caps@), old(self)@, data, ts),
            final(self).patterns@ == old(self).patterns@,
    {
        let cn = match group_at(caps, 1) { Some(x) => x, None => return None };
        let sn = match group_at(caps, 2) { Some(x) => x, None => return None };
        let spell = match parse_spell_args(data, sn) { Some(x) => x, None => return None };
        let w = match group_at(caps, 3) { Some(x) => x, None => return None };
        let tn = match group_at(caps, 4) { Some(x) => x, None => return None };
        let d = match group_at(caps, 5) { Some(x) => x, None => return None };
        let amount = match parse_u32(d.as_str()) { Some(x) => x, None => return None };
        let hit = heal_kind(w);
        let caster = parse_unit(data, cn);
        let target = parse_unit(data, tn);
        self.observe_two(data, &caster, cn, &target, tn, ts);
        let r = vec![
            MessageType::SpellCast(SpellCast { caster, target: Some(target), spell_id: spell, hit_mask: hit }),
            MessageType::Heal(HealDone { caster, target, spell_id: spell, total_heal: amount, effective_heal: amount, absorb: 0, hit_mask: hit }),
        ];
        assert(r@.map_values(|m: MessageType| m@) =~= heal_hit_or_crit(groups_view(caps@), old(self)@, data, ts).1.unwrap());
        Some(r)
    }

    pub(crate) fn on_aura_gain(&mut self, data: &Data, ts: u64, caps: &Vec<Option<String>>) -> (r: Option<Vec<MessageType>>)
        ensures
            (final(self)@, messages_view(r)) == aura_gain(groups_view(caps@), old(self)@, data, ts),
            final(self).patterns@ == old(self).patterns@,
    {
        let tn = match group_at(caps, 1) { Some(x) => x, None => return None };
        let sn = match group_at(caps, 3) { Some(x) => x, None => return None };
        let spell = match parse_spell_args(data, sn) { Some(x) => x, None => return None };
        let d = match group_at(caps, 4) { Some(x) => x, None => return None };
        let stacks = match parse_u8(d.as_str()) { Some(x) => x, None => return None };
        let target = parse_unit(data, tn);
        self.observe_one(data, &target, tn, ts);
        let r = vec![
            MessageType::AuraApplication(AuraApplication {
                caster: Unit { is_player: false, unit_id: 0 },
                target,
                spell_id: spell,
                stack_amount: stacks as u32,
                delta: stacks as i8,
            }),
        ];
        assert(r@.map_values(|m: MessageType| m@) =~= aura_gain(groups_view(caps@), old(self)@, data, ts).1.unwrap());
        Some(r)
    }

    pub(crate) fn on_aura_fade(&mut self, data: &Data, ts: u64, caps: &Vec<Option<String>>) -> (r: Option<Vec<MessageType>>)
        ensures
            (final(self)@, messages_view(r)) == aura_fade(groups_view(caps@), old(self)@, data, ts),
            final(self).patterns@ == old(self).patterns@,
    {
        let tn = match group_at(caps, 2) { Some(x) => x, None => return None };
        let sn = match group_at(caps, 1) { Some(x) => x, None => return None };
        let spell = match parse_spell_args(data, sn) { Some(x) => x, None => return None };
        let target = parse_unit(data, tn);
        self.observe_one(data, &target, tn, ts);
        let r = vec![
            MessageType::AuraApplication(AuraApplication {
                caster: Unit { is_player: false, unit_id: 0 },
                target,
                spell_id: spell,
                stack_amount: 0,
                delta: -1,
            }),
        ];
        assert(r@.map_values(|m: MessageType| m@) =~= aura_fade(groups_view(caps@), old(self)@, data, ts).1.unwrap());
        Some(r)
    }

    pub(crate) fn on_aura_dispel(&mut self, data: &Data, ts: u64, caps: &Vec<Option<String>>) -> (r: Option<Vec<MessageType>>)
        ensures
            (final(self)@, messages_view(r)) == aura_dispel(groups_view(caps@), old(self)@, data, ts),
            final(self).patterns@ == old(self).patterns@,
    {
        let tn = match group_at(caps, 1) { Some(x) => x, None => return None };
        let sn = match group_at(caps, 2) { Some(x) => x, None => return None };
        let spell = match parse_spell_args(data, sn) { Some(x) => x, None => return None };
        let target = parse_unit(data, tn);
        self.observe_one(data, &target, tn, ts);
        let r = vec![
            MessageType::Dispel(UnAura {
                un_aura_caster: Unit { is_player: false, unit_id: 0 },
                target,
                aura_caster: None,
                un_aura_spell_id: 42,
                target_spell_id: spell,
                un_aura_amount: 1,
            }),
        ];
        assert(r@.map_values(|m: MessageType| m@) =~= aura_dispel(groups_view(caps@), old(self)@, data, ts).1.unwrap());
        Some(r)
    }

    pub(crate) fn on_aura_interrupt(&mut self, data: &Data, ts: u64, caps: &Vec<Option<String>>) -> (r: Option<Vec<MessageType>>)
        ensures
            (final(self)@, messages_view(r)) == aura_interrupt(groups_view(caps@), old(self)@, data, ts),
            final(self).patterns@ == old(self).patterns@,
    {
        let tn = match group_at(caps, 2) { Some(x) => x, None => return None };
        let sn = match group_at(caps, 3) { Some(x) => x, None => return None };
        let spell = match parse_spell_args(data, sn) { Some(x) => x, None => return None };
        let target = parse_unit(data, tn);
        self.observe_one(data, &target, tn, ts);
        let r = vec![MessageType::Interrupt(Interrupt { target, interrupted_spell_id: spell })];
        assert(r@.map_values(|m: MessageType| m@) =~= aura_interrupt(groups_view(caps@), old(self)@, data, ts).1.unwrap());
        Some(r)
    }

    pub(crate) fn on_spell_cast_perform(&mut self, data: &Data, ts: u64, caps: &Vec<Option<String>>) -> (r: Option<Vec<MessageType>>)
        ensures
            (final(self)@, messages_view(r)) == spell_cast_perform(groups_view(caps@), old(self)@, data, ts),
            final(self).patterns@ == old(self).patterns@,
    {
        let cn = match group_at(caps, 1) { Some(x) => x, None => return None };
        let sn = match group_at(caps, 3) { Some(x) => x, None => return None };
        let spell = match parse_spell_args(data, sn) { Some(x) => x, None => return None };
        let tn = match group_at(caps, 4) { Some(x) => x, None => return None };
        let caster = parse_unit(data, cn);
        let target = parse_unit(data, tn);
        self.observe_two(data, &caster, cn, &target, tn, ts);
        let r = vec![
            MessageType::SpellCast(SpellCast { caster, target: Some(target), spell_id: spell, hit_mask: HitType::Hit.to_mask() }),
        ];
        assert(r@.map_values(|m: MessageType| m@) =~= spell_cast_perform(groups_view(caps@), old(self)@, data, ts).1.unwrap());
        Some(r)
    }

    pub(crate) fn on_spell_cast_perform_unknown(&mut self, data: &Data, ts: u64, caps: &Vec<Option<String>>) -> (r: Option<Vec<MessageType>>)
        ensures
            (final(self)@, messages_view(r)) == spell_cast_perform_unknown(groups_view(caps@), old(self)@, data, ts),
            final(self).patterns@ == old(self).patterns@,
    {
        let cn = match group_at(caps, 1) { Some(x) => x, None => return None };
        let sn = match group_at(caps, 3) { Some(x) => x, None => return None };
        let spell = match parse_spell_args(data, sn) { Some(x) => x, None => return None };
        let caster = parse_unit(data, cn);
        self.observe_one(data, &caster, cn, ts);
        let r = vec![
            MessageType::SpellCast(SpellCast { caster, target: None, spell_id: spell, hit_mask: HitType::Hit.to_mask() }),
        ];
        assert(r@.map_values(|m: MessageType| m@) =~= spell_cast_perform_unknown(groups_view(caps@), old(self)@, data, ts).1.unwrap());
        Some(r)
    }

    pub(crate) fn on_unit_die(&mut self, data: &Data, ts: u64, caps: &Vec<Option<String>>) -> (r: Option<Vec<MessageType>>)
        ensures
            (final(self)@, messages_view(r)) == unit_die(groups_view(caps@), old(self)@, data, ts),
            final(self).patterns@ == old(self).patterns@,
    {
        let vn = match group_at(caps, 1) { Some(x) => x, None => return None };
        let victim = parse_unit(data, vn);
        self.observe_one(data, &victim, vn, ts);
        let r = vec![MessageType::Death(Death { cause: None, victim })];
        assert(r@.map_values(|m: MessageType| m@) =~= unit_die(groups_view(caps@), old(self)@, data, ts).1.unwrap());
        Some(r)
    }

    pub(crate) fn on_unit_slay(&mut self, data: &Data, ts: u64, caps: &Vec<Option<String>>) -> (r: Option<Vec<MessageType>>)
        ensures
            (final(self)@, messages_view(r)) == unit_slay(groups_view(caps@), old(self)@, data, ts),
            final(self).patterns@ == old(self).patterns@,
    {
        let vn = match group_at(caps, 1) { Some(x) => x, None => return None };
        let cn = match group_at(caps, 3) { Some(x) => x, None => return None };
        let victim = parse_unit(data, vn);
        let cause = parse_unit(data, cn);
        self.observe_two(data, &victim, vn, &cause, cn, ts);
        let r = vec![MessageType::Death(Death { cause: Some(cause), victim })];
        assert(r@.map_values(|m: MessageType| m@) =~= unit_slay(groups_view(caps@), old(self)@, data, ts).1.unwrap());
        Some(r)
    }

    pub(crate) fn on_loot(&mut self, data: &Data, ts: u64, caps: &Vec<Option<String>>) -> (r: Option<Vec<MessageType>>)
        ensures
            (final(self)@, messages_view(r)) == loot(groups_view(caps@), old(self)@, data, ts),
            final(self).patterns@ == old(self).patterns@,
    {
        let rn = match group_at(caps, 1) { Some(x) => x, None => return None };
        let receiver = parse_unit(data, rn);
        self.observe_one(data, &receiver, rn, ts);
        let i = match group_at(caps, 3) { Some(x) => x, None => return None };
        let item_id = match parse_u32(i.as_str()) { Some(x) => x, None => return None };
        let c = match group_at(caps, 8) { Some(x) => x, None => return None };
        let count = match parse_u32(c.as_str()) { Some(x) => x, None => return None };
        let r = vec![MessageType::Loot(Loot { unit: receiver, item_id, count })];
        assert(r@.map_values(|m: MessageType| m@) =~= loot(groups_view(caps@), old(self)@, data, ts).1.unwrap());
        Some(r)
    }

    /// `ZONE_INFO: Map&N`: every participant seen within two minutes is in
    /// the instance of the map.
    pub(crate) fn on_zone_info(&self, data: &Data, ts: u64, caps: &Vec<Option<String>>) -> (r: Option<Vec<MessageType>>)
        requires
            !zone_info_panics(groups_view(caps@), self@, data, ts),
        ensures
            zone_info(groups_view(caps@), self@, data, ts) == (self@, messages_view(r)),
    {
        let mn = match group_at(caps, 1) { Some(x) => x, None => return None };
        let i = match group_at(caps, 2) { Some(x) => x, None => return None };
        let instance_id = match parse_u32(i.as_str()) { Some(x) => x, None => return None };
        let map = match data.get_map_by_name(mn) { Some(m) => m, None => return None };
        let map_id = map.id as u32;
        let ghost ps = self@.participants;
        let mut out: Vec<MessageType> = Vec::new();
        let mut k: usize = 0;
        while k < self.participants.len()
            invariant
                k <= self.participants@.len(),
                ps == self@.participants,
                forall|j: int| 0 <= j < ps.len() ==> (#[trigger] ps[j]).last_seen <= ts,
                out@.map_values(|m: MessageType| m@) == zone_messages(ps.take(k as int), map_id, instance_id, ts),
            decreases self.participants@.len() - k,
        {
            let p = &self.participants[k];
            proof {
                assert(ps.take(k + 1).drop_last() =~= ps.take(k as int));
                assert(ps.take(k + 1).last() == ps[k as int]);
                assert(ps[k as int].last_seen <= ts);
            }
            let ghost before = out@.map_values(|m: MessageType| m@);
            if ts - p.last_seen <= 120000 {
                out.push(MessageType::InstanceMap(InstanceMap {
                    map_id,
                    instance_id,
                    map_difficulty: 0,
                    unit: Unit { is_player: p.is_player, unit_id: p.id },
                }));
            }
            assert(out@.map_values(|m: MessageType| m@) =~= zone_messages(ps.take(k + 1), map_id, instance_id, ts));
            k = k + 1;
        }
        assert(ps.take(k as int) =~= ps);
        Some(out)
    }
}

} // verus!
