use vstd::prelude::*;
use crate::data::{find_map_by_name, Data};
use crate::dto::{AuraApplication, DamageComponent, DamageDoneView, Death, HealDone, InstanceMap, Interrupt, Loot, SpellCast, UnAura, Unit};
use crate::hit_type::{hit_type_mask, HitType};
use crate::message_type::MessageView;
use crate::numbers::{parse_u32_spec, parse_u8_spec};
use crate::school::{school_mask, School};
use crate::state::{observe_one, observe_two, ParserView, ParticipantView};
use crate::trailer::{trailer_amount, trailer_mask, trailer_spec, TrailerEntry};
use crate::units::{spell_of_name, unit_of_name};

verus! {

/// The texts of the capture groups of a matched line.
pub type Groups = Seq<Option<Seq<char>>>;

/// What a line does: the parser's state after it, and the messages it yields.
pub type Outcome = (ParserView, Option<Seq<MessageView>>);

/// The text of capture group `i`, where it took part in the match.
pub open spec fn group(g: Groups, i: int) -> Option<Seq<char>> {
    if 0 <= i < g.len() {
        g[i]
    } else {
        None
    }
}

/// The spell of the reflection of a damage shield.
pub open spec fn damage_shield_spell() -> u32 {
    2
}

/// The spell that dispels are attributed to until their caster is known.
pub open spec fn unknown_dispel_spell() -> u32 {
    42
}

/// The caster of auras and dispels that the log does not name.
pub open spec fn unknown_unit() -> Unit {
    Unit { is_player: false, unit_id: 0 }
}

/// `cr` marks a critical hit, anything else a plain hit.
pub open spec fn hit_or_crit_mask(w: Seq<char>) -> u32 {
    if w == "cr"@ {
        hit_type_mask(HitType::Crit)
    } else {
        hit_type_mask(HitType::Hit)
    }
}

/// The school that a damage line names.
pub open spec fn school_of_word(w: Seq<char>) -> Option<School> {
    if w == "Arcane"@ {
        Some(School::Arcane)
    } else if w == "Fire"@ {
        Some(School::Fire)
    } else if w == "Frost"@ {
        Some(School::Frost)
    } else if w == "Shadow"@ {
        Some(School::Shadow)
    } else if w == "Nature"@ {
        Some(School::Nature)
    } else if w == "Holy"@ {
        Some(School::Holy)
    } else {
        None
    }
}

/// How a melee attack was avoided.
pub open spec fn melee_avoid_word(w: Seq<char>) -> Option<HitType> {
    if w == "blocks"@ {
        Some(HitType::FullBlock)
    } else if w == "parries"@ {
        Some(HitType::Parry)
    } else if w == "evades"@ {
        Some(HitType::Evade)
    } else if w == "dodges"@ {
        Some(HitType::Dodge)
    } else if w == "deflects"@ {
        Some(HitType::Deflect)
    } else {
        None
    }
}

/// How all the damage of a melee attack was taken away.
pub open spec fn melee_negate_word(w: Seq<char>) -> Option<HitType> {
    if w == "absorbs"@ {
        Some(HitType::FullAbsorb)
    } else if w == "resists"@ {
        Some(HitType::FullResist)
    } else {
        None
    }
}

/// How a spell was avoided.
pub open spec fn spell_avoid_word(w: Seq<char>) -> Option<HitType> {
    if w == "blocked"@ {
        Some(HitType::FullBlock)
    } else if w == "parried"@ {
        Some(HitType::Parry)
    } else if w == "evaded"@ {
        Some(HitType::Evade)
    } else if w == "dodged"@ {
        Some(HitType::Dodge)
    } else if w == "deflected"@ {
        Some(HitType::Deflect)
    } else if w == "resisted"@ {
        Some(HitType::FullResist)
    } else {
        None
    }
}

pub open spec fn damage_view(
    attacker: Unit,
    victim: Unit,
    spell_id: Option<u32>,
    hit_mask: u32,
    blocked: u32,
    components: Seq<DamageComponent>,
) -> DamageDoneView {
    DamageDoneView {
        attacker,
        victim,
        spell_id,
        hit_mask,
        blocked,
        damage_over_time: false,
        damage_components: components,
    }
}

/// The one damage component of a hit with a trailer.
pub open spec fn trailer_component(school: u8, damage: u32, tr: Seq<TrailerEntry>) -> DamageComponent {
    DamageComponent {
        school_mask: school,
        damage,
        resisted_or_glanced: trailer_amount(tr, HitType::PartialResist),
        absorbed: trailer_amount(tr, HitType::PartialAbsorb),
    }
}

/// A melee hit of `damage` by the unit named `a` on the unit named `v`.
pub open spec fn melee_hit_result(
    st: ParserView,
    data: &Data,
    ts: u64,
    a: Seq<char>,
    w: Seq<char>,
    v: Seq<char>,
    damage: u32,
    school: u8,
    t: Seq<char>,
) -> Outcome {
    let attacker = unit_of_name(data, a);
    let victim = unit_of_name(data, v);
    let tr = trailer_spec(t);
    let mask = trailer_mask(hit_or_crit_mask(w), tr);
    (
        observe_two(st, data, attacker, a, victim, v, ts),
        Some(
            seq![
                MessageView::MeleeDamage(
                    damage_view(
                        attacker,
                        victim,
                        None,
                        mask,
                        trailer_amount(tr, HitType::PartialBlock),
                        seq![trailer_component(school, damage, tr)],
                    ),
                ),
            ],
        ),
    )
}

/// A melee attack without damage, with a fixed hit mask.
pub open spec fn melee_plain_result(
    st: ParserView,
    data: &Data,
    ts: u64,
    a: Seq<char>,
    v: Seq<char>,
    mask: u32,
) -> Outcome {
    let attacker = unit_of_name(data, a);
    let victim = unit_of_name(data, v);
    (
        observe_two(st, data, attacker, a, victim, v, ts),
        Some(seq![MessageView::MeleeDamage(damage_view(attacker, victim, None, mask, 0, seq![]))]),
    )
}

/// A spell of `attacker` on `victim`: a cast and its damage.
pub open spec fn spell_result(
    st: ParserView,
    data: &Data,
    ts: u64,
    attacker: Unit,
    a_name: Seq<char>,
    victim: Unit,
    v_name: Seq<char>,
    spell: u32,
    mask: u32,
    blocked: u32,
    components: Seq<DamageComponent>,
) -> Outcome {
    (
        observe_two(st, data, attacker, a_name, victim, v_name, ts),
        Some(
            seq![
                MessageView::SpellCast(
                    SpellCast { caster: attacker, target: Some(victim), spell_id: spell, hit_mask: mask },
                ),
                MessageView::SpellDamage(damage_view(attacker, victim, Some(spell), mask, blocked, components)),
            ],
        ),
    )
}

/// A spell that hit with a trailer.
pub open spec fn spell_hit_result(
    st: ParserView,
    data: &Data,
    ts: u64,
    a: Seq<char>,
    v: Seq<char>,
    spell: u32,
    base_mask: u32,
    damage: u32,
    school: u8,
    t: Seq<char>,
) -> Outcome {
    let tr = trailer_spec(t);
    spell_result(
        st,
        data,
        ts,
        unit_of_name(data, a),
        a,
        unit_of_name(data, v),
        v,
        spell,
        trailer_mask(base_mask, tr),
        trailer_amount(tr, HitType::PartialBlock),
        seq![trailer_component(school, damage, tr)],
    )
}

/// The last `'s ` of a name at or before position `k` that has text on both
/// sides.
pub open spec fn possessive_from(n: Seq<char>, k: int) -> Option<int>
    decreases k,
{
    if k < 1 {
        None
    } else if k + 3 < n.len() && n.subrange(k, k + 3) == "'s "@ {
        Some(k)
    } else {
        possessive_from(n, k - 1)
    }
}

/// Where a name reads as `Caster's Spell`: its last `'s ` with text on both
/// sides.
pub open spec fn possessive(n: Seq<char>) -> Option<int> {
    possessive_from(n, n.len() - 4)
}

/// The caster and the spell that a hitting name stands for, where it reads
/// as `Caster's Spell` and the spell is known.
pub open spec fn caster_spell(data: &Data, n: Seq<char>) -> Option<(Seq<char>, u32)> {
    match possessive(n) {
        Some(k) => match spell_of_name(data, n.skip(k + 3)) {
            Some(spell) => Some((n.take(k), spell)),
            None => None,
        },
        None => None,
    }
}

/// A hit of `damage` by the one named `a` on the one named `v`: a spell hit
/// where `a` reads as a caster's known spell, else a melee hit.
pub open spec fn hit_result(
    st: ParserView,
    data: &Data,
    ts: u64,
    a: Seq<char>,
    w: Seq<char>,
    v: Seq<char>,
    damage: u32,
    school: u8,
    t: Seq<char>,
) -> Outcome {
    match caster_spell(data, a) {
        Some((c, spell)) => spell_hit_result(st, data, ts, c, v, spell, hit_or_crit_mask(w), damage, school, t),
        None => melee_hit_result(st, data, ts, a, w, v, damage, school, t),
    }
}

/// `X hits Y for N. trailer`, `X's Spell hits Y for N. trailer`
pub open spec fn damage_hit_or_crit(g: Groups, st: ParserView, data: &Data, ts: u64) -> Outcome {
    match (group(g, 1), group(g, 2), group(g, 3), group(g, 4)) {
        (Some(a), Some(w), Some(v), Some(d)) => match parse_u32_spec(d) {
            Some(damage) => match group(g, 5) {
                Some(t) => hit_result(st, data, ts, a, w, v, damage, school_mask(School::Physical), t),
                None => (st, None),
            },
            None => (st, None),
        },
        _ => (st, None),
    }
}

/// `X hits Y for N School damage. trailer`, and the same of `X's Spell`
pub open spec fn damage_hit_or_crit_school(g: Groups, st: ParserView, data: &Data, ts: u64) -> Outcome {
    match (group(g, 1), group(g, 2), group(g, 3), group(g, 4)) {
        (Some(a), Some(w), Some(v), Some(d)) => match parse_u32_spec(d) {
            Some(damage) => match group(g, 5) {
                Some(sw) => match school_of_word(sw) {
                    Some(school) => match group(g, 6) {
                        Some(t) => hit_result(st, data, ts, a, w, v, damage, school_mask(school), t),
                        None => (st, None),
                    },
                    None => (st, None),
                },
                None => (st, None),
            },
            None => (st, None),
        },
        _ => (st, None),
    }
}

pub open spec fn damage_hit_or_crit_school_panics(g: Groups) -> bool {
    match (group(g, 1), group(g, 2), group(g, 3), group(g, 4), group(g, 5)) {
        (Some(a), Some(w), Some(v), Some(d), Some(sw)) => parse_u32_spec(d) is Some && school_of_word(
            sw,
        ) is None,
        _ => false,
    }
}

/// A melee attack with a fixed outcome: `X misses Y.`, `X attacks but Y is immune.`
pub open spec fn damage_plain(g: Groups, st: ParserView, data: &Data, ts: u64, mask: u32) -> Outcome {
    match (group(g, 1), group(g, 2)) {
        (Some(a), Some(v)) => melee_plain_result(st, data, ts, a, v, mask),
        _ => (st, None),
    }
}

/// `X attacks. Y parries.` and the like.
pub open spec fn damage_avoided(g: Groups, st: ParserView, data: &Data, ts: u64) -> Outcome {
    match (group(g, 1), group(g, 2), group(g, 3)) {
        (Some(a), Some(v), Some(w)) => match melee_avoid_word(w) {
            Some(h) => melee_plain_result(st, data, ts, a, v, hit_type_mask(h)),
            None => (st, None),
        },
        _ => (st, None),
    }
}

pub open spec fn damage_avoided_panics(g: Groups) -> bool {
    match (group(g, 1), group(g, 2), group(g, 3)) {
        (Some(a), Some(v), Some(w)) => melee_avoid_word(w) is None,
        _ => false,
    }
}

/// `X attacks. Y absorbs all the damage.` and the like.
pub open spec fn damage_negated(g: Groups, st: ParserView, data: &Data, ts: u64) -> Outcome {
    match (group(g, 1), group(g, 2), group(g, 3)) {
        (Some(a), Some(v), Some(w)) => match melee_negate_word(w) {
            Some(h) => melee_plain_result(st, data, ts, a, v, hit_type_mask(h)),
            None => (st, None),
        },
        _ => (st, None),
    }
}

pub open spec fn damage_negated_panics(g: Groups) -> bool {
    match (group(g, 1), group(g, 2), group(g, 3)) {
        (Some(a), Some(v), Some(w)) => melee_negate_word(w) is None,
        _ => false,
    }
}

/// `X's Spell hits Y for N. trailer`
pub open spec fn spell_hit_or_crit(g: Groups, st: ParserView, data: &Data, ts: u64) -> Outcome {
    match (group(g, 1), group(g, 2)) {
        (Some(a), Some(sn)) => match spell_of_name(data, sn) {
            Some(spell) => match (group(g, 3), group(g, 4), group(g, 5)) {
                (Some(w), Some(v), Some(d)) => match parse_u32_spec(d) {
                    Some(damage) => match group(g, 6) {
                        Some(t) => spell_hit_result(
                            st,
                            data,
                            ts,
                            a,
                            v,
                            spell,
                            hit_or_crit_mask(w),
                            damage,
                            school_mask(School::Physical),
                            t,
                        ),
                        None => (st, None),
                    },
                    None => (st, None),
                },
                _ => (st, None),
            },
            None => (st, None),
        },
        _ => (st, None),
    }
}

/// `X's Spell hits Y for N School damage. trailer`
pub open spec fn spell_hit_or_crit_school(g: Groups, st: ParserView, data: &Data, ts: u64) -> Outcome {
    match (group(g, 1), group(g, 2)) {
        (Some(a), Some(sn)) => match spell_of_name(data, sn) {
            Some(spell) => match (group(g, 3), group(g, 4), group(g, 5)) {
                (Some(w), Some(v), Some(d)) => match parse_u32_spec(d) {
                    Some(damage) => match group(g, 6) {
                        Some(sw) => match school_of_word(sw) {
                            Some(school) => match group(g, 7) {
                                Some(t) => spell_hit_result(
                                    st,
                                    data,
                                    ts,
                                    a,
                                    v,
                                    spell,
                                    hit_or_crit_mask(w),
                                    damage,
                                    school_mask(school),
                                    t,
                                ),
                                None => (st, None),
                            },
                            None => (st, None),
                        },
                        None => (st, None),
                    },
                    None => (st, None),
                },
                _ => (st, None),
            },
            None => (st, None),
        },
        _ => (st, None),
    }
}

pub open spec fn spell_hit_or_crit_school_panics(g: Groups, data: &Data) -> bool {
    match (group(g, 1), group(g, 2), group(g, 3), group(g, 4), group(g, 5), group(g, 6)) {
        (Some(a), Some(sn), Some(w), Some(v), Some(d), Some(sw)) => spell_of_name(data, sn) is Some
            && parse_u32_spec(d) is Some && school_of_word(sw) is None,
        _ => false,
    }
}

/// `V suffers N School damage from A's Spell. trailer`: the spell of the
/// caster A hurts the sufferer V.
pub open spec fn damage_periodic(g: Groups, st: ParserView, data: &Data, ts: u64) -> Outcome {
    match (group(g, 1), group(g, 2)) {
        (Some(v), Some(d)) => match parse_u32_spec(d) {
            Some(damage) => match group(g, 3) {
                Some(sw) => match school_of_word(sw) {
                    Some(school) => match (group(g, 4), group(g, 5)) {
                        (Some(a), Some(sn)) => match spell_of_name(data, sn) {
                            Some(spell) => match group(g, 6) {
                                Some(t) => spell_hit_result(
                                    st,
                                    data,
                                    ts,
                                    a,
                                    v,
                                    spell,
                                    hit_type_mask(HitType::Hit),
                                    damage,
                                    school_mask(school),
                                    t,
                                ),
                                None => (st, None),
                            },
                            None => (st, None),
                        },
                        _ => (st, None),
                    },
                    None => (st, None),
                },
                None => (st, None),
            },
            None => (st, None),
        },
        _ => (st, None),
    }
}

/// A school word that is no school, after an amount that reads as a number.
pub open spec fn school_after_amount_panics(g: Groups) -> bool {
    match (group(g, 1), group(g, 2), group(g, 3)) {
        (Some(a), Some(d), Some(sw)) => parse_u32_spec(d) is Some && school_of_word(sw) is None,
        _ => false,
    }
}

/// `X's Spell causes Y N damage. trailer`
pub open spec fn spell_split(g: Groups, st: ParserView, data: &Data, ts: u64) -> Outcome {
    match (group(g, 1), group(g, 2)) {
        (Some(a), Some(sn)) => match spell_of_name(data, sn) {
            Some(spell) => match (group(g, 3), group(g, 4)) {
                (Some(v), Some(d)) => match parse_u32_spec(d) {
                    Some(damage) => match group(g, 5) {
                        Some(t) => spell_hit_result(
                            st,
                            data,
                            ts,
                            a,
                            v,
                            spell,
                            hit_type_mask(HitType::Hit),
                            damage,
                            school_mask(School::Physical),
                            t,
                        ),
                        None => (st, None),
                    },
                    None => (st, None),
                },
                _ => (st, None),
            },
            None => (st, None),
        },
        _ => (st, None),
    }
}

/// A spell with a fixed outcome and no damage, `X's Spell missed Y.` and the
/// like; with `swapped`, the first name is the victim and the second the
/// caster (`X absorbs Y's Spell.`). The caster is seen before the victim;
/// the participants take the names in the order of the line, so with
/// `swapped` the caster is recorded under the first name and the victim
/// under the second.
pub open spec fn spell_plain(g: Groups, st: ParserView, data: &Data, ts: u64, mask: u32, swapped: bool) -> Outcome {
    match (group(g, 1), group(g, 2)) {
        (Some(n1), Some(n2)) => if swapped {
            match group(g, 3) {
                Some(sn) => match spell_of_name(data, sn) {
                    Some(spell) => spell_result(
                        st,
                        data,
                        ts,
                        unit_of_name(data, n2),
                        n1,
                        unit_of_name(data, n1),
                        n2,
                        spell,
                        mask,
                        0,
                        seq![],
                    ),
                    None => (st, None),
                },
                None => (st, None),
            }
        } else {
            match spell_of_name(data, n2) {
                Some(spell) => match group(g, 3) {
                    Some(v) => spell_result(
                        st,
                        data,
                        ts,
                        unit_of_name(data, n1),
                        n1,
                        unit_of_name(data, v),
                        v,
                        spell,
                        mask,
                        0,
                        seq![],
                    ),
                    None => (st, None),
                },
                None => (st, None),
            }
        },
        _ => (st, None),
    }
}

/// `X's Spell was parried by Y.` and the like.
pub open spec fn spell_avoided(g: Groups, st: ParserView, data: &Data, ts: u64) -> Outcome {
    match (group(g, 1), group(g, 2)) {
        (Some(a), Some(sn)) => match spell_of_name(data, sn) {
            Some(spell) => match group(g, 3) {
                Some(w) => match spell_avoid_word(w) {
                    Some(h) => match group(g, 4) {
                        Some(v) => spell_result(
                            st,
                            data,
                            ts,
                            unit_of_name(data, a),
                            a,
                            unit_of_name(data, v),
                            v,
                            spell,
                            hit_type_mask(h),
                            0,
                            seq![],
                        ),
                        None => (st, None),
                    },
                    None => (st, None),
                },
                None => (st, None),
            },
            None => (st, None),
        },
        _ => (st, None),
    }
}

pub open spec fn spell_avoided_panics(g: Groups, data: &Data) -> bool {
    match (group(g, 1), group(g, 2), group(g, 3)) {
        (Some(a), Some(sn), Some(w)) => spell_of_name(data, sn) is Some && spell_avoid_word(w) is None,
        _ => false,
    }
}

/// `X reflects N School damage to Y.`
pub open spec fn damage_shield(g: Groups, st: ParserView, data: &Data, ts: u64) -> Outcome {
    match (group(g, 1), group(g, 2)) {
        (Some(a), Some(d)) => match parse_u32_spec(d) {
            Some(damage) => match group(g, 3) {
                Some(sw) => match school_of_word(sw) {
                    Some(school) => match group(g, 4) {
                        Some(v) => spell_result(
                            st,
                            data,
                            ts,
                            unit_of_name(data, a),
                            a,
                            unit_of_name(data, v),
                            v,
                            damage_shield_spell(),
                            hit_type_mask(HitType::Hit),
                            0,
                            seq![
                                DamageComponent {
                                    school_mask: school_mask(school),
                                    damage,
                                    resisted_or_glanced: 0,
                                    absorbed: 0,
                                },
                            ],
                        ),
                        None => (st, None),
                    },
                    None => (st, None),
                },
                None => (st, None),
            },
            None => (st, None),
        },
        _ => (st, None),
    }
}

/// `critically heals` marks a critical heal, anything else a plain one.
pub open spec fn heal_mask(w: Seq<char>) -> u32 {
    if w == "critically heals"@ {
        hit_type_mask(HitType::Crit)
    } else {
        hit_type_mask(HitType::Hit)
    }
}

/// A heal of `amount` by the caster named `cn` on the target named `tn`: a
/// cast and the heal, the caster seen before the target.
pub open spec fn heal_result(
    st: ParserView,
    data: &Data,
    ts: u64,
    cn: Seq<char>,
    tn: Seq<char>,
    spell: u32,
    amount: u32,
    mask: u32,
) -> Outcome {
    let caster = unit_of_name(data, cn);
    let target = unit_of_name(data, tn);
    (
        observe_two(st, data, caster, cn, target, tn, ts),
        Some(
            seq![
                MessageView::SpellCast(SpellCast { caster, target: Some(target), spell_id: spell, hit_mask: mask }),
                MessageView::Heal(
                    HealDone {
                        caster,
                        target,
                        spell_id: spell,
                        total_heal: amount,
                        effective_heal: amount,
                        absorb: 0,
                        hit_mask: mask,
                    },
                ),
            ],
        ),
    )
}

/// `X's Spell heals Y for N.`, `X's Spell critically heals Y for N.`
pub open spec fn heal_hit_or_crit(g: Groups, st: ParserView, data: &Data, ts: u64) -> Outcome {
    match (group(g, 1), group(g, 2)) {
        (Some(cn), Some(sn)) => match spell_of_name(data, sn) {
            Some(spell) => match (group(g, 3), group(g, 4), group(g, 5)) {
                (Some(w), Some(tn), Some(d)) => match parse_u32_spec(d) {
                    Some(amount) => heal_result(st, data, ts, cn, tn, spell, amount, heal_mask(w)),
                    None => (st, None),
                },
                _ => (st, None),
            },
            None => (st, None),
        },
        _ => (st, None),
    }
}

/// `X gains N health from Y's Spell.`
pub open spec fn heal_periodic(g: Groups, st: ParserView, data: &Data, ts: u64) -> Outcome {
    match (group(g, 1), group(g, 2)) {
        (Some(tn), Some(d)) => match parse_u32_spec(d) {
            Some(amount) => match (group(g, 3), group(g, 4)) {
                (Some(cn), Some(sn)) => match spell_of_name(data, sn) {
                    Some(spell) => {
                        let target = unit_of_name(data, tn);
                        let caster = unit_of_name(data, cn);
                        let hit = hit_type_mask(HitType::Hit);
                        (
                            observe_two(st, data, caster, cn, target, tn, ts),
                            Some(
                                seq![
                                    MessageView::SpellCast(
                                        SpellCast { caster, target: Some(target), spell_id: spell, hit_mask: hit },
                                    ),
                                    MessageView::Heal(
                                        HealDone {
                                            caster,
                                            target,
                                            spell_id: spell,
                                            total_heal: amount,
                                            effective_heal: amount,
                                            absorb: 0,
                                            hit_mask: hit,
                                        },
                                    ),
                                ],
                            ),
                        )
                    },
                    None => (st, None),
                },
                _ => (st, None),
            },
            None => (st, None),
        },
        _ => (st, None),
    }
}

/// `X gains Spell (N).`, `X is afflicted by Spell (N).`
pub open spec fn aura_gain(g: Groups, st: ParserView, data: &Data, ts: u64) -> Outcome {
    match (group(g, 1), group(g, 3)) {
        (Some(tn), Some(sn)) => match spell_of_name(data, sn) {
            Some(spell) => match group(g, 4) {
                Some(d) => match parse_u8_spec(d) {
                    Some(stacks) => {
                        let target = unit_of_name(data, tn);
                        (
                            observe_one(st, data, target, tn, ts),
                            Some(
                                seq![
                                    MessageView::AuraApplication(
                                        AuraApplication {
                                            caster: unknown_unit(),
                                            target,
                                            spell_id: spell,
                                            stack_amount: stacks as u32,
                                            delta: stacks as i8,
                                        },
                                    ),
                                ],
                            ),
                        )
                    },
                    None => (st, None),
                },
                None => (st, None),
            },
            None => (st, None),
        },
        _ => (st, None),
    }
}

/// `Spell fades from X.`: the aura of the spell leaves X.
pub open spec fn aura_fade(g: Groups, st: ParserView, data: &Data, ts: u64) -> Outcome {
    match (group(g, 2), group(g, 1)) {
        (Some(tn), Some(sn)) => match spell_of_name(data, sn) {
            Some(spell) => {
                let target = unit_of_name(data, tn);
                (
                    observe_one(st, data, target, tn, ts),
                    Some(
                        seq![
                            MessageView::AuraApplication(
                                AuraApplication {
                                    caster: unknown_unit(),
                                    target,
                                    spell_id: spell,
                                    stack_amount: 0,
                                    delta: -1i8,
                                },
                            ),
                        ],
                    ),
                )
            },
            None => (st, None),
        },
        _ => (st, None),
    }
}

/// `X's Spell is removed.`
pub open spec fn aura_dispel(g: Groups, st: ParserView, data: &Data, ts: u64) -> Outcome {
    match (group(g, 1), group(g, 2)) {
        (Some(tn), Some(sn)) => match spell_of_name(data, sn) {
            Some(spell) => {
                let target = unit_of_name(data, tn);
                (
                    observe_one(st, data, target, tn, ts),
                    Some(
                        seq![
                            MessageView::Dispel(
                                UnAura {
                                    un_aura_caster: unknown_unit(),
                                    target,
                                    aura_caster: None,
                                    un_aura_spell_id: unknown_dispel_spell(),
                                    target_spell_id: spell,
                                    un_aura_amount: 1,
                                },
                            ),
                        ],
                    ),
                )
            },
            None => (st, None),
        },
        _ => (st, None),
    }
}

/// `X interrupts Y's Spell.`
pub open spec fn aura_interrupt(g: Groups, st: ParserView, data: &Data, ts: u64) -> Outcome {
    match (group(g, 2), group(g, 3)) {
        (Some(tn), Some(sn)) => match spell_of_name(data, sn) {
            Some(spell) => {
                let target = unit_of_name(data, tn);
                (
                    observe_one(st, data, target, tn, ts),
                    Some(seq![MessageView::Interrupt(Interrupt { target, interrupted_spell_id: spell })]),
                )
            },
            None => (st, None),
        },
        _ => (st, None),
    }
}

/// `X casts Spell on Y.`, `X performs Spell on Y.`
pub open spec fn spell_cast_perform(g: Groups, st: ParserView, data: &Data, ts: u64) -> Outcome {
    match (group(g, 1), group(g, 3)) {
        (Some(cn), Some(sn)) => match spell_of_name(data, sn) {
            Some(spell) => match group(g, 4) {
                Some(tn) => {
                    let caster = unit_of_name(data, cn);
                    let target = unit_of_name(data, tn);
                    (
                        observe_two(st, data, caster, cn, target, tn, ts),
                        Some(
                            seq![
                                MessageView::SpellCast(
                                    SpellCast {
                                        caster,
                                        target: Some(target),
                                        spell_id: spell,
                                        hit_mask: hit_type_mask(HitType::Hit),
                                    },
                                ),
                            ],
                        ),
                    )
                },
                None => (st, None),
            },
            None => (st, None),
        },
        _ => (st, None),
    }
}

/// `X casts Spell.`, `X performs Spell.`
pub open spec fn spell_cast_perform_unknown(g: Groups, st: ParserView, data: &Data, ts: u64) -> Outcome {
    match (group(g, 1), group(g, 3)) {
        (Some(cn), Some(sn)) => match spell_of_name(data, sn) {
            Some(spell) => {
                let caster = unit_of_name(data, cn);
                (
                    observe_one(st, data, caster, cn, ts),
                    Some(
                        seq![
                            MessageView::SpellCast(
                                SpellCast {
                                    caster,
                                    target: None,
                                    spell_id: spell,
                                    hit_mask: hit_type_mask(HitType::Hit),
                                },
                            ),
                        ],
                    ),
                )
            },
            None => (st, None),
        },
        _ => (st, None),
    }
}

/// `X dies.`
pub open spec fn unit_die(g: Groups, st: ParserView, data: &Data, ts: u64) -> Outcome {
    match group(g, 1) {
        Some(vn) => {
            let victim = unit_of_name(data, vn);
            (
                observe_one(st, data, victim, vn, ts),
                Some(seq![MessageView::Death(Death { cause: None, victim })]),
            )
        },
        None => (st, None),
    }
}

/// `X is slain by Y!`, `X is killed by Y.`
pub open spec fn unit_slay(g: Groups, st: ParserView, data: &Data, ts: u64) -> Outcome {
    match (group(g, 1), group(g, 3)) {
        (Some(vn), Some(cn)) => {
            let victim = unit_of_name(data, vn);
            let cause = unit_of_name(data, cn);
            (
                observe_two(st, data, victim, vn, cause, cn, ts),
                Some(seq![MessageView::Death(Death { cause: Some(cause), victim })]),
            )
        },
        _ => (st, None),
    }
}

/// `LOOT: X receives loot: ...`: the receiver is seen before the item and
/// count are read.
pub open spec fn loot(g: Groups, st: ParserView, data: &Data, ts: u64) -> Outcome {
    match group(g, 1) {
        Some(rn) => {
            let receiver = unit_of_name(data, rn);
            let seen = observe_one(st, data, receiver, rn, ts);
            match group(g, 3) {
                Some(i) => match parse_u32_spec(i) {
                    Some(item_id) => match group(g, 8) {
                        Some(c) => match parse_u32_spec(c) {
                            Some(count) => (
                                seen,
                                Some(seq![MessageView::Loot(Loot { unit: receiver, item_id, count })]),
                            ),
                            None => (seen, None),
                        },
                        None => (seen, None),
                    },
                    None => (seen, None),
                },
                None => (seen, None),
            }
        },
        None => (st, None),
    }
}

/// The instance map messages of all participants seen within the last two
/// minutes, in the order of the participants.
pub open spec fn zone_messages(ps: Seq<ParticipantView>, map_id: u32, instance_id: u32, ts: u64) -> Seq<
    MessageView,
>
    decreases ps.len(),
{
    if ps.len() == 0 {
        seq![]
    } else {
        let p = ps.last();
        zone_messages(ps.drop_last(), map_id, instance_id, ts) + if ts - p.last_seen <= 120000 {
            seq![
                MessageView::InstanceMap(
                    InstanceMap {
                        map_id,
                        instance_id,
                        map_difficulty: 0,
                        unit: Unit { is_player: p.is_player, unit_id: p.id },
                    },
                ),
            ]
        } else {
            seq![]
        }
    }
}

/// `ZONE_INFO: Map&N`
pub open spec fn zone_info(g: Groups, st: ParserView, data: &Data, ts: u64) -> Outcome {
    match (group(g, 1), group(g, 2)) {
        (Some(mn), Some(i)) => match parse_u32_spec(i) {
            Some(instance_id) => match find_map_by_name(data, mn) {
                Some(m) => (st, Some(zone_messages(st.participants, m.id as u32, instance_id, ts))),
                None => (st, None),
            },
            None => (st, None),
        },
        _ => (st, None),
    }
}

/// A zone line of a known map while a participant was last seen after the
/// line's time.
pub open spec fn zone_info_panics(g: Groups, st: ParserView, data: &Data, ts: u64) -> bool {
    match (group(g, 1), group(g, 2)) {
        (Some(mn), Some(i)) => parse_u32_spec(i) is Some && find_map_by_name(data, mn) is Some && exists|
            j: int,
        |
            0 <= j < st.participants.len() && (#[trigger] st.participants[j]).last_seen > ts,
        _ => false,
    }
}

/// What a line of kind `k` with capture groups `g` does.
pub open spec fn line_outcome(k: int, g: Groups, st: ParserView, data: &Data, ts: u64) -> Outcome {
    if k == 0 {
        damage_hit_or_crit(g, st, data, ts)
    } else if k == 1 {
        damage_hit_or_crit_school(g, st, data, ts)
    } else if k == 2 {
        damage_plain(g, st, data, ts, hit_type_mask(HitType::Miss))
    } else if k == 3 {
        damage_avoided(g, st, data, ts)
    } else if k == 4 {
        damage_negated(g, st, data, ts)
    } else if k == 5 {
        damage_plain(g, st, data, ts, hit_type_mask(HitType::Immune))
    } else if k == 6 {
        spell_hit_or_crit(g, st, data, ts)
    } else if k == 7 {
        spell_hit_or_crit_school(g, st, data, ts)
    } else if k == 8 {
        damage_periodic(g, st, data, ts)
    } else if k == 9 {
        spell_split(g, st, data, ts)
    } else if k == 10 {
        spell_plain(g, st, data, ts, hit_type_mask(HitType::Miss), false)
    } else if k == 11 {
        spell_avoided(g, st, data, ts)
    } else if k == 12 {
        spell_plain(g, st, data, ts, hit_type_mask(HitType::FullAbsorb), false)
    } else if k == 13 {
        spell_plain(g, st, data, ts, hit_type_mask(HitType::FullAbsorb), true)
    } else if k == 14 {
        spell_plain(g, st, data, ts, hit_type_mask(HitType::Reflect), false)
    } else if k == 15 {
        spell_plain(g, st, data, ts, hit_type_mask(HitType::FullResist), true)
    } else if k == 16 {
        spell_plain(g, st, data, ts, hit_type_mask(HitType::Immune), false)
    } else if k == 17 {
        damage_shield(g, st, data, ts)
    } else if k == 18 {
        heal_periodic(g, st, data, ts)
    } else if k == 19 {
        aura_gain(g, st, data, ts)
    } else if k == 20 {
        aura_fade(g, st, data, ts)
    } else if k == 21 {
        aura_dispel(g, st, data, ts)
    } else if k == 22 {
        aura_interrupt(g, st, data, ts)
    } else if k == 23 {
        spell_cast_perform(g, st, data, ts)
    } else if k == 24 {
        spell_cast_perform_unknown(g, st, data, ts)
    } else if k == 25 {
        unit_die(g, st, data, ts)
    } else if k == 26 {
        unit_slay(g, st, data, ts)
    } else if k == 27 {
        loot(g, st, data, ts)
    } else if k == 28 {
        zone_info(g, st, data, ts)
    } else {
        heal_hit_or_crit(g, st, data, ts)
    }
}

/// Whether a line of kind `k` with capture groups `g` cannot be handled: a
/// word that the line's pattern only lets be one of a few is none of them,
/// or a zone line comes while a participant was seen later than the line.
pub open spec fn line_panics(k: int, g: Groups, st: ParserView, data: &Data, ts: u64) -> bool {
    if k == 1 {
        damage_hit_or_crit_school_panics(g)
    } else if k == 3 {
        damage_avoided_panics(g)
    } else if k == 4 {
        damage_negated_panics(g)
    } else if k == 7 {
        spell_hit_or_crit_school_panics(g, data)
    } else if k == 8 || k == 17 {
        school_after_amount_panics(g)
    } else if k == 11 {
        spell_avoided_panics(g, data)
    } else if k == 28 {
        zone_info_panics(g, st, data, ts)
    } else {
        false
    }
}

} // verus!
