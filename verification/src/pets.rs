use vstd::prelude::*;
use crate::data::{find_npc, first_index, Data};
use crate::dto::Unit;
use crate::message_type::{MessageType, MessageView};
use crate::state::pet_key;
use crate::units::{get_entry, guid_entry, vanilla_expansion};

verus! {

/// Whether a unit id is a known pet.
pub open spec fn has_pet(po: Seq<(u64, u64)>, id: u64) -> bool {
    first_index(po, pet_key(id)) is Some
}

/// The unit id a pet is given: the pet GUID range with the low 24 bits set.
pub open spec fn pet_unit_id(id: u64) -> int {
    0xF14000FFFF000000 + (id | 0xFFFFFFu64)
}

/// A known NPC that belongs to a map keeps its id even where it is a pet.
pub open spec fn keeps_unit_id(data: &Data, id: u64) -> bool {
    match guid_entry(id) {
        Some(entry) => match find_npc(data, vanilla_expansion(), entry) {
            Some(npc) => npc.map_id is Some,
            None => false,
        },
        None => false,
    }
}

pub open spec fn needs_correction(data: &Data, po: Seq<(u64, u64)>, u: Unit) -> bool {
    has_pet(po, u.unit_id) && !keeps_unit_id(data, u.unit_id)
}

/// A pet that keeps no id of its own becomes an NPC with a pet id.
pub open spec fn corrected_unit(data: &Data, po: Seq<(u64, u64)>, u: Unit) -> Unit {
    if needs_correction(data, po, u) {
        Unit { is_player: false, unit_id: pet_unit_id(u.unit_id) as u64 }
    } else {
        u
    }
}

/// The pet id of a unit to be corrected does not fit in 64 bits.
pub open spec fn correction_overflows(data: &Data, po: Seq<(u64, u64)>, u: Unit) -> bool {
    needs_correction(data, po, u) && pet_unit_id(u.unit_id) > u64::MAX
}

pub open spec fn corrected_opt(data: &Data, po: Seq<(u64, u64)>, u: Option<Unit>) -> Option<Unit> {
    match u {
        Some(x) => Some(corrected_unit(data, po, x)),
        None => None,
    }
}

pub open spec fn opt_overflows(data: &Data, po: Seq<(u64, u64)>, u: Option<Unit>) -> bool {
    match u {
        Some(x) => correction_overflows(data, po, x),
        None => false,
    }
}

/// A message with its pets corrected: the attacker and victim of damage,
/// the unit of an instance map, the target of interrupts, dispels and auras,
/// both sides of a spell steal, a cast or a heal, and the victim and cause
/// of a death. Other messages stay as they are.
pub open spec fn corrected_message(data: &Data, po: Seq<(u64, u64)>, m: MessageView) -> MessageView {
    match m {
        MessageView::MeleeDamage(d) => MessageView::MeleeDamage(
            crate::dto::DamageDoneView {
                attacker: corrected_unit(data, po, d.attacker),
                victim: corrected_unit(data, po, d.victim),
                ..d
            },
        ),
        MessageView::SpellDamage(d) => MessageView::SpellDamage(
            crate::dto::DamageDoneView {
                attacker: corrected_unit(data, po, d.attacker),
                victim: corrected_unit(data, po, d.victim),
                ..d
            },
        ),
        MessageView::InstanceMap(x) => MessageView::InstanceMap(
            crate::dto::InstanceMap { unit: corrected_unit(data, po, x.unit), ..x },
        ),
        MessageView::Interrupt(x) => MessageView::Interrupt(
            crate::dto::Interrupt { target: corrected_unit(data, po, x.target), ..x },
        ),
        MessageView::Dispel(x) => MessageView::Dispel(
            crate::dto::UnAura { target: corrected_unit(data, po, x.target), ..x },
        ),
        MessageView::SpellSteal(x) => MessageView::SpellSteal(
            crate::dto::UnAura {
                un_aura_caster: corrected_unit(data, po, x.un_aura_caster),
                target: corrected_unit(data, po, x.target),
                ..x
            },
        ),
        MessageView::SpellCast(x) => MessageView::SpellCast(
            crate::dto::SpellCast {
                caster: corrected_unit(data, po, x.caster),
                target: corrected_opt(data, po, x.target),
                ..x
            },
        ),
        MessageView::AuraApplication(x) => MessageView::AuraApplication(
            crate::dto::AuraApplication { target: corrected_unit(data, po, x.target), ..x },
        ),
        MessageView::Heal(x) => MessageView::Heal(
            crate::dto::HealDone {
                caster: corrected_unit(data, po, x.caster),
                target: corrected_unit(data, po, x.target),
                ..x
            },
        ),
        MessageView::Death(x) => MessageView::Death(
            crate::dto::Death {
                victim: corrected_unit(data, po, x.victim),
                cause: corrected_opt(data, po, x.cause),
            },
        ),
        _ => m,
    }
}

/// Some unit that the correction of a message touches overflows.
pub open spec fn message_correction_overflows(data: &Data, po: Seq<(u64, u64)>, m: MessageView) -> bool {
    match m {
        MessageView::MeleeDamage(d) => correction_overflows(data, po, d.attacker) || correction_overflows(
            data,
            po,
            d.victim,
        ),
        MessageView::SpellDamage(d) => correction_overflows(data, po, d.attacker) || correction_overflows(
            data,
            po,
            d.victim,
        ),
        MessageView::InstanceMap(x) => correction_overflows(data, po, x.unit),
        MessageView::Interrupt(x) => correction_overflows(data, po, x.target),
        MessageView::Dispel(x) => correction_overflows(data, po, x.target),
        MessageView::SpellSteal(x) => correction_overflows(data, po, x.un_aura_caster)
            || correction_overflows(data, po, x.target),
        MessageView::SpellCast(x) => correction_overflows(data, po, x.caster) || opt_overflows(
            data,
            po,
            x.target,
        ),
        MessageView::AuraApplication(x) => correction_overflows(data, po, x.target),
        MessageView::Heal(x) => correction_overflows(data, po, x.caster) || correction_overflows(
            data,
            po,
            x.target,
        ),
        MessageView::Death(x) => correction_overflows(data, po, x.victim) || opt_overflows(
            data,
            po,
            x.cause,
        ),
        _ => false,
    }
}

/// Whether a unit id is a known pet.
pub fn contains_pet(po: &Vec<(u64, u64)>, id: u64) -> (r: bool)
    ensures
        r == has_pet(po@, id),
{
    let mut i: usize = 0;
    while i < po.len()
        invariant
            i <= po@.len(),
            forall|j: int| 0 <= j < i ==> po@[j].0 != id,
        decreases po@.len() - i,
    {
        if po[i].0 == id {
            proof {
                crate::data::lemma_first_index_unique(po@, pet_key(id), i as int);
            }
            return true;
        }
        i = i + 1;
    }
    proof {
        crate::data::lemma_first_index_none(po@, pet_key(id));
    }
    false
}

/// Gives a pet that keeps no id of its own its pet id.
pub fn correct_pet_unit(data: &Data, unit: &mut Unit, pet_owner: &Vec<(u64, u64)>)
    requires
        !correction_overflows(data, pet_owner@, *old(unit)),
    ensures
        *final(unit) == corrected_unit(data, pet_owner@, *old(unit)),
{
    if contains_pet(pet_owner, unit.unit_id) {
        if let Some(entry) = get_entry(unit.unit_id) {
            if let Some(npc) = data.get_npc(1, entry) {
                if npc.map_id.is_some() {
                    return;
                }
            }
        }
        unit.unit_id = 0xF14000FFFF000000 + (unit.unit_id | 0x0000000000FFFFFF);
        unit.is_player = false;
    }
}

pub fn correct_pet_unit_opt(data: &Data, unit: &mut Option<Unit>, pet_owner: &Vec<(u64, u64)>)
    requires
        !opt_overflows(data, pet_owner@, *old(unit)),
    ensures
        *final(unit) == corrected_opt(data, pet_owner@, *old(unit)),
{
    match unit {
        Some(u) => correct_pet_unit(data, u, pet_owner),
        None => {},
    }
}

/// Corrects the pets of a message.
pub fn correct_message(data: &Data, m: &mut MessageType, pet_owner: &Vec<(u64, u64)>)
    requires
        !message_correction_overflows(data, pet_owner@, old(m)@),
    ensures
        final(m)@ == corrected_message(data, pet_owner@, old(m)@),
{
    match m {
        MessageType::MeleeDamage(d) => {
            correct_pet_unit(data, &mut d.attacker, pet_owner);
            correct_pet_unit(data, &mut d.victim, pet_owner);
        },
        MessageType::SpellDamage(d) => {
            correct_pet_unit(data, &mut d.attacker, pet_owner);
            correct_pet_unit(data, &mut d.victim, pet_owner);
        },
        MessageType::InstanceMap(x) => correct_pet_unit(data, &mut x.unit, pet_owner),
        MessageType::Interrupt(x) => correct_pet_unit(data, &mut x.target, pet_owner),
        MessageType::Dispel(x) => correct_pet_unit(data, &mut x.target, pet_owner),
        MessageType::SpellSteal(x) => {
            correct_pet_unit(data, &mut x.un_aura_caster, pet_owner);
            correct_pet_unit(data, &mut x.target, pet_owner);
        },
        MessageType::SpellCast(x) => {
            correct_pet_unit(data, &mut x.caster, pet_owner);
            correct_pet_unit_opt(data, &mut x.target, pet_owner);
        },
        MessageType::AuraApplication(x) => correct_pet_unit(data, &mut x.target, pet_owner),
        MessageType::Heal(x) => {
            correct_pet_unit(data, &mut x.caster, pet_owner);
            correct_pet_unit(data, &mut x.target, pet_owner);
        },
        MessageType::Death(x) => {
            correct_pet_unit(data, &mut x.victim, pet_owner);
            correct_pet_unit_opt(data, &mut x.cause, pet_owner);
        },
        _ => {},
    }
}

} // verus!
