use vstd::prelude::*;
use crate::character::{gear_matches, CharacterGearDto, CharacterItemDto};
use crate::combatant::{gender_of, hero_class_of, race_of};
use crate::data::Data;
use crate::dto::{InstanceMap, AuraApplication, DamageDoneView, Death, HealDone, Instance, Interrupt, Loot, SpellCast, Summon, UnAura, Unit};
use crate::hit_type::{hit_type_mask, HitType};
use crate::line_spec::{
    caster_spell, group, heal_mask, hit_or_crit_mask, line_outcome, melee_avoid_word, melee_negate_word, school_of_word,
    spell_avoid_word, Groups,
};
use crate::message_type::{message_subject, MessageView};
use crate::pets::{corrected_message, corrected_unit, has_pet, needs_correction};
use crate::post::dispel_step;
use crate::line_spec::zone_messages;
use crate::message_type::MessageRecord;
use crate::data::find_npc;
use crate::units::guid_entry;
use crate::post::summon_records;
use crate::school::{school_mask, School};
use crate::state::{GearSlot, ParserView, ParticipantView};
use crate::units::{spell_of_name, unit_of_name};
use crate::numbers::parse_u32_spec;
use crate::trailer::{index_of_from, trailer_item};

verus! {

/// The class words of a combatant line name the game's class ids: Warrior
/// 1, Paladin 2, Hunter 3, Rogue 4, Priest 5, Shaman 7, Mage 8, Warlock 9,
/// Druid 11; no other word is a class, and no two words share an id.
pub proof fn lemma_class_ids(w1: Seq<char>, w2: Seq<char>)
    ensures
        hero_class_of("Warrior"@) == Some(1u8),
        hero_class_of("Paladin"@) == Some(2u8),
        hero_class_of("Hunter"@) == Some(3u8),
        hero_class_of("Rogue"@) == Some(4u8),
        hero_class_of("Priest"@) == Some(5u8),
        hero_class_of("Shaman"@) == Some(7u8),
        hero_class_of("Mage"@) == Some(8u8),
        hero_class_of("Warlock"@) == Some(9u8),
        hero_class_of("Druid"@) == Some(11u8),
        hero_class_of(w1) is Some && hero_class_of(w1) == hero_class_of(w2) ==> w1 == w2,
{
    reveal_strlit("Warrior");
    assert("Warrior"@.len() == 7);
    assert("Warrior"@[0] == 'W');
    assert("Warrior"@[1] == 'a');
    assert("Warrior"@[3] == 'r');
    reveal_strlit("Paladin");
    assert("Paladin"@.len() == 7);
    assert("Paladin"@[0] == 'P');
    assert("Paladin"@[1] == 'a');
    assert("Paladin"@[3] == 'a');
    reveal_strlit("Hunter");
    assert("Hunter"@.len() == 6);
    assert("Hunter"@[0] == 'H');
    assert("Hunter"@[1] == 'u');
    assert("Hunter"@[3] == 't');
    reveal_strlit("Rogue");
    assert("Rogue"@.len() == 5);
    assert("Rogue"@[0] == 'R');
    assert("Rogue"@[1] == 'o');
    assert("Rogue"@[3] == 'u');
    reveal_strlit("Priest");
    assert("Priest"@.len() == 6);
    assert("Priest"@[0] == 'P');
    assert("Priest"@[1] == 'r');
    assert("Priest"@[3] == 'e');
    reveal_strlit("Shaman");
    assert("Shaman"@.len() == 6);
    assert("Shaman"@[0] == 'S');
    assert("Shaman"@[1] == 'h');
    assert("Shaman"@[3] == 'm');
    reveal_strlit("Mage");
    assert("Mage"@.len() == 4);
    assert("Mage"@[0] == 'M');
    assert("Mage"@[1] == 'a');
    assert("Mage"@[3] == 'e');
    reveal_strlit("Warlock");
    assert("Warlock"@.len() == 7);
    assert("Warlock"@[0] == 'W');
    assert("Warlock"@[1] == 'a');
    assert("Warlock"@[3] == 'l');
    reveal_strlit("Druid");
    assert("Druid"@.len() == 5);
    assert("Druid"@[0] == 'D');
    assert("Druid"@[1] == 'r');
    assert("Druid"@[3] == 'i');
}

/// The race words name the game's race ids: Human 1, Orc 2, Dwarf 3, Night
/// Elf 4 (also written NightElf), Undead 5 (also Scourge), Tauren 6, Gnome
/// 7, Troll 8; two words share an id only where they spell one race.
pub proof fn lemma_race_ids(w1: Seq<char>, w2: Seq<char>)
    ensures
        race_of("Human"@) == Some(1u8),
        race_of("Orc"@) == Some(2u8),
        race_of("Dwarf"@) == Some(3u8),
        race_of("Night Elf"@) == Some(4u8),
        race_of("NightElf"@) == Some(4u8),
        race_of("Undead"@) == Some(5u8),
        race_of("Scourge"@) == Some(5u8),
        race_of("Tauren"@) == Some(6u8),
        race_of("Gnome"@) == Some(7u8),
        race_of("Troll"@) == Some(8u8),
        race_of(w1) is Some && race_of(w1) == race_of(w2) && race_of(w1) != Some(4u8) && race_of(w1) != Some(
            5u8,
        ) ==> w1 == w2,
{
    reveal_strlit("Human");
    assert("Human"@.len() == 5);
    assert("Human"@[0] == 'H');
    assert("Human"@[1] == 'u');
    assert("Human"@[3] == 'a');
    reveal_strlit("Orc");
    assert("Orc"@.len() == 3);
    assert("Orc"@[0] == 'O');
    assert("Orc"@[1] == 'r');
    reveal_strlit("Dwarf");
    assert("Dwarf"@.len() == 5);
    assert("Dwarf"@[0] == 'D');
    assert("Dwarf"@[1] == 'w');
    assert("Dwarf"@[3] == 'r');
    reveal_strlit("Night Elf");
    assert("Night Elf"@.len() == 9);
    assert("Night Elf"@[0] == 'N');
    assert("Night Elf"@[1] == 'i');
    assert("Night Elf"@[3] == 'h');
    assert("Night Elf"@[5] == ' ');
    reveal_strlit("NightElf");
    assert("NightElf"@.len() == 8);
    assert("NightElf"@[0] == 'N');
    assert("NightElf"@[1] == 'i');
    assert("NightElf"@[3] == 'h');
    assert("NightElf"@[5] == 'E');
    reveal_strlit("Undead");
    assert("Undead"@.len() == 6);
    assert("Undead"@[0] == 'U');
    assert("Undead"@[1] == 'n');
    assert("Undead"@[3] == 'e');
    reveal_strlit("Scourge");
    assert("Scourge"@.len() == 7);
    assert("Scourge"@[0] == 'S');
    assert("Scourge"@[1] == 'c');
    assert("Scourge"@[3] == 'u');
    reveal_strlit("Tauren");
    assert("Tauren"@.len() == 6);
    assert("Tauren"@[0] == 'T');
    assert("Tauren"@[1] == 'a');
    assert("Tauren"@[3] == 'r');
    reveal_strlit("Gnome");
    assert("Gnome"@.len() == 5);
    assert("Gnome"@[0] == 'G');
    assert("Gnome"@[1] == 'n');
    assert("Gnome"@[3] == 'm');
    reveal_strlit("Troll");
    assert("Troll"@.len() == 5);
    assert("Troll"@[0] == 'T');
    assert("Troll"@[1] == 'r');
    assert("Troll"@[3] == 'l');
}

/// The gender word `2` is male (`false`) and `3` female (`true`); any other
/// word gives no gender.
pub proof fn lemma_gender_words(w: Seq<char>)
    ensures
        gender_of("2"@) == Some(false),
        gender_of("3"@) == Some(true),
        w != "2"@ && w != "3"@ ==> gender_of(w) is None,
{
    reveal_strlit("2");
    assert("2"@.len() == 1);
    assert("2"@[0] == '2');
    reveal_strlit("3");
    assert("3"@.len() == 1);
    assert("3"@[0] == '3');
}

/// Each school word names its own school bit: Arcane 64, Fire 4, Frost 16,
/// Shadow 32, Nature 8, Holy 2; no word names the physical school.
pub proof fn lemma_school_words(w1: Seq<char>, w2: Seq<char>)
    ensures
        school_of_word("Arcane"@) matches Some(s) && school_mask(s) == 64,
        school_of_word("Fire"@) matches Some(s) && school_mask(s) == 4,
        school_of_word("Frost"@) matches Some(s) && school_mask(s) == 16,
        school_of_word("Shadow"@) matches Some(s) && school_mask(s) == 32,
        school_of_word("Nature"@) matches Some(s) && school_mask(s) == 8,
        school_of_word("Holy"@) matches Some(s) && school_mask(s) == 2,
        school_of_word(w1) != Some(School::Physical),
        school_of_word(w1) is Some && school_of_word(w1) == school_of_word(w2) ==> w1 == w2,
{
    reveal_strlit("Arcane");
    assert("Arcane"@.len() == 6);
    assert("Arcane"@[0] == 'A');
    assert("Arcane"@[1] == 'r');
    assert("Arcane"@[3] == 'a');
    reveal_strlit("Fire");
    assert("Fire"@.len() == 4);
    assert("Fire"@[0] == 'F');
    assert("Fire"@[1] == 'i');
    assert("Fire"@[3] == 'e');
    reveal_strlit("Frost");
    assert("Frost"@.len() == 5);
    assert("Frost"@[0] == 'F');
    assert("Frost"@[1] == 'r');
    assert("Frost"@[3] == 's');
    reveal_strlit("Shadow");
    assert("Shadow"@.len() == 6);
    assert("Shadow"@[0] == 'S');
    assert("Shadow"@[1] == 'h');
    assert("Shadow"@[3] == 'd');
    reveal_strlit("Nature");
    assert("Nature"@.len() == 6);
    assert("Nature"@[0] == 'N');
    assert("Nature"@[1] == 'a');
    assert("Nature"@[3] == 'u');
    reveal_strlit("Holy");
    assert("Holy"@.len() == 4);
    assert("Holy"@[0] == 'H');
    assert("Holy"@[1] == 'o');
    assert("Holy"@[3] == 'y');
}

/// Each verb of a melee avoidance names its own hit bit: blocks FullBlock
/// 0x40000, parries Parry 0x1000, evades Evade 0x400, dodges Dodge 0x800,
/// deflects Deflect 0x8000; no two verbs give the same bit.
pub proof fn lemma_melee_avoid_words(w1: Seq<char>, w2: Seq<char>)
    ensures
        melee_avoid_word("blocks"@) matches Some(h) && hit_type_mask(h) == 0x40000,
        melee_avoid_word("parries"@) matches Some(h) && hit_type_mask(h) == 0x1000,
        melee_avoid_word("evades"@) matches Some(h) && hit_type_mask(h) == 0x400,
        melee_avoid_word("dodges"@) matches Some(h) && hit_type_mask(h) == 0x800,
        melee_avoid_word("deflects"@) matches Some(h) && hit_type_mask(h) == 0x8000,
        melee_avoid_word(w1) is Some && melee_avoid_word(w1) == melee_avoid_word(w2) ==> w1 == w2,
{
    reveal_strlit("blocks");
    assert("blocks"@.len() == 6);
    assert("blocks"@[0] == 'b');
    assert("blocks"@[1] == 'l');
    assert("blocks"@[3] == 'c');
    reveal_strlit("parries");
    assert("parries"@.len() == 7);
    assert("parries"@[0] == 'p');
    assert("parries"@[1] == 'a');
    assert("parries"@[3] == 'r');
    reveal_strlit("evades");
    assert("evades"@.len() == 6);
    assert("evades"@[0] == 'e');
    assert("evades"@[1] == 'v');
    assert("evades"@[3] == 'd');
    reveal_strlit("dodges");
    assert("dodges"@.len() == 6);
    assert("dodges"@[0] == 'd');
    assert("dodges"@[1] == 'o');
    assert("dodges"@[3] == 'g');
    reveal_strlit("deflects");
    assert("deflects"@.len() == 8);
    assert("deflects"@[0] == 'd');
    assert("deflects"@[1] == 'e');
    assert("deflects"@[3] == 'l');
}

/// A melee line `X attacks. Y <verb>.` with an avoidance verb is one melee
/// damage of X on Y without damage, whose hit mask is the verb's bit alone.
pub proof fn lemma_melee_avoid_line(g: Groups, st: ParserView, data: &Data, ts: u64)
    requires
        group(g, 1) is Some,
        group(g, 2) is Some,
        group(g, 3) matches Some(w) && melee_avoid_word(w) is Some,
    ensures
        ({
            let ms = line_outcome(3, g, st, data, ts).1;
            &&& ms is Some
            &&& ms.unwrap().len() == 1
            &&& ms.unwrap()[0] matches MessageView::MeleeDamage(d)
            &&& d.attacker == unit_of_name(data, group(g, 1).unwrap())
            &&& d.victim == unit_of_name(data, group(g, 2).unwrap())
            &&& d.spell_id is None
            &&& d.blocked == 0
            &&& d.damage_components.len() == 0
            &&& d.hit_mask == hit_type_mask(melee_avoid_word(group(g, 3).unwrap()).unwrap())
        }),
{
}

/// A melee attack whose damage is all taken away: absorbs FullAbsorb 0x80,
/// resists FullResist 0x10.
pub proof fn lemma_melee_negate_words(w1: Seq<char>, w2: Seq<char>)
    ensures
        melee_negate_word("absorbs"@) matches Some(h) && hit_type_mask(h) == 0x80,
        melee_negate_word("resists"@) matches Some(h) && hit_type_mask(h) == 0x10,
        melee_negate_word(w1) is Some && melee_negate_word(w1) == melee_negate_word(w2) ==> w1 == w2,
{
    reveal_strlit("absorbs");
    assert("absorbs"@.len() == 7);
    assert("absorbs"@[0] == 'a');
    assert("absorbs"@[1] == 'b');
    assert("absorbs"@[3] == 'o');
    reveal_strlit("resists");
    assert("resists"@.len() == 7);
    assert("resists"@[0] == 'r');
    assert("resists"@[1] == 'e');
    assert("resists"@[3] == 'i');
}

/// Each verb of a spell avoidance names its own hit bit: blocked 0x40000,
/// parried 0x1000, evaded 0x400, dodged 0x800, deflected 0x8000, resisted
/// 0x10; no two verbs give the same bit.
pub proof fn lemma_spell_avoid_words(w1: Seq<char>, w2: Seq<char>)
    ensures
        spell_avoid_word("blocked"@) matches Some(h) && hit_type_mask(h) == 0x40000,
        spell_avoid_word("parried"@) matches Some(h) && hit_type_mask(h) == 0x1000,
        spell_avoid_word("evaded"@) matches Some(h) && hit_type_mask(h) == 0x400,
        spell_avoid_word("dodged"@) matches Some(h) && hit_type_mask(h) == 0x800,
        spell_avoid_word("deflected"@) matches Some(h) && hit_type_mask(h) == 0x8000,
        spell_avoid_word("resisted"@) matches Some(h) && hit_type_mask(h) == 0x10,
        spell_avoid_word(w1) is Some && spell_avoid_word(w1) == spell_avoid_word(w2) ==> w1 == w2,
{
    reveal_strlit("blocked");
    assert("blocked"@.len() == 7);
    assert("blocked"@[0] == 'b');
    assert("blocked"@[1] == 'l');
    assert("blocked"@[3] == 'c');
    reveal_strlit("parried");
    assert("parried"@.len() == 7);
    assert("parried"@[0] == 'p');
    assert("parried"@[1] == 'a');
    assert("parried"@[3] == 'r');
    reveal_strlit("evaded");
    assert("evaded"@.len() == 6);
    assert("evaded"@[0] == 'e');
    assert("evaded"@[1] == 'v');
    assert("evaded"@[3] == 'd');
    reveal_strlit("dodged");
    assert("dodged"@.len() == 6);
    assert("dodged"@[0] == 'd');
    assert("dodged"@[1] == 'o');
    assert("dodged"@[3] == 'g');
    reveal_strlit("deflected");
    assert("deflected"@.len() == 9);
    assert("deflected"@[0] == 'd');
    assert("deflected"@[1] == 'e');
    assert("deflected"@[3] == 'l');
    reveal_strlit("resisted");
    assert("resisted"@.len() == 8);
    assert("resisted"@[0] == 'r');
    assert("resisted"@[1] == 'e');
    assert("resisted"@[3] == 'i');
}

/// A hit is critical (0x4) exactly for `cr`, else plain (0x2); a heal is
/// critical exactly for `critically heals`, else plain.
pub proof fn lemma_hit_and_heal_words(w: Seq<char>)
    ensures
        hit_or_crit_mask(w) == (if w == "cr"@ { 0x4u32 } else { 0x2u32 }),
        heal_mask(w) == (if w == "critically heals"@ { 0x4u32 } else { 0x2u32 }),
{
}

/// The item of a gear slot of a build, as a slot.
pub open spec fn item_slot(d: Option<CharacterItemDto>) -> GearSlot {
    match d {
        Some(x) => Some((x.item_id, x.enchant_id)),
        None => None,
    }
}

/// The gear of a build in the order of the combat log: head, neck,
/// shoulder, shirt, chest, belt, leg, boot, wrist, glove, two rings, two
/// trinkets, back, main hand, off hand, ranged, tabard.
pub open spec fn gear_in_log_order(g: CharacterGearDto) -> Seq<GearSlot> {
    seq![
        item_slot(g.head),
        item_slot(g.neck),
        item_slot(g.shoulder),
        item_slot(g.shirt),
        item_slot(g.chest),
        item_slot(g.belt),
        item_slot(g.leg),
        item_slot(g.boot),
        item_slot(g.wrist),
        item_slot(g.glove),
        item_slot(g.ring1),
        item_slot(g.ring2),
        item_slot(g.trinket1),
        item_slot(g.trinket2),
        item_slot(g.back),
        item_slot(g.main_hand),
        item_slot(g.off_hand),
        item_slot(g.ternary_hand),
        item_slot(g.tabard),
    ]
}

/// The gear of a build is the gear setup it was made from, slot by slot in
/// the order of the combat log.
pub proof fn lemma_gear_in_log_order(g: CharacterGearDto, s: Seq<GearSlot>)
    requires
        s.len() == 19,
        gear_matches(g, Some(s)),
    ensures
        gear_in_log_order(g) == s,
{
    assert(gear_in_log_order(g) =~= s);
}

/// A pet that keeps no id of its own takes the pet id
/// `0xF14000FFFF000000 + (id | 0xFFFFFF)` as an NPC, on either side of a
/// damage message; and the correction treats both sides alike, so swapping
/// attacker and victim before it swaps them after it.
pub proof fn lemma_damage_correction(data: &Data, po: Seq<(u64, u64)>, d: DamageDoneView, spell: bool)
    ensures
        ({
            let m = if spell { MessageView::SpellDamage(d) } else { MessageView::MeleeDamage(d) };
            let sw = DamageDoneView { attacker: d.victim, victim: d.attacker, ..d };
            let ms = if spell { MessageView::SpellDamage(sw) } else { MessageView::MeleeDamage(sw) };
            let pet = |u: Unit| Unit { is_player: false, unit_id: (0xF14000FFFF000000 + (u.unit_id | 0xFFFFFFu64)) as u64 };
            match (corrected_message(data, po, m), corrected_message(data, po, ms)) {
                (MessageView::MeleeDamage(x), MessageView::MeleeDamage(y)) => !spell && x.victim == y.attacker
                    && x.attacker == y.victim && (needs_correction(data, po, d.victim) ==> x.victim == pet(d.victim))
                    && (needs_correction(data, po, d.attacker) ==> x.attacker == pet(d.attacker))
                    && (!needs_correction(data, po, d.victim) ==> x.victim == d.victim)
                    && (!needs_correction(data, po, d.attacker) ==> x.attacker == d.attacker),
                (MessageView::SpellDamage(x), MessageView::SpellDamage(y)) => spell && x.victim == y.attacker
                    && x.attacker == y.victim && (needs_correction(data, po, d.victim) ==> x.victim == pet(d.victim))
                    && (needs_correction(data, po, d.attacker) ==> x.attacker == pet(d.attacker))
                    && (!needs_correction(data, po, d.victim) ==> x.victim == d.victim)
                    && (!needs_correction(data, po, d.attacker) ==> x.attacker == d.attacker),
                _ => false,
            }
        }),
{
}

/// A heal's caster and target are corrected alike: swapping them before the
/// correction swaps them after it.
pub proof fn lemma_heal_correction(data: &Data, po: Seq<(u64, u64)>, h: HealDone)
    ensures
        corrected_message(data, po, MessageView::Heal(h)) matches MessageView::Heal(x)
            && corrected_message(data, po, MessageView::Heal(HealDone { caster: h.target, target: h.caster, ..h }))
            matches MessageView::Heal(y) && x.caster == y.target && x.target == y.caster,
{
}

/// The subject of a message is the unit that acts: the attacker of damage,
/// the caster of a heal or a cast, so a heal or damage has the subject of
/// the cast that goes with it; a heal's target is its subject only where it
/// is its own caster.
pub proof fn lemma_subject_is_the_actor(h: HealDone, d: DamageDoneView, c: SpellCast, u: UnAura)
    ensures
        message_subject(MessageView::Heal(h)) == Some(h.caster),
        message_subject(MessageView::Heal(h)) == message_subject(
            MessageView::SpellCast(SpellCast { caster: h.caster, target: Some(h.target), spell_id: h.spell_id, hit_mask: h.hit_mask }),
        ),
        message_subject(MessageView::MeleeDamage(d)) == Some(d.attacker),
        message_subject(MessageView::SpellDamage(d)) == message_subject(
            MessageView::SpellCast(SpellCast { caster: d.attacker, target: Some(d.victim), spell_id: c.spell_id, hit_mask: d.hit_mask }),
        ),
        message_subject(MessageView::SpellCast(c)) == Some(c.caster),
        message_subject(MessageView::Dispel(u)) == Some(u.un_aura_caster),
        h.caster != h.target ==> message_subject(MessageView::Heal(h)) != Some(h.target),
{
}

/// The wire value of every hit type and every school: the bits of the
/// combat log's hit and school masks.
pub proof fn lemma_wire_values()
    ensures
        hit_type_mask(HitType::NoHit) == 0x0,
        hit_type_mask(HitType::OffHand) == 0x1,
        hit_type_mask(HitType::Hit) == 0x2,
        hit_type_mask(HitType::Crit) == 0x4,
        hit_type_mask(HitType::PartialResist) == 0x8,
        hit_type_mask(HitType::FullResist) == 0x10,
        hit_type_mask(HitType::Miss) == 0x20,
        hit_type_mask(HitType::PartialAbsorb) == 0x40,
        hit_type_mask(HitType::FullAbsorb) == 0x80,
        hit_type_mask(HitType::Glancing) == 0x100,
        hit_type_mask(HitType::Crushing) == 0x200,
        hit_type_mask(HitType::Evade) == 0x400,
        hit_type_mask(HitType::Dodge) == 0x800,
        hit_type_mask(HitType::Parry) == 0x1000,
        hit_type_mask(HitType::Immune) == 0x2000,
        hit_type_mask(HitType::Environment) == 0x4000,
        hit_type_mask(HitType::Deflect) == 0x8000,
        hit_type_mask(HitType::Interrupt) == 0x10000,
        hit_type_mask(HitType::PartialBlock) == 0x20000,
        hit_type_mask(HitType::FullBlock) == 0x40000,
        hit_type_mask(HitType::Split) == 0x80000,
        hit_type_mask(HitType::Reflect) == 0x100000,
        school_mask(School::Physical) == 0x1,
        school_mask(School::Holy) == 0x2,
        school_mask(School::Fire) == 0x4,
        school_mask(School::Nature) == 0x8,
        school_mask(School::Frost) == 0x10,
        school_mask(School::Shadow) == 0x20,
        school_mask(School::Arcane) == 0x40,
{
}

/// The summon message of the `i`-th pet: its owner as a player and the pet
/// as an NPC with the pet id `0xF14000FFFF000000 + (id | 0xFFFFFF)`, at
/// time 0.
pub proof fn lemma_summon_record(po: Seq<(u64, u64)>, i: int)
    requires
        0 <= i < po.len(),
    ensures
        summon_records(po).len() == po.len(),
        summon_records(po)[i].timestamp == 0,
        summon_records(po)[i].message_type == MessageView::Summon(
            Summon {
                owner: Unit { is_player: true, unit_id: po[i].1 },
                unit: Unit { is_player: false, unit_id: (0xF14000FFFF000000 + (po[i].0 | 0xFFFFFFu64)) as u64 },
            },
        ),
{
}

/// The subject of a death is the one who died, of an aura application and
/// an interrupt the unit it lands on, of loot the receiver, of a summon the
/// summoned unit, and a PvP instance message has none.
pub proof fn lemma_subject_of_the_rest(
    de: Death,
    a: AuraApplication,
    i: Interrupt,
    l: Loot,
    su: Summon,
    ins: Instance,
)
    ensures
        message_subject(MessageView::Death(de)) == Some(de.victim),
        message_subject(MessageView::AuraApplication(a)) == Some(a.target),
        message_subject(MessageView::Interrupt(i)) == Some(i.target),
        message_subject(MessageView::Loot(l)) == Some(l.unit),
        message_subject(MessageView::Summon(su)) == Some(su.unit),
        message_subject(MessageView::InstancePvPStart(ins)) is None,
{
}

/// `V suffers N School damage from A's Spell.`: A's spell is cast on V and
/// hurts V for N of that school; A is the attacker, V the victim.
pub proof fn lemma_periodic_damage_roles(g: Groups, st: ParserView, data: &Data, ts: u64)
    requires
        group(g, 1) is Some && group(g, 4) is Some && group(g, 6) is Some,
        group(g, 2) matches Some(d) && parse_u32_spec(d) is Some,
        group(g, 3) matches Some(w) && school_of_word(w) is Some,
        group(g, 5) matches Some(sn) && spell_of_name(data, sn) is Some,
    ensures
        ({
            let ms = line_outcome(8, g, st, data, ts).1;
            let a = unit_of_name(data, group(g, 4).unwrap());
            let v = unit_of_name(data, group(g, 1).unwrap());
            let spell = spell_of_name(data, group(g, 5).unwrap()).unwrap();
            &&& ms is Some
            &&& ms.unwrap().len() == 2
            &&& ms.unwrap()[0] matches MessageView::SpellCast(c)
            &&& c.caster == a && c.target == Some(v) && c.spell_id == spell
            &&& ms.unwrap()[1] matches MessageView::SpellDamage(x)
            &&& x.attacker == a && x.victim == v && x.spell_id == Some(spell)
            &&& x.damage_components.len() == 1
            &&& x.damage_components[0].damage == parse_u32_spec(group(g, 2).unwrap()).unwrap()
            &&& x.damage_components[0].school_mask == school_mask(school_of_word(group(g, 3).unwrap()).unwrap())
        }),
{
}

/// `C's Spell heals T for N.`: a cast of the spell by C on T and a heal of N
/// by C on T, critical (0x4) for `critically heals`, else plain (0x2).
pub proof fn lemma_heal_roles(g: Groups, st: ParserView, data: &Data, ts: u64)
    requires
        group(g, 1) is Some && group(g, 3) is Some && group(g, 4) is Some,
        group(g, 2) matches Some(sn) && spell_of_name(data, sn) is Some,
        group(g, 5) matches Some(d) && parse_u32_spec(d) is Some,
    ensures
        ({
            let ms = line_outcome(29, g, st, data, ts).1;
            let c = unit_of_name(data, group(g, 1).unwrap());
            let t = unit_of_name(data, group(g, 4).unwrap());
            let n = parse_u32_spec(group(g, 5).unwrap()).unwrap();
            let mask: u32 = if group(g, 3).unwrap() == "critically heals"@ { 4 } else { 2 };
            &&& ms is Some
            &&& ms.unwrap().len() == 2
            &&& ms.unwrap()[0] matches MessageView::SpellCast(x)
            &&& x.caster == c && x.target == Some(t) && x.hit_mask == mask
            &&& ms.unwrap()[1] matches MessageView::Heal(h)
            &&& h.caster == c && h.target == t && h.total_heal == n && h.effective_heal == n && h.absorb == 0
            &&& h.hit_mask == mask
            &&& h.spell_id == spell_of_name(data, group(g, 2).unwrap()).unwrap()
        }),
{
}

/// `T gains N health from C's Spell.`: C heals T for N.
pub proof fn lemma_periodic_heal_roles(g: Groups, st: ParserView, data: &Data, ts: u64)
    requires
        group(g, 1) is Some && group(g, 3) is Some,
        group(g, 2) matches Some(d) && parse_u32_spec(d) is Some,
        group(g, 4) matches Some(sn) && spell_of_name(data, sn) is Some,
    ensures
        ({
            let ms = line_outcome(18, g, st, data, ts).1;
            &&& ms is Some
            &&& ms.unwrap().len() == 2
            &&& ms.unwrap()[1] matches MessageView::Heal(h)
            &&& h.caster == unit_of_name(data, group(g, 3).unwrap())
            &&& h.target == unit_of_name(data, group(g, 1).unwrap())
            &&& h.total_heal == parse_u32_spec(group(g, 2).unwrap()).unwrap()
        }),
{
}

/// `Spell fades from T.`: one stack of the spell's aura leaves T.
pub proof fn lemma_aura_fade_roles(g: Groups, st: ParserView, data: &Data, ts: u64)
    requires
        group(g, 2) is Some,
        group(g, 1) matches Some(sn) && spell_of_name(data, sn) is Some,
    ensures
        ({
            let ms = line_outcome(20, g, st, data, ts).1;
            &&& ms is Some
            &&& ms.unwrap().len() == 1
            &&& ms.unwrap()[0] matches MessageView::AuraApplication(x)
            &&& x.target == unit_of_name(data, group(g, 2).unwrap())
            &&& x.spell_id == spell_of_name(data, group(g, 1).unwrap()).unwrap()
            &&& x.stack_amount == 0 && x.delta == -1
        }),
{
}

/// `C casts Spell on T.` and `C casts Spell.`: a cast of the spell by C, on
/// T where a target is named.
pub proof fn lemma_cast_roles(g: Groups, st: ParserView, data: &Data, ts: u64)
    requires
        group(g, 1) is Some,
        group(g, 3) matches Some(sn) && spell_of_name(data, sn) is Some,
    ensures
        ({
            let ms = line_outcome(24, g, st, data, ts).1;
            &&& ms is Some
            &&& ms.unwrap() == seq![
                MessageView::SpellCast(
                    SpellCast {
                        caster: unit_of_name(data, group(g, 1).unwrap()),
                        target: None,
                        spell_id: spell_of_name(data, group(g, 3).unwrap()).unwrap(),
                        hit_mask: 2,
                    },
                ),
            ]
        }),
        group(g, 4) is Some ==> ({
            let ms = line_outcome(23, g, st, data, ts).1;
            &&& ms is Some
            &&& ms.unwrap() == seq![
                MessageView::SpellCast(
                    SpellCast {
                        caster: unit_of_name(data, group(g, 1).unwrap()),
                        target: Some(unit_of_name(data, group(g, 4).unwrap())),
                        spell_id: spell_of_name(data, group(g, 3).unwrap()).unwrap(),
                        hit_mask: 2,
                    },
                ),
            ]
        }),
{
}

/// `V dies.` is a death without cause; `V is slain by K!` and
/// `V is killed by K.` are deaths of V caused by K.
pub proof fn lemma_death_roles(g: Groups, st: ParserView, data: &Data, ts: u64)
    requires
        group(g, 1) is Some,
    ensures
        line_outcome(25, g, st, data, ts).1 == Some(
            seq![MessageView::Death(Death { cause: None, victim: unit_of_name(data, group(g, 1).unwrap()) })],
        ),
        group(g, 3) is Some ==> line_outcome(26, g, st, data, ts).1 == Some(
            seq![
                MessageView::Death(
                    Death {
                        cause: Some(unit_of_name(data, group(g, 3).unwrap())),
                        victim: unit_of_name(data, group(g, 1).unwrap()),
                    },
                ),
            ],
        ),
{
}

/// `X hits Y for N.` by a name that is no caster's known spell: one melee
/// damage of X on Y for N physical damage, critical (0x4) for `crits`, else
/// plain (0x2), together with the bits of its trailer.
pub proof fn lemma_melee_hit_roles(g: Groups, st: ParserView, data: &Data, ts: u64)
    requires
        group(g, 1) matches Some(a) && caster_spell(data, a) is None,
        group(g, 2) is Some && group(g, 3) is Some && group(g, 5) is Some,
        group(g, 4) matches Some(d) && parse_u32_spec(d) is Some,
    ensures
        ({
            let ms = line_outcome(0, g, st, data, ts).1;
            &&& ms is Some
            &&& ms.unwrap().len() == 1
            &&& ms.unwrap()[0] matches MessageView::MeleeDamage(x)
            &&& x.attacker == unit_of_name(data, group(g, 1).unwrap())
            &&& x.victim == unit_of_name(data, group(g, 3).unwrap())
            &&& x.spell_id is None
            &&& x.hit_mask & (if group(g, 2).unwrap() == "cr"@ { 4u32 } else { 2u32 }) == (if group(g, 2).unwrap()
                == "cr"@ {
                4u32
            } else {
                2u32
            })
            &&& x.damage_components.len() == 1
            &&& x.damage_components[0].damage == parse_u32_spec(group(g, 4).unwrap()).unwrap()
            &&& x.damage_components[0].school_mask == 1
        }),
{
    let w = group(g, 2).unwrap();
    let t = crate::trailer::trailer_spec(group(g, 5).unwrap());
    crate::trailer::lemma_trailer_mask_keeps_bits(hit_or_crit_mask(w), t);
}

proof fn lemma_first_space(s: Seq<char>, at: int, k: int)
    requires
        0 <= k <= at < s.len(),
        s[at] == ' ',
        forall|j: int| k <= j < at ==> s[j] != ' ',
    ensures
        index_of_from(s, ' ', k) == Some(at),
    decreases at - k,
{
    if k < at {
        lemma_first_space(s, at, k + 1);
    }
}

/// The notes of a trailer: `glancing` and `crushing` are the bits of their
/// own name without amount, and a number followed by `resisted`, `absorbed`
/// or `blocked` is a partial resist, absorb or block of that amount.
pub proof fn lemma_trailer_notes(num: Seq<char>)
    requires
        num.len() > 0,
        forall|i: int| 0 <= i < num.len() ==> '0' <= #[trigger] num[i] <= '9',
        parse_u32_spec(num) is Some,
    ensures
        trailer_item("glancing"@) == seq![(None::<u32>, HitType::Glancing)],
        trailer_item("crushing"@) == seq![(None::<u32>, HitType::Crushing)],
        trailer_item(num + " resisted"@) == seq![(parse_u32_spec(num), HitType::PartialResist)],
        trailer_item(num + " absorbed"@) == seq![(parse_u32_spec(num), HitType::PartialAbsorb)],
        trailer_item(num + " blocked"@) == seq![(parse_u32_spec(num), HitType::PartialBlock)],
{
    reveal_strlit("glancing");
    reveal_strlit("crushing");
    reveal_strlit(" resisted");
    reveal_strlit(" absorbed");
    reveal_strlit(" blocked");
    reveal_strlit("resisted");
    reveal_strlit("absorbed");
    reveal_strlit("blocked");
    assert("glancing"@ != "crushing"@) by {
        assert("glancing"@[0] != "crushing"@[0]);
    }
    let words = seq![" resisted"@, " absorbed"@, " blocked"@];
    assert forall|k: int| 0 <= k < 3 implies ({
        let item = num + #[trigger] words[k];
        &&& item != "glancing"@
        &&& item != "crushing"@
        &&& index_of_from(item, ' ', 0) == Some(num.len() as int)
        &&& item.skip(num.len() as int + 1) == words[k].skip(1)
        &&& item.take(num.len() as int) == num
    }) by {
        let item = num + words[k];
        assert(item[0] == num[0]);
        assert('0' <= num[0] <= '9');
        if item == "glancing"@ {
            assert("glancing"@[0] == 'g');
        }
        if item == "crushing"@ {
            assert("crushing"@[0] == 'c');
        }
        assert(item[num.len() as int] == ' ');
        assert forall|j: int| 0 <= j < num.len() implies item[j] != ' ' by {
            assert(item[j] == num[j]);
        }
        lemma_first_space(item, num.len() as int, 0);
        assert(item.skip(num.len() as int + 1) =~= words[k].skip(1));
        assert(item.take(num.len() as int) =~= num);
    }
    assert(words[0].skip(1) =~= "resisted"@);
    assert(words[1].skip(1) =~= "absorbed"@);
    assert(words[2].skip(1) =~= "blocked"@);
    assert("absorbed"@[0] == 'a' && "resisted"@[0] == 'r');
    assert(words[0] == " resisted"@);
    assert(words[1] == " absorbed"@);
    assert(words[2] == " blocked"@);
}

/// A cast on the target of the open dispel within 100 ms of it names the
/// dispel's caster and spell and closes it; a cast more than 100 ms later
/// only closes it.
pub proof fn lemma_dispel_window(s: Seq<MessageRecord>, i: int, j: int, u: UnAura, c: SpellCast)
    requires
        0 <= j < i < s.len(),
        s[j].message_type == MessageView::Dispel(u),
        s[i].message_type == MessageView::SpellCast(c),
        c.target matches Some(t) && t.unit_id == u.target.unit_id,
        s[j].timestamp <= s[i].timestamp,
    ensures
        s[i].timestamp <= s[j].timestamp + 100 ==> dispel_step(s, i, Some(j)).1 is None && dispel_step(s, i, Some(j)).0
            == s.update(
            j,
            MessageRecord {
                message_type: MessageView::Dispel(UnAura { un_aura_caster: c.caster, un_aura_spell_id: c.spell_id, ..u }),
                ..s[j]
            },
        ),
        s[i].timestamp > s[j].timestamp + 100 ==> dispel_step(s, i, Some(j)) == (s, None::<int>),
{
}

/// The zone messages name every participant seen at the zone line's time,
/// in order, and none seen more than two minutes (120000 ms) before it.
pub proof fn lemma_zone_window(ps: Seq<ParticipantView>, map_id: u32, instance_id: u32, ts: u64)
    ensures
        (forall|k: int| 0 <= k < ps.len() ==> #[trigger] ps[k].last_seen == ts) ==> zone_messages(
            ps,
            map_id,
            instance_id,
            ts,
        ) == ps.map_values(
            |p: ParticipantView|
                MessageView::InstanceMap(
                    InstanceMap { map_id, instance_id, map_difficulty: 0, unit: Unit { is_player: p.is_player, unit_id: p.id } },
                ),
        ),
        (forall|k: int| 0 <= k < ps.len() ==> #[trigger] ps[k].last_seen + 120000 < ts) ==> zone_messages(
            ps,
            map_id,
            instance_id,
            ts,
        ).len() == 0,
    decreases ps.len(),
{
    if ps.len() > 0 {
        let pre = ps.drop_last();
        assert forall|k: int| 0 <= k < pre.len() implies pre[k] == ps[k] by {}
        lemma_zone_window(pre, map_id, instance_id, ts);
        let f = |p: ParticipantView|
            MessageView::InstanceMap(
                InstanceMap { map_id, instance_id, map_difficulty: 0, unit: Unit { is_player: p.is_player, unit_id: p.id } },
            );
        if forall|k: int| 0 <= k < ps.len() ==> #[trigger] ps[k].last_seen == ts {
            assert(forall|k: int| 0 <= k < pre.len() ==> #[trigger] pre[k].last_seen == ts) by {
                assert forall|k: int| 0 <= k < pre.len() implies #[trigger] pre[k].last_seen == ts by {
                    assert(pre[k] == ps[k]);
                }
            }
            assert(ps.last().last_seen == ts);
            assert(ps.map_values(f) =~= pre.map_values(f) + seq![f(ps.last())]);
        }
        if forall|k: int| 0 <= k < ps.len() ==> #[trigger] ps[k].last_seen + 120000 < ts {
            assert(forall|k: int| 0 <= k < pre.len() ==> #[trigger] pre[k].last_seen + 120000 < ts) by {
                assert forall|k: int| 0 <= k < pre.len() implies #[trigger] pre[k].last_seen + 120000 < ts by {
                    assert(pre[k] == ps[k]);
                }
            }
            assert(ps.last().last_seen + 120000 < ts);
        }
    }
}

/// Whether a unit id is the GUID of a vanilla NPC that belongs to a map.
pub open spec fn map_bound_npc(data: &Data, id: u64) -> bool {
    match guid_entry(id) {
        Some(e) => match find_npc(data, 1, e) {
            Some(npc) => npc.map_id is Some,
            None => false,
        },
        None => false,
    }
}

/// A unit whose GUID names a vanilla NPC that belongs to a map keeps its id
/// even as a pet; a unit that is no pet is left as it is; a pet that is no
/// NPC (a player name) takes the pet id.
pub proof fn lemma_pet_keeps(data: &Data, po: Seq<(u64, u64)>, u: Unit)
    ensures
        map_bound_npc(data, u.unit_id) ==> corrected_unit(data, po, u) == u,
        !has_pet(po, u.unit_id) ==> corrected_unit(data, po, u) == u,
        has_pet(po, u.unit_id) && guid_entry(u.unit_id) is None ==> corrected_unit(data, po, u) == (Unit {
            is_player: false,
            unit_id: (0xF14000FFFF000000 + (u.unit_id | 0xFFFFFFu64)) as u64,
        }),
{
}

} // verus!
