use combat_log::dto::{
    AuraApplication, DamageDone, Death, Event, Instance, LiveDataProcessorFailure, Loot, SpellCast, Unit,
};
use combat_log::hit_type::HitType;
use combat_log::message_type::MessageType;
use combat_log::numbers::{parse_u32, parse_u8};
use combat_log::payload::{MapEvent, MapUnit};
use combat_log::school::School;
use combat_log::text::text_is;
use combat_log::text_split::{split_char, starts_with, trim_start_matches};
use combat_log::trailer::parse_trailer;
use combat_log::units::{get_entry, get_hashed_player_unit_id, make_creature_guid};

#[test]
fn hit_type_masks_are_the_wire_values() {
    assert_eq!(HitType::NoHit.to_mask(), 0);
    assert_eq!(HitType::OffHand.to_mask(), 0x1);
    assert_eq!(HitType::Hit.to_mask(), 0x2);
    assert_eq!(HitType::Crit.to_mask(), 0x4);
    assert_eq!(HitType::PartialBlock.to_mask(), 0x20000);
    assert_eq!(HitType::Reflect.to_mask(), 0x100000);
}

#[test]
fn school_masks() {
    assert_eq!(School::Physical.to_mask(), 1);
    assert_eq!(School::Fire.to_mask(), 4);
    assert_eq!(School::Arcane.to_mask(), 64);
}

#[test]
fn extract_subject_of_damage_is_the_attacker() {
    let attacker = Unit { is_player: true, unit_id: 7 };
    let victim = Unit { is_player: false, unit_id: 9 };
    let m = MessageType::MeleeDamage(DamageDone {
        attacker,
        victim,
        spell_id: None,
        hit_mask: 2,
        blocked: 0,
        damage_over_time: false,
        damage_components: vec![],
    });
    assert_eq!(m.extract_subject(), Some(attacker));
}

#[test]
fn extract_subject_of_death_and_aura_and_loot() {
    let u = Unit { is_player: true, unit_id: 3 };
    let v = Unit { is_player: false, unit_id: 4 };
    assert_eq!(MessageType::Death(Death { cause: Some(v), victim: u }).extract_subject(), Some(u));
    let aura = AuraApplication { caster: v, target: u, spell_id: 1, stack_amount: 1, delta: 1 };
    assert_eq!(MessageType::AuraApplication(aura).extract_subject(), Some(u));
    assert_eq!(MessageType::Loot(Loot { unit: u, item_id: 1, count: 1 }).extract_subject(), Some(u));
    let cast = SpellCast { caster: v, target: Some(u), spell_id: 5, hit_mask: 2 };
    assert_eq!(MessageType::SpellCast(cast).extract_subject(), Some(v));
}

#[test]
fn extract_subject_of_pvp_instance_is_none() {
    let i = Instance { map_id: 1, instance_id: 2, winner: None };
    assert_eq!(MessageType::InstancePvPStart(i).extract_subject(), None);
    assert_eq!(MessageType::InstancePvPEndUnratedArena(i).extract_subject(), None);
}

#[test]
fn to_unit_reads_flag_and_little_endian_guid() {
    let bytes: [u8; 9] = [1, 0x01, 0x02, 0, 0, 0, 0, 0, 0xF1];
    let u = bytes[..].to_unit().unwrap();
    assert!(u.is_player);
    assert_eq!(u.unit_id, 0xF100_0000_0000_0201);
    let npc: [u8; 9] = [0, 5, 0, 0, 0, 0, 0, 0, 0];
    assert_eq!(npc[..].to_unit(), Ok(Unit { is_player: false, unit_id: 5 }));
}

#[test]
fn to_unit_refuses_other_lengths() {
    let bytes: [u8; 8] = [0; 8];
    assert_eq!(bytes[..].to_unit(), Err(LiveDataProcessorFailure::InvalidInput));
}

#[test]
fn to_event_maps_ten_bytes() {
    let bytes: [u8; 10] = [1, 0x10, 0, 0, 0, 0, 0, 0, 0, 42];
    assert_eq!(
        bytes[..].to_event(),
        Ok(Event { unit: Unit { is_player: true, unit_id: 0x10 }, event_type: 42 })
    );
}

#[test]
fn to_event_refuses_other_lengths() {
    let short: [u8; 9] = [0; 9];
    assert_eq!(short[..].to_event(), Err(LiveDataProcessorFailure::InvalidInput));
    let long: [u8; 11] = [0; 11];
    assert_eq!(long[..].to_event(), Err(LiveDataProcessorFailure::InvalidInput));
}

#[test]
fn parse_u32_reads_decimal_numbers() {
    assert_eq!(parse_u32("0"), Some(0));
    assert_eq!(parse_u32("1234"), Some(1234));
    assert_eq!(parse_u32("+17"), Some(17));
    assert_eq!(parse_u32("4294967295"), Some(u32::MAX));
    assert_eq!(parse_u32("4294967296"), None);
    assert_eq!(parse_u32(""), None);
    assert_eq!(parse_u32("+"), None);
    assert_eq!(parse_u32("-1"), None);
    assert_eq!(parse_u32("12a"), None);
    for s in ["0", "7", "+42", "99999", "4294967295", "4294967296", "", "x", "1 2"] {
        assert_eq!(parse_u32(s), u32::from_str_radix(s, 10).ok());
    }
}

#[test]
fn parse_u8_reads_small_numbers() {
    assert_eq!(parse_u8("255"), Some(255));
    assert_eq!(parse_u8("256"), None);
    assert_eq!(parse_u8("+3"), Some(3));
    for s in ["0", "12", "255", "256", "", "+", "abc"] {
        assert_eq!(parse_u8(s), u8::from_str_radix(s, 10).ok());
    }
}

#[test]
fn trailer_notes() {
    let t = parse_trailer("(10 resisted) (5 absorbed)");
    assert_eq!(t, vec![(Some(10), HitType::PartialResist), (Some(5), HitType::PartialAbsorb)]);
    let t = parse_trailer("(glancing)");
    assert_eq!(t, vec![(None, HitType::Glancing)]);
    let t = parse_trailer("(crushing) (20 blocked)");
    assert_eq!(t, vec![(None, HitType::Crushing), (Some(20), HitType::PartialBlock)]);
    assert_eq!(parse_trailer(""), vec![]);
    assert_eq!(parse_trailer("(unknown) (x resisted) (3 dodged) (4 resisted"), vec![]);
}

#[test]
fn text_helpers() {
    assert!(text_is("abc", "abc"));
    assert!(!text_is("abc", "abd"));
    assert!(starts_with("COMBATANT_INFO: x", "COMBATANT_INFO:"));
    assert!(!starts_with("COMBAT", "COMBATANT_INFO:"));
    assert_eq!(trim_start_matches("ab ab ab x", "ab "), "x");
    assert_eq!(split_char("a&b&&c", '&'), vec!["a", "b", "", "c"]);
    assert_eq!(split_char("", '&'), vec![""]);
}

#[test]
fn player_ids_are_hashes_below_two_to_the_32() {
    let a = get_hashed_player_unit_id("Alice");
    assert_eq!(a, get_hashed_player_unit_id("Alice"));
    assert_ne!(a, get_hashed_player_unit_id("Bob"));
    assert!(a < 0x1_0000_0000);
    assert_eq!(get_hashed_player_unit_id(""), 2166136261);
    assert_eq!(get_hashed_player_unit_id("a"), 0xe40c292c);
    assert_eq!(get_entry(a), None);
}

#[test]
fn creature_guid_carries_its_entry() {
    let g = make_creature_guid(15990);
    assert_eq!(g, 0xF130_0000_0000_0000 | (15990u64 << 24));
    assert_eq!(get_entry(g), Some(15990));
    assert_eq!(get_entry(0xF140_0000_0A00_0000), Some(0xA));
}
