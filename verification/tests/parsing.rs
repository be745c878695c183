use combat_log::data::{Data, MapInfo, SpellName, NPC};
use combat_log::dto::{
    AuraApplication, DamageComponent, DamageDone, Death, InstanceMap, Loot, SpellCast, UnAura, Unit,
};
use combat_log::message_type::{Message, MessageType};
use combat_log::state::WoWVanillaParser;
use combat_log::units::{get_hashed_player_unit_id, make_creature_guid};

fn data() -> Data {
    Data {
        spells: vec![],
        power_types: vec![],
        localizations: vec![],
        icons: vec![],
        spell_descriptions: vec![],
        spell_names: vec![
            SpellName { expansion_id: 1, spell_id: 133, name: "Fireball".to_string() },
            SpellName { expansion_id: 1, spell_id: 1459, name: "Arcane Intellect".to_string() },
        ],
        maps: vec![MapInfo { id: 409, name: "Molten Core".to_string() }],
        npcs: vec![
            NPC { expansion_id: 1, id: 11502, name: "Ragnaros".to_string(), map_id: Some(409) },
            NPC { expansion_id: 1, id: 12345, name: "Wolf".to_string(), map_id: None },
        ],
    }
}

fn alice() -> Unit {
    Unit { is_player: true, unit_id: get_hashed_player_unit_id("Alice") }
}

fn ragnaros() -> Unit {
    Unit { is_player: false, unit_id: make_creature_guid(11502) }
}

fn parser() -> WoWVanillaParser {
    WoWVanillaParser::new(7).expect("the line patterns compile")
}

fn melee(m: &MessageType) -> &DamageDone {
    match m {
        MessageType::MeleeDamage(d) => d,
        other => panic!("expected melee damage, got {:?}", other),
    }
}

#[test]
fn new_parser_knows_nothing() {
    let mut p = parser();
    assert_eq!(p.get_server_id(), Some(7));
    assert!(p.get_participants().is_empty());
    assert!(p.get_active_maps().is_empty());
    assert_eq!(p.get_expansion_id(), 1);
}

#[test]
fn melee_hit_line() {
    let d = data();
    let mut p = parser();
    let r = p.parse_cbl_line(&d, 1000, "Alice hits Ragnaros for 100.").unwrap();
    assert_eq!(r.len(), 1);
    let m = melee(&r[0]);
    assert_eq!(m.attacker, alice());
    assert_eq!(m.victim, ragnaros());
    assert_eq!(m.spell_id, None);
    assert_eq!(m.hit_mask, 0x2);
    assert_eq!(m.blocked, 0);
    assert!(!m.damage_over_time);
    assert_eq!(
        m.damage_components,
        vec![DamageComponent { school_mask: 1, damage: 100, resisted_or_glanced: 0, absorbed: 0 }]
    );
    let ps = p.get_participants();
    assert_eq!(ps.len(), 2);
    assert_eq!(ps[0].name, "Alice");
    assert!(ps[0].is_player);
    assert_eq!(ps[1].id, ragnaros().unit_id);
    assert_eq!(ps[1].last_seen, 1000);
    let maps = p.get_active_maps();
    assert_eq!(maps.len(), 1);
    assert_eq!(maps[0].map_id, 409);
}

#[test]
fn melee_crit_with_trailer() {
    let d = data();
    let mut p = parser();
    let r = p.parse_cbl_line(&d, 5, "Alice crits Ragnaros for 250. (10 resisted) (glancing) (7 blocked)").unwrap();
    let m = melee(&r[0]);
    assert_eq!(m.hit_mask, 0x4 | 0x8 | 0x100 | 0x20000);
    assert_eq!(m.blocked, 7);
    assert_eq!(m.damage_components[0].resisted_or_glanced, 10);
    assert_eq!(m.damage_components[0].absorbed, 0);
    assert_eq!(m.damage_components[0].damage, 250);
}

#[test]
fn spell_school_line_is_a_cast_and_spell_damage() {
    let d = data();
    let mut p = parser();
    let r = p.parse_cbl_line(&d, 5, "Alice's Fireball hits Ragnaros for 500 Fire damage.").unwrap();
    assert_eq!(r.len(), 2);
    assert_eq!(
        r[0],
        MessageType::SpellCast(SpellCast { caster: alice(), target: Some(ragnaros()), spell_id: 133, hit_mask: 0x2 })
    );
    match &r[1] {
        MessageType::SpellDamage(dd) => {
            assert_eq!(dd.attacker, alice());
            assert_eq!(dd.victim, ragnaros());
            assert_eq!(dd.spell_id, Some(133));
            assert_eq!(dd.hit_mask, 0x2);
            assert_eq!(
                dd.damage_components,
                vec![DamageComponent { school_mask: 4, damage: 500, resisted_or_glanced: 0, absorbed: 0 }]
            );
        },
        other => panic!("unexpected {:?}", other),
    }
}

#[test]
fn melee_miss_and_parry() {
    let d = data();
    let mut p = parser();
    let r = p.parse_cbl_line(&d, 5, "Alice misses Ragnaros.").unwrap();
    assert_eq!(melee(&r[0]).hit_mask, 0x20);
    assert!(melee(&r[0]).damage_components.is_empty());
    let r = p.parse_cbl_line(&d, 6, "Ragnaros attacks. Alice parries.").unwrap();
    assert_eq!(melee(&r[0]).hit_mask, 0x1000);
    assert_eq!(melee(&r[0]).attacker, ragnaros());
    assert_eq!(melee(&r[0]).victim, alice());
    let r = p.parse_cbl_line(&d, 7, "Ragnaros attacks. Alice absorbs all the damage.").unwrap();
    assert_eq!(melee(&r[0]).hit_mask, 0x80);
    let r = p.parse_cbl_line(&d, 8, "Ragnaros attacks but Alice is immune.").unwrap();
    assert_eq!(melee(&r[0]).hit_mask, 0x2000);
}

#[test]
fn periodic_damage_line() {
    let d = data();
    let mut p = parser();
    let r = p.parse_cbl_line(&d, 5, "Ragnaros suffers 30 Fire damage from Alice's Fireball.").unwrap();
    assert_eq!(r.len(), 2);
    assert_eq!(
        r[0],
        MessageType::SpellCast(SpellCast { caster: alice(), target: Some(ragnaros()), spell_id: 133, hit_mask: 0x2 })
    );
    match &r[1] {
        MessageType::SpellDamage(dd) => {
            assert_eq!(dd.attacker, alice());
            assert_eq!(dd.victim, ragnaros());
            assert_eq!(dd.spell_id, Some(133));
            assert_eq!(dd.damage_components[0].school_mask, 4);
            assert_eq!(dd.damage_components[0].damage, 30);
        },
        other => panic!("unexpected {:?}", other),
    }
    let ps = p.get_participants();
    assert_eq!(ps[0].id, alice().unit_id);
    assert_eq!(ps[0].name, "Alice");
    assert_eq!(ps[1].id, ragnaros().unit_id);
    assert_eq!(ps[1].name, "Ragnaros");
}

#[test]
fn unknown_spell_yields_nothing() {
    let d = data();
    let mut p = parser();
    assert!(p.parse_cbl_line(&d, 5, "Ragnaros suffers 30 Fire damage from Alice's Frostbolt.").is_none());
    assert!(p.get_participants().is_empty());
}

#[test]
fn deaths() {
    let d = data();
    let mut p = parser();
    let r = p.parse_cbl_line(&d, 5, "Ragnaros dies.").unwrap();
    assert_eq!(r, vec![MessageType::Death(Death { cause: None, victim: ragnaros() })]);
    let r = p.parse_cbl_line(&d, 5, "Ragnaros is destroyed.").unwrap();
    assert_eq!(r, vec![MessageType::Death(Death { cause: None, victim: ragnaros() })]);
    let r = p.parse_cbl_line(&d, 6, "Ragnaros is slain by Alice!").unwrap();
    assert_eq!(r, vec![MessageType::Death(Death { cause: Some(alice()), victim: ragnaros() })]);
    let r = p.parse_cbl_line(&d, 7, "Alice is killed by Ragnaros.").unwrap();
    assert_eq!(r, vec![MessageType::Death(Death { cause: Some(ragnaros()), victim: alice() })]);
}

#[test]
fn aura_gain() {
    let d = data();
    let mut p = parser();
    let r = p.parse_cbl_line(&d, 5, "Alice gains Arcane Intellect (1).").unwrap();
    assert_eq!(
        r,
        vec![MessageType::AuraApplication(AuraApplication {
            caster: Unit { is_player: false, unit_id: 0 },
            target: alice(),
            spell_id: 1459,
            stack_amount: 1,
            delta: 1,
        })]
    );
}

#[test]
fn casts_name_the_spell_and_target() {
    let d = data();
    let mut p = parser();
    let r = p.parse_cbl_line(&d, 5, "Alice casts Fireball on Ragnaros.").unwrap();
    assert_eq!(
        r,
        vec![MessageType::SpellCast(SpellCast { caster: alice(), target: Some(ragnaros()), spell_id: 133, hit_mask: 0x2 })]
    );
    let r = p.parse_cbl_line(&d, 6, "Ragnaros performs Fireball.").unwrap();
    assert_eq!(
        r,
        vec![MessageType::SpellCast(SpellCast { caster: ragnaros(), target: None, spell_id: 133, hit_mask: 0x2 })]
    );
    assert!(p.parse_cbl_line(&d, 7, "Alice casts Frostbolt.").is_none());
    assert_eq!(p.get_participants().len(), 2);
}

#[test]
fn loot_line() {
    let d = data();
    let mut p = parser();
    let r = p.parse_cbl_line(&d, 5, "LOOT: Alice receives loot: |cff9d9d9d|Hitem:2589:0:0:0|h[Linen]|h|rx2.").unwrap();
    assert_eq!(r, vec![MessageType::Loot(Loot { unit: alice(), item_id: 2589, count: 2 })]);
}

#[test]
fn zone_info_lists_recent_participants() {
    let d = data();
    let mut p = parser();
    p.parse_cbl_line(&d, 1000, "Alice hits Ragnaros for 100.").unwrap();
    let r = p.parse_cbl_line(&d, 2000, "ZONE_INFO: Molten Core&123").unwrap();
    assert_eq!(
        r,
        vec![
            MessageType::InstanceMap(InstanceMap { map_id: 409, instance_id: 123, map_difficulty: 0, unit: alice() }),
            MessageType::InstanceMap(InstanceMap { map_id: 409, instance_id: 123, map_difficulty: 0, unit: ragnaros() }),
        ]
    );
    let r = p.parse_cbl_line(&d, 200000, "ZONE_INFO: Molten Core&123").unwrap();
    assert!(r.is_empty());
    assert!(p.parse_cbl_line(&d, 2000, "ZONE_INFO: Blackrock&123").is_none());
}

#[test]
fn other_lines_do_nothing() {
    let d = data();
    let mut p = parser();
    assert!(p.parse_cbl_line(&d, 5, "Something else").is_none());
    assert!(p.get_participants().is_empty());
}

fn nils(n: usize) -> String {
    "&nil".repeat(n)
}

#[test]
fn combatant_info_fills_the_profile() {
    let d = data();
    let mut p = parser();
    let line = format!("COMBATANT_INFO: Alice&Mage&Human&3&nil&nil&nil&nil{}", nils(19));
    assert!(p.parse_cbl_line(&d, 5, &line).is_none());
    let ps = p.get_participants();
    assert_eq!(ps.len(), 1);
    assert_eq!(ps[0].id, alice().unit_id);
    assert_eq!(ps[0].name, "Alice");
    assert_eq!(ps[0].hero_class_id, Some(8));
    assert_eq!(ps[0].race_id, Some(1));
    assert_eq!(ps[0].gender_id, Some(true));
    assert!(ps[0].guild_args.is_none());
    assert!(ps[0].gear_setups.is_none());
    let builds = p.get_involved_character_builds();
    assert_eq!(builds.len(), 1);
    let h = builds[0].1.character_history.as_ref().unwrap();
    assert_eq!(h.character_name, "Alice");
    assert_eq!(h.character_info.hero_class_id, 8);
    assert_eq!(h.character_info.level, 60);
    assert!(h.character_info.gear.head.is_none());
}

#[test]
fn combatant_info_with_guild_pet_and_gear() {
    let d = data();
    let mut p = parser();
    let mut line = String::from("COMBATANT_INFO: Bob&Hunter&Orc&2&Fluffy&Raiders&Officer&1&2589,0");
    line.push_str(&"&0,0".repeat(17));
    line.push_str("&18,7");
    assert!(p.parse_cbl_line(&d, 9, &line).is_none());
    let ps = p.get_participants();
    assert_eq!(ps[0].hero_class_id, Some(3));
    assert_eq!(ps[0].race_id, Some(2));
    assert_eq!(ps[0].gender_id, Some(false));
    assert_eq!(ps[0].guild_args, Some(("Raiders".to_string(), "Officer".to_string(), 1)));
    let setups = ps[0].gear_setups.as_ref().unwrap();
    assert_eq!(setups.len(), 1);
    assert_eq!(setups[0].0, 9);
    assert_eq!(setups[0].1.len(), 19);
    assert_eq!(setups[0].1[0], Some((2589, None)));
    assert_eq!(setups[0].1[1], None);
    assert_eq!(setups[0].1[18], Some((18, Some(7))));
    let builds = p.get_involved_character_builds();
    assert_eq!(builds.len(), 1);
    let h = builds[0].1.character_history.as_ref().unwrap();
    assert_eq!(h.character_info.gear.head.as_ref().unwrap().item_id, 2589);
    assert_eq!(h.character_info.gear.tabard.as_ref().unwrap().enchant_id, Some(7));
    let guild = h.character_guild.as_ref().unwrap();
    assert_eq!(guild.guild.name, "Raiders");
    assert_eq!(guild.guild.server_uid, get_hashed_player_unit_id("Raiders"));
    assert_eq!(guild.rank.index, 1);
}

#[test]
fn combatant_info_keeps_what_is_known() {
    let d = data();
    let mut p = parser();
    let mut line = String::from("COMBATANT_INFO: Bob&Hunter&Orc&2&Fluffy&Raiders&Officer&1&2589,0");
    line.push_str(&"&0,0".repeat(18));
    assert!(p.parse_cbl_line(&d, 9, &line).is_none());
    let mut again = String::from("COMBATANT_INFO: Bob&Mage&Gnome&3&nil&Others&Member&4&100,5");
    again.push_str(&"&0,0".repeat(18));
    assert!(p.parse_cbl_line(&d, 12, &again).is_none());
    let ps = p.get_participants();
    assert_eq!(ps.len(), 1);
    assert_eq!(ps[0].hero_class_id, Some(3));
    assert_eq!(ps[0].race_id, Some(2));
    assert_eq!(ps[0].gender_id, Some(false));
    assert_eq!(ps[0].guild_args, Some(("Raiders".to_string(), "Officer".to_string(), 1)));
    assert_eq!(ps[0].last_seen, 9);
    let setups = ps[0].gear_setups.as_ref().unwrap();
    assert_eq!(setups.len(), 2);
    assert_eq!(setups[1].0, 12);
    assert_eq!(setups[1].1[0], Some((100, Some(5))));
    assert_eq!(p.get_involved_character_builds().len(), 2);
}

#[test]
fn combatant_info_with_unknown_class_stops() {
    let d = data();
    let mut p = parser();
    let line = format!("COMBATANT_INFO: Carl&Monk&Human&2&nil&nil&nil&nil{}", nils(19));
    assert!(p.parse_cbl_line(&d, 5, &line).is_none());
    let ps = p.get_participants();
    assert_eq!(ps.len(), 1);
    assert_eq!(ps[0].hero_class_id, None);
    assert_eq!(ps[0].gender_id, None);
}

#[test]
fn unhandled_lines_are_refused_by_the_guarded_parse() {
    let d = data();
    let mut p = parser();
    assert!(p.try_parse_cbl_line(&d, 5, "Alice hits Ragnaros for 5 Chaos damage.").is_none());
    assert!(p.get_participants().is_empty());
    assert!(p.try_parse_cbl_line(&d, 5, "COMBATANT_INFO: Alice&Mage").is_none());
    let r = p.try_parse_cbl_line(&d, 5, "Alice hits Ragnaros for 5 Fire damage.").unwrap().unwrap();
    assert_eq!(melee(&r[0]).damage_components[0].school_mask, 4);
    assert_eq!(p.try_parse_cbl_line(&d, 5, "nothing here").unwrap(), None);
}

#[test]
fn post_processing_corrects_pets_attributes_dispels_and_sorts() {
    let d = data();
    let mut p = parser();
    let line = format!("COMBATANT_INFO: Bob&Hunter&Orc&2&Fluffy&nil&nil&nil{}", nils(19));
    assert!(p.parse_cbl_line(&d, 9, &line).is_none());
    let fluffy = get_hashed_player_unit_id("Fluffy");
    let bob = get_hashed_player_unit_id("Bob");
    let pet_id = 0xF14000FFFF000000u64 + (fluffy | 0xFFFFFF);
    let target = Unit { is_player: true, unit_id: 77 };
    let mut messages = vec![
        Message::new_parsed(100, 0, MessageType::Dispel(UnAura {
            un_aura_caster: Unit { is_player: false, unit_id: 0 },
            target,
            aura_caster: None,
            un_aura_spell_id: 42,
            target_spell_id: 5,
            un_aura_amount: 1,
        })),
        Message::new_parsed(150, 0, MessageType::SpellCast(SpellCast {
            caster: alice(),
            target: Some(target),
            spell_id: 527,
            hit_mask: 2,
        })),
        Message::new_parsed(50, 0, MessageType::MeleeDamage(DamageDone {
            attacker: Unit { is_player: true, unit_id: fluffy },
            victim: ragnaros(),
            spell_id: None,
            hit_mask: 2,
            blocked: 0,
            damage_over_time: false,
            damage_components: vec![],
        })),
    ];
    p.do_message_post_processing(&d, &mut messages);
    assert_eq!(messages.len(), 4);
    let times: Vec<u64> = messages.iter().map(|m| m.timestamp).collect();
    assert_eq!(times, vec![0, 50, 100, 150]);
    match &messages[0].message_type {
        MessageType::Summon(s) => {
            assert_eq!(s.owner, Unit { is_player: true, unit_id: bob });
            assert_eq!(s.unit, Unit { is_player: false, unit_id: pet_id });
        },
        other => panic!("unexpected {:?}", other),
    }
    assert_eq!(melee(&messages[1].message_type).attacker, Unit { is_player: false, unit_id: pet_id });
    match &messages[2].message_type {
        MessageType::Dispel(u) => {
            assert_eq!(u.un_aura_caster, alice());
            assert_eq!(u.un_aura_spell_id, 527);
        },
        other => panic!("unexpected {:?}", other),
    }
}

#[test]
fn late_casts_do_not_claim_dispels() {
    let d = data();
    let mut p = parser();
    let target = Unit { is_player: true, unit_id: 77 };
    let mut messages = vec![
        Message::new_parsed(100, 0, MessageType::Dispel(UnAura {
            un_aura_caster: Unit { is_player: false, unit_id: 0 },
            target,
            aura_caster: None,
            un_aura_spell_id: 42,
            target_spell_id: 5,
            un_aura_amount: 1,
        })),
        Message::new_parsed(300, 0, MessageType::SpellCast(SpellCast {
            caster: alice(),
            target: Some(target),
            spell_id: 527,
            hit_mask: 2,
        })),
    ];
    p.do_message_post_processing(&d, &mut messages);
    match &messages[0].message_type {
        MessageType::Dispel(u) => assert_eq!(u.un_aura_spell_id, 42),
        other => panic!("unexpected {:?}", other),
    }
}

#[test]
fn npc_specific_offsets() {
    let p = parser();
    assert_eq!(p.get_npc_appearance_offset(15990), Some(-228000));
    assert_eq!(p.get_npc_appearance_offset(1), None);
    assert_eq!(p.get_npc_timeout(15990), Some(228000));
    assert_eq!(p.get_npc_timeout(2), None);
    assert_eq!(p.get_death_implied_npc_combat_state_and_offset(15929), Some(vec![(15928, -1000)]));
    assert_eq!(p.get_death_implied_npc_combat_state_and_offset(15930), Some(vec![(15928, -1000)]));
    assert_eq!(p.get_death_implied_npc_combat_state_and_offset(15928), None);
    assert_eq!(p.get_in_combat_implied_npc_combat(15990), None);
    assert!(p.get_involved_server().is_none());
}
