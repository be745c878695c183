use combat_log::character::create_character_item_dto;
use combat_log::data::{Data, MapInfo, SpellName, NPC};
use combat_log::dto::{AuraApplication, DamageComponent, DamageDone, HealDone, Interrupt, SpellCast, UnAura, Unit};
use combat_log::message_type::MessageType;
use combat_log::pets::correct_pet_unit;
use combat_log::state::WoWVanillaParser;
use combat_log::units::{get_hashed_player_unit_id, make_creature_guid};

fn data() -> Data {
    Data {
        spells: vec![],
        power_types: vec![],
        localizations: vec![],
        icons: vec![],
        spell_descriptions: vec![],
        spell_names: vec![
            SpellName { expansion_id: 1, spell_id: 133, name: "Fireball".to_string() },
            SpellName { expansion_id: 1, spell_id: 1459, name: "Arcane Intellect".to_string() },
        ],
        maps: vec![MapInfo { id: 409, name: "Molten Core".to_string() }],
        npcs: vec![
            NPC { expansion_id: 1, id: 11502, name: "Ragnaros".to_string(), map_id: Some(409) },
            NPC { expansion_id: 1, id: 12345, name: "Wolf".to_string(), map_id: None },
        ],
    }
}

fn alice() -> Unit {
    Unit { is_player: true, unit_id: get_hashed_player_unit_id("Alice") }
}

fn ragnaros() -> Unit {
    Unit { is_player: false, unit_id: make_creature_guid(11502) }
}

fn parser() -> WoWVanillaParser {
    WoWVanillaParser::new(7).expect("the line patterns compile")
}

fn cast(caster: Unit, target: Unit, spell_id: u32, hit_mask: u32) -> MessageType {
    MessageType::SpellCast(SpellCast { caster, target: Some(target), spell_id, hit_mask })
}

fn spell_damage(attacker: Unit, victim: Unit, spell_id: u32, hit_mask: u32, components: Vec<DamageComponent>) -> MessageType {
    MessageType::SpellDamage(DamageDone {
        attacker,
        victim,
        spell_id: Some(spell_id),
        hit_mask,
        blocked: 0,
        damage_over_time: false,
        damage_components: components,
    })
}

#[test]
fn spell_split_is_physical_damage() {
    let d = data();
    let mut p = parser();
    let r = p.parse_cbl_line(&d, 3, "Alice's Fireball causes Ragnaros 100 damage.").unwrap();
    assert_eq!(
        r,
        vec![
            cast(alice(), ragnaros(), 133, 0x2),
            spell_damage(
                alice(),
                ragnaros(),
                133,
                0x2,
                vec![DamageComponent { school_mask: 1, damage: 100, resisted_or_glanced: 0, absorbed: 0 }]
            ),
        ]
    );
}

#[test]
fn spell_avoided_reflected_and_immune() {
    let d = data();
    let mut p = parser();
    let r = p.parse_cbl_line(&d, 3, "Alice's Fireball was dodged by Ragnaros.").unwrap();
    assert_eq!(r, vec![cast(alice(), ragnaros(), 133, 0x800), spell_damage(alice(), ragnaros(), 133, 0x800, vec![])]);
    let r = p.parse_cbl_line(&d, 3, "Alice's Fireball was resisted by Ragnaros.").unwrap();
    assert_eq!(r, vec![cast(alice(), ragnaros(), 133, 0x10), spell_damage(alice(), ragnaros(), 133, 0x10, vec![])]);
    let r = p.parse_cbl_line(&d, 3, "Alice's Fireball is reflected back by Ragnaros.").unwrap();
    assert_eq!(
        r,
        vec![cast(alice(), ragnaros(), 133, 0x100000), spell_damage(alice(), ragnaros(), 133, 0x100000, vec![])]
    );
    let r = p.parse_cbl_line(&d, 3, "Alice's Fireball fails. Ragnaros is immune.").unwrap();
    assert_eq!(r, vec![cast(alice(), ragnaros(), 133, 0x2000), spell_damage(alice(), ragnaros(), 133, 0x2000, vec![])]);
    let r = p.parse_cbl_line(&d, 3, "Alice's Fireball is absorbed by Ragnaros.").unwrap();
    assert_eq!(r, vec![cast(alice(), ragnaros(), 133, 0x80), spell_damage(alice(), ragnaros(), 133, 0x80, vec![])]);
}

#[test]
fn absorb_self_names_the_participants_in_line_order() {
    let d = data();
    let mut p = parser();
    let r = p.parse_cbl_line(&d, 4, "Ragnaros absorbs Alice's Fireball.").unwrap();
    assert_eq!(r, vec![cast(alice(), ragnaros(), 133, 0x80), spell_damage(alice(), ragnaros(), 133, 0x80, vec![])]);
    let ps = p.get_participants();
    assert_eq!(ps.len(), 2);
    assert_eq!(ps[0].id, alice().unit_id);
    assert_eq!(ps[0].name, "Ragnaros");
    assert_eq!(ps[1].id, ragnaros().unit_id);
    assert_eq!(ps[1].name, "Alice");
}

#[test]
fn proc_resist() {
    let d = data();
    let mut p = parser();
    let r = p.parse_cbl_line(&d, 4, "Ragnaros resists Alice's Fireball.").unwrap();
    assert_eq!(r, vec![cast(alice(), ragnaros(), 133, 0x10), spell_damage(alice(), ragnaros(), 133, 0x10, vec![])]);
    let ps = p.get_participants();
    assert_eq!(ps[0].name, "Ragnaros");
    assert_eq!(ps[1].name, "Alice");
}

#[test]
fn spell_hits_and_crits() {
    let d = data();
    let mut p = parser();
    let physical = |n: u32| vec![DamageComponent { school_mask: 1, damage: n, resisted_or_glanced: 0, absorbed: 0 }];
    let r = p.parse_cbl_line(&d, 3, "Alice's Fireball hits Ragnaros for 120.").unwrap();
    assert_eq!(r, vec![cast(alice(), ragnaros(), 133, 0x2), spell_damage(alice(), ragnaros(), 133, 0x2, physical(120))]);
    let r = p.parse_cbl_line(&d, 3, "Alice's Fireball crits Ragnaros for 240.").unwrap();
    assert_eq!(r, vec![cast(alice(), ragnaros(), 133, 0x4), spell_damage(alice(), ragnaros(), 133, 0x4, physical(240))]);
    // An unknown spell leaves the whole name to a melee attacker.
    let r = p.parse_cbl_line(&d, 3, "Alice's Frostbolt hits Ragnaros for 120.").unwrap();
    let named = Unit { is_player: true, unit_id: get_hashed_player_unit_id("Alice's Frostbolt") };
    assert_eq!(
        r,
        vec![MessageType::MeleeDamage(DamageDone {
            attacker: named,
            victim: ragnaros(),
            spell_id: None,
            hit_mask: 0x2,
            blocked: 0,
            damage_over_time: false,
            damage_components: physical(120),
        })]
    );
}

#[test]
fn melee_hit_is_read_before_a_spell_hit_in_its_trailer() {
    let d = data();
    let mut p = parser();
    let r = p.parse_cbl_line(&d, 3, "Bob hits Alice for 10. Alice's Fireball hits Ragnaros for 5.").unwrap();
    let bob = Unit { is_player: true, unit_id: get_hashed_player_unit_id("Bob") };
    assert_eq!(
        r,
        vec![MessageType::MeleeDamage(DamageDone {
            attacker: bob,
            victim: alice(),
            spell_id: None,
            hit_mask: 0x2,
            blocked: 0,
            damage_over_time: false,
            damage_components: vec![DamageComponent { school_mask: 1, damage: 10, resisted_or_glanced: 0, absorbed: 0 }],
        })]
    );
    let r = p.parse_cbl_line(&d, 4, "Onyxia's Elite Guard hits Bob for 100.").unwrap();
    match &r[0] {
        MessageType::MeleeDamage(dd) => {
            assert_eq!(dd.attacker.unit_id, get_hashed_player_unit_id("Onyxia's Elite Guard"));
            assert_eq!(dd.victim, bob);
        },
        other => panic!("unexpected {:?}", other),
    }
}

#[test]
fn handling_given_capture_groups() {
    let d = data();
    let mut p = parser();
    let groups: Vec<Option<String>> = vec![
        Some("Alice dies.".to_string()),
        Some("Alice".to_string()),
        Some("dies".to_string()),
    ];
    let r = p.handle_kind(25, &d, 8, &groups).unwrap();
    assert_eq!(r, vec![MessageType::Death(combat_log::dto::Death { cause: None, victim: alice() })]);
    assert_eq!(p.get_participants()[0].last_seen, 8);
    let groups: Vec<Option<String>> = vec![
        Some("x".to_string()),
        Some("Alice's Fireball".to_string()),
        Some("cr".to_string()),
        Some("Ragnaros".to_string()),
        Some("40".to_string()),
        Some("(5 resisted)".to_string()),
    ];
    let r = p.handle_kind(0, &d, 9, &groups).unwrap();
    assert_eq!(
        r,
        vec![
            cast(alice(), ragnaros(), 133, 0x4 | 0x8),
            MessageType::SpellDamage(DamageDone {
                attacker: alice(),
                victim: ragnaros(),
                spell_id: Some(133),
                hit_mask: 0x4 | 0x8,
                blocked: 0,
                damage_over_time: false,
                damage_components: vec![DamageComponent { school_mask: 1, damage: 40, resisted_or_glanced: 5, absorbed: 0 }],
            }),
        ]
    );
    let short: Vec<Option<String>> = vec![Some("x".to_string())];
    assert_eq!(p.handle_kind(20, &d, 9, &short), None);
}

#[test]
fn spell_missed() {
    let d = data();
    let mut p = parser();
    let r = p.parse_cbl_line(&d, 3, "Alice's Fireball missed Ragnaros.").unwrap();
    assert_eq!(r, vec![cast(alice(), ragnaros(), 133, 0x20), spell_damage(alice(), ragnaros(), 133, 0x20, vec![])]);
}

#[test]
fn direct_heals() {
    let d = data();
    let mut p = parser();
    let heal = |mask: u32, n: u32| {
        vec![
            cast(alice(), ragnaros(), 1459, mask),
            MessageType::Heal(HealDone {
                caster: alice(),
                target: ragnaros(),
                spell_id: 1459,
                total_heal: n,
                effective_heal: n,
                absorb: 0,
                hit_mask: mask,
            }),
        ]
    };
    let r = p.parse_cbl_line(&d, 4, "Alice's Arcane Intellect heals Ragnaros for 70.").unwrap();
    assert_eq!(r, heal(0x2, 70));
    let r = p.parse_cbl_line(&d, 5, "Alice's Arcane Intellect critically heals Ragnaros for 140.").unwrap();
    assert_eq!(r, heal(0x4, 140));
    let ps = p.get_participants();
    assert_eq!(ps[0].id, alice().unit_id);
    assert_eq!(ps[1].id, ragnaros().unit_id);
    assert_eq!(ps[1].last_seen, 5);
}

#[test]
fn damage_shield_uses_the_reflection_spell() {
    let d = data();
    let mut p = parser();
    let r = p.parse_cbl_line(&d, 4, "Alice reflects 20 Fire damage to Ragnaros.").unwrap();
    assert_eq!(
        r,
        vec![
            cast(alice(), ragnaros(), 2, 0x2),
            spell_damage(
                alice(),
                ragnaros(),
                2,
                0x2,
                vec![DamageComponent { school_mask: 4, damage: 20, resisted_or_glanced: 0, absorbed: 0 }]
            ),
        ]
    );
}

#[test]
fn periodic_heal() {
    let d = data();
    let mut p = parser();
    let r = p.parse_cbl_line(&d, 4, "Ragnaros gains 50 health from Alice's Fireball.").unwrap();
    assert_eq!(
        r,
        vec![
            cast(alice(), ragnaros(), 133, 0x2),
            MessageType::Heal(HealDone {
                caster: alice(),
                target: ragnaros(),
                spell_id: 133,
                total_heal: 50,
                effective_heal: 50,
                absorb: 0,
                hit_mask: 0x2,
            }),
        ]
    );
    let ps = p.get_participants();
    assert_eq!(ps[0].id, alice().unit_id);
    assert_eq!(ps[1].id, ragnaros().unit_id);
}

#[test]
fn aura_fade_removes_a_stack() {
    let d = data();
    let mut p = parser();
    let r = p.parse_cbl_line(&d, 4, "Arcane Intellect fades from Alice.").unwrap();
    assert_eq!(
        r,
        vec![MessageType::AuraApplication(AuraApplication {
            caster: Unit { is_player: false, unit_id: 0 },
            target: alice(),
            spell_id: 1459,
            stack_amount: 0,
            delta: -1,
        })]
    );
    let ps = p.get_participants();
    assert_eq!(ps.len(), 1);
    assert_eq!(ps[0].id, alice().unit_id);
    assert!(p.parse_cbl_line(&d, 4, "Frostbolt fades from Alice.").is_none());
}

#[test]
fn dispel_and_interrupt() {
    let d = data();
    let mut p = parser();
    let r = p.parse_cbl_line(&d, 4, "Alice's Arcane Intellect is removed.").unwrap();
    assert_eq!(
        r,
        vec![MessageType::Dispel(UnAura {
            un_aura_caster: Unit { is_player: false, unit_id: 0 },
            target: alice(),
            aura_caster: None,
            un_aura_spell_id: 42,
            target_spell_id: 1459,
            un_aura_amount: 1,
        })]
    );
    let r = p.parse_cbl_line(&d, 5, "Ragnaros interrupts Alice's Fireball.").unwrap();
    assert_eq!(r, vec![MessageType::Interrupt(Interrupt { target: alice(), interrupted_spell_id: 133 })]);
    let ps = p.get_participants();
    assert_eq!(ps.len(), 1);
    assert_eq!(ps[0].last_seen, 5);
}

#[test]
fn parsing_keeps_every_participant_it_has_seen() {
    let d = data();
    let mut p = parser();
    p.parse_cbl_line(&d, 1, "Alice hits Ragnaros for 10.");
    p.parse_cbl_line(&d, 2, "Bob hits Alice for 10.");
    p.parse_cbl_line(&d, 3, "Wolf dies.");
    p.parse_cbl_line(&d, 4, "nothing to see");
    let ps = p.get_participants();
    let ids: Vec<u64> = ps.iter().map(|x| x.id).collect();
    assert!(ids.contains(&alice().unit_id));
    assert!(ids.contains(&ragnaros().unit_id));
    assert!(ids.contains(&get_hashed_player_unit_id("Bob")));
    assert!(ids.contains(&make_creature_guid(12345)));
    for (i, a) in ids.iter().enumerate() {
        for b in ids[i + 1..].iter() {
            assert_ne!(a, b);
        }
    }
    assert_eq!(ps.iter().find(|x| x.id == alice().unit_id).unwrap().last_seen, 2);
}

#[test]
fn item_of_a_gear_slot() {
    let item = create_character_item_dto(&Some((2589, Some(7)))).unwrap();
    assert_eq!(item.item_id, 2589);
    assert_eq!(item.enchant_id, Some(7));
    assert_eq!(item.random_property_id, None);
    assert!(item.gem_ids.is_empty());
    assert!(create_character_item_dto(&None).is_none());
}

#[test]
fn a_pet_without_a_map_gets_a_pet_id() {
    let d = data();
    let wolf = make_creature_guid(12345);
    let owners = vec![(wolf, alice().unit_id)];
    let mut u = Unit { is_player: false, unit_id: wolf };
    correct_pet_unit(&d, &mut u, &owners);
    assert_eq!(u, Unit { is_player: false, unit_id: 0xF14000FFFF000000 + (wolf | 0xFFFFFF) });
    let rag = make_creature_guid(11502);
    let owners = vec![(rag, alice().unit_id)];
    let mut u = Unit { is_player: false, unit_id: rag };
    correct_pet_unit(&d, &mut u, &owners);
    assert_eq!(u, ragnaros());
    let mut a = alice();
    correct_pet_unit(&d, &mut a, &owners);
    assert_eq!(a, alice());
}
