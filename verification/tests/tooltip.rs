use combat_log::data::{Data, Icon, Localization, LocalizedSpellDescription, PowerType, Spell};
use combat_log::tooltip::{Failure, RetrieveSpellTooltip, Tooltip};

fn data(cost: u16) -> Data {
    Data {
        spells: vec![Spell {
            expansion_id: 1,
            id: 133,
            localization_id: 10,
            subtext_localization_id: 11,
            cost,
            cost_in_percent: false,
            power_type: 0,
            range_max: 35,
            icon: 5,
        }],
        power_types: vec![PowerType { id: 0, localization_id: 12 }],
        localizations: vec![
            Localization { language_id: 0, id: 10, content: "Fireball".to_string() },
            Localization { language_id: 0, id: 11, content: "Rank 1".to_string() },
            Localization { language_id: 0, id: 12, content: "Mana".to_string() },
        ],
        icons: vec![Icon { id: 5, name: "spell_fire_flamebolt".to_string() }],
        spell_descriptions: vec![LocalizedSpellDescription {
            expansion_id: 1,
            language_id: 0,
            spell_id: 133,
            content: "Hurls a fiery ball.".to_string(),
        }],
        spell_names: vec![],
        maps: vec![],
        npcs: vec![],
    }
}

#[test]
fn tooltip_of_a_known_spell() {
    let d = data(30);
    let t = Tooltip.get_spell(&d, 0, 1, 133).unwrap();
    assert_eq!(t.name, "Fireball");
    assert_eq!(t.subtext, "Rank 1");
    assert_eq!(t.icon, "spell_fire_flamebolt");
    assert_eq!(t.range, 35);
    assert_eq!(t.description, "Hurls a fiery ball.");
    let cost = t.spell_cost.unwrap();
    assert_eq!(cost.cost, 30);
    assert!(!cost.cost_in_percent);
    assert_eq!(cost.power_type, "Mana");
}

#[test]
fn tooltip_of_a_free_spell_has_no_cost() {
    let d = data(0);
    assert!(Tooltip.get_spell(&d, 0, 1, 133).unwrap().spell_cost.is_none());
}

#[test]
fn tooltip_of_an_unknown_spell_is_invalid_input() {
    let d = data(30);
    assert!(matches!(Tooltip.get_spell(&d, 0, 1, 999), Err(Failure::InvalidInput)));
    assert!(matches!(Tooltip.get_spell(&d, 0, 2, 133), Err(Failure::InvalidInput)));
}
