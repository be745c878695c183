use vstd::prelude::*;
use crate::data::{find_icon, find_localization, find_power_type, find_spell, find_spell_description, Data};

verus! {

/// The tooltip service.
pub struct Tooltip;

/// Why a request could not be answered.
#[derive(Debug, Clone, Copy, PartialEq, Eq, Structural)]
pub enum Failure {
    InvalidInput,
}

#[derive(Debug, Clone)]
pub struct SpellCost {
    pub cost: u16,
    pub cost_in_percent: bool,
    pub power_type: String,
}

#[derive(Debug, Clone)]
pub struct SpellTooltip {
    pub name: String,
    pub icon: String,
    pub subtext: String,
    pub spell_cost: Option<SpellCost>,
    pub range: u32,
    pub description: String,
}

/// Everything that the tooltip of a known spell reads from the data store is
/// there: its name, subtext and description in the language, its icon, and,
/// for a spell that costs power, its power type and that type's name.
pub open spec fn tooltip_data_complete(data: &Data, language_id: u8, expansion_id: u8, spell_id: u32) -> bool {
    match find_spell(data, expansion_id, spell_id) {
        None => true,
        Some(spell) => {
            &&& spell.cost > 0 ==> (find_power_type(data, spell.power_type) matches Some(pt)
                && find_localization(data, language_id, pt.localization_id) is Some)
            &&& find_localization(data, language_id, spell.localization_id) is Some
            &&& find_icon(data, spell.icon) is Some
            &&& find_localization(data, language_id, spell.subtext_localization_id) is Some
            &&& find_spell_description(data, expansion_id, language_id, spell_id) is Some
        },
    }
}

/// The tooltip that the data store gives for a known spell.
pub open spec fn tooltip_matches(
    t: SpellTooltip,
    data: &Data,
    language_id: u8,
    expansion_id: u8,
    spell_id: u32,
) -> bool {
    let spell = find_spell(data, expansion_id, spell_id).unwrap();
    &&& t.name@ == find_localization(data, language_id, spell.localization_id).unwrap().content@
    &&& t.icon@ == find_icon(data, spell.icon).unwrap().name@
    &&& t.subtext@ == find_localization(data, language_id, spell.subtext_localization_id).unwrap().content@
    &&& t.range == spell.range_max
    &&& t.description@ == find_spell_description(data, expansion_id, language_id, spell_id).unwrap().content@
    &&& if spell.cost > 0 {
        t.spell_cost matches Some(c) && c.cost == spell.cost && c.cost_in_percent == spell.cost_in_percent
            && c.power_type@ == find_localization(
            data,
            language_id,
            find_power_type(data, spell.power_type).unwrap().localization_id,
        ).unwrap().content@
    } else {
        t.spell_cost is None
    }
}

pub trait RetrieveSpellTooltip {
    /// The tooltip of a spell in a language; an unknown spell is invalid input.
    fn get_spell(&self, data: &Data, language_id: u8, expansion_id: u8, spell_id: u32) -> (r: Result<SpellTooltip, Failure>)
        requires
            tooltip_data_complete(data, language_id, expansion_id, spell_id),
        ensures
            find_spell(data, expansion_id, spell_id) is None ==> r == Err::<SpellTooltip, Failure>(Failure::InvalidInput),
            find_spell(data, expansion_id, spell_id) is Some ==> (r matches Ok(t) && tooltip_matches(
                t,
                data,
                language_id,
                expansion_id,
                spell_id,
            )),
    ;
}

impl RetrieveSpellTooltip for Tooltip {
    fn get_spell(&self, data: &Data, language_id: u8, expansion_id: u8, spell_id: u32) -> (r: Result<SpellTooltip, Failure>) {
        let spell_res = data.get_spell(expansion_id, spell_id);
        if spell_res.is_none() {
            return Err(Failure::InvalidInput);
        }
        let spell = spell_res.unwrap();
        let mut spell_cost = None;
        if spell.cost > 0 {
            let power_type = data.get_power_type(spell.power_type).unwrap();
            let power_name = data.get_localization(language_id, power_type.localization_id).unwrap();
            spell_cost = Some(
                SpellCost {
                    cost: spell.cost,
                    cost_in_percent: spell.cost_in_percent,
                    power_type: power_name.content.clone(),
                },
            );
        }
        let name = data.get_localization(language_id, spell.localization_id).unwrap().content.clone();
        let icon = data.get_icon(spell.icon).unwrap().name.clone();
        let subtext = data.get_localization(language_id, spell.subtext_localization_id).unwrap().content.clone();
        let description = data.get_localized_spell_description(expansion_id, language_id, spell_id).unwrap();
        Ok(SpellTooltip { name, icon, subtext, spell_cost, range: spell.range_max, description })
    }
}

} // verus!
