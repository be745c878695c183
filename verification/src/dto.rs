use vstd::prelude::*;

verus! {

/// A unit of the combat log: a player or an NPC, named by its GUID.
#[derive(Debug, Clone, Copy, PartialEq, Eq, Structural, Hash)]
pub struct Unit {
    pub is_player: bool,
    pub unit_id: u64,
}

/// One school's share of a damage event.
#[derive(Debug, Clone, Copy, PartialEq, Eq, Structural)]
pub struct DamageComponent {
    pub school_mask: u8,
    pub damage: u32,
    pub resisted_or_glanced: u32,
    pub absorbed: u32,
}

#[derive(Debug, Clone, PartialEq, Eq)]
pub struct DamageDone {
    pub attacker: Unit,
    pub victim: Unit,
    pub spell_id: Option<u32>,
    pub hit_mask: u32,
    pub blocked: u32,
    pub damage_over_time: bool,
    pub damage_components: Vec<DamageComponent>,
}

/// The mathematical value of a `DamageDone`: its components as a sequence.
pub struct DamageDoneView {
    pub attacker: Unit,
    pub victim: Unit,
    pub spell_id: Option<u32>,
    pub hit_mask: u32,
    pub blocked: u32,
    pub damage_over_time: bool,
    pub damage_components: Seq<DamageComponent>,
}

impl View for DamageDone {
    type V = DamageDoneView;

    open spec fn view(&self) -> DamageDoneView {
        DamageDoneView {
            attacker: self.attacker,
            victim: self.victim,
            spell_id: self.spell_id,
            hit_mask: self.hit_mask,
            blocked: self.blocked,
            damage_over_time: self.damage_over_time,
            damage_components: self.damage_components@,
        }
    }
}

#[derive(Debug, Clone, Copy, PartialEq, Eq, Structural)]
pub struct HealDone {
    pub caster: Unit,
    pub target: Unit,
    pub spell_id: u32,
    pub total_heal: u32,
    pub effective_heal: u32,
    pub absorb: u32,
    pub hit_mask: u32,
}

#[derive(Debug, Clone, Copy, PartialEq, Eq, Structural)]
pub struct Death {
    pub cause: Option<Unit>,
    pub victim: Unit,
}

#[derive(Debug, Clone, Copy, PartialEq, Eq, Structural)]
pub struct AuraApplication {
    pub caster: Unit,
    pub target: Unit,
    pub spell_id: u32,
    pub stack_amount: u32,
    pub delta: i8,
}

#[derive(Debug, Clone, Copy, PartialEq, Eq, Structural)]
pub struct UnAura {
    pub un_aura_caster: Unit,
    pub target: Unit,
    pub aura_caster: Option<Unit>,
    pub un_aura_spell_id: u32,
    pub target_spell_id: u32,
    pub un_aura_amount: u8,
}

#[derive(Debug, Clone, Copy, PartialEq, Eq, Structural)]
pub struct Interrupt {
    pub target: Unit,
    pub interrupted_spell_id: u32,
}

#[derive(Debug, Clone, Copy, PartialEq, Eq, Structural)]
pub struct Position {
    pub map_id: u32,
    pub instance_id: u32,
    pub map_difficulty: u8,
    pub unit: Unit,
    pub x: i32,
    pub y: i32,
    pub z: i32,
    pub orientation: i32,
}

#[derive(Debug, Clone, Copy, PartialEq, Eq, Structural)]
pub struct CombatState {
    pub unit: Unit,
    pub in_combat: bool,
}

#[derive(Debug, Clone, Copy, PartialEq, Eq, Structural)]
pub struct Power {
    pub unit: Unit,
    pub power_type: u8,
    pub max_power: u32,
    pub current_power: u32,
}

#[derive(Debug, Clone, Copy, PartialEq, Eq, Structural)]
pub struct Loot {
    pub unit: Unit,
    pub item_id: u32,
    pub count: u32,
}

#[derive(Debug, Clone, Copy, PartialEq, Eq, Structural)]
pub struct SpellCast {
    pub caster: Unit,
    pub target: Option<Unit>,
    pub spell_id: u32,
    pub hit_mask: u32,
}

#[derive(Debug, Clone, Copy, PartialEq, Eq, Structural)]
pub struct Threat {
    pub threater: Unit,
    pub threatened: Unit,
    pub spell_id: Option<u32>,
    pub amount: i32,
}

#[derive(Debug, Clone, Copy, PartialEq, Eq, Structural)]
pub struct Event {
    pub unit: Unit,
    pub event_type: u8,
}

#[derive(Debug, Clone, Copy, PartialEq, Eq, Structural)]
pub struct Summon {
    pub owner: Unit,
    pub unit: Unit,
}

#[derive(Debug, Clone, Copy, PartialEq, Eq, Structural)]
pub struct Instance {
    pub map_id: u32,
    pub instance_id: u32,
    pub winner: Option<u8>,
}

#[derive(Debug, Clone, Copy, PartialEq, Eq, Structural)]
pub struct InstanceArena {
    pub map_id: u32,
    pub instance_id: u32,
    pub winner: Option<u8>,
    pub team_id1: u32,
    pub team_id2: u32,
    pub team_change1: i32,
    pub team_change2: i32,
}

#[derive(Debug, Clone, Copy, PartialEq, Eq, Structural)]
pub struct InstanceBattleground {
    pub map_id: u32,
    pub instance_id: u32,
    pub winner: Option<u8>,
    pub score_alliance: u32,
    pub score_horde: u32,
}

#[derive(Debug, Clone, Copy, PartialEq, Eq, Structural)]
pub struct InstanceMap {
    pub map_id: u32,
    pub instance_id: u32,
    pub map_difficulty: u8,
    pub unit: Unit,
}

/// Why a raw payload could not be mapped.
#[derive(Debug, Clone, Copy, PartialEq, Eq, Structural)]
pub enum LiveDataProcessorFailure {
    InvalidInput,
}

} // verus!
