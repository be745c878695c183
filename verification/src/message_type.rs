use vstd::prelude::*;
use crate::dto::{AuraApplication, CombatState, DamageDone, DamageDoneView, Death, Event, HealDone, Instance, InstanceArena, InstanceBattleground, InstanceMap, Interrupt, Loot, Position, Power, SpellCast, Summon, Threat, UnAura, Unit};

verus! {

/// A message of the live data processor.
#[derive(Debug, Clone, PartialEq, Eq)]
pub enum MessageType {
    MeleeDamage(DamageDone),
    SpellDamage(DamageDone),
    Heal(HealDone),
    Death(Death),
    AuraApplication(AuraApplication),
    Dispel(UnAura),
    SpellSteal(UnAura),
    Interrupt(Interrupt),
    Position(Position),
    CombatState(CombatState),
    Power(Power),
    Loot(Loot),
    SpellCast(SpellCast),
    Threat(Threat),
    Event(Event),
    Summon(Summon),
    InstanceMap(InstanceMap),
    InstancePvPStart(Instance),
    InstancePvPEndUnratedArena(Instance),
    InstancePvPEndRatedArena(InstanceArena),
    InstancePvPEndBattleground(InstanceBattleground),
}

/// The mathematical value of a message: the same message with damage
/// components as a sequence.
pub enum MessageView {
    MeleeDamage(DamageDoneView),
    SpellDamage(DamageDoneView),
    Heal(HealDone),
    Death(Death),
    AuraApplication(AuraApplication),
    Dispel(UnAura),
    SpellSteal(UnAura),
    Interrupt(Interrupt),
    Position(Position),
    CombatState(CombatState),
    Power(Power),
    Loot(Loot),
    SpellCast(SpellCast),
    Threat(Threat),
    Event(Event),
    Summon(Summon),
    InstanceMap(InstanceMap),
    InstancePvPStart(Instance),
    InstancePvPEndUnratedArena(Instance),
    InstancePvPEndRatedArena(InstanceArena),
    InstancePvPEndBattleground(InstanceBattleground),
}

impl View for MessageType {
    type V = MessageView;

    open spec fn view(&self) -> MessageView {
        match self {
            MessageType::MeleeDamage(d) => MessageView::MeleeDamage(d@),
            MessageType::SpellDamage(d) => MessageView::SpellDamage(d@),
            MessageType::Heal(x) => MessageView::Heal(*x),
            MessageType::Death(x) => MessageView::Death(*x),
            MessageType::AuraApplication(x) => MessageView::AuraApplication(*x),
            MessageType::Dispel(x) => MessageView::Dispel(*x),
            MessageType::SpellSteal(x) => MessageView::SpellSteal(*x),
            MessageType::Interrupt(x) => MessageView::Interrupt(*x),
            MessageType::Position(x) => MessageView::Position(*x),
            MessageType::CombatState(x) => MessageView::CombatState(*x),
            MessageType::Power(x) => MessageView::Power(*x),
            MessageType::Loot(x) => MessageView::Loot(*x),
            MessageType::SpellCast(x) => MessageView::SpellCast(*x),
            MessageType::Threat(x) => MessageView::Threat(*x),
            MessageType::Event(x) => MessageView::Event(*x),
            MessageType::Summon(x) => MessageView::Summon(*x),
            MessageType::InstanceMap(x) => MessageView::InstanceMap(*x),
            MessageType::InstancePvPStart(x) => MessageView::InstancePvPStart(*x),
            MessageType::InstancePvPEndUnratedArena(x) => MessageView::InstancePvPEndUnratedArena(*x),
            MessageType::InstancePvPEndRatedArena(x) => MessageView::InstancePvPEndRatedArena(*x),
            MessageType::InstancePvPEndBattleground(x) => MessageView::InstancePvPEndBattleground(*x),
        }
    }
}

/// The unit a message is about: the acting unit of damage, heals, casts and
/// summons, the dying unit of a death, the affected unit of auras and
/// interrupts, the dispelling unit of a dispel or steal, and the unit that a
/// position, combat state, power, loot, threat, event or instance map report
/// concerns. Instance PvP messages have no subject.
pub open spec fn message_subject(m: MessageView) -> Option<Unit> {
    match m {
        MessageView::MeleeDamage(item) => Some(item.attacker),
        MessageView::SpellDamage(item) => Some(item.attacker),
        MessageView::Heal(item) => Some(item.caster),
        MessageView::Death(item) => Some(item.victim),
        MessageView::AuraApplication(item) => Some(item.target),
        MessageView::Dispel(item) => Some(item.un_aura_caster),
        MessageView::SpellSteal(item) => Some(item.un_aura_caster),
        MessageView::Position(item) => Some(item.unit),
        MessageView::CombatState(item) => Some(item.unit),
        MessageView::Power(item) => Some(item.unit),
        MessageView::Loot(item) => Some(item.unit),
        MessageView::SpellCast(item) => Some(item.caster),
        MessageView::Threat(item) => Some(item.threater),
        MessageView::Event(item) => Some(item.unit),
        MessageView::Summon(item) => Some(item.unit),
        MessageView::Interrupt(item) => Some(item.target),
        MessageView::InstanceMap(item) => Some(item.unit),
        MessageView::InstancePvPStart(_) => None,
        MessageView::InstancePvPEndUnratedArena(_) => None,
        MessageView::InstancePvPEndRatedArena(_) => None,
        MessageView::InstancePvPEndBattleground(_) => None,
    }
}

impl MessageType {
    /// The unit this message is about, if it has one.
    pub fn extract_subject(&self) -> (r: Option<Unit>)
        ensures
            r == message_subject(self@),
    {
        match self {
            MessageType::MeleeDamage(item) => Some(item.attacker),
            MessageType::SpellDamage(item) => Some(item.attacker),
            MessageType::Heal(item) => Some(item.caster),
            MessageType::Death(item) => Some(item.victim),
            MessageType::AuraApplication(item) => Some(item.target),
            MessageType::Dispel(item) => Some(item.un_aura_caster),
            MessageType::SpellSteal(item) => Some(item.un_aura_caster),
            MessageType::Position(item) => Some(item.unit),
            MessageType::CombatState(item) => Some(item.unit),
            MessageType::Power(item) => Some(item.unit),
            MessageType::Loot(item) => Some(item.unit),
            MessageType::SpellCast(item) => Some(item.caster),
            MessageType::Threat(item) => Some(item.threater),
            MessageType::Event(item) => Some(item.unit),
            MessageType::Summon(item) => Some(item.unit),
            MessageType::Interrupt(item) => Some(item.target),
            MessageType::InstanceMap(item) => Some(item.unit),
            MessageType::InstancePvPStart(_)
            | MessageType::InstancePvPEndUnratedArena(_)
            | MessageType::InstancePvPEndRatedArena(_)
            | MessageType::InstancePvPEndBattleground(_) => None,
        }
    }
}

/// One message of a combat log, stamped with the time it was logged.
#[derive(Debug, Clone)]
pub struct Message {
    pub timestamp: u64,
    pub message_count: u64,
    pub message_type: MessageType,
}

pub struct MessageRecord {
    pub timestamp: u64,
    pub message_count: u64,
    pub message_type: MessageView,
}

impl View for Message {
    type V = MessageRecord;

    open spec fn view(&self) -> MessageRecord {
        MessageRecord {
            timestamp: self.timestamp,
            message_count: self.message_count,
            message_type: self.message_type@,
        }
    }
}

impl Message {
    /// A message that was produced by parsing a log line.
    pub fn new_parsed(timestamp: u64, message_count: u64, message_type: MessageType) -> (m: Message)
        ensures
            m@ == (MessageRecord { timestamp, message_count, message_type: message_type@ }),
    {
        Message { timestamp, message_count, message_type }
    }
}

} // verus!
