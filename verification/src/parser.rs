use vstd::prelude::*;
use crate::combatant::{combatant_info_panics, combatant_info_spec};
use crate::data::Data;
use crate::handlers::messages_view;
use crate::hit_type::HitType;
use crate::laws::lemma_parse_keeps_keys_unique;
use crate::line_spec::{line_outcome, line_panics, Groups, Outcome};
use crate::message_type::MessageType;
use crate::patterns::{kind_at, kind_at_exec, pattern_source, LINE_KINDS};
use crate::regex_bridge::{captures_of, groups_view, regex_captures};
use crate::state::WoWVanillaParser;
use crate::text_split::{has_prefix, starts_with};

verus! {

/// The first line pattern, tried from position `i` on, that matches a line:
/// its kind and its capture groups.
pub open spec fn first_line_match(content: Seq<char>, i: int) -> Option<(int, Groups)>
    decreases LINE_KINDS - i,
{
    if i < 0 || i >= LINE_KINDS {
        None
    } else {
        match regex_captures(pattern_source(kind_at(i)), content) {
            Some(g) => Some((kind_at(i), g)),
            None => first_line_match(content, i + 1),
        }
    }
}

/// What a combat log line does: the first line pattern that matches decides;
/// a combatant line that no pattern matches updates the participants and
/// yields no messages; any other line does nothing.
pub open spec fn parse_line_spec(st: crate::state::ParserView, data: &Data, ts: u64, content: Seq<char>) -> Outcome {
    match first_line_match(content, 0) {
        Some((k, g)) => line_outcome(k, g, st, data, ts),
        None => if has_prefix(content, "COMBATANT_INFO:"@) {
            (combatant_info_spec(st, data, ts, content), None)
        } else {
            (st, None)
        },
    }
}

/// The lines that the parser cannot handle.
pub open spec fn parse_line_panics(st: crate::state::ParserView, data: &Data, ts: u64, content: Seq<char>) -> bool {
    match first_line_match(content, 0) {
        Some((k, g)) => line_panics(k, g, st, data, ts),
        None => has_prefix(content, "COMBATANT_INFO:"@) && combatant_info_panics(st, ts, content),
    }
}

impl WoWVanillaParser {
    /// Handles a line of kind `k` with the capture groups of its pattern.
    pub fn handle_kind(&mut self, k: usize, data: &Data, ts: u64, caps: &Vec<Option<String>>) -> (r: Option<Vec<MessageType>>)
        requires
            k < LINE_KINDS,
            !line_panics(k as int, groups_view(caps@), old(self)@, data, ts),
        ensures
            (final(self)@, messages_view(r)) == line_outcome(k as int, groups_view(caps@), old(self)@, data, ts),
            final(self).patterns@ == old(self).patterns@,
    {
        if k == 0 {
            self.on_damage_hit_or_crit(data, ts, caps)
        } else if k == 1 {
            self.on_damage_hit_or_crit_school(data, ts, caps)
        } else if k == 2 {
            self.on_damage_plain(data, ts, caps, HitType::Miss.to_mask())
        } else if k == 3 {
            self.on_damage_avoided(data, ts, caps)
        } else if k == 4 {
            self.on_damage_negated(data, ts, caps)
        } else if k == 5 {
            self.on_damage_plain(data, ts, caps, HitType::Immune.to_mask())
        } else if k == 6 {
            self.on_spell_hit_or_crit(data, ts, caps)
        } else if k == 7 {
            self.on_spell_hit_or_crit_school(data, ts, caps)
        } else if k == 8 {
            self.on_damage_periodic(data, ts, caps)
        } else if k == 9 {
            self.on_spell_split(data, ts, caps)
        } else if k == 10 {
            self.on_spell_plain(data, ts, caps, HitType::Miss.to_mask(), false)
        } else if k == 11 {
            self.on_spell_avoided(data, ts, caps)
        } else if k == 12 {
            self.on_spell_plain(data, ts, caps, HitType::FullAbsorb.to_mask(), false)
        } else if k == 13 {
            self.on_spell_plain(data, ts, caps, HitType::FullAbsorb.to_mask(), true)
        } else if k == 14 {
            self.on_spell_plain(data, ts, caps, HitType::Reflect.to_mask(), false)
        } else if k == 15 {
            self.on_spell_plain(data, ts, caps, HitType::FullResist.to_mask(), true)
        } else if k == 16 {
            self.on_spell_plain(data, ts, caps, HitType::Immune.to_mask(), false)
        } else if k == 17 {
            self.on_damage_shield(data, ts, caps)
        } else if k == 18 {
            self.on_heal_periodic(data, ts, caps)
        } else if k == 19 {
            self.on_aura_gain(data, ts, caps)
        } else if k == 20 {
            self.on_aura_fade(data, ts, caps)
        } else if k == 21 {
            self.on_aura_dispel(data, ts, caps)
        } else if k == 22 {
            self.on_aura_interrupt(data, ts, caps)
        } else if k == 23 {
            self.on_spell_cast_perform(data, ts, caps)
        } else if k == 24 {
            self.on_spell_cast_perform_unknown(data, ts, caps)
        } else if k == 25 {
            self.on_unit_die(data, ts, caps)
        } else if k == 26 {
            self.on_unit_slay(data, ts, caps)
        } else if k == 27 {
            self.on_loot(data, ts, caps)
        } else if k == 28 {
            self.on_zone_info(data, ts, caps)
        } else {
            self.on_heal_hit_or_crit(data, ts, caps)
        }
    }

    /// The first line pattern that matches a line, with its capture groups.
    pub(crate) fn match_line(&self, content: &str) -> (r: Option<(usize, Vec<Option<String>>)>)
        requires
            self.wf(),
        ensures
            match first_line_match(content@, 0) {
                Some((k, g)) => r matches Some((k2, caps)) && k2 == k && groups_view(caps@) == g && k < LINE_KINDS,
                None => r is None,
            },
    {
        let mut i: usize = 0;
        while i < LINE_KINDS
            invariant
                i <= LINE_KINDS,
                self.wf(),
                first_line_match(content@, 0) == first_line_match(content@, i as int),
            decreases LINE_KINDS - i,
        {
            let k = kind_at_exec(i);
            assert(self.patterns@[k as int].source() == pattern_source(k as int));
            match captures_of(&self.patterns[k], content) {
                Some(caps) => return Some((k, caps)),
                None => {},
            }
            i = i + 1;
        }
        None
    }

    /// Parses one line of the combat log, logged at `event_ts`: the messages
    /// it yields, if any, while the parser learns the units, maps, profiles
    /// and pets that the line names.
    pub fn parse_cbl_line(&mut self, data: &Data, event_ts: u64, content: &str) -> (r: Option<Vec<MessageType>>)
        requires
            old(self).wf(),
            !parse_line_panics(old(self)@, data, event_ts, content@),
        ensures
            final(self).wf(),
            (final(self)@, messages_view(r)) == parse_line_spec(old(self)@, data, event_ts, content@),
    {
        let r = match self.match_line(content) {
            Some((k, caps)) => self.handle_kind(k, data, event_ts, &caps),
            None => {
                if starts_with(content, "COMBATANT_INFO:") {
                    self.on_combatant_info(data, event_ts, content);
                }
                None
            },
        };
        proof {
            lemma_parse_keeps_keys_unique(old(self)@, data, event_ts, content@);
        }
        r
    }
}

} // verus!
