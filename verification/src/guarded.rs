use vstd::prelude::*;
use crate::combatant::{args_view, combatant_args, combatant_entry, combatant_info_panics, combatant_profile, first_gear_arg, gear_end, gear_read, gear_slot_of};
use crate::data::{lemma_first_index, Data};
use crate::handlers::{group_at, melee_avoid, melee_negate, messages_view, school_word, spell_avoid};
use crate::line_spec::line_panics;
use crate::message_type::MessageType;
use crate::numbers::parse_u32;
use crate::parser::{parse_line_panics, parse_line_spec};
use crate::patterns::LINE_KINDS;
use crate::regex_bridge::groups_view;
use crate::state::{new_participant, participant_key, ParticipantView, WoWVanillaParser};
use crate::text::text_is;
use crate::text_split::{split_char, starts_with, trim_start_matches};
use crate::units::{get_hashed_player_unit_id, parse_spell_args};

verus! {

/// Whether the profile part of a combatant line goes on to the pet and gear,
/// for a participant of whom class, race and guild are known or not.
fn profile_reaches(has_class: bool, has_race: bool, has_guild: bool, args: &Vec<&str>) -> (b: bool)
    requires
        args@.len() >= 8,
    ensures
        forall|p: ParticipantView|
            p.hero_class_id is Some == has_class && p.race_id is Some == has_race && p.guild_args is Some
                == has_guild ==> (#[trigger] combatant_profile(p, args_view(args@))).1 == b,
{
    reveal(combatant_profile);
    let ghost av = args_view(args@);
    assert(av[1] == args@[1]@ && av[2] == args@[2]@ && av[5] == args@[5]@ && av[6] == args@[6]@
        && av[7] == args@[7]@);
    if !has_class && crate::combatant::hero_class_of_exec(args[1]).is_none() {
        return false;
    }
    if !has_race && crate::combatant::race_of_exec(args[2]).is_none() {
        return false;
    }
    if !has_guild && !text_is(args[5], "nil") && !text_is(args[6], "nil") && crate::numbers::parse_u8(
        args[7],
    ).is_none() {
        return false;
    }
    true
}

/// Whether one gear argument cannot be read.
fn gear_slot_fails(arg: &str) -> (b: bool)
    ensures
        b == gear_slot_of(arg@) is Fail,
{
    let items = split_char(arg, ',');
    proof {
        crate::text_split::lemma_split_on_nonempty(arg@, ',');
    }
    assert(args_view(items@)[0] == items@[0]@);
    match parse_u32(items[0]) {
        None => false,
        Some(_) => items.len() < 2,
    }
}

/// Whether reading the gear arguments comes to one that cannot be read.
fn gear_read_fails(args: &Vec<&str>) -> (b: bool)
    ensures
        b == gear_read(args_view(args@), 8, gear_end(args_view(args@))) is Fail,
{
    let ghost av = args_view(args@);
    let end: usize = if args.len() < 27 { args.len() } else { 27 };
    if end < 8 {
        return false;
    }
    let mut j: usize = 8;
    while j < end
        invariant
            8 <= j <= end,
            end == gear_end(av),
            end <= args@.len(),
            av == args_view(args@),
            (gear_read(av, 8, end as int) is Fail) == (gear_read(av, j as int, end as int) is Fail),
            (gear_read(av, 8, end as int) is Stop) == (gear_read(av, j as int, end as int) is Stop),
        decreases end - j,
    {
        assert(av[j as int] == args@[j as int]@);
        if gear_slot_fails(args[j]) {
            return true;
        }
        let items = split_char(args[j], ',');
        proof {
            crate::text_split::lemma_split_on_nonempty(args@[j as int]@, ',');
        }
        assert(args_view(items@)[0] == items@[0]@);
        match parse_u32(items[0]) {
            None => return false,
            Some(_) => {
                assert(args_view(items@)[1] == items@[1]@);
                if parse_u32(items[1]).is_none() {
                    return false;
                }
            },
        }
        j = j + 1;
    }
    false
}

/// The first gear position that is not `nil` or is missing.
fn first_gear_position(args: &Vec<&str>) -> (r: Option<usize>)
    ensures
        match r {
            Some(m) => first_gear_arg(args_view(args@), 8) == Some(m as int),
            None => first_gear_arg(args_view(args@), 8) is None,
        },
{
    let ghost av = args_view(args@);
    let mut j: usize = 8;
    while j < 27
        invariant
            8 <= j <= 27,
            av == args_view(args@),
            first_gear_arg(av, 8) == first_gear_arg(av, j as int),
        decreases 27 - j,
    {
        if j >= args.len() {
            return Some(j);
        }
        assert(av[j as int] == args@[j as int]@);
        if !text_is(args[j], "nil") {
            return Some(j);
        }
        j = j + 1;
    }
    None
}

impl WoWVanillaParser {
    /// Whether some participant was last seen after `ts`.
    fn seen_after(&self, ts: u64) -> (b: bool)
        ensures
            b == exists|j: int|
                0 <= j < self@.participants.len() && (#[trigger] self@.participants[j]).last_seen > ts,
    {
        let ghost ps = self@.participants;
        let mut j: usize = 0;
        while j < self.participants.len()
            invariant
                j <= self.participants@.len(),
                ps == self@.participants,
                forall|l: int| 0 <= l < j ==> (#[trigger] ps[l]).last_seen <= ts,
            decreases self.participants@.len() - j,
        {
            if self.participants[j].last_seen > ts {
                assert(self@.participants[j as int].last_seen > ts);
                return true;
            }
            j = j + 1;
        }
        false
    }

    /// Whether a line of kind `k` cannot be handled.
    fn line_would_panic(&self, k: usize, data: &Data, ts: u64, caps: &Vec<Option<String>>) -> (b: bool)
        requires
            k < LINE_KINDS,
        ensures
            b == line_panics(k as int, groups_view(caps@), self@, data, ts),
    {
        if k == 1 {
            let (a, w, v, d, sw) = match (group_at(caps, 1), group_at(caps, 2), group_at(caps, 3), group_at(caps, 4), group_at(caps, 5)) {
                (Some(a), Some(w), Some(v), Some(d), Some(sw)) => (a, w, v, d, sw),
                _ => return false,
            };
            parse_u32(d.as_str()).is_some() && school_word(sw).is_none()
        } else if k == 3 {
            match (group_at(caps, 1), group_at(caps, 2), group_at(caps, 3)) {
                (Some(_), Some(_), Some(w)) => melee_avoid(w).is_none(),
                _ => false,
            }
        } else if k == 4 {
            match (group_at(caps, 1), group_at(caps, 2), group_at(caps, 3)) {
                (Some(_), Some(_), Some(w)) => melee_negate(w).is_none(),
                _ => false,
            }
        } else if k == 7 {
            let (sn, d, sw) = match (group_at(caps, 1), group_at(caps, 2), group_at(caps, 3), group_at(caps, 4), group_at(caps, 5), group_at(caps, 6)) {
                (Some(_), Some(sn), Some(_), Some(_), Some(d), Some(sw)) => (sn, d, sw),
                _ => return false,
            };
            parse_spell_args(data, sn).is_some() && parse_u32(d.as_str()).is_some() && school_word(sw).is_none()
        } else if k == 8 || k == 17 {
            match (group_at(caps, 1), group_at(caps, 2), group_at(caps, 3)) {
                (Some(_), Some(d), Some(sw)) => parse_u32(d.as_str()).is_some() && school_word(sw).is_none(),
                _ => false,
            }
        } else if k == 11 {
            match (group_at(caps, 1), group_at(caps, 2), group_at(caps, 3)) {
                (Some(_), Some(sn), Some(w)) => parse_spell_args(data, sn).is_some() && spell_avoid(w).is_none(),
                _ => false,
            }
        } else if k == 28 {
            let (mn, i) = match (group_at(caps, 1), group_at(caps, 2)) {
                (Some(mn), Some(i)) => (mn, i),
                _ => return false,
            };
            if parse_u32(i.as_str()).is_none() || data.get_map_by_name(mn).is_none() {
                return false;
            }
            self.seen_after(ts)
        } else {
            false
        }
    }

    /// Whether a combatant line cannot be handled.
    fn combatant_would_panic(&self, ts: u64, content: &str) -> (b: bool)
        ensures
            b == combatant_info_panics(self@, ts, content@),
    {
        let rest = trim_start_matches(content, "COMBATANT_INFO: ");
        let args = split_char(rest, '&');
        let ghost av = args_view(args@);
        assert(av == combatant_args(content@)) by {
            reveal(combatant_args);
        }
        if args.len() < 8 {
            return true;
        }
        assert(av[0] == args@[0]@);
        let unit_id = get_hashed_player_unit_id(args[0]);
        proof {
            reveal(combatant_entry);
            lemma_first_index(self@.participants, participant_key(unit_id));
        }
        let reached = match self.find_participant(unit_id) {
            Some(i) => {
                let p = &self.participants[i];
                let r = profile_reaches(
                    p.hero_class_id.is_some(),
                    p.race_id.is_some(),
                    p.guild_args.is_some(),
                    &args,
                );
                assert(combatant_entry(self@, av, ts).1 == i as int);
                assert(combatant_entry(self@, av, ts).0[i as int] == p@);
                assert(combatant_profile(p@, av).1 == r);
                r
            },
            None => {
                let r = profile_reaches(false, false, false, &args);
                let ghost np = new_participant(unit_id, true, av[0], ts);
                assert(combatant_entry(self@, av, ts).0[combatant_entry(self@, av, ts).1] == np);
                assert(combatant_profile(np, av).1 == r);
                r
            },
        };
        assert(reached == combatant_profile(combatant_entry(self@, av, ts).0[combatant_entry(self@, av, ts).1], av).1);
        if !reached {
            return false;
        }
        assert(av.len() == args@.len());
        match first_gear_position(&args) {
            Some(m) => m >= args.len() || gear_read_fails(&args),
            None => false,
        }
    }

    /// Parses one line of the combat log unless the parser cannot handle it:
    /// `None` (and the parser unchanged) for such a line, else what
    /// `parse_cbl_line` gives.
    pub fn try_parse_cbl_line(&mut self, data: &Data, event_ts: u64, content: &str) -> (r: Option<
        Option<Vec<MessageType>>,
    >)
        requires
            old(self).wf(),
        ensures
            final(self).wf(),
            parse_line_panics(old(self)@, data, event_ts, content@) ==> r is None && final(self)@ == old(
                self,
            )@,
            !parse_line_panics(old(self)@, data, event_ts, content@) ==> (r matches Some(m) && (
            final(self)@,
            messages_view(m),
        ) == parse_line_spec(old(self)@, data, event_ts, content@)),
    {
        let panics = match self.match_line(content) {
            Some((k, caps)) => self.line_would_panic(k, data, event_ts, &caps),
            None => starts_with(content, "COMBATANT_INFO:") && self.combatant_would_panic(event_ts, content),
        };
        if panics {
            None
        } else {
            Some(self.parse_cbl_line(data, event_ts, content))
        }
    }
}

} // verus!
