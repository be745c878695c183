use vstd::prelude::*;
use crate::combatant::{
    combatant_args, combatant_entry, combatant_gear, combatant_info_panics, combatant_info_spec,
    combatant_profile, combatant_unit_id, first_gear_arg, gear_end, gear_read, gear_slot_of, gender_of,
    hero_class_of, race_of, GearRead,
};
use crate::data::{lemma_first_index, Data};
use crate::numbers::parse_u8_spec;
use crate::parser::{first_line_match, parse_line_panics, parse_line_spec};
use crate::state::{
    insert_pet_owner_spec, new_participant, participant_index, participant_key, pet_key, ParserView,
    ParticipantView,
};
use crate::text_split::has_prefix;
use crate::units::unit_of_name;

verus! {

/// A value that is already known stays; an unknown one takes the new value.
pub open spec fn first_known<T>(known: Option<T>, new: Option<T>) -> Option<T> {
    if known is Some {
        known
    } else {
        new
    }
}

/// Where the player of a combatant line stands among the participants: its
/// place if it is known, else the end, where it is added.
pub open spec fn combatant_position(st: ParserView, args: Seq<Seq<char>>) -> int {
    match participant_index(st.participants, combatant_unit_id(args)) {
        Some(j) => j,
        None => st.participants.len() as int,
    }
}

/// The player of a combatant line as the parser knew it before the line: the
/// known participant, or a new player seen at the line's time.
pub open spec fn combatant_before(st: ParserView, args: Seq<Seq<char>>, ts: u64) -> ParticipantView {
    match participant_index(st.participants, combatant_unit_id(args)) {
        Some(j) => st.participants[j],
        None => new_participant(combatant_unit_id(args), true, args[0], ts),
    }
}

/// Every gear argument is `nil`.
pub open spec fn gear_all_nil(args: Seq<Seq<char>>) -> bool {
    forall|j: int| 8 <= j < 27 ==> #[trigger] args[j] == "nil"@
}

/// Some gear argument is given, and every one reads as `item,enchant`.
pub open spec fn gear_all_given(args: Seq<Seq<char>>) -> bool {
    &&& exists|j: int| 8 <= j < 27 && #[trigger] args[j] != "nil"@
    &&& forall|j: int| 8 <= j < 27 ==> #[trigger] gear_slot_of(args[j]) is Slot
}

/// A combatant line that the parser reads to its end: at least 27
/// arguments, a known class and race, a number for the guild rank where a
/// guild and rank are named, and gear arguments that are all `nil` or all
/// given.
pub open spec fn complete_combatant_line(args: Seq<Seq<char>>) -> bool {
    &&& args.len() >= 27
    &&& hero_class_of(args[1]) is Some
    &&& race_of(args[2]) is Some
    &&& (args[5] != "nil"@ && args[6] != "nil"@ ==> parse_u8_spec(args[7]) is Some)
    &&& (gear_all_nil(args) || gear_all_given(args))
}

/// What a complete combatant line does to its player and to the pets: each
/// of class, race, gender and guild that was known stays and one that was
/// unknown is taken from the line; where gear is given a setup of 19 slots
/// at the line's time is added; a named pet gets the player as its owner.
pub open spec fn combatant_line_effect(st: ParserView, st2: ParserView, data: &Data, ts: u64, args: Seq<Seq<char>>) -> bool {
    let id = combatant_unit_id(args);
    let j = combatant_position(st, args);
    let o = combatant_before(st, args, ts);
    let p = st2.participants[j];
    let before = match o.gear_setups {
        Some(g) => g,
        None => seq![],
    };
    &&& 0 <= j < st2.participants.len()
    &&& p.id == id && p.is_player == o.is_player && p.name == o.name && p.last_seen == o.last_seen
    &&& p.hero_class_id == first_known(o.hero_class_id, hero_class_of(args[1]))
    &&& p.race_id == first_known(o.race_id, race_of(args[2]))
    &&& p.gender_id == first_known(o.gender_id, gender_of(args[3]))
    &&& p.guild_args == (if o.guild_args is None && args[5] != "nil"@ && args[6] != "nil"@ {
        Some((args[5], args[6], parse_u8_spec(args[7]).unwrap()))
    } else {
        o.guild_args
    })
    &&& gear_all_nil(args) ==> p.gear_setups == o.gear_setups
    &&& gear_all_given(args) ==> (p.gear_setups matches Some(gs) && gs.len() == before.len() + 1 && gs.take(
        before.len() as int,
    ) == before && gs.last().0 == ts && gs.last().1.len() == 19)
    &&& args[4] != "nil"@ ==> st2.pet_owner.contains((unit_of_name(data, args[4]).unit_id, id))
    &&& args[4] == "nil"@ ==> st2.pet_owner == st.pet_owner
}

proof fn lemma_first_gear_arg_none(args: Seq<Seq<char>>, i: int)
    requires
        8 <= i <= 27,
        args.len() >= 27,
        gear_all_nil(args),
    ensures
        first_gear_arg(args, i) is None,
    decreases 27 - i,
{
    if i < 27 {
        assert(args[i] == "nil"@);
        lemma_first_gear_arg_none(args, i + 1);
    }
}

proof fn lemma_first_gear_arg_some(args: Seq<Seq<char>>, i: int, k: int)
    requires
        8 <= i <= k < 27,
        args.len() >= 27,
        args[k] != "nil"@,
    ensures
        first_gear_arg(args, i) matches Some(m) && i <= m < 27,
    decreases 27 - i,
{
    if args[i] == "nil"@ {
        lemma_first_gear_arg_some(args, i + 1, k);
    }
}

proof fn lemma_gear_read_done(args: Seq<Seq<char>>, i: int)
    requires
        8 <= i <= 27,
        args.len() >= 27,
        forall|j: int| 8 <= j < 27 ==> #[trigger] gear_slot_of(args[j]) is Slot,
    ensures
        gear_read(args, i, 27) matches GearRead::Done(s) && s.len() == 27 - i,
    decreases 27 - i,
{
    if i < 27 {
        assert(gear_slot_of(args[i]) is Slot);
        lemma_gear_read_done(args, i + 1);
    }
}

/// A combatant line that no line pattern takes and that the parser reads to
/// its end yields no message, and leaves its player with the first known
/// class, race, gender and guild, one more gear setup of 19 slots where gear
/// is given, and the named pet owned by the player.
pub proof fn lemma_combatant_line(st: ParserView, data: &Data, ts: u64, content: Seq<char>)
    requires
        first_line_match(content, 0) is None,
        has_prefix(content, "COMBATANT_INFO:"@),
        complete_combatant_line(combatant_args(content)),
    ensures
        !parse_line_panics(st, data, ts, content),
        parse_line_spec(st, data, ts, content).1 is None,
        combatant_line_effect(st, parse_line_spec(st, data, ts, content).0, data, ts, combatant_args(content)),
{
    reveal(combatant_entry);
    reveal(combatant_profile);
    reveal(combatant_gear);
    let args = combatant_args(content);
    let id = combatant_unit_id(args);
    lemma_first_index(st.participants, participant_key(id));
    let (ps0, i) = combatant_entry(st, args, ts);
    assert(i == combatant_position(st, args));
    assert(ps0[i] == combatant_before(st, args, ts));
    let (p, reached) = combatant_profile(ps0[i], args);
    assert(reached);
    assert(gear_end(args) == 27);
    if gear_all_nil(args) {
        lemma_first_gear_arg_none(args, 8);
    } else {
        let k = choose|k: int| 8 <= k < 27 && #[trigger] args[k] != "nil"@;
        lemma_first_gear_arg_some(args, 8, k);
        lemma_gear_read_done(args, 8);
    }
    assert(!combatant_info_panics(st, ts, content));
    let st2 = combatant_info_spec(st, data, ts, content);
    assert(st2.participants[i] == combatant_gear(p, args, ts));
    let o = combatant_before(st, args, ts);
    let q = st2.participants[i];
    assert(0 <= i < st2.participants.len());
    assert(q.id == id && q.is_player == o.is_player && q.name == o.name && q.last_seen == o.last_seen);
    assert(q.hero_class_id == first_known(o.hero_class_id, hero_class_of(args[1])));
    assert(q.race_id == first_known(o.race_id, race_of(args[2])));
    assert(q.gender_id == first_known(o.gender_id, gender_of(args[3])));
    assert(q.guild_args == (if o.guild_args is None && args[5] != "nil"@ && args[6] != "nil"@ {
        Some((args[5], args[6], parse_u8_spec(args[7]).unwrap()))
    } else {
        o.guild_args
    }));
    assert(parse_line_spec(st, data, ts, content).0 == st2);
    let before = match o.gear_setups {
        Some(g) => g,
        None => seq![],
    };
    assert(gear_all_nil(args) ==> q.gear_setups == o.gear_setups);
    if gear_all_given(args) {
        assert(q.gear_setups matches Some(gs) && gs.len() == before.len() + 1);
        assert(q.gear_setups.unwrap().take(before.len() as int) =~= before);
    }
    if args[4] != "nil"@ {
        let pet = unit_of_name(data, args[4]).unit_id;
        lemma_first_index(st.pet_owner, pet_key(pet));
        let po = insert_pet_owner_spec(st.pet_owner, pet, id);
        match crate::data::first_index(st.pet_owner, pet_key(pet)) {
            Some(x) => assert(po[x] == (pet, id)),
            None => assert(po[po.len() - 1] == (pet, id)),
        }
    }
}

} // verus!
