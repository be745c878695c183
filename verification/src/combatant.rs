use vstd::prelude::*;
use crate::data::{lemma_first_index, Data};
use crate::numbers::{parse_u32, parse_u32_spec, parse_u8, parse_u8_spec};
use crate::state::{insert_pet_owner_spec, new_participant, participant_index, participant_key, GearSlot, Participant, ParserView, ParticipantView, WoWVanillaParser};
use crate::text::text_is;
use crate::text_split::{split_char, split_on, strip_all_prefix, trim_start_matches};
use crate::units::{get_hashed_player_unit_id, name_hash, parse_unit, unit_of_name};

verus! {

/// The arguments of a combatant line: the text after the line's marker, split
/// at each `&`.
#[verifier::opaque]
pub open spec fn combatant_args(content: Seq<char>) -> Seq<Seq<char>> {
    split_on(strip_all_prefix(content, "COMBATANT_INFO: "@), '&')
}

pub open spec fn hero_class_of(w: Seq<char>) -> Option<u8> {
    if w == "Warrior"@ {
        Some(1u8)
    } else if w == "Paladin"@ {
        Some(2u8)
    } else if w == "Hunter"@ {
        Some(3u8)
    } else if w == "Rogue"@ {
        Some(4u8)
    } else if w == "Priest"@ {
        Some(5u8)
    } else if w == "Shaman"@ {
        Some(7u8)
    } else if w == "Mage"@ {
        Some(8u8)
    } else if w == "Warlock"@ {
        Some(9u8)
    } else if w == "Druid"@ {
        Some(11u8)
    } else {
        None
    }
}

pub open spec fn race_of(w: Seq<char>) -> Option<u8> {
    if w == "Human"@ {
        Some(1u8)
    } else if w == "Orc"@ {
        Some(2u8)
    } else if w == "Dwarf"@ {
        Some(3u8)
    } else if w == "Night Elf"@ || w == "NightElf"@ {
        Some(4u8)
    } else if w == "Undead"@ || w == "Scourge"@ {
        Some(5u8)
    } else if w == "Tauren"@ {
        Some(6u8)
    } else if w == "Gnome"@ {
        Some(7u8)
    } else if w == "Troll"@ {
        Some(8u8)
    } else {
        None
    }
}

/// `2` is male (`false`), `3` is female (`true`).
pub open spec fn gender_of(w: Seq<char>) -> Option<bool> {
    if w == "2"@ {
        Some(false)
    } else if w == "3"@ {
        Some(true)
    } else {
        None
    }
}

/// What the character profile of a combatant line makes of a participant:
/// class, gender, race and guild are filled in where still unknown. The flag
/// tells whether the line went on past the profile; it stops at an unknown
/// class or race, or at a guild rank that is no number.
#[verifier::opaque]
pub open spec fn combatant_profile(p: ParticipantView, args: Seq<Seq<char>>) -> (ParticipantView, bool) {
    if p.hero_class_id is None && hero_class_of(args[1]) is None {
        (p, false)
    } else {
        let p1 = if p.hero_class_id is Some {
            p
        } else {
            ParticipantView { hero_class_id: hero_class_of(args[1]), ..p }
        };
        let p2 = if p1.gender_id is None && gender_of(args[3]) is Some {
            ParticipantView { gender_id: gender_of(args[3]), ..p1 }
        } else {
            p1
        };
        if p2.race_id is None && race_of(args[2]) is None {
            (p2, false)
        } else {
            let p3 = if p2.race_id is Some {
                p2
            } else {
                ParticipantView { race_id: race_of(args[2]), ..p2 }
            };
            let wants_guild = p3.guild_args is None && args[5] != "nil"@ && args[6] != "nil"@;
            if wants_guild && parse_u8_spec(args[7]) is None {
                (p3, false)
            } else if wants_guild {
                (
                    ParticipantView {
                        guild_args: Some((args[5], args[6], parse_u8_spec(args[7]).unwrap())),
                        ..p3
                    },
                    true,
                )
            } else {
                (p3, true)
            }
        }
    }
}

/// What one gear argument (`item,enchant`) gives.
pub enum GearSlotRead {
    Slot(GearSlot),
    Stop,
    Fail,
}

/// An item id of 0 is an empty slot, an enchant id of 0 no enchantment; an
/// item id that is no number stops the line, and an argument without a
/// second field cannot be read.
pub open spec fn gear_slot_of(arg: Seq<char>) -> GearSlotRead {
    let items = split_on(arg, ',');
    match parse_u32_spec(items[0]) {
        None => GearSlotRead::Stop,
        Some(item) => if items.len() < 2 {
            GearSlotRead::Fail
        } else {
            match parse_u32_spec(items[1]) {
                None => GearSlotRead::Stop,
                Some(enchant) => GearSlotRead::Slot(
                    if item == 0 {
                        None
                    } else if enchant == 0 {
                        Some((item, None))
                    } else {
                        Some((item, Some(enchant)))
                    },
                ),
            }
        },
    }
}

/// What the gear arguments from `j` to `end` give.
pub enum GearRead {
    Done(Seq<GearSlot>),
    Stop,
    Fail,
}

pub open spec fn gear_read(args: Seq<Seq<char>>, j: int, end: int) -> GearRead
    decreases end - j,
{
    if j >= end {
        GearRead::Done(seq![])
    } else {
        match gear_slot_of(args[j]) {
            GearSlotRead::Fail => GearRead::Fail,
            GearSlotRead::Stop => GearRead::Stop,
            GearSlotRead::Slot(s) => match gear_read(args, j + 1, end) {
                GearRead::Done(rest) => GearRead::Done(seq![s] + rest),
                GearRead::Stop => GearRead::Stop,
                GearRead::Fail => GearRead::Fail,
            },
        }
    }
}

/// The gear arguments are those from 8 up to 27 (or the end of the line).
pub open spec fn gear_end(args: Seq<Seq<char>>) -> int {
    if args.len() < 27 {
        args.len() as int
    } else {
        27
    }
}

/// The first gear position from `i` on that is not `nil` or is missing.
pub open spec fn first_gear_arg(args: Seq<Seq<char>>, i: int) -> Option<int>
    decreases 27 - i,
{
    if i >= 27 {
        None
    } else if i >= args.len() || args[i] != "nil"@ {
        Some(i)
    } else {
        first_gear_arg(args, i + 1)
    }
}

/// What the gear arguments of a combatant line make of a participant: where
/// any gear argument is given, the participant gets a list of gear setups,
/// and the setup of the line is added to it unless an argument stops the
/// line.
#[verifier::opaque]
pub open spec fn combatant_gear(p: ParticipantView, args: Seq<Seq<char>>, ts: u64) -> ParticipantView {
    match first_gear_arg(args, 8) {
        None => p,
        Some(_) => {
            let setups = match p.gear_setups {
                Some(g) => g,
                None => seq![],
            };
            match gear_read(args, 8, gear_end(args)) {
                GearRead::Done(slots) => ParticipantView { gear_setups: Some(setups.push((ts, slots))), ..p },
                _ => ParticipantView { gear_setups: Some(setups), ..p },
            }
        },
    }
}

/// A gear argument is missing before one is given, or a gear argument
/// cannot be read.
pub open spec fn combatant_gear_panics(args: Seq<Seq<char>>) -> bool {
    match first_gear_arg(args, 8) {
        Some(m) => m >= args.len() || gear_read(args, 8, gear_end(args)) is Fail,
        None => false,
    }
}

/// The unit id of the player that a combatant line describes.
pub open spec fn combatant_unit_id(args: Seq<Seq<char>>) -> u64 {
    name_hash(args[0]) as u64
}

/// The participants after the player of a combatant line was made known,
/// and where that player stands.
#[verifier::opaque]
pub open spec fn combatant_entry(st: ParserView, args: Seq<Seq<char>>, ts: u64) -> (Seq<ParticipantView>, int) {
    let unit_id = combatant_unit_id(args);
    match participant_index(st.participants, unit_id) {
        Some(i) => (st.participants, i),
        None => (
            st.participants.push(new_participant(unit_id, true, args[0], ts)),
            st.participants.len() as int,
        ),
    }
}

/// What a combatant line does to the parser: the player is made known, its
/// profile filled in, its pet given to it (a pet named `nil` is none) and
/// its gear recorded.
pub open spec fn combatant_info_spec(st: ParserView, data: &Data, ts: u64, content: Seq<char>) -> ParserView {
    let args = combatant_args(content);
    let (ps0, i) = combatant_entry(st, args, ts);
    let (p, reached) = combatant_profile(ps0[i], args);
    if !reached {
        ParserView { participants: ps0.update(i, p), ..st }
    } else {
        let po = if args[4] != "nil"@ {
            insert_pet_owner_spec(st.pet_owner, unit_of_name(data, args[4]).unit_id, combatant_unit_id(args))
        } else {
            st.pet_owner
        };
        ParserView { participants: ps0.update(i, combatant_gear(p, args, ts)), pet_owner: po, ..st }
    }
}

/// A combatant line with fewer than eight arguments, or one whose gear
/// cannot be read.
pub open spec fn combatant_info_panics(st: ParserView, ts: u64, content: Seq<char>) -> bool {
    let args = combatant_args(content);
    args.len() < 8 || {
        let (ps0, i) = combatant_entry(st, args, ts);
        let (p, reached) = combatant_profile(ps0[i], args);
        reached && combatant_gear_panics(args)
    }
}

/// The texts of arguments.
pub open spec fn args_view(a: Seq<&str>) -> Seq<Seq<char>> {
    a.map_values(|x: &str| x@)
}

pub open spec fn gear_prepend(s: Seq<GearSlot>, g: GearRead) -> GearRead {
    match g {
        GearRead::Done(r) => GearRead::Done(s + r),
        GearRead::Stop => GearRead::Stop,
        GearRead::Fail => GearRead::Fail,
    }
}

pub(crate) fn hero_class_of_exec(w: &str) -> (r: Option<u8>)
    ensures
        r == hero_class_of(w@),
{
    if text_is(w, "Warrior") {
        Some(1)
    } else if text_is(w, "Paladin") {
        Some(2)
    } else if text_is(w, "Hunter") {
        Some(3)
    } else if text_is(w, "Rogue") {
        Some(4)
    } else if text_is(w, "Priest") {
        Some(5)
    } else if text_is(w, "Shaman") {
        Some(7)
    } else if text_is(w, "Mage") {
        Some(8)
    } else if text_is(w, "Warlock") {
        Some(9)
    } else if text_is(w, "Druid") {
        Some(11)
    } else {
        None
    }
}

pub(crate) fn race_of_exec(w: &str) -> (r: Option<u8>)
    ensures
        r == race_of(w@),
{
    if text_is(w, "Human") {
        Some(1)
    } else if text_is(w, "Orc") {
        Some(2)
    } else if text_is(w, "Dwarf") {
        Some(3)
    } else if text_is(w, "Night Elf") || text_is(w, "NightElf") {
        Some(4)
    } else if text_is(w, "Undead") || text_is(w, "Scourge") {
        Some(5)
    } else if text_is(w, "Tauren") {
        Some(6)
    } else if text_is(w, "Gnome") {
        Some(7)
    } else if text_is(w, "Troll") {
        Some(8)
    } else {
        None
    }
}

/// Fills in the profile of a participant from a combatant line.
fn apply_profile(p: &mut Participant, args: &Vec<&str>) -> (reached: bool)
    requires
        args@.len() >= 8,
    ensures
        (final(p)@, reached) == combatant_profile(old(p)@, args_view(args@)),
{
    reveal(combatant_profile);
    let ghost av = args_view(args@);
    assert(av[1] == args@[1]@ && av[2] == args@[2]@ && av[3] == args@[3]@);
    assert(av[5] == args@[5]@ && av[6] == args@[6]@ && av[7] == args@[7]@);
    if p.hero_class_id.is_none() {
        match hero_class_of_exec(args[1]) {
            Some(c) => p.hero_class_id = Some(c),
            None => return false,
        }
    }
    if p.gender_id.is_none() {
        if text_is(args[3], "2") {
            p.gender_id = Some(false);
        } else if text_is(args[3], "3") {
            p.gender_id = Some(true);
        }
    }
    if p.race_id.is_none() {
        match race_of_exec(args[2]) {
            Some(r) => p.race_id = Some(r),
            None => return false,
        }
    }
    if p.guild_args.is_none() && !text_is(args[5], "nil") && !text_is(args[6], "nil") {
        let rank = match parse_u8(args[7]) {
            Some(x) => x,
            None => return false,
        };
        p.guild_args = Some((args[5].to_owned(), args[6].to_owned(), rank));
    }
    true
}

/// Whether any gear argument is given.
fn any_gear_arg(args: &Vec<&str>) -> (r: bool)
    requires
        !(first_gear_arg(args_view(args@), 8) matches Some(m) && m >= args@.len()),
    ensures
        r == first_gear_arg(args_view(args@), 8) is Some,
{
    let ghost av = args_view(args@);
    let mut j: usize = 8;
    while j < 27
        invariant
            8 <= j <= 27,
            av == args_view(args@),
            first_gear_arg(av, 8) == first_gear_arg(av, j as int),
            !(first_gear_arg(av, 8) matches Some(m) && m >= args@.len()),
        decreases 27 - j,
    {
        if j >= args.len() {
            return true;
        }
        assert(av[j as int] == args@[j as int]@);
        if !text_is(args[j], "nil") {
            return true;
        }
        j = j + 1;
    }
    false
}

/// Reads one gear argument.
fn read_gear_slot(arg: &str) -> (r: Option<GearSlot>)
    requires
        !(gear_slot_of(arg@) is Fail),
    ensures
        match gear_slot_of(arg@) {
            GearSlotRead::Slot(s) => r == Some(s),
            _ => r is None,
        },
{
    let items = split_char(arg, ',');
    assert(args_view(items@) == split_on(arg@, ','));
    proof {
        crate::text_split::lemma_split_on_nonempty(arg@, ',');
    }
    assert(args_view(items@)[0] == items@[0]@);
    let item = match parse_u32(items[0]) {
        Some(x) => x,
        None => return None,
    };
    assert(args_view(items@)[1] == items@[1]@);
    let enchant = match parse_u32(items[1]) {
        Some(x) => x,
        None => return None,
    };
    if item == 0 {
        Some(None)
    } else if enchant == 0 {
        Some(Some((item, None)))
    } else {
        Some(Some((item, Some(enchant))))
    }
}

/// Reads the gear arguments; `None` where one of them stops the line.
fn read_gear(args: &Vec<&str>) -> (r: Option<Vec<GearSlot>>)
    requires
        !(gear_read(args_view(args@), 8, gear_end(args_view(args@))) is Fail),
    ensures
        match gear_read(args_view(args@), 8, gear_end(args_view(args@))) {
            GearRead::Done(s) => r matches Some(v) && v@ == s,
            _ => r is None,
        },
{
    let ghost av = args_view(args@);
    let end: usize = if args.len() < 27 { args.len() } else { 27 };
    let mut gear: Vec<GearSlot> = Vec::with_capacity(19);
    let mut j: usize = 8;
    assert(gear@ + Seq::<GearSlot>::empty() =~= gear@);
    if end < 8 {
        return Some(gear);
    }
    while j < end
        invariant
            8 <= j <= end,
            end == gear_end(av),
            end <= args@.len(),
            av == args_view(args@),
            gear_read(av, 8, end as int) == gear_prepend(gear@, gear_read(av, j as int, end as int)),
            !(gear_read(av, 8, end as int) is Fail),
        decreases end - j,
    {
        assert(av[j as int] == args@[j as int]@);
        let ghost before = gear@;
        match read_gear_slot(args[j]) {
            Some(slot) => {
                gear.push(slot);
                assert(before + (seq![slot] + Seq::<GearSlot>::empty()) =~= gear@ + Seq::<GearSlot>::empty());
                proof {
                    match gear_read(av, j + 1, end as int) {
                        GearRead::Done(rest) => {
                            assert(before + (seq![slot] + rest) =~= gear@ + rest);
                        },
                        _ => {},
                    }
                }
            },
            None => return None,
        }
        j = j + 1;
    }
    assert(gear@ + Seq::<GearSlot>::empty() =~= gear@);
    Some(gear)
}

/// Records the gear of a combatant line.
fn apply_gear(p: &mut Participant, args: &Vec<&str>, ts: u64)
    requires
        !combatant_gear_panics(args_view(args@)),
    ensures
        final(p)@ == combatant_gear(old(p)@, args_view(args@), ts),
{
    reveal(combatant_gear);
    if !any_gear_arg(args) {
        return;
    }
    if p.gear_setups.is_none() {
        p.gear_setups = Some(Vec::new());
        assert(crate::state::gear_setups_view(Seq::<(u64, Vec<GearSlot>)>::empty()) =~= Seq::empty());
    }
    let gear = match read_gear(args) {
        Some(g) => g,
        None => return,
    };
    match &mut p.gear_setups {
        Some(g) => {
            let ghost before = g@;
            g.push((ts, gear));
            assert(crate::state::gear_setups_view(g@) =~= crate::state::gear_setups_view(before).push(
                (ts, gear@),
            ));
        },
        None => {},
    }
}

proof fn lemma_combatant_outcome(
    st: ParserView,
    fin: ParserView,
    data: &Data,
    ts: u64,
    content: Seq<char>,
    av: Seq<Seq<char>>,
    ps0: Seq<ParticipantView>,
    i: int,
    p: ParticipantView,
    reached: bool,
)
    requires
        av == combatant_args(content),
        av.len() >= 8,
        combatant_entry(st, av, ts) == (ps0, i),
        combatant_profile(ps0[i], av) == (p, reached),
        fin.server_id == st.server_id,
        fin.active_map == st.active_map,
        !reached ==> fin.pet_owner == st.pet_owner && fin.participants == ps0.update(i, p),
        reached ==> fin.pet_owner == (if av[4] != "nil"@ {
            insert_pet_owner_spec(st.pet_owner, unit_of_name(data, av[4]).unit_id, combatant_unit_id(av))
        } else {
            st.pet_owner
        }) && fin.participants == ps0.update(i, combatant_gear(p, av, ts)),
    ensures
        fin == combatant_info_spec(st, data, ts, content),
{
}

impl WoWVanillaParser {
    /// Makes the player of a combatant line known.
    fn combatant_enter(&mut self, args: &Vec<&str>, ts: u64) -> (i: usize)
        requires
            args@.len() >= 8,
        ensures
            combatant_entry(old(self)@, args_view(args@), ts) == (final(self)@.participants, i as int),
            i < final(self).participants@.len(),
            final(self)@.pet_owner == old(self)@.pet_owner,
            final(self)@.active_map == old(self)@.active_map,
            final(self)@.server_id == old(self)@.server_id,
            final(self).patterns@ == old(self).patterns@,
    {
        reveal(combatant_entry);
        let ghost av = args_view(args@);
        assert(av[0] == args@[0]@);
        let unit_id = get_hashed_player_unit_id(args[0]);
        proof { lemma_first_index(self@.participants, participant_key(unit_id)); }
        match self.find_participant(unit_id) {
            Some(i) => i,
            None => {
                self.participants.push(Participant::new(unit_id, true, args[0].to_owned(), ts));
                assert(self@.participants =~= old(self)@.participants.push(new_participant(unit_id, true, av[0], ts)));
                self.participants.len() - 1
            },
        }
    }

    /// `COMBATANT_INFO: name&class&race&gender&pet&guild&rank&rank index&gear...`
    pub(crate) fn on_combatant_info(&mut self, data: &Data, ts: u64, content: &str)
        requires
            !combatant_info_panics(old(self)@, ts, content@),
        ensures
            final(self)@ == combatant_info_spec(old(self)@, data, ts, content@),
            final(self).patterns@ == old(self).patterns@,
    {
        let rest = trim_start_matches(content, "COMBATANT_INFO: ");
        let args = split_char(rest, '&');
        let ghost av = args_view(args@);
        assert(av == combatant_args(content@)) by {
            reveal(combatant_args);
        }
        let i = self.combatant_enter(&args, ts);
        let ghost ps0 = self@.participants;
        assert(av[4] == args@[4]@);
        let reached = apply_profile(&mut self.participants[i], &args);
        let ghost p = self.participants@[i as int]@;
        assert(self@.participants =~= ps0.update(i as int, p));
        assert(combatant_profile(ps0[i as int], av) == (p, reached));
        if !reached {
            proof {
                lemma_combatant_outcome(old(self)@, self@, data, ts, content@, av, ps0, i as int, p, reached);
            }
            return;
        }
        if !text_is(args[4], "nil") {
            let pet_name = args[4].to_owned();
            let pet = parse_unit(data, &pet_name);
            let owner = get_hashed_player_unit_id(args[0]);
            assert(av[0] == args@[0]@);
            self.insert_pet_owner(pet.unit_id, owner);
        }
        assert(self@.participants.len() == self.participants@.len());
        let ghost ps1 = self@.participants;
        assert(ps1 == ps0.update(i as int, p));
        assert(ps1[i as int] == p);
        assert(self.participants@[i as int]@ == ps1[i as int]);
        let ghost v1 = self.participants@;
        apply_gear(&mut self.participants[i], &args, ts);
        assert(self.participants@ == v1.update(i as int, self.participants@[i as int]));
        assert forall|j: int| 0 <= j < ps1.len() && j != i implies self@.participants[j] == ps0[j] by {
            assert(self.participants@[j] == v1[j]);
            assert(v1[j]@ == ps1[j]);
        }
        assert(self@.participants.len() == ps0.len());
        assert(self@.participants[i as int] == combatant_gear(p, av, ts));
        assert(self.participants@[i as int]@ == combatant_gear(p, av, ts));
        assert(self@.participants =~= ps0.update(i as int, combatant_gear(p, av, ts)));
        proof {
            lemma_combatant_outcome(old(self)@, self@, data, ts, content@, av, ps0, i as int, p, reached);
        }
    }
}

} // verus!
