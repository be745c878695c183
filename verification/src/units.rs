use vstd::prelude::*;
use crate::data::{find_npc_by_name, find_spell_name, Data};
use crate::dto::Unit;

verus! {

/// The expansion that the vanilla combat log belongs to.
pub open spec fn vanilla_expansion() -> u8 {
    1
}

/// One step of the 32-bit FNV-1a hash over a character's code point.
pub open spec fn hash_step(h: u32, c: char) -> u32 {
    (((h ^ (c as u32)) as int * 16777619) % 0x100000000) as u32
}

/// The 32-bit FNV-1a hash of a name, taken over its code points.
pub open spec fn name_hash(s: Seq<char>) -> u32
    decreases s.len(),
{
    if s.len() == 0 {
        2166136261
    } else {
        hash_step(name_hash(s.drop_last()), s.last())
    }
}

/// The unit id of a player: the hash of the player's name.
pub fn get_hashed_player_unit_id(name: &str) -> (id: u64)
    ensures
        id == name_hash(name@) as u64,
        id < 0x100000000,
{
    let n = name.unicode_len();
    let mut h: u32 = 2166136261;
    let mut i: usize = 0;
    while i < n
        invariant
            n == name@.len(),
            i <= n,
            h == name_hash(name@.take(i as int)),
        decreases n - i,
    {
        let c = name.get_char(i);
        let x: u32 = h ^ (c as u32);
        assert((x as u64) * 16777619 <= 0xFFFFFFFFu64 * 16777619) by (nonlinear_arith)
            requires x <= 0xFFFFFFFFu32;
        let next: u64 = (x as u64) * 16777619 % 0x100000000;
        proof {
            assert(name@.take(i + 1).drop_last() =~= name@.take(i as int));
            assert(name@.take(i + 1).last() == c);
        }
        h = next as u32;
        i = i + 1;
    }
    assert(name@.take(n as int) =~= name@);
    h as u64
}

/// The GUID of an NPC with the given entry.
pub open spec fn creature_guid(entry: u32) -> u64 {
    0xF130000000000000u64 | (((entry as u64) & 0xFFFFFFu64) << 24u64)
}

/// The entry of an NPC, pet or vehicle GUID; other GUIDs have none.
pub open spec fn guid_entry(guid: u64) -> Option<u32> {
    let high = guid >> 48u64;
    if high == 0xF130u64 || high == 0xF140u64 || high == 0xF150u64 {
        Some(((guid >> 24u64) & 0xFFFFFFu64) as u32)
    } else {
        None
    }
}

pub fn make_creature_guid(entry: u32) -> (g: u64)
    ensures
        g == creature_guid(entry),
{
    0xF130000000000000u64 | (((entry as u64) & 0xFFFFFFu64) << 24u64)
}

/// The entry that a GUID carries.
pub fn get_entry(guid: u64) -> (r: Option<u32>)
    ensures
        r == guid_entry(guid),
{
    let high = guid >> 48u64;
    if high == 0xF130u64 || high == 0xF140u64 || high == 0xF150u64 {
        Some(((guid >> 24u64) & 0xFFFFFFu64) as u32)
    } else {
        None
    }
}

/// The GUID of an NPC gives back the NPC's entry (within its 24 bits), and a
/// player id, being below 2^32, carries no entry.
pub proof fn lemma_creature_guid_entry(entry: u32, player_id: u64)
    requires
        player_id < 0x100000000,
    ensures
        guid_entry(creature_guid(entry)) == Some(entry & 0xFFFFFFu32),
        guid_entry(player_id) is None,
{
    let e = entry as u64;
    assert((0xF130000000000000u64 | ((e & 0xFFFFFFu64) << 24u64)) >> 48u64 == 0xF130u64) by (bit_vector);
    assert((((0xF130000000000000u64 | ((e & 0xFFFFFFu64) << 24u64)) >> 24u64) & 0xFFFFFFu64) == e & 0xFFFFFFu64) by (bit_vector);
    assert(e & 0xFFFFFFu64 == (entry & 0xFFFFFFu32) as u64) by (bit_vector)
        requires e == entry as u64;
    assert(player_id < 0x100000000u64 ==> player_id >> 48u64 == 0u64) by (bit_vector);
}

/// The unit that a name in the combat log stands for: a known NPC of the
/// vanilla data, or else the player of that name.
pub open spec fn unit_of_name(data: &Data, name: Seq<char>) -> Unit {
    match find_npc_by_name(data, vanilla_expansion(), name) {
        Some(npc) => Unit { is_player: false, unit_id: creature_guid(npc.id) },
        None => Unit { is_player: true, unit_id: name_hash(name) as u64 },
    }
}

/// The spell that a name in the combat log stands for.
pub open spec fn spell_of_name(data: &Data, name: Seq<char>) -> Option<u32> {
    match find_spell_name(data, vanilla_expansion(), name) {
        Some(s) => Some(s.spell_id),
        None => None,
    }
}

pub fn parse_unit(data: &Data, name: &String) -> (u: Unit)
    ensures
        u == unit_of_name(data, name@),
{
    match data.get_npc_by_name(1, name) {
        Some(npc) => Unit { is_player: false, unit_id: make_creature_guid(npc.id) },
        None => Unit { is_player: true, unit_id: get_hashed_player_unit_id(name.as_str()) },
    }
}

pub fn parse_spell_args(data: &Data, name: &String) -> (r: Option<u32>)
    ensures
        r == spell_of_name(data, name@),
{
    match data.get_spell_name(1, name) {
        Some(s) => Some(s.spell_id),
        None => None,
    }
}

} // verus!
