use vstd::prelude::*;
use crate::hit_type::{hit_type_mask, HitType};
use crate::numbers::{parse_u32, parse_u32_spec};
use crate::text::text_is;

verus! {

/// One note of a trailer: an amount (where the note has one) and its kind.
pub type TrailerEntry = (Option<u32>, HitType);

/// The first position at or after `k` that holds `c`.
pub open spec fn index_of_from(s: Seq<char>, c: char, k: int) -> Option<int>
    decreases s.len() - k,
{
    if k < 0 || k >= s.len() {
        None
    } else if s[k] == c {
        Some(k)
    } else {
        index_of_from(s, c, k + 1)
    }
}

/// The note that one parenthesized item of a trailer stands for, if any:
/// `glancing` and `crushing` carry no amount, `<n> resisted`, `<n> absorbed`
/// and `<n> blocked` carry the amount `n`; any other item stands for none.
pub open spec fn trailer_item(item: Seq<char>) -> Seq<TrailerEntry> {
    if item == "glancing"@ {
        seq![(None, HitType::Glancing)]
    } else if item == "crushing"@ {
        seq![(None, HitType::Crushing)]
    } else {
        match index_of_from(item, ' ', 0) {
            None => seq![],
            Some(sp) => {
                let word = item.skip(sp + 1);
                match parse_u32_spec(item.take(sp)) {
                    None => seq![],
                    Some(n) => if word == "resisted"@ {
                        seq![(Some(n), HitType::PartialResist)]
                    } else if word == "absorbed"@ {
                        seq![(Some(n), HitType::PartialAbsorb)]
                    } else if word == "blocked"@ {
                        seq![(Some(n), HitType::PartialBlock)]
                    } else {
                        seq![]
                    },
                }
            },
        }
    }
}

/// The notes of a trailer from position `i` on: each `(` opens an item that
/// the next `)` closes; text outside items, and an item left open, is ignored.
pub open spec fn trailer_from(s: Seq<char>, i: int) -> Seq<TrailerEntry>
    decreases s.len() - i,
{
    if i < 0 || i >= s.len() {
        seq![]
    } else if s[i] == '(' {
        match index_of_from(s, ')', i + 1) {
            Some(j) => if i < j && j < s.len() {
                trailer_item(s.subrange(i + 1, j)) + trailer_from(s, j + 1)
            } else {
                seq![]
            },
            None => seq![],
        }
    } else {
        trailer_from(s, i + 1)
    }
}

/// The notes that follow a hit, such as `(10 resisted) (glancing)`.
pub open spec fn trailer_spec(s: Seq<char>) -> Seq<TrailerEntry> {
    trailer_from(s, 0)
}

/// Every note of a partial kind carries its amount.
pub open spec fn trailer_well_formed(t: Seq<TrailerEntry>) -> bool {
    forall|i: int|
        0 <= i < t.len() && (t[i].1 == HitType::PartialResist || t[i].1 == HitType::PartialAbsorb
            || t[i].1 == HitType::PartialBlock) ==> (#[trigger] t[i]).0 is Some
}

proof fn lemma_index_of_from_bounds(s: Seq<char>, c: char, k: int)
    requires
        k >= 0,
    ensures
        index_of_from(s, c, k) matches Some(j) ==> k <= j < s.len() && s[j] == c,
        index_of_from(s, c, k) is None ==> forall|j: int| k <= j < s.len() ==> s[j] != c,
    decreases s.len() - k,
{
    if k >= 0 && k < s.len() && s[k] != c {
        lemma_index_of_from_bounds(s, c, k + 1);
    }
}

proof fn lemma_trailer_from_well_formed(s: Seq<char>, i: int)
    ensures
        trailer_well_formed(trailer_from(s, i)),
    decreases s.len() - i,
{
    if i >= 0 && i < s.len() {
        if s[i] == '(' {
            lemma_index_of_from_bounds(s, ')', i + 1);
            if let Some(j) = index_of_from(s, ')', i + 1) {
                lemma_trailer_from_well_formed(s, j + 1);
                let a = trailer_item(s.subrange(i + 1, j));
                let b = trailer_from(s, j + 1);
                assert forall|k: int|
                    0 <= k < (a + b).len() && ((a + b)[k].1 == HitType::PartialResist || (a + b)[k].1
                        == HitType::PartialAbsorb || (a + b)[k].1 == HitType::PartialBlock) implies (#[trigger] (a
                    + b)[k]).0 is Some by {
                    if k >= a.len() {
                        assert((a + b)[k] == b[k - a.len()]);
                    }
                }
            }
        } else {
            lemma_trailer_from_well_formed(s, i + 1);
        }
    }
}

pub proof fn lemma_trailer_well_formed(s: Seq<char>)
    ensures
        trailer_well_formed(trailer_spec(s)),
{
    lemma_trailer_from_well_formed(s, 0);
}

/// The first position at or after `k` that holds `c`.
fn find_char(s: &str, c: char, k: usize) -> (r: Option<usize>)
    requires
        k <= s@.len(),
    ensures
        match index_of_from(s@, c, k as int) {
            Some(j) => r == Some(j as usize),
            None => r is None,
        },
{
    let n = s.unicode_len();
    let mut j = k;
    while j < n
        invariant
            n == s@.len(),
            k <= j <= n,
            index_of_from(s@, c, k as int) == index_of_from(s@, c, j as int),
        decreases n - j,
    {
        if s.get_char(j) == c {
            return Some(j);
        }
        j = j + 1;
    }
    None
}

/// The note of one parenthesized trailer item.
fn parse_trailer_item(item: &str) -> (r: Option<TrailerEntry>)
    ensures
        match r {
            Some(e) => trailer_item(item@) == seq![e],
            None => trailer_item(item@) == Seq::<TrailerEntry>::empty(),
        },
{
    if text_is(item, "glancing") {
        return Some((None, HitType::Glancing));
    }
    if text_is(item, "crushing") {
        return Some((None, HitType::Crushing));
    }
    let n = item.unicode_len();
    match find_char(item, ' ', 0) {
        None => None,
        Some(sp) => {
            proof { lemma_index_of_from_bounds(item@, ' ', 0); }
            let number = item.substring_char(0, sp);
            let word = item.substring_char(sp + 1, n);
            assert(number@ =~= item@.take(sp as int));
            assert(word@ =~= item@.skip(sp + 1));
            match parse_u32(number) {
                None => None,
                Some(amount) => {
                    if text_is(word, "resisted") {
                        Some((Some(amount), HitType::PartialResist))
                    } else if text_is(word, "absorbed") {
                        Some((Some(amount), HitType::PartialAbsorb))
                    } else if text_is(word, "blocked") {
                        Some((Some(amount), HitType::PartialBlock))
                    } else {
                        None
                    }
                },
            }
        },
    }
}

/// The notes of a trailer, in the order they appear.
pub fn parse_trailer(s: &str) -> (r: Vec<TrailerEntry>)
    ensures
        r@ == trailer_spec(s@),
        trailer_well_formed(r@),
{
    let n = s.unicode_len();
    let mut out: Vec<TrailerEntry> = Vec::new();
    let mut i: usize = 0;
    while i < n
        invariant
            n == s@.len(),
            i <= n,
            out@ + trailer_from(s@, i as int) == trailer_spec(s@),
        decreases n - i,
    {
        if s.get_char(i) == '(' {
            match find_char(s, ')', i + 1) {
                None => {
                    assert(out@ + Seq::<TrailerEntry>::empty() =~= out@);
                    proof { lemma_trailer_well_formed(s@); }
                    return out;
                },
                Some(j) => {
                    proof { lemma_index_of_from_bounds(s@, ')', i + 1); }
                    let item = s.substring_char(i + 1, j);
                    let ghost before = out@;
                    match parse_trailer_item(item) {
                        Some(e) => out.push(e),
                        None => {},
                    }
                    assert(out@ + trailer_from(s@, j + 1) =~= before + (trailer_item(s@.subrange(
                        i + 1,
                        j as int,
                    )) + trailer_from(s@, j + 1)));
                    i = j + 1;
                },
            }
        } else {
            i = i + 1;
        }
    }
    assert(out@ + Seq::<TrailerEntry>::empty() =~= out@);
    proof { lemma_trailer_well_formed(s@); }
    out
}

/// The first note of a kind.
pub open spec fn trailer_find(t: Seq<TrailerEntry>, kind: HitType) -> Option<TrailerEntry>
    decreases t.len(),
{
    if t.len() == 0 {
        None
    } else if t[0].1 == kind {
        Some(t[0])
    } else {
        trailer_find(t.drop_first(), kind)
    }
}

/// The amount of the first note of a kind, or 0 where there is no such note.
pub open spec fn trailer_amount(t: Seq<TrailerEntry>, kind: HitType) -> u32 {
    match trailer_find(t, kind) {
        Some(e) => e.0.unwrap(),
        None => 0,
    }
}

/// A hit mask with the bits of all notes added.
pub open spec fn trailer_mask(mask: u32, t: Seq<TrailerEntry>) -> u32
    decreases t.len(),
{
    if t.len() == 0 {
        mask
    } else {
        trailer_mask(mask | hit_type_mask(t[0].1), t.drop_first())
    }
}

proof fn lemma_trailer_find_well_formed(t: Seq<TrailerEntry>, kind: HitType)
    requires
        trailer_well_formed(t),
        kind == HitType::PartialResist || kind == HitType::PartialAbsorb || kind
            == HitType::PartialBlock,
    ensures
        trailer_find(t, kind) matches Some(e) ==> e.0 is Some,
    decreases t.len(),
{
    if t.len() > 0 && t[0].1 != kind {
        assert forall|i: int|
            0 <= i < t.drop_first().len() && (t.drop_first()[i].1 == HitType::PartialResist
                || t.drop_first()[i].1 == HitType::PartialAbsorb || t.drop_first()[i].1
                == HitType::PartialBlock) implies (#[trigger] t.drop_first()[i]).0 is Some by {
            assert(t.drop_first()[i] == t[i + 1]);
        }
        lemma_trailer_find_well_formed(t.drop_first(), kind);
    } else if t.len() > 0 {
        assert(t[0] == t[0]);
    }
}

/// The amount of the first note of a partial kind, or 0.
pub fn trailer_amount_of(t: &Vec<TrailerEntry>, kind: HitType) -> (a: u32)
    requires
        trailer_well_formed(t@),
        kind == HitType::PartialResist || kind == HitType::PartialAbsorb || kind
            == HitType::PartialBlock,
    ensures
        a == trailer_amount(t@, kind),
{
    let mut i: usize = 0;
    assert(t@.skip(0) =~= t@);
    while i < t.len()
        invariant
            i <= t@.len(),
            trailer_find(t@, kind) == trailer_find(t@.skip(i as int), kind),
            trailer_well_formed(t@),
            kind == HitType::PartialResist || kind == HitType::PartialAbsorb || kind
                == HitType::PartialBlock,
        decreases t@.len() - i,
    {
        assert(t@.skip(i as int).drop_first() =~= t@.skip(i + 1));
        assert(t@.skip(i as int)[0] == t@[i as int]);
        if t[i].1 == kind {
            proof { lemma_trailer_find_well_formed(t@, kind); }
            match t[i].0 {
                Some(a) => return a,
                None => {
                    assert(false);
                    return 0;
                },
            }
        }
        i = i + 1;
    }
    assert(t@.skip(i as int) =~= Seq::<TrailerEntry>::empty());
    0
}

/// A hit mask with the bits of all notes added.
pub fn add_trailer_mask(mask: u32, t: &Vec<TrailerEntry>) -> (m: u32)
    ensures
        m == trailer_mask(mask, t@),
{
    let mut m = mask;
    let mut i: usize = 0;
    assert(t@.skip(0) =~= t@);
    while i < t.len()
        invariant
            i <= t@.len(),
            trailer_mask(mask, t@) == trailer_mask(m, t@.skip(i as int)),
        decreases t@.len() - i,
    {
        assert(t@.skip(i as int).drop_first() =~= t@.skip(i + 1));
        assert(t@.skip(i as int)[0] == t@[i as int]);
        m = m | t[i].1.to_mask();
        i = i + 1;
    }
    assert(t@.skip(i as int) =~= Seq::<TrailerEntry>::empty());
    m
}

/// The notes of a trailer only add bits to a hit mask: every bit of the
/// mask stays set.
pub proof fn lemma_trailer_mask_keeps_bits(mask: u32, t: Seq<TrailerEntry>)
    ensures
        trailer_mask(mask, t) & mask == mask,
    decreases t.len(),
{
    if t.len() == 0 {
        assert(mask & mask == mask) by (bit_vector);
    } else {
        let b = hit_type_mask(t[0].1);
        let m2 = mask | b;
        lemma_trailer_mask_keeps_bits(m2, t.drop_first());
        let x = trailer_mask(m2, t.drop_first());
        assert(x & (mask | b) == (mask | b) ==> x & mask == mask) by (bit_vector);
    }
}

} // verus!
