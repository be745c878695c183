use vstd::prelude::*;
use crate::data::Data;
use crate::dto::{Summon, UnAura, Unit};
use crate::message_type::{Message, MessageRecord, MessageType, MessageView};
use crate::pets::{correct_message, corrected_message, message_correction_overflows, pet_unit_id};
use crate::state::WoWVanillaParser;

verus! {

/// The values of messages.
pub open spec fn records(v: Seq<Message>) -> Seq<MessageRecord> {
    v.map_values(|m: Message| m@)
}

/// One step of attributing dispels, at message `i`, with the position of the
/// last dispel that is still open: a dispel opens; a cast on the dispel's
/// target within 100 ms of it gives the dispel its caster and spell and
/// closes it; a cast more than 100 ms later closes it.
pub open spec fn dispel_step(s: Seq<MessageRecord>, i: int, last: Option<int>) -> (Seq<MessageRecord>, Option<int>) {
    match s[i].message_type {
        MessageView::Dispel(_) => (s, Some(i)),
        MessageView::SpellCast(sc) => match last {
            None => (s, None),
            Some(j) => if !(0 <= j < s.len()) {
                (s, None)
            } else if s[i].timestamp - s[j].timestamp <= 100 {
                match s[j].message_type {
                    MessageView::Dispel(u) => if (sc.target matches Some(t) && u.target.unit_id == t.unit_id) {
                        (
                            s.update(
                                j,
                                MessageRecord {
                                    message_type: MessageView::Dispel(
                                        UnAura { un_aura_caster: sc.caster, un_aura_spell_id: sc.spell_id, ..u },
                                    ),
                                    ..s[j]
                                },
                            ),
                            None,
                        )
                    } else {
                        (s, last)
                    },
                    _ => (s, last),
                }
            } else {
                (s, None)
            },
        },
        _ => (s, last),
    }
}

/// A step of attributing dispels keeps the number of messages.
pub proof fn lemma_dispel_step_len(s: Seq<MessageRecord>, i: int, last: Option<int>)
    requires
        0 <= i < s.len(),
    ensures
        dispel_step(s, i, last).0.len() == s.len(),
{
}

/// A cast comes after an open dispel but was logged before it.
pub open spec fn dispel_step_panics(s: Seq<MessageRecord>, i: int, last: Option<int>) -> bool {
    match s[i].message_type {
        MessageView::SpellCast(_) => match last {
            Some(j) => 0 <= j < s.len() && s[i].timestamp < s[j].timestamp,
            None => false,
        },
        _ => false,
    }
}

/// The messages with dispels attributed from position `i` on.
pub open spec fn attribute_dispels_from(s: Seq<MessageRecord>, i: int, last: Option<int>) -> Seq<MessageRecord>
    decreases s.len() - i,
{
    if i < 0 || i >= s.len() {
        s
    } else {
        let (s2, l2) = dispel_step(s, i, last);
        proof {
            lemma_dispel_step_len(s, i, last);
        }
        attribute_dispels_from(s2, i + 1, l2)
    }
}

pub open spec fn dispel_panics_from(s: Seq<MessageRecord>, i: int, last: Option<int>) -> bool
    decreases s.len() - i,
{
    if i < 0 || i >= s.len() {
        false
    } else {
        let (s2, l2) = dispel_step(s, i, last);
        proof {
            lemma_dispel_step_len(s, i, last);
        }
        dispel_step_panics(s, i, last) || dispel_panics_from(s2, i + 1, l2)
    }
}

/// The summon message of every pet, in the order the pets became known.
pub open spec fn summon_records(po: Seq<(u64, u64)>) -> Seq<MessageRecord> {
    po.map_values(
        |e: (u64, u64)|
            MessageRecord {
                timestamp: 0,
                message_count: 0,
                message_type: MessageView::Summon(
                    Summon {
                        owner: Unit { is_player: true, unit_id: e.1 },
                        unit: Unit { is_player: false, unit_id: pet_unit_id(e.0) as u64 },
                    },
                ),
            },
    )
}

/// The position at which a message is inserted into messages sorted by
/// time: after all that are not later than it.
pub open spec fn insert_position(s: Seq<MessageRecord>, t: u64, j: int) -> int
    decreases s.len() - j,
{
    if j < 0 || j >= s.len() {
        s.len() as int
    } else if s[j].timestamp > t {
        j
    } else {
        insert_position(s, t, j + 1)
    }
}

/// Messages sorted by time; messages of the same time keep their order.
pub open spec fn sort_by_timestamp(s: Seq<MessageRecord>) -> Seq<MessageRecord>
    decreases s.len(),
{
    if s.len() == 0 {
        s
    } else {
        let sorted = sort_by_timestamp(s.drop_last());
        sorted.insert(insert_position(sorted, s.last().timestamp, 0), s.last())
    }
}

/// The post processing of the messages of a log: pets corrected, dispels
/// attributed, a summon for every pet added, and all sorted by time.
pub open spec fn post_process(data: &Data, po: Seq<(u64, u64)>, s: Seq<MessageRecord>) -> Seq<MessageRecord> {
    sort_by_timestamp(attribute_dispels_from(corrected_records(data, po, s), 0, None) + summon_records(po))
}

/// The messages that the post processing can handle: no pet id overflows,
/// and no cast that follows an open dispel was logged before it.
pub open spec fn post_process_ok(data: &Data, po: Seq<(u64, u64)>, s: Seq<MessageRecord>) -> bool {
    &&& forall|i: int| 0 <= i < s.len() ==> !message_correction_overflows(data, po, #[trigger] s[i].message_type)
    &&& forall|i: int| 0 <= i < po.len() ==> pet_unit_id(#[trigger] po[i].0) <= u64::MAX
    &&& !dispel_panics_from(corrected_records(data, po, s), 0, None)
}

proof fn lemma_insert_position_bounds(s: Seq<MessageRecord>, t: u64, j: int)
    requires
        0 <= j <= s.len(),
    ensures
        j <= insert_position(s, t, j) <= s.len(),
    decreases s.len() - j,
{
    if j < s.len() && s[j].timestamp <= t {
        lemma_insert_position_bounds(s, t, j + 1);
    }
}

/// Sorts messages by time, keeping the order of messages of the same time.
pub fn sort_messages(v: &mut Vec<Message>)
    ensures
        records(final(v)@) == sort_by_timestamp(records(old(v)@)),
{
    let ghost orig = records(v@);
    let n = v.len();
    let mut i: usize = 0;
    assert(orig.take(0) =~= Seq::<MessageRecord>::empty());
    while i < n
        invariant
            n == v@.len(),
            n == orig.len(),
            i <= n,
            orig == records(old(v)@),
            records(v@).take(i as int) == sort_by_timestamp(orig.take(i as int)),
            records(v@).skip(i as int) == orig.skip(i as int),
        decreases n - i,
    {
        let ghost sorted = records(v@).take(i as int);
        let t = v[i].timestamp;
        let mut j: usize = 0;
        assert(records(v@)[i as int] == orig[i as int]) by {
            assert(records(v@).skip(i as int)[0] == orig.skip(i as int)[0]);
        }
        while j < i && v[j].timestamp <= t
            invariant
                i < n,
                n == v@.len(),
                j <= i,
                sorted == records(v@).take(i as int),
                insert_position(sorted, t, 0) == insert_position(sorted, t, j as int),
            decreases i - j,
        {
            assert(sorted[j as int] == records(v@)[j as int]);
            j = j + 1;
        }
        proof {
            if j < i {
                assert(sorted[j as int] == records(v@)[j as int]);
            }
            assert(insert_position(sorted, t, j as int) == j);
        }
        let ghost before = records(v@);
        let m = v.remove(i);
        v.insert(j, m);
        proof {
            let pre = orig.take(i + 1);
            assert(pre.drop_last() =~= orig.take(i as int));
            assert(pre.last() == orig[i as int]);
            assert(records(v@).take(i + 1) =~= sorted.insert(j as int, orig[i as int]));
            assert(records(v@).skip(i + 1) =~= orig.skip(i + 1)) by {
                assert forall|k: int| 0 <= k < n - (i + 1) implies #[trigger] records(v@).skip(i + 1)[k] == orig.skip(i + 1)[k] by {
                    assert(before.skip(i as int)[k + 1] == orig.skip(i as int)[k + 1]);
                }
            }
        }
        i = i + 1;
    }
    assert(orig.take(n as int) =~= orig);
    assert(records(v@).take(n as int) =~= records(v@));
}

pub open spec fn opt_index(o: Option<usize>) -> Option<int> {
    match o {
        Some(j) => Some(j as int),
        None => None,
    }
}

/// Attributes dispels to the casts that follow them.
pub fn attribute_dispels(v: &mut Vec<Message>)
    requires
        !dispel_panics_from(records(old(v)@), 0, None),
    ensures
        records(final(v)@) == attribute_dispels_from(records(old(v)@), 0, None),
{
    let ghost orig = records(v@);
    let n = v.len();
    let mut last: Option<usize> = None;
    let mut i: usize = 0;
    while i < n
        invariant
            n == v@.len(),
            i <= n,
            orig == records(old(v)@),
            attribute_dispels_from(orig, 0, None) == attribute_dispels_from(records(v@), i as int, opt_index(last)),
            !dispel_panics_from(records(v@), i as int, opt_index(last)),
            last matches Some(j) ==> j < n,
        decreases n - i,
    {
        let ghost s = records(v@);
        let ghost last0 = opt_index(last);
        proof {
            lemma_dispel_step_len(s, i as int, last0);
        }
        assert(s[i as int] == v@[i as int]@);
        let ts = v[i].timestamp;
        let cast = match &v[i].message_type {
            MessageType::Dispel(_) => {
                last = Some(i);
                None
            },
            MessageType::SpellCast(sc) => Some(*sc),
            _ => None,
        };
        if let Some(sc) = cast {
            if let Some(j) = last {
                assert(s[j as int] == v@[j as int]@);
                if ts - v[j].timestamp <= 100 {
                    let matches = match &v[j].message_type {
                        MessageType::Dispel(u) => match sc.target {
                            Some(t) => u.target.unit_id == t.unit_id,
                            None => false,
                        },
                        _ => false,
                    };
                    if matches {
                        match &mut v[j].message_type {
                            MessageType::Dispel(u) => {
                                u.un_aura_caster = sc.caster;
                                u.un_aura_spell_id = sc.spell_id;
                            },
                            _ => {},
                        }
                        last = None;
                    }
                } else {
                    last = None;
                }
            }
        }
        assert(records(v@) =~= dispel_step(s, i as int, last0).0);
        assert(opt_index(last) == dispel_step(s, i as int, last0).1);
        i = i + 1;
    }
}

pub open spec fn corrected_records(data: &Data, po: Seq<(u64, u64)>, s: Seq<MessageRecord>) -> Seq<MessageRecord> {
    s.map_values(
        |m: MessageRecord| MessageRecord { message_type: corrected_message(data, po, m.message_type), ..m },
    )
}

impl WoWVanillaParser {
    /// The summon message of every pet.
    fn summon_messages(&self) -> (r: Vec<Message>)
        requires
            forall|i: int| 0 <= i < self@.pet_owner.len() ==> pet_unit_id(#[trigger] self@.pet_owner[i].0) <= u64::MAX,
        ensures
            records(r@) == summon_records(self@.pet_owner),
    {
        let mut out: Vec<Message> = Vec::with_capacity(40);
        let mut i: usize = 0;
        while i < self.pet_owner.len()
            invariant
                i <= self.pet_owner@.len(),
                forall|k: int| 0 <= k < self@.pet_owner.len() ==> pet_unit_id(#[trigger] self@.pet_owner[k].0) <= u64::MAX,
                records(out@) == summon_records(self@.pet_owner).take(i as int),
            decreases self.pet_owner@.len() - i,
        {
            let pet = self.pet_owner[i].0;
            let owner = self.pet_owner[i].1;
            assert(pet_unit_id(self@.pet_owner[i as int].0) <= u64::MAX);
            let pet_unit: u64 = 0xF14000FFFF000000 + (pet | 0x0000000000FFFFFF);
            assert(pet_unit == pet_unit_id(pet) as u64);
            let ghost before = records(out@);
            let summon = Summon {
                owner: Unit { is_player: true, unit_id: owner },
                unit: Unit { is_player: false, unit_id: pet_unit },
            };
            let m = Message::new_parsed(0, 0, MessageType::Summon(summon));
            assert(m@ == summon_records(self@.pet_owner)[i as int]);
            assert(records(out@).len() == i);
            assert(out@.len() == i);
            out.push(m);
            assert(out@[i as int]@ == summon_records(self@.pet_owner)[i as int]);
            assert(records(out@)[i as int] == summon_records(self@.pet_owner)[i as int]);
            assert(records(out@) =~= summon_records(self@.pet_owner).take(i + 1));
            i = i + 1;
        }
        assert(summon_records(self@.pet_owner).take(i as int) =~= summon_records(self@.pet_owner));
        out
    }

    /// Completes the messages of a log: pets get their pet ids, dispels are
    /// attributed to the casts that follow them, a summon message is added
    /// for every pet, and all messages are sorted by time.
    pub fn do_message_post_processing(&mut self, data: &Data, messages: &mut Vec<Message>)
        requires
            post_process_ok(data, old(self)@.pet_owner, records(old(messages)@)),
        ensures
            final(self)@ == old(self)@,
            final(self).patterns@ == old(self).patterns@,
            records(final(messages)@) == post_process(data, old(self)@.pet_owner, records(old(messages)@)),
    {
        let ghost po = self@.pet_owner;
        let ghost orig = records(messages@);
        let n = messages.len();
        let mut i: usize = 0;
        while i < n
            invariant
                n == messages@.len(),
                i <= n,
                po == self@.pet_owner,
                po == self.pet_owner@,
                orig == records(old(messages)@),
                orig.len() == n,
                forall|k: int| 0 <= k < orig.len() ==> !message_correction_overflows(data, po, #[trigger] orig[k].message_type),
                records(messages@).take(i as int) == corrected_records(data, po, orig).take(i as int),
                records(messages@).skip(i as int) == orig.skip(i as int),
            decreases n - i,
        {
            let ghost before = records(messages@);
            assert(before.skip(i as int)[0] == orig.skip(i as int)[0]);
            assert(messages@[i as int]@ == orig[i as int]);
            assert(!message_correction_overflows(data, po, orig[i as int].message_type));
            correct_message(data, &mut messages[i].message_type, &self.pet_owner);
            assert(records(messages@).take(i + 1) =~= corrected_records(data, po, orig).take(i + 1)) by {
                assert forall|k: int| 0 <= k < i + 1 implies #[trigger] records(messages@).take(i + 1)[k]
                    == corrected_records(data, po, orig).take(i + 1)[k] by {
                    if k < i {
                        assert(before.take(i as int)[k] == corrected_records(data, po, orig).take(i as int)[k]);
                    }
                }
            }
            assert(records(messages@).skip(i + 1) =~= orig.skip(i + 1)) by {
                assert forall|k: int| 0 <= k < n - (i + 1) implies #[trigger] records(messages@).skip(i + 1)[k]
                    == orig.skip(i + 1)[k] by {
                    assert(before.skip(i as int)[k + 1] == orig.skip(i as int)[k + 1]);
                }
            }
            i = i + 1;
        }
        assert(records(messages@) =~= corrected_records(data, po, orig)) by {
            assert(records(messages@).take(n as int) =~= records(messages@));
            assert(corrected_records(data, po, orig).take(n as int) =~= corrected_records(data, po, orig));
        }
        attribute_dispels(messages);
        let mut summons = self.summon_messages();
        let ghost attributed = records(messages@);
        messages.append(&mut summons);
        assert(records(messages@) =~= attributed + summon_records(po));
        sort_messages(messages);
    }
}

/// Messages in the order of their times.
pub open spec fn sorted_by_timestamp(s: Seq<MessageRecord>) -> bool {
    forall|i: int, j: int| 0 <= i < j < s.len() ==> s[i].timestamp <= s[j].timestamp
}

proof fn lemma_insert_position_split(s: Seq<MessageRecord>, t: u64, j: int)
    requires
        0 <= j <= s.len(),
        sorted_by_timestamp(s),
        forall|k: int| 0 <= k < j ==> s[k].timestamp <= t,
    ensures
        forall|k: int| 0 <= k < insert_position(s, t, j) ==> s[k].timestamp <= t,
        forall|k: int| insert_position(s, t, j) <= k < s.len() ==> s[k].timestamp > t,
        j <= insert_position(s, t, j) <= s.len(),
    decreases s.len() - j,
{
    if j < s.len() && s[j].timestamp <= t {
        lemma_insert_position_split(s, t, j + 1);
    }
}

/// Sorting by time gives the same messages, in the order of their times.
pub proof fn lemma_sort_by_timestamp(s: Seq<MessageRecord>)
    ensures
        sorted_by_timestamp(sort_by_timestamp(s)),
        sort_by_timestamp(s).to_multiset() == s.to_multiset(),
        sort_by_timestamp(s).len() == s.len(),
    decreases s.len(),
{
    broadcast use vstd::seq_lib::to_multiset_build, vstd::seq_lib::to_multiset_insert, vstd::seq_lib::to_multiset_len;

    if s.len() > 0 {
        let prefix = s.drop_last();
        lemma_sort_by_timestamp(prefix);
        let sorted = sort_by_timestamp(prefix);
        let t = s.last().timestamp;
        lemma_insert_position_split(sorted, t, 0);
        let p = insert_position(sorted, t, 0);
        let r = sorted.insert(p, s.last());
        assert forall|i: int, j: int| 0 <= i < j < r.len() implies r[i].timestamp <= r[j].timestamp by {
            if j < p {
            } else if j == p {
            } else if i < p {
                assert(r[j] == sorted[j - 1]);
            } else if i == p {
                assert(r[j] == sorted[j - 1]);
            } else {
                assert(r[i] == sorted[i - 1] && r[j] == sorted[j - 1]);
            }
        }
        assert(prefix.push(s.last()) =~= s);
    }
}

/// Whether a message was logged at time `t`.
pub open spec fn logged_at(t: u64) -> spec_fn(MessageRecord) -> bool {
    |m: MessageRecord| m.timestamp == t
}

/// The messages logged at time `t`, in their order.
pub open spec fn at_time(s: Seq<MessageRecord>, t: u64) -> Seq<MessageRecord> {
    s.filter(logged_at(t))
}

proof fn lemma_at_time_none(s: Seq<MessageRecord>, t: u64)
    requires
        forall|k: int| 0 <= k < s.len() ==> s[k].timestamp != t,
    ensures
        at_time(s, t) == Seq::<MessageRecord>::empty(),
    decreases s.len(),
{
    reveal(Seq::filter);
    if s.len() > 0 {
        lemma_at_time_none(s.drop_last(), t);
    }
}

proof fn lemma_at_time_push(s: Seq<MessageRecord>, m: MessageRecord, t: u64)
    ensures
        at_time(s.push(m), t) == (if m.timestamp == t {
            at_time(s, t).push(m)
        } else {
            at_time(s, t)
        }),
{
    reveal(Seq::filter);
    assert(s.push(m).drop_last() =~= s);
}

/// Sorting by time keeps the messages of each time in the order they came.
pub proof fn lemma_sort_by_timestamp_stable(s: Seq<MessageRecord>, t: u64)
    ensures
        at_time(sort_by_timestamp(s), t) == at_time(s, t),
    decreases s.len(),
{
    if s.len() > 0 {
        let prefix = s.drop_last();
        let x = s.last();
        lemma_sort_by_timestamp_stable(prefix, t);
        lemma_sort_by_timestamp(prefix);
        let sorted = sort_by_timestamp(prefix);
        lemma_insert_position_split(sorted, x.timestamp, 0);
        let p = insert_position(sorted, x.timestamp, 0);
        let a = sorted.subrange(0, p);
        let b = sorted.subrange(p, sorted.len() as int);
        assert(sorted.insert(p, x) =~= a.push(x) + b);
        assert(sorted =~= a + b);
        Seq::filter_distributes_over_add(a.push(x), b, logged_at(t));
        Seq::filter_distributes_over_add(a, b, logged_at(t));
        lemma_at_time_push(a, x, t);
        assert(prefix.push(x) =~= s);
        lemma_at_time_push(prefix, x, t);
        if x.timestamp == t {
            lemma_at_time_none(b, t);
            Seq::add_empty_right(at_time(a, t).push(x), at_time(b, t));
            Seq::add_empty_right(at_time(a, t), at_time(b, t));
        }
    }
}

/// The post processing loses no message and adds one summon per pet: what
/// it gives is the corrected and attributed messages and the summons, in the
/// order of their times, those of one time in the order they came.
pub proof fn lemma_post_process_sorted(data: &Data, po: Seq<(u64, u64)>, s: Seq<MessageRecord>)
    ensures
        sorted_by_timestamp(post_process(data, po, s)),
        post_process(data, po, s).len() == s.len() + po.len(),
        post_process(data, po, s).to_multiset() == (attribute_dispels_from(corrected_records(data, po, s), 0, None)
            + summon_records(po)).to_multiset(),
        forall|t: u64| #[trigger] at_time(post_process(data, po, s), t) == at_time(
            attribute_dispels_from(corrected_records(data, po, s), 0, None) + summon_records(po),
            t,
        ),
{
    let c = corrected_records(data, po, s);
    lemma_attribute_dispels_len(c, 0, None);
    lemma_sort_by_timestamp(attribute_dispels_from(c, 0, None) + summon_records(po));
    assert forall|t: u64| #[trigger] at_time(post_process(data, po, s), t) == at_time(
        attribute_dispels_from(c, 0, None) + summon_records(po),
        t,
    ) by {
        lemma_sort_by_timestamp_stable(attribute_dispels_from(c, 0, None) + summon_records(po), t);
    }
}

proof fn lemma_attribute_dispels_len(s: Seq<MessageRecord>, i: int, last: Option<int>)
    ensures
        attribute_dispels_from(s, i, last).len() == s.len(),
    decreases s.len() - i,
{
    if 0 <= i < s.len() {
        lemma_dispel_step_len(s, i, last);
        let (s2, l2) = dispel_step(s, i, last);
        lemma_attribute_dispels_len(s2, i + 1, l2);
    }
}

} // verus!
