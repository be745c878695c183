use vstd::prelude::*;
use crate::dto::{Event, LiveDataProcessorFailure, Unit};

verus! {

/// The unsigned value of eight bytes read in little-endian order.
pub open spec fn le_u64(b: Seq<u8>) -> int
    recommends
        b.len() == 8,
{
    b[0] + b[1] * 0x100 + b[2] * 0x10000 + b[3] * 0x1000000 + b[4] * 0x100000000
        + b[5] * 0x10000000000 + b[6] * 0x1000000000000 + b[7] * 0x100000000000000
}

/// The unit that nine payload bytes describe: a player flag byte (1 for a
/// player) followed by the GUID in little-endian order.
pub open spec fn unit_from_bytes(b: Seq<u8>) -> Unit
    recommends
        b.len() == 9,
{
    Unit { is_player: b[0] == 1, unit_id: le_u64(b.subrange(1, 9)) as u64 }
}

/// Maps a raw payload to a unit.
pub trait MapUnit {
    fn to_unit(&self) -> Result<Unit, LiveDataProcessorFailure>;
}

/// Maps a raw payload to an event.
pub trait MapEvent {
    fn to_event(&self) -> Result<Event, LiveDataProcessorFailure>;
}

impl MapUnit for [u8] {
    /// Nine bytes make a unit; any other length is refused.
    fn to_unit(&self) -> (r: Result<Unit, LiveDataProcessorFailure>)
        ensures
            self@.len() == 9 ==> r == Ok::<Unit, LiveDataProcessorFailure>(unit_from_bytes(self@)),
            self@.len() != 9 ==> r == Err::<Unit, LiveDataProcessorFailure>(
                LiveDataProcessorFailure::InvalidInput,
            ),
    {
        if self.len() != 9 {
            return Err(LiveDataProcessorFailure::InvalidInput);
        }
        let unit_id: u64 = (self[1] as u64) + (self[2] as u64) * 0x100 + (self[3] as u64) * 0x10000
            + (self[4] as u64) * 0x1000000 + (self[5] as u64) * 0x100000000 + (self[6] as u64)
            * 0x10000000000 + (self[7] as u64) * 0x1000000000000 + (self[8] as u64)
            * 0x100000000000000;
        proof {
            let b = self@.subrange(1, 9);
            assert(b[0] == self@[1] && b[1] == self@[2] && b[2] == self@[3] && b[3] == self@[4]);
            assert(b[4] == self@[5] && b[5] == self@[6] && b[6] == self@[7] && b[7] == self@[8]);
        }
        Ok(Unit { is_player: self[0] == 1, unit_id })
    }
}

impl MapEvent for [u8] {
    /// Ten bytes make an event: a unit in the first nine and the event type in
    /// the last; any other length is refused.
    fn to_event(&self) -> (r: Result<Event, LiveDataProcessorFailure>)
        ensures
            self@.len() == 10 ==> r == Ok::<Event, LiveDataProcessorFailure>(
                Event { unit: unit_from_bytes(self@.subrange(0, 9)), event_type: self@[9] },
            ),
            self@.len() != 10 ==> r == Err::<Event, LiveDataProcessorFailure>(
                LiveDataProcessorFailure::InvalidInput,
            ),
    {
        if self.len() != 10 {
            return Err(LiveDataProcessorFailure::InvalidInput);
        }
        let head = vstd::slice::slice_subrange(self, 0, 9);
        let unit = head.to_unit()?;
        Ok(Event { unit, event_type: self[9] })
    }
}

} // verus!
