//! Decoding of ledger event records. A record is the encoding of one event:
//! the index of the module that emitted it, the index of the event within
//! that module, then the event's fields, integers little-endian.

use vstd::prelude::*;

verus! {

/// The length of an encoded round-initiation record: two index bytes, then
/// the feed identifier and the round identifier, four bytes each.
pub const ROUND_RECORD_LEN: usize = 10;

/// A decoded ledger event, as far as this service cares about it.
#[derive(Clone, Copy, Debug, PartialEq, Eq, Structural)]
pub enum LedgerEvent {
    /// The feed `feed_id` awaits a submission for round `round_id`.
    InitiateNewRound { feed_id: u32, round_id: u32 },
    /// Any other event; it is ignored.
    Other { module: u8, variant: u8 },
}

/// Why a record could not be decoded.
#[derive(Clone, Copy, Debug, PartialEq, Eq, Structural)]
pub enum DecodeError {
    /// The record is too short to name its module and event.
    Truncated { len: usize },
    /// A round-initiation record whose fields have the wrong length.
    BadLength { expected: usize, found: usize },
}

/// A request, taken from the event stream, to submit a price for a round.
#[derive(Clone, Copy, Debug, PartialEq, Eq, Structural)]
pub struct RoundRequest {
    pub feed_id: u32,
    pub round_id: u32,
}

/// Where round-initiation events sit in the ledger's event numbering.
#[derive(Clone, Copy, Debug, PartialEq, Eq, Structural)]
pub struct EventDecoder {
    /// The index of the price-manager module.
    pub module: u8,
    /// The index of its round-initiation event.
    pub round_variant: u8,
}

/// The little-endian `u32` at `b[at..at + 4]`.
pub open spec fn le_u32_spec(b: Seq<u8>, at: int) -> int {
    b[at] as int + 256 * b[at + 1] as int + 65536 * b[at + 2] as int + 16777216 * b[at + 3] as int
}

pub open spec fn decode_spec(dec: EventDecoder, b: Seq<u8>) -> Result<LedgerEvent, DecodeError> {
    if b.len() < 2 {
        Err(DecodeError::Truncated { len: b.len() as usize })
    } else if b[0] == dec.module && b[1] == dec.round_variant {
        if b.len() == ROUND_RECORD_LEN {
            Ok(LedgerEvent::InitiateNewRound {
                feed_id: le_u32_spec(b, 2) as u32,
                round_id: le_u32_spec(b, 6) as u32,
            })
        } else {
            Err(DecodeError::BadLength { expected: ROUND_RECORD_LEN, found: b.len() as usize })
        }
    } else {
        Ok(LedgerEvent::Other { module: b[0], variant: b[1] })
    }
}

/// The round requests among decoded records, in order; records that failed
/// to decode and other events contribute nothing.
pub open spec fn rounds_spec(records: Seq<Result<LedgerEvent, DecodeError>>) -> Seq<RoundRequest>
    decreases records.len(),
{
    if records.len() == 0 {
        Seq::empty()
    } else {
        let before = rounds_spec(records.drop_last());
        match records.last() {
            Ok(LedgerEvent::InitiateNewRound { feed_id, round_id }) => before.push(
                RoundRequest { feed_id, round_id },
            ),
            _ => before,
        }
    }
}

/// Reads a little-endian `u32` at `b[at..at + 4]`.
pub fn read_le_u32(b: &[u8], at: usize) -> (r: u32)
    requires
        at + 4 <= b@.len(),
    ensures
        r as int == le_u32_spec(b@, at as int),
{
    let r = b[at] as u32 + 256 * (b[at + 1] as u32) + 65536 * (b[at + 2] as u32) + 16777216 * (
    b[at + 3] as u32);
    r
}

impl EventDecoder {
    /// Decodes one record.
    pub fn decode_record(&self, b: &[u8]) -> (r: Result<LedgerEvent, DecodeError>)
        ensures
            r == decode_spec(*self, b@),
    {
        let len = b.len();
        if len < 2 {
            Err(DecodeError::Truncated { len })
        } else if b[0] == self.module && b[1] == self.round_variant {
            if len == ROUND_RECORD_LEN {
                let feed_id = read_le_u32(b, 2);
                let round_id = read_le_u32(b, 6);
                Ok(LedgerEvent::InitiateNewRound { feed_id, round_id })
            } else {
                Err(DecodeError::BadLength { expected: ROUND_RECORD_LEN, found: len })
            }
        } else {
            Ok(LedgerEvent::Other { module: b[0], variant: b[1] })
        }
    }

    /// Decodes each record of a batch on its own: a record that fails to
    /// decode leaves the others untouched.
    pub fn decode_batch(&self, batch: &Vec<Vec<u8>>) -> (r: Vec<Result<LedgerEvent, DecodeError>>)
        ensures
            r@.len() == batch@.len(),
            forall|i: int| 0 <= i < batch@.len() ==> #[trigger] r@[i] == decode_spec(*self, batch@[i]@),
    {
        let mut r: Vec<Result<LedgerEvent, DecodeError>> = Vec::new();
        let mut i: usize = 0;
        while i < batch.len()
            invariant
                i <= batch@.len(),
                r@.len() == i,
                forall|j: int| 0 <= j < i ==> #[trigger] r@[j] == decode_spec(*self, batch@[j]@),
            decreases batch@.len() - i,
        {
            let d = self.decode_record(batch[i].as_slice());
            r.push(d);
            i = i + 1;
        }
        r
    }
}

/// The round requests among decoded records, in the order they came.
pub fn round_requests(records: &Vec<Result<LedgerEvent, DecodeError>>) -> (r: Vec<RoundRequest>)
    ensures
        r@ == rounds_spec(records@),
{
    let mut r: Vec<RoundRequest> = Vec::new();
    let mut i: usize = 0;
    while i < records.len()
        invariant
            i <= records@.len(),
            r@ == rounds_spec(records@.subrange(0, i as int)),
        decreases records@.len() - i,
    {
        proof {
            assert(records@.subrange(0, i + 1).drop_last() =~= records@.subrange(0, i as int));
        }
        match &records[i] {
            Ok(LedgerEvent::InitiateNewRound { feed_id, round_id }) => {
                r.push(RoundRequest { feed_id: *feed_id, round_id: *round_id });
            },
            _ => {},
        }
        i = i + 1;
    }
    assert(records@.subrange(0, records@.len() as int) =~= records@);
    r
}

/// Round requests of a concatenation are those of each part, in order.
pub proof fn lemma_rounds_concat(
    a: Seq<Result<LedgerEvent, DecodeError>>,
    b: Seq<Result<LedgerEvent, DecodeError>>,
)
    ensures
        rounds_spec(a + b) == rounds_spec(a) + rounds_spec(b),
    decreases b.len(),
{
    if b.len() == 0 {
        assert(a + b =~= a);
        assert(rounds_spec(b) =~= Seq::<RoundRequest>::empty());
        assert(rounds_spec(a) + rounds_spec(b) =~= rounds_spec(a));
    } else {
        lemma_rounds_concat(a, b.drop_last());
        assert((a + b).drop_last() =~= a + b.drop_last());
        assert((a + b).last() == b.last());
        match b.last() {
            Ok(LedgerEvent::InitiateNewRound { feed_id, round_id }) => {
                assert(rounds_spec(a) + rounds_spec(b) =~= (rounds_spec(a) + rounds_spec(
                    b.drop_last(),
                )).push(RoundRequest { feed_id, round_id }));
            },
            _ => {},
        }
    }
}

/// A record that failed to decode does not keep any other record of its
/// batch from being acted on: dropping it changes none of the round
/// requests the batch yields.
pub proof fn lemma_failed_record_isolated(records: Seq<Result<LedgerEvent, DecodeError>>, k: int)
    requires
        0 <= k < records.len(),
        records[k] is Err,
    ensures
        rounds_spec(records) == rounds_spec(records.remove(k)),
{
    let pre = records.subrange(0, k);
    let post = records.subrange(k + 1, records.len() as int);
    let mid = seq![records[k]];
    assert(records =~= pre + mid + post);
    assert(records.remove(k) =~= pre + post);
    lemma_rounds_concat(pre + mid, post);
    lemma_rounds_concat(pre, mid);
    lemma_rounds_concat(pre, post);
    assert(mid.drop_last() =~= Seq::<Result<LedgerEvent, DecodeError>>::empty());
    assert(rounds_spec(mid.drop_last()) =~= Seq::<RoundRequest>::empty());
    assert(mid.last() is Err);
    assert(rounds_spec(mid) =~= Seq::<RoundRequest>::empty());
    assert(rounds_spec(pre) + rounds_spec(mid) =~= rounds_spec(pre));
}

} // verus!
